use ming_os_kernel::components::button::{Button, ButtonAlignment};
use ming_os_kernel::components::highlight_button::HighlightButton;
use ming_os_kernel::components::toggle_button::{ToggleButton, ToggleButtonAlignment};
use ming_os_kernel::components::Component;
use ming_os_kernel::keyboard::{BACKSPACE_KEY, ENTER_KEY};
use ming_os_kernel::messages::{
    InfoType, KeyPress, ShortcutType, WindowManagerRequest, WindowMessage, WindowMessageResponse,
};
use ming_os_kernel::themes::{get_theme_info, Themes};
use ming_os_kernel::window_likes::desktop_background::DesktopBackground;
use ming_os_kernel::window_likes::lock_screen::LockScreen;
use ming_os_kernel::window_likes::start_menu::{StartMenu, StartMenuMessage, CATEGORY_COUNT};
use ming_os_kernel::window_likes::taskbar::{Taskbar, TaskbarMessage};
use ming_os_kernel::window_likes::workspace_indicator::WorkspaceIndicator;
use ming_os_kernel::window_manager::{DrawInstructions, WindowBox, WindowLike, WindowLikeType};

fn press(c: char) -> WindowMessage {
    WindowMessage::KeyPress(KeyPress { key: c, held_special_keys: Vec::new() })
}

fn menu() -> StartMenu {
    let mut m = StartMenu::new();
    m.handle_message(WindowMessage::Init([175, 250]));
    m
}

#[test]
fn start_menu_lists_the_categories_with_about_focused() {
    let m = menu();
    assert_eq!(m.components.len(), CATEGORY_COUNT);
    let names: Vec<&str> = m.components.iter().map(|c| c.name()).collect();
    assert_eq!(
        names,
        vec!["About", "Utils", "Games", "Development", "Files", "System", "Misc", "Help", "Logout"]
    );
    assert_eq!(m.current_focus, "About");
    assert_eq!(m.get_focus_index(), Some(0));
    assert!(m.components[0].highlighted);
    assert!(!m.components[1].highlighted);
    assert_eq!(m.y_each, 249 / 9);
}

#[test]
fn start_menu_moves_the_highlight_up_and_down_round_the_list() {
    let mut m = menu();
    assert!(matches!(m.handle_message(press('2')), WindowMessageResponse::JustRerender));
    assert_eq!(m.current_focus, "Utils");
    assert_eq!(m.old_focus, "About");
    assert!(m.components[1].highlighted);
    assert!(!m.components[0].highlighted);
    m.handle_message(press('1'));
    m.handle_message(press('1'));
    assert_eq!(m.current_focus, "Logout");
    m.handle_message(press('2'));
    assert_eq!(m.current_focus, "About");
}

#[test]
fn start_menu_jumps_to_an_initial_letter() {
    let mut m = menu();
    assert!(matches!(m.handle_message(press('g')), WindowMessageResponse::JustRerender));
    assert_eq!(m.current_focus, "Games");
    assert!(matches!(m.handle_message(press('a')), WindowMessageResponse::DoNothing));
    assert_eq!(m.current_focus, "Games");
    assert!(matches!(m.handle_message(press('x')), WindowMessageResponse::DoNothing));
}

#[test]
fn start_menu_logout_asks_to_lock() {
    let mut m = menu();
    m.handle_message(press('l'));
    assert_eq!(m.current_focus, "Logout");
    let r = m.handle_message(press(ENTER_KEY));
    assert!(matches!(r, WindowMessageResponse::Request(WindowManagerRequest::Lock)));
}

#[test]
fn start_menu_opens_a_category_and_comes_back() {
    let mut m = menu();
    m.handle_message(press('g'));
    let r = m.handle_message(press(ENTER_KEY));
    assert!(matches!(r, WindowMessageResponse::JustRerender));
    assert_eq!(m.components.len(), 1);
    assert_eq!(m.current_focus, "Back");
    m.handle_message(press(ENTER_KEY));
    assert_eq!(m.components.len(), CATEGORY_COUNT);
    assert_eq!(m.current_focus, "About");
}

#[test]
fn start_menu_messages_map_to_responses() {
    let mut m = menu();
    assert!(matches!(m.handle_start_menu_message(None), WindowMessageResponse::DoNothing));
    assert!(matches!(
        m.handle_start_menu_message(Some(StartMenuMessage::ChangeAcknowledge)),
        WindowMessageResponse::JustRerender
    ));
    assert!(matches!(
        m.handle_start_menu_message(Some(StartMenuMessage::CategoryClick("Logout"))),
        WindowMessageResponse::Request(WindowManagerRequest::Lock)
    ));
    assert!(matches!(
        m.handle_start_menu_message(Some(StartMenuMessage::CategoryClick("Help"))),
        WindowMessageResponse::JustRerender
    ));
    assert_eq!(m.components[0].name(), "Back");
    m.add_category_components();
    assert_eq!(m.components.len(), CATEGORY_COUNT);
}

#[test]
fn start_menu_without_entries_ignores_keys() {
    let mut m = StartMenu::new();
    assert_eq!(m.get_focus_index(), None);
    assert!(matches!(m.handle_message(press('2')), WindowMessageResponse::DoNothing));
    assert_eq!(m.ideal_dimensions([800, 600]), [175, 250]);
}

#[test]
fn taskbar_start_toggle_opens_then_closes_the_menu() {
    let mut t = Taskbar::new();
    t.handle_message(WindowMessage::Init([800, 38]));
    assert_eq!(t.components.len(), 1);
    assert_eq!(t.components[0].size, [44, 30]);
    let r = t.handle_message(WindowMessage::Shortcut(ShortcutType::StartMenu));
    match r {
        WindowMessageResponse::Request(WindowManagerRequest::OpenWindow(w)) => {
            assert_eq!(w.subtype(), WindowLikeType::StartMenu)
        }
        _ => panic!("expected a request to open the start menu"),
    }
    let r = t.handle_message(WindowMessage::Shortcut(ShortcutType::StartMenu));
    assert!(matches!(r, WindowMessageResponse::Request(WindowManagerRequest::CloseStartMenu)));
}

#[test]
fn taskbar_messages_map_to_requests() {
    let mut t = Taskbar::new();
    assert!(matches!(t.handle_taskbar_message(None), WindowMessageResponse::DoNothing));
    assert!(matches!(
        t.handle_taskbar_message(Some(TaskbarMessage::HideStartMenu)),
        WindowMessageResponse::Request(WindowManagerRequest::CloseStartMenu)
    ));
    assert!(matches!(
        t.handle_taskbar_message(Some(TaskbarMessage::ShowStartMenu)),
        WindowMessageResponse::Request(WindowManagerRequest::OpenWindow(WindowBox::StartMenu(_)))
    ));
    assert!(matches!(
        t.handle_message(WindowMessage::Shortcut(ShortcutType::StartMenu)),
        WindowMessageResponse::DoNothing
    ));
}

#[test]
fn taskbar_keeps_the_window_list_it_is_sent() {
    let mut t = Taskbar::new();
    t.handle_message(WindowMessage::Init([800, 38]));
    t.handle_message(WindowMessage::Info(InfoType::WindowsInWorkspace(vec![(4, "A"), (7, "B")], Some(7))));
    assert_eq!(t.windows, vec![(4, "A"), (7, "B")]);
    assert_eq!(t.focused_id, Some(7));
    let theme = get_theme_info(&Themes::Standard).unwrap();
    assert_eq!(t.draw(&theme).len(), 2 + 5 + 4);
}

#[test]
fn lock_screen_collects_and_erases_characters() {
    let mut ls = LockScreen::new();
    assert!(matches!(ls.handle_key('a'), WindowMessageResponse::JustRerender));
    ls.handle_key('b');
    assert_eq!(ls.input_password, vec!['a', 'b']);
    ls.handle_key(BACKSPACE_KEY);
    assert_eq!(ls.input_password, vec!['a']);
    ls.handle_key(BACKSPACE_KEY);
    ls.handle_key(BACKSPACE_KEY);
    assert!(ls.input_password.is_empty());
}

#[test]
fn lock_screen_clears_a_wrong_password() {
    let mut ls = LockScreen::new();
    ls.handle_key('x');
    assert!(matches!(ls.handle_key(ENTER_KEY), WindowMessageResponse::JustRerender));
    assert!(ls.input_password.is_empty());
    ls.handle_key('y');
    assert!(matches!(ls.submit_digest(&vec![0u8; 64]), WindowMessageResponse::JustRerender));
    assert!(ls.input_password.is_empty());
}

#[test]
fn lock_screen_digest_is_blake2b_512() {
    let mut ls = LockScreen::new();
    ls.handle_key('a');
    ls.handle_key('b');
    ls.handle_key('c');
    let expected: Vec<u8> = vec![
        186, 128, 165, 63, 152, 28, 77, 13, 106, 39, 151, 182, 159, 18, 246, 233, 76, 33, 47, 20, 104, 90, 196,
        183, 75, 18, 187, 111, 219, 255, 162, 209, 125, 135, 197, 57, 42, 171, 121, 45, 194, 82, 213, 222, 69,
        51, 204, 149, 24, 211, 138, 168, 219, 241, 146, 90, 185, 35, 134, 237, 212, 0, 153, 35,
    ];
    assert_eq!(ls.typed_digest(), expected);
}

#[test]
fn lock_screen_draws_one_star_per_character() {
    let mut ls = LockScreen::new();
    ls.handle_message(WindowMessage::Init([800, 600]));
    ls.handle_key('a');
    ls.handle_key('b');
    let theme = get_theme_info(&Themes::Standard).unwrap();
    let d = ls.draw(&theme);
    assert_eq!(d.len(), 6);
    assert!(matches!(&d[5], DrawInstructions::Text(_, _, s, _, _) if s.as_str() == "**"));
    assert_eq!(ls.ideal_dimensions([800, 600]), [800, 600]);
}

#[test]
fn workspace_indicator_follows_switches() {
    let mut w = WorkspaceIndicator::new();
    w.handle_message(WindowMessage::Init([800, 20]));
    assert!(matches!(
        w.handle_message(WindowMessage::Shortcut(ShortcutType::SwitchWorkspace(4))),
        WindowMessageResponse::JustRerender
    ));
    assert_eq!(w.current_workspace, 4);
    assert!(matches!(w.handle_message(WindowMessage::Focus), WindowMessageResponse::DoNothing));
}

#[test]
fn desktop_background_fills_its_area() {
    let mut b = DesktopBackground::new();
    assert!(matches!(b.handle_message(WindowMessage::Init([800, 542])), WindowMessageResponse::JustRerender));
    let theme = get_theme_info(&Themes::Standard).unwrap();
    let d = b.draw(&theme);
    assert!(matches!(d[0], DrawInstructions::Rect([0, 0], [800, 542], [0, 128, 128])));
    assert_eq!(b.ideal_dimensions([800, 600]), [800, 542]);
}

#[test]
fn button_click_flips_and_answers() {
    let mut b = Button::new("ok", [10, 10], [40, 20], "OK", 7u8, false, None);
    assert!(matches!(b.alignment, ButtonAlignment::Centre));
    assert_eq!(b.handle_message(WindowMessage::FocusClick), Some(7));
    assert!(b.inverted);
    assert_eq!(b.handle_message(WindowMessage::Focus), None);
    assert!(b.point_inside([50, 30]));
    assert!(!b.point_inside([51, 30]));
    assert!(!b.point_inside([9, 10]));
    assert_eq!(b.name(), "ok");
    let theme = get_theme_info(&Themes::Standard).unwrap();
    assert_eq!(b.draw(&theme).len(), 5);
}

#[test]
fn toggle_button_alternates_its_answers() {
    let mut t = ToggleButton::new("t", [0, 0], [10, 10], "T", 1u8, 2u8, false, Some(ToggleButtonAlignment::Left));
    assert!(matches!(t.alignment, ToggleButtonAlignment::Left));
    assert_eq!(t.handle_message(WindowMessage::FocusClick), Some(1));
    assert!(t.inverted);
    assert_eq!(t.handle_message(WindowMessage::FocusClick), Some(2));
    assert!(!t.inverted);
    assert_eq!(t.handle_message(WindowMessage::Unfocus), None);
    assert!(t.focusable() && t.clickable());
}

#[test]
fn highlight_button_flips_on_focus_and_answers_clicks() {
    let mut h = HighlightButton::new("h", [0, 0], [10, 10], "H", 1u8, 2u8, false);
    assert_eq!(h.handle_message(WindowMessage::Focus), Some(2));
    assert!(h.highlighted);
    assert_eq!(h.handle_message(WindowMessage::Unfocus), Some(2));
    assert!(!h.highlighted);
    assert_eq!(h.handle_message(WindowMessage::FocusClick), Some(1));
    assert!(!h.highlighted);
    let theme = get_theme_info(&Themes::Standard).unwrap();
    assert!(matches!(h.draw(&theme)[0], DrawInstructions::Rect(_, _, [192, 192, 192])));
}
