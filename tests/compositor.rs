use ming_os_kernel::keyboard::{KeyChar, ENTER_KEY};
use ming_os_kernel::messages::{WindowManagerMessage, WindowManagerRequest};
use ming_os_kernel::window_likes::app_window::AppWindow;
use ming_os_kernel::window_likes::lock_screen::{LockScreen, PASSWORD_HASH};
use ming_os_kernel::window_likes::start_menu::StartMenu;
use ming_os_kernel::input::RenderRequest;
use ming_os_kernel::render::clip_instruction;
use ming_os_kernel::window_manager::{
    min, DrawInstructions, WindowBox, WindowLike, WindowLikeType, WindowManager, Workspace, INDICATOR_HEIGHT,
    TASKBAR_HEIGHT,
};

fn kinds(wm: &WindowManager) -> Vec<WindowLikeType> {
    wm.window_infos.iter().map(|w| w.window_like.subtype()).collect()
}

fn desktop() -> WindowManager {
    let mut wm = WindowManager::new();
    wm.init([800, 600]);
    wm.unlock();
    wm
}

fn key(wm: &mut WindowManager, k: KeyChar) -> Option<RenderRequest> {
    wm.handle_message(WindowManagerMessage::KeyChar(k))
}

fn alt(wm: &mut WindowManager, c: char) -> Option<RenderRequest> {
    key(wm, KeyChar::SpecialPress("alt"));
    let r = key(wm, KeyChar::Press(c));
    key(wm, KeyChar::SpecialRelease("alt"));
    r
}

fn open_window(wm: &mut WindowManager, title: &'static str, top_left: [usize; 2]) -> usize {
    wm.add_window_like(WindowBox::Window(AppWindow::new(title, [200, 100])), top_left, None);
    wm.id_count
}

fn entry<'a>(wm: &'a WindowManager, id: usize) -> &'a ming_os_kernel::window_manager::WindowLikeInfo {
    wm.window_infos.iter().find(|w| w.id == id).unwrap()
}

#[test]
fn init_starts_locked_with_only_the_lock_screen() {
    let mut wm = WindowManager::new();
    wm.init([800, 600]);
    assert!(wm.locked);
    assert_eq!(kinds(&wm), vec![WindowLikeType::LockScreen]);
    assert_eq!(wm.window_infos[0].dimensions, [800, 600]);
    assert_eq!(wm.focused_id, Some(wm.window_infos[0].id));
}

#[test]
fn unlock_yields_background_taskbar_and_indicator_in_every_workspace() {
    let wm = desktop();
    assert!(!wm.locked);
    assert_eq!(
        kinds(&wm),
        vec![
            WindowLikeType::DesktopBackground,
            WindowLikeType::Taskbar,
            WindowLikeType::WorkspaceIndicator
        ]
    );
    assert!(wm.window_infos.iter().all(|w| w.workspace == Workspace::All));
    assert_eq!(wm.window_infos[0].top_left, [0, INDICATOR_HEIGHT]);
    assert_eq!(wm.window_infos[1].top_left, [0, 600 - TASKBAR_HEIGHT]);
    assert_eq!(wm.window_infos[1].dimensions, [800, TASKBAR_HEIGHT]);
}

#[test]
fn lock_after_unlock_yields_only_the_lock_screen() {
    let mut wm = desktop();
    open_window(&mut wm, "A", [42, 42]);
    wm.lock();
    assert!(wm.locked);
    assert_eq!(kinds(&wm), vec![WindowLikeType::LockScreen]);
}

#[test]
fn focus_next_without_windows_changes_nothing() {
    let mut wm = desktop();
    let focused = wm.focused_id;
    let r = alt(&mut wm, ']');
    assert!(r.is_none());
    assert_eq!(wm.focused_id, focused);
    assert_eq!(kinds(&wm).len(), 3);
}

#[test]
fn focus_next_cycles_through_windows_in_opening_order() {
    let mut wm = desktop();
    let a = open_window(&mut wm, "A", [42, 42]);
    let b = open_window(&mut wm, "B", [42, 42]);
    let c = open_window(&mut wm, "C", [42, 42]);
    wm.focused_id = Some(a);
    let r = alt(&mut wm, ']').unwrap();
    assert!(r.redraw_ids.is_none());
    assert_eq!(wm.focused_id, Some(b));
    assert_eq!(wm.window_infos.last().unwrap().id, b);
    alt(&mut wm, ']');
    assert_eq!(wm.focused_id, Some(c));
    assert_eq!(wm.window_infos.last().unwrap().id, c);
    alt(&mut wm, ']');
    assert_eq!(wm.focused_id, Some(a));
    assert_eq!(wm.window_infos.last().unwrap().id, a);
}

#[test]
fn focus_next_skips_windows_of_other_workspaces() {
    let mut wm = desktop();
    let a = open_window(&mut wm, "A", [42, 42]);
    let b = open_window(&mut wm, "B", [42, 42]);
    alt(&mut wm, '@');
    assert_eq!(entry(&wm, b).workspace, Workspace::Workspace(1));
    wm.focused_id = Some(a);
    alt(&mut wm, ']');
    assert_eq!(wm.focused_id, Some(a));
}

#[test]
fn focus_next_with_one_window_keeps_it_focused() {
    let mut wm = desktop();
    let a = open_window(&mut wm, "A", [42, 42]);
    alt(&mut wm, ']');
    assert_eq!(wm.focused_id, Some(a));
}

#[test]
fn move_left_at_the_left_edge_is_a_no_op() {
    let mut wm = desktop();
    let a = open_window(&mut wm, "A", [0, 100]);
    let r = alt(&mut wm, 'h');
    assert!(r.is_none());
    assert_eq!(entry(&wm, a).top_left, [0, 100]);
}

#[test]
fn move_right_near_the_edge_clamps_to_the_bound() {
    let mut wm = desktop();
    let a = open_window(&mut wm, "A", [595, 100]);
    let r = alt(&mut wm, 'l').unwrap();
    assert_eq!(entry(&wm, a).top_left, [600, 100]);
    assert!(r.use_saved_buffer);
    assert_eq!(r.redraw_ids, Some(vec![a]));
    assert!(alt(&mut wm, 'l').is_none());
    assert_eq!(entry(&wm, a).top_left, [600, 100]);
}

#[test]
fn move_steps_fifteen_pixels() {
    let mut wm = desktop();
    let a = open_window(&mut wm, "A", [100, 100]);
    alt(&mut wm, 'l');
    assert_eq!(entry(&wm, a).top_left, [115, 100]);
    alt(&mut wm, 'h');
    assert_eq!(entry(&wm, a).top_left, [100, 100]);
    alt(&mut wm, 'j');
    assert_eq!(entry(&wm, a).top_left, [100, 115]);
    alt(&mut wm, 'k');
    assert_eq!(entry(&wm, a).top_left, [100, 100]);
}

#[test]
fn move_to_edges_snaps() {
    let mut wm = desktop();
    let a = open_window(&mut wm, "A", [100, 100]);
    alt(&mut wm, 'H');
    assert_eq!(entry(&wm, a).top_left, [0, 100]);
    alt(&mut wm, 'K');
    assert_eq!(entry(&wm, a).top_left, [0, INDICATOR_HEIGHT]);
    alt(&mut wm, 'J');
    assert_eq!(entry(&wm, a).top_left, [0, 600 - TASKBAR_HEIGHT - 100]);
    alt(&mut wm, 'L');
    assert_eq!(entry(&wm, a).top_left, [600, 600 - TASKBAR_HEIGHT - 100]);
}

#[test]
fn switching_to_the_active_workspace_does_nothing() {
    let mut wm = desktop();
    open_window(&mut wm, "A", [42, 42]);
    alt(&mut wm, '3');
    assert_eq!(wm.current_workspace, 2);
    let focused = wm.focused_id;
    let ids: Vec<usize> = wm.window_infos.iter().map(|w| w.id).collect();
    let r = alt(&mut wm, '3');
    assert!(r.is_none());
    assert_eq!(wm.current_workspace, 2);
    assert_eq!(wm.focused_id, focused);
    assert_eq!(wm.window_infos.iter().map(|w| w.id).collect::<Vec<usize>>(), ids);
}

#[test]
fn switching_workspace_repaints_everything_and_closes_the_start_menu() {
    let mut wm = desktop();
    alt(&mut wm, 's');
    assert!(kinds(&wm).contains(&WindowLikeType::StartMenu));
    let r = alt(&mut wm, '2').unwrap();
    assert!(r.redraw_ids.is_none());
    assert!(!r.use_saved_buffer);
    assert_eq!(wm.current_workspace, 1);
    assert!(!kinds(&wm).contains(&WindowLikeType::StartMenu));
}

#[test]
fn start_menu_shortcut_opens_and_closes_the_menu() {
    let mut wm = desktop();
    let r = alt(&mut wm, 's').unwrap();
    let menu = wm.window_infos.last().unwrap();
    assert_eq!(menu.window_like.subtype(), WindowLikeType::StartMenu);
    assert_eq!(menu.dimensions, [175, 250]);
    assert_eq!(menu.top_left, [0, 600 - TASKBAR_HEIGHT - 250]);
    assert_eq!(wm.focused_id, Some(menu.id));
    let taskbar_id = wm.window_infos[1].id;
    assert_eq!(r.redraw_ids, Some(vec![menu.id, taskbar_id]));
    let r2 = alt(&mut wm, 's').unwrap();
    assert!(r2.redraw_ids.is_none());
    assert!(!kinds(&wm).contains(&WindowLikeType::StartMenu));
    assert_eq!(wm.focused_id, Some(taskbar_id));
}

#[test]
fn moving_a_window_to_another_workspace_hides_it() {
    let mut wm = desktop();
    let a = open_window(&mut wm, "A", [42, 42]);
    let r = alt(&mut wm, '@').unwrap();
    assert!(r.redraw_ids.is_none());
    assert_eq!(entry(&wm, a).workspace, Workspace::Workspace(1));
    let plan = wm.render(None, false);
    assert!(plan.steps.iter().all(|s| s.id != a));
    alt(&mut wm, '2');
    let plan = wm.render(None, false);
    assert!(plan.steps.iter().any(|s| s.id == a));
}

#[test]
fn moving_a_window_to_the_active_workspace_does_nothing() {
    let mut wm = desktop();
    let a = open_window(&mut wm, "A", [42, 42]);
    assert!(alt(&mut wm, '!').is_none());
    assert_eq!(entry(&wm, a).workspace, Workspace::Workspace(0));
}

#[test]
fn quitting_removes_the_focused_window() {
    let mut wm = desktop();
    let a = open_window(&mut wm, "A", [42, 42]);
    let r = alt(&mut wm, 'q').unwrap();
    assert!(r.redraw_ids.is_none());
    assert!(wm.window_infos.iter().all(|w| w.id != a));
    assert_eq!(wm.focused_id, None);
    assert!(alt(&mut wm, 'q').is_none());
}

#[test]
fn ids_keep_increasing_after_a_removal() {
    let mut wm = desktop();
    let a = open_window(&mut wm, "A", [42, 42]);
    let b = open_window(&mut wm, "B", [42, 42]);
    assert!(b > a);
    alt(&mut wm, 'q');
    assert!(wm.window_infos.iter().all(|w| w.id != b));
    let c = open_window(&mut wm, "C", [42, 42]);
    assert!(c > b);
    assert!(c > a);
    assert_ne!(c, b);
}

#[test]
fn open_requests_from_an_ordinary_window_are_dropped() {
    let mut wm = desktop();
    let a = open_window(&mut wm, "A", [42, 42]);
    let before: Vec<usize> = wm.window_infos.iter().map(|w| w.id).collect();
    let count = wm.id_count;
    wm.handle_request(WindowManagerRequest::OpenWindow(WindowBox::StartMenu(StartMenu::new())));
    wm.handle_requests(vec![
        WindowManagerRequest::OpenWindow(WindowBox::Window(AppWindow::new("X", [10, 10]))),
        WindowManagerRequest::OpenWindow(WindowBox::StartMenu(StartMenu::new())),
    ]);
    assert_eq!(wm.window_infos.iter().map(|w| w.id).collect::<Vec<usize>>(), before);
    assert_eq!(wm.id_count, count);
    assert_eq!(wm.focused_id, Some(a));
}

#[test]
fn lock_requests_are_honoured_only_from_the_start_menu() {
    let mut wm = desktop();
    open_window(&mut wm, "A", [42, 42]);
    wm.handle_request(WindowManagerRequest::Lock);
    assert!(!wm.locked);
    alt(&mut wm, 's');
    wm.handle_request(WindowManagerRequest::Lock);
    assert!(wm.locked);
    assert_eq!(kinds(&wm), vec![WindowLikeType::LockScreen]);
}

#[test]
fn unlock_requests_are_honoured_only_from_the_lock_screen() {
    let mut wm = desktop();
    wm.handle_request(WindowManagerRequest::Unlock);
    assert_eq!(kinds(&wm).len(), 3);
    let mut locked = WindowManager::new();
    locked.init([800, 600]);
    locked.handle_request(WindowManagerRequest::Unlock);
    assert!(!locked.locked);
    assert_eq!(kinds(&locked).len(), 3);
}

#[test]
fn opening_a_lock_screen_on_request_is_refused() {
    let mut wm = desktop();
    alt(&mut wm, 's');
    let n = wm.window_infos.len();
    wm.handle_request(WindowManagerRequest::OpenWindow(WindowBox::LockScreen(LockScreen::new())));
    assert_eq!(wm.window_infos.len(), n);
}

#[test]
fn a_wrong_password_keeps_the_system_locked() {
    let mut wm = WindowManager::new();
    wm.init([800, 600]);
    for c in ['h', 'u', 'n', 't', 'e', 'r', '2'] {
        wm.handle_message(WindowManagerMessage::KeyChar(KeyChar::Press(c)));
    }
    let r = wm.handle_message(WindowManagerMessage::KeyChar(KeyChar::Press(ENTER_KEY)));
    assert!(r.is_some());
    assert!(wm.locked);
    match &wm.window_infos[0].window_like {
        WindowBox::LockScreen(ls) => assert!(ls.input_password.is_empty()),
        _ => panic!("expected the lock screen"),
    }
}

#[test]
fn a_matching_digest_asks_to_unlock_and_is_honoured() {
    let mut ls = LockScreen::new();
    let r = ls.submit_digest(&PASSWORD_HASH.to_vec());
    let request = match r {
        ming_os_kernel::messages::WindowMessageResponse::Request(req) => req,
        _ => panic!("expected a request"),
    };
    assert!(matches!(request, WindowManagerRequest::Unlock));
    let mut wm = WindowManager::new();
    wm.init([800, 600]);
    wm.handle_request(request);
    assert!(!wm.locked);
}

#[test]
fn modifiers_are_tracked() {
    let mut wm = desktop();
    assert!(key(&mut wm, KeyChar::SpecialPress("alt")).is_none());
    assert_eq!(wm.held_special_keys, vec!["alt"]);
    assert!(key(&mut wm, KeyChar::SpecialRelease("alt")).is_none());
    assert!(wm.held_special_keys.is_empty());
    assert!(key(&mut wm, KeyChar::SpecialRelease("alt")).is_none());
    assert!(wm.held_special_keys.is_empty());
}

#[test]
fn shift_gives_the_shifted_character() {
    let mut wm = WindowManager::new();
    wm.init([800, 600]);
    wm.keyboard_emit(KeyChar::SpecialPress("shift"));
    wm.keyboard_emit(KeyChar::Press('a'));
    wm.keyboard_emit(KeyChar::Press('1'));
    match &wm.window_infos[0].window_like {
        WindowBox::LockScreen(ls) => assert_eq!(ls.input_password, vec!['A', '!']),
        _ => panic!("expected the lock screen"),
    }
}

#[test]
fn plain_keys_go_to_the_focused_surface() {
    let mut wm = WindowManager::new();
    wm.init([800, 600]);
    let id = wm.window_infos[0].id;
    let r = key(&mut wm, KeyChar::Press('x')).unwrap();
    assert_eq!(r.redraw_ids, Some(vec![id]));
    assert!(!r.use_saved_buffer);
}

#[test]
fn an_exhausted_id_counter_ignores_events() {
    let mut wm = desktop();
    wm.id_count = usize::MAX - 1;
    assert!(alt(&mut wm, 's').is_none());
    assert!(!kinds(&wm).contains(&WindowLikeType::StartMenu));
}

#[test]
fn render_paints_visible_entries_in_order() {
    let mut wm = desktop();
    let a = open_window(&mut wm, "A", [42, 42]);
    let plan = wm.render(None, false);
    assert!(!plan.restore_saved);
    let ids: Vec<usize> = plan.steps.iter().map(|s| s.id).collect();
    let expected: Vec<usize> = wm.window_infos.iter().map(|w| w.id).collect();
    assert_eq!(ids, expected);
    let top = plan.steps.last().unwrap();
    assert_eq!(top.id, a);
    assert!(top.save_before);
    assert_eq!(top.top_left, [42, 42]);
    assert!(plan.steps[..3].iter().all(|s| !s.save_before));
    assert!(matches!(top.instructions[0], DrawInstructions::Rect([0, 0], [200, 100], _)));
    assert_eq!(top.instructions.len(), 8);
}

#[test]
fn render_of_given_ids_over_the_snapshot() {
    let mut wm = desktop();
    let a = open_window(&mut wm, "A", [42, 42]);
    let plan = wm.render(Some(vec![a]), true);
    assert!(plan.restore_saved);
    assert_eq!(plan.steps.len(), 1);
    assert_eq!(plan.steps[0].id, a);
    assert!(!plan.steps[0].save_before);
}

#[test]
fn render_of_an_empty_id_list_paints_nothing() {
    let mut wm = desktop();
    open_window(&mut wm, "A", [42, 42]);
    let plan = wm.render(Some(Vec::new()), false);
    assert!(plan.steps.is_empty());
}

#[test]
fn the_lock_screen_is_focused_after_locking() {
    let mut wm = desktop();
    wm.lock();
    assert_eq!(wm.focused_id, Some(wm.window_infos[0].id));
    assert_eq!(wm.window_infos[0].top_left, [0, 0]);
}

#[test]
fn render_clips_rectangles_to_the_surface() {
    let mut wm = desktop();
    let plan = wm.render(None, false);
    for step in &plan.steps {
        for i in &step.instructions {
            if let DrawInstructions::Rect(p, d, _) = i {
                assert!(d[0] == 0 || p[0] + d[0] <= step.dimensions[0]);
                assert!(d[1] == 0 || p[1] + d[1] <= step.dimensions[1]);
            }
        }
    }
}

#[test]
fn clipping_cuts_rectangles_exactly() {
    let r = clip_instruction(DrawInstructions::Rect([10, 5], [100, 100], [1, 2, 3]), [50, 40]);
    assert!(matches!(r, DrawInstructions::Rect([10, 5], [40, 35], [1, 2, 3])));
    let r = clip_instruction(DrawInstructions::Rect([60, 5], [100, 1], [1, 2, 3]), [50, 40]);
    assert!(matches!(r, DrawInstructions::Rect([60, 5], [0, 1], [1, 2, 3])));
    let r = clip_instruction(DrawInstructions::Mingde([2, 2]), [1, 1]);
    assert!(matches!(r, DrawInstructions::Mingde([2, 2])));
    assert_eq!(min(3, 7), 3);
    assert_eq!(min(9, 7), 7);
}

fn taskbar_windows(wm: &WindowManager) -> (Vec<(usize, &'static str)>, Option<usize>) {
    for w in &wm.window_infos {
        if let WindowBox::Taskbar(t) = &w.window_like {
            return (t.windows.clone(), t.focused_id);
        }
    }
    panic!("no taskbar")
}

#[test]
fn the_taskbar_lists_the_windows_of_the_active_workspace() {
    let mut wm = desktop();
    alt(&mut wm, 's');
    let mut start_menu_request = None;
    for w in &wm.window_infos {
        if w.window_like.subtype() == WindowLikeType::StartMenu {
            start_menu_request = Some(w.id);
        }
    }
    assert!(start_menu_request.is_some());
    wm.handle_request(WindowManagerRequest::OpenWindow(WindowBox::Window(AppWindow::new("A", [200, 100]))));
    let a = wm.id_count;
    assert_eq!(entry(&wm, a).top_left, [42, 42]);
    assert!(!kinds(&wm).contains(&WindowLikeType::StartMenu));
    assert_eq!(taskbar_windows(&wm), (vec![(a, "A")], Some(a)));
    alt(&mut wm, 'q');
    assert_eq!(taskbar_windows(&wm), (vec![], None));
}

#[test]
fn switching_workspace_focuses_the_indicator() {
    let mut wm = desktop();
    alt(&mut wm, '4');
    let indicator = wm.window_infos.iter().find(|w| w.window_like.subtype() == WindowLikeType::WorkspaceIndicator).unwrap();
    assert_eq!(wm.focused_id, Some(indicator.id));
    match &indicator.window_like {
        WindowBox::WorkspaceIndicator(i) => assert_eq!(i.current_workspace, 3),
        _ => panic!("expected the indicator"),
    }
}
