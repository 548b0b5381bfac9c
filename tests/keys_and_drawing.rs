use ming_os_kernel::framebuffer::{color_with_alpha, get_font_max_height};
use ming_os_kernel::interrupts::InterruptIndex;
use ming_os_kernel::keyboard::{scancode_to_char, uppercase_or_special, KeyChar};
use ming_os_kernel::messages::{Direction, ShortcutType};
use ming_os_kernel::mouse::{MousePacket, MousePacketState};
use ming_os_kernel::themes::{get_theme_info, Themes};
use ming_os_kernel::input::{compute_move, shortcut_for};
use ming_os_kernel::window_manager::{draw_panic, DrawInstructions};

#[test]
fn scancodes_decode_to_keys() {
    assert_eq!(scancode_to_char(0x02), Some(KeyChar::Press('1')));
    assert_eq!(scancode_to_char(0x0B), Some(KeyChar::Press('0')));
    assert_eq!(scancode_to_char(0x10), Some(KeyChar::Press('q')));
    assert_eq!(scancode_to_char(0x32), Some(KeyChar::Press('m')));
    assert_eq!(scancode_to_char(0x38), Some(KeyChar::SpecialPress("alt")));
    assert_eq!(scancode_to_char(0xB8), Some(KeyChar::SpecialRelease("alt")));
    assert_eq!(scancode_to_char(0x01), None);
    assert_eq!(scancode_to_char(0xFF), None);
}

#[test]
fn shift_maps_letters_and_digits() {
    assert_eq!(uppercase_or_special('a'), 'A');
    assert_eq!(uppercase_or_special('z'), 'Z');
    assert_eq!(uppercase_or_special('1'), '!');
    assert_eq!(uppercase_or_special('9'), '(');
    assert_eq!(uppercase_or_special('0'), ')');
    assert_eq!(uppercase_or_special(']'), ']');
    assert_eq!(uppercase_or_special('A'), 'A');
}

#[test]
fn shortcut_table() {
    assert_eq!(shortcut_for('s'), Some(ShortcutType::StartMenu));
    assert_eq!(shortcut_for(']'), Some(ShortcutType::FocusNextWindow));
    assert_eq!(shortcut_for('q'), Some(ShortcutType::QuitWindow));
    assert_eq!(shortcut_for('h'), Some(ShortcutType::MoveWindow(Direction::Left)));
    assert_eq!(shortcut_for('L'), Some(ShortcutType::MoveWindowToEdge(Direction::Right)));
    assert_eq!(shortcut_for('1'), Some(ShortcutType::SwitchWorkspace(0)));
    assert_eq!(shortcut_for('9'), Some(ShortcutType::SwitchWorkspace(8)));
    assert_eq!(shortcut_for('!'), Some(ShortcutType::MoveWindowToWorkspace(0)));
    assert_eq!(shortcut_for('('), Some(ShortcutType::MoveWindowToWorkspace(8)));
    assert_eq!(shortcut_for('0'), None);
    assert_eq!(shortcut_for('x'), None);
}

#[test]
fn moves_clamp_to_the_screen() {
    let screen = [800, 600];
    let win = [200, 100];
    assert_eq!(compute_move([0, 50], win, screen, Direction::Left, false), None);
    assert_eq!(compute_move([10, 50], win, screen, Direction::Left, false), Some([0, 50]));
    assert_eq!(compute_move([100, 50], win, screen, Direction::Left, false), Some([85, 50]));
    assert_eq!(compute_move([100, 50], win, screen, Direction::Left, true), Some([0, 50]));
    assert_eq!(compute_move([590, 50], win, screen, Direction::Right, false), Some([600, 50]));
    assert_eq!(compute_move([600, 50], win, screen, Direction::Right, false), None);
    assert_eq!(compute_move([700, 50], win, screen, Direction::Right, false), Some([600, 50]));
    assert_eq!(compute_move([0, 20], win, screen, Direction::Up, false), None);
    assert_eq!(compute_move([0, 30], win, screen, Direction::Up, false), Some([0, 20]));
    assert_eq!(compute_move([0, 450], win, screen, Direction::Down, false), Some([0, 462]));
    assert_eq!(compute_move([0, 462], win, screen, Direction::Down, false), None);
    assert_eq!(compute_move([0, 50], [900, 700], screen, Direction::Right, false), None);
}

#[test]
fn alpha_blending_per_channel() {
    assert_eq!(color_with_alpha([255, 0, 0], [0, 0, 255], 255), [255, 0, 0]);
    assert_eq!(color_with_alpha([255, 0, 0], [0, 0, 255], 0), [0, 0, 255]);
    assert_eq!(color_with_alpha([255, 0, 0], [0, 0, 255], 128), [128, 0, 127]);
    assert_eq!(color_with_alpha([255, 255, 255], [255, 255, 255], 100), [255, 255, 255]);
}

#[test]
fn fonts_and_themes() {
    assert_eq!(get_font_max_height("times-new-roman"), Some(12));
    assert_eq!(get_font_max_height("comic-sans"), None);
    let t = get_theme_info(&Themes::Standard).unwrap();
    assert_eq!(t.background, [192, 192, 192]);
    assert_eq!(t.border_left_top, [255, 255, 255]);
    assert_eq!(t.border_right_bottom, [0, 0, 0]);
    assert_eq!(t.text, [0, 0, 0]);
}

#[test]
fn interrupt_vectors() {
    assert_eq!(InterruptIndex::Timer.as_u8(), 32);
    assert_eq!(InterruptIndex::Keyboard.as_u8(), 33);
    assert_eq!(InterruptIndex::Keyboard.as_usize(), 33);
}

#[test]
fn panic_overlay() {
    let d = draw_panic("boom");
    assert_eq!(d.len(), 2);
    assert!(matches!(d[0], DrawInstructions::Rect([0, 0], [200, 10], [0, 255, 0])));
    assert!(matches!(&d[1], DrawInstructions::Text([0, 0], _, s, [0, 0, 0], [0, 255, 0]) if s.as_str() == "boom"));
}

#[test]
fn a_new_mouse_packet_waits_for_its_first_byte() {
    let p = MousePacket::new();
    assert_eq!(p.packet_state, MousePacketState::First);
    assert!(!p.overflowed);
}
