use vstd::prelude::*;

use crate::framebuffer::Dimensions;
use crate::keyboard::KeyChar;
use crate::window_manager::WindowBox;

verus! {

/// What reaches the compositor from the input devices.
pub enum WindowManagerMessage {
    KeyChar(KeyChar),
}

/// A privileged action that a surface asks of the compositor. Each is honoured
/// only when the sender's kind allows it.
pub enum WindowManagerRequest {
    OpenWindow(WindowBox),
    CloseStartMenu,
    Unlock,
    Lock,
}

/// A surface's answer to a message.
pub enum WindowMessageResponse {
    Request(WindowManagerRequest),
    JustRerender,
    DoNothing,
}

/// A character typed while the given modifier keys were held.
pub struct KeyPress {
    pub key: char,
    pub held_special_keys: Vec<&'static str>,
}

#[derive(Clone, Copy, Debug, PartialEq, Eq, Structural)]
pub enum Direction {
    Left,
    Down,
    Up,
    Right,
}

/// A compositor action bound to a key pressed with "alt".
#[derive(Clone, Copy, Debug, PartialEq, Eq, Structural)]
pub enum ShortcutType {
    StartMenu,
    SwitchWorkspace(u8),
    MoveWindowToWorkspace(u8),
    FocusNextWindow,
    QuitWindow,
    MoveWindow(Direction),
    MoveWindowToEdge(Direction),
}

/// The ordinary windows of a workspace as `(id, title)`.
pub type WindowsVec = Vec<(usize, &'static str)>;

pub enum InfoType {
    /// The windows of the active workspace, ordered by id, and the focused id.
    WindowsInWorkspace(WindowsVec, Option<usize>),
}

/// What the compositor sends down to a surface or a surface to a component.
pub enum WindowMessage {
    Init(Dimensions),
    KeyPress(KeyPress),
    Shortcut(ShortcutType),
    Info(InfoType),
    Focus,
    Unfocus,
    FocusClick,
}

} // verus!
