//! How the compositor reacts to input: modifier tracking, the shortcut
//! table and each shortcut, and keys handed on to the focused surface.
use vstd::prelude::*;

use crate::framebuffer::{Dimensions, Point};
use crate::keyboard::{KeyChar, shifted, uppercase_or_special};
use crate::window_likes::taskbar::TaskbarMessage;
use crate::messages::{
    Direction, KeyPress, ShortcutType, WindowManagerMessage, WindowManagerRequest, WindowMessage,
    WindowMessageResponse,
};
use crate::window_manager::{
    closes_start_menu, taskbar_current, EntryLayout, INDICATOR_HEIGHT, MOVE_STEP, TASKBAR_HEIGHT, WORKSPACE_COUNT, WindowLike, WindowLikeType,
    WindowBox, WindowManager, Workspace, entry_workspace_ok, request_outcome, visible_in,
};

verus! {

broadcast use vstd::seq_lib::group_to_multiset_ensures;

/// What the compositor asks of the renderer after a message: repaint the
/// listed ids (or everything visible, if `None`), optionally starting from
/// the saved snapshot of the screen.
pub struct RenderRequest {
    pub redraw_ids: Option<Vec<usize>>,
    pub use_saved_buffer: bool,
}

/// The shortcut bound to `c` pressed with "alt", if any.
pub open spec fn shortcut_key(c: char) -> Option<ShortcutType> {
    match c {
        's' => Some(ShortcutType::StartMenu),
        ']' => Some(ShortcutType::FocusNextWindow),
        'q' => Some(ShortcutType::QuitWindow),
        'h' => Some(ShortcutType::MoveWindow(Direction::Left)),
        'j' => Some(ShortcutType::MoveWindow(Direction::Down)),
        'k' => Some(ShortcutType::MoveWindow(Direction::Up)),
        'l' => Some(ShortcutType::MoveWindow(Direction::Right)),
        'H' => Some(ShortcutType::MoveWindowToEdge(Direction::Left)),
        'J' => Some(ShortcutType::MoveWindowToEdge(Direction::Down)),
        'K' => Some(ShortcutType::MoveWindowToEdge(Direction::Up)),
        'L' => Some(ShortcutType::MoveWindowToEdge(Direction::Right)),
        '1' => Some(ShortcutType::SwitchWorkspace(0)),
        '2' => Some(ShortcutType::SwitchWorkspace(1)),
        '3' => Some(ShortcutType::SwitchWorkspace(2)),
        '4' => Some(ShortcutType::SwitchWorkspace(3)),
        '5' => Some(ShortcutType::SwitchWorkspace(4)),
        '6' => Some(ShortcutType::SwitchWorkspace(5)),
        '7' => Some(ShortcutType::SwitchWorkspace(6)),
        '8' => Some(ShortcutType::SwitchWorkspace(7)),
        '9' => Some(ShortcutType::SwitchWorkspace(8)),
        '!' => Some(ShortcutType::MoveWindowToWorkspace(0)),
        '@' => Some(ShortcutType::MoveWindowToWorkspace(1)),
        '#' => Some(ShortcutType::MoveWindowToWorkspace(2)),
        '$' => Some(ShortcutType::MoveWindowToWorkspace(3)),
        '%' => Some(ShortcutType::MoveWindowToWorkspace(4)),
        '^' => Some(ShortcutType::MoveWindowToWorkspace(5)),
        '&' => Some(ShortcutType::MoveWindowToWorkspace(6)),
        '*' => Some(ShortcutType::MoveWindowToWorkspace(7)),
        '(' => Some(ShortcutType::MoveWindowToWorkspace(8)),
        _ => None,
    }
}

/// The shortcut bound to `c` pressed with "alt", if any.
pub fn shortcut_for(c: char) -> (r: Option<ShortcutType>)
    ensures
        r == shortcut_key(c),
{
    match c {
        's' => Some(ShortcutType::StartMenu),
        ']' => Some(ShortcutType::FocusNextWindow),
        'q' => Some(ShortcutType::QuitWindow),
        'h' => Some(ShortcutType::MoveWindow(Direction::Left)),
        'j' => Some(ShortcutType::MoveWindow(Direction::Down)),
        'k' => Some(ShortcutType::MoveWindow(Direction::Up)),
        'l' => Some(ShortcutType::MoveWindow(Direction::Right)),
        'H' => Some(ShortcutType::MoveWindowToEdge(Direction::Left)),
        'J' => Some(ShortcutType::MoveWindowToEdge(Direction::Down)),
        'K' => Some(ShortcutType::MoveWindowToEdge(Direction::Up)),
        'L' => Some(ShortcutType::MoveWindowToEdge(Direction::Right)),
        '1' => Some(ShortcutType::SwitchWorkspace(0)),
        '2' => Some(ShortcutType::SwitchWorkspace(1)),
        '3' => Some(ShortcutType::SwitchWorkspace(2)),
        '4' => Some(ShortcutType::SwitchWorkspace(3)),
        '5' => Some(ShortcutType::SwitchWorkspace(4)),
        '6' => Some(ShortcutType::SwitchWorkspace(5)),
        '7' => Some(ShortcutType::SwitchWorkspace(6)),
        '8' => Some(ShortcutType::SwitchWorkspace(7)),
        '9' => Some(ShortcutType::SwitchWorkspace(8)),
        '!' => Some(ShortcutType::MoveWindowToWorkspace(0)),
        '@' => Some(ShortcutType::MoveWindowToWorkspace(1)),
        '#' => Some(ShortcutType::MoveWindowToWorkspace(2)),
        '$' => Some(ShortcutType::MoveWindowToWorkspace(3)),
        '%' => Some(ShortcutType::MoveWindowToWorkspace(4)),
        '^' => Some(ShortcutType::MoveWindowToWorkspace(5)),
        '&' => Some(ShortcutType::MoveWindowToWorkspace(6)),
        '*' => Some(ShortcutType::MoveWindowToWorkspace(7)),
        '(' => Some(ShortcutType::MoveWindowToWorkspace(8)),
        _ => None,
    }
}

/// `a - b`, or zero where `b` is larger.
pub open spec fn minus_or_zero(a: int, b: int) -> int {
    if a >= b {
        a - b
    } else {
        0
    }
}

/// Where a move shortcut puts a window of size `win` at `pos` on a screen
/// of size `screen`, or `None` where the window is already at the bound.
/// A move goes `MOVE_STEP` pixels, or to the bound where that is nearer or
/// `to_edge` holds. The bounds are `0` and `screen width - window width`
/// across, and the indicator's height and `screen height - taskbar height
/// - window height` down.
pub open spec fn moved_position(
    pos: Point,
    win: Dimensions,
    screen: Dimensions,
    direction: Direction,
    to_edge: bool,
) -> Option<Point> {
    let x = pos[0] as int;
    let y = pos[1] as int;
    let step = MOVE_STEP as int;
    match direction {
        Direction::Left => if x == 0 {
            None
        } else if x < step || to_edge {
            Some([0usize, pos[1]])
        } else {
            Some([(x - step) as usize, pos[1]])
        },
        Direction::Right => {
            let max_x = minus_or_zero(screen[0] as int, win[0] as int);
            if x == max_x {
                None
            } else if x > max_x - step || to_edge {
                Some([max_x as usize, pos[1]])
            } else {
                Some([(x + step) as usize, pos[1]])
            }
        },
        Direction::Up => {
            let min_y = INDICATOR_HEIGHT as int;
            if y == min_y {
                None
            } else if y < min_y + step || to_edge {
                Some([pos[0], min_y as usize])
            } else {
                Some([pos[0], (y - step) as usize])
            }
        },
        Direction::Down => {
            let max_y = minus_or_zero(screen[1] - TASKBAR_HEIGHT, win[1] as int);
            if y == max_y {
                None
            } else if y > max_y - step || to_edge {
                Some([pos[0], max_y as usize])
            } else {
                Some([pos[0], (y + step) as usize])
            }
        },
    }
}

/// Where a move shortcut puts a window; see `moved_position`.
pub fn compute_move(pos: Point, win: Dimensions, screen: Dimensions, direction: Direction, to_edge: bool) -> (r:
    Option<Point>)
    ensures
        r == moved_position(pos, win, screen, direction, to_edge),
{
    let x = pos[0];
    let y = pos[1];
    match direction {
        Direction::Left => {
            if x == 0 {
                None
            } else if x < MOVE_STEP || to_edge {
                Some([0, y])
            } else {
                Some([x - MOVE_STEP, y])
            }
        },
        Direction::Right => {
            let max_x = screen[0].saturating_sub(win[0]);
            if x == max_x {
                None
            } else if x > max_x || max_x - x < MOVE_STEP || to_edge {
                Some([max_x, y])
            } else {
                Some([x + MOVE_STEP, y])
            }
        },
        Direction::Up => {
            if y == INDICATOR_HEIGHT {
                None
            } else if y < INDICATOR_HEIGHT + MOVE_STEP || to_edge {
                Some([x, INDICATOR_HEIGHT])
            } else {
                Some([x, y - MOVE_STEP])
            }
        },
        Direction::Down => {
            let max_y = screen[1].saturating_sub(TASKBAR_HEIGHT).saturating_sub(win[1]);
            if y == max_y {
                None
            } else if y > max_y || max_y - y < MOVE_STEP || to_edge {
                Some([x, max_y])
            } else {
                Some([x, y + MOVE_STEP])
            }
        },
    }
}

/// Whether `r` asks to repaint just entry `id`, over the saved snapshot
/// exactly when `saved`.
pub open spec fn repaints_only(r: Option<RenderRequest>, id: usize, saved: bool) -> bool {
    &&& r is Some
    &&& r->Some_0.use_saved_buffer == saved
    &&& r->Some_0.redraw_ids is Some
    &&& r->Some_0.redraw_ids->Some_0@ == seq![id]
}

/// Whether `r` asks to repaint everything visible, from scratch.
pub open spec fn repaints_all(r: Option<RenderRequest>) -> bool {
    &&& r is Some
    &&& !r->Some_0.use_saved_buffer
    &&& r->Some_0.redraw_ids is None
}

/// What a move shortcut does: with no focused ordinary window, or one
/// already at the bound, nothing, and no repaint; otherwise the window goes
/// to `moved_position` and only it is repainted, over the saved snapshot.
pub open spec fn move_outcome(
    o: WindowManager,
    f: WindowManager,
    r: Option<RenderRequest>,
    direction: Direction,
    to_edge: bool,
) -> bool {
    &&& (forall|i: int| !o.is_focused_window(i)) ==> r is None && f == o
    &&& forall|i: int| #[trigger] o.is_focused_window(i) ==> {
        let l = o.layouts()[i];
        match moved_position(l.top_left, l.dimensions, o.dimensions, direction, to_edge) {
            None => r is None && f == o,
            Some(p) => {
                &&& f.layouts() == o.layouts().update(i, EntryLayout { top_left: p, ..l })
                &&& o.same_scalars(&f)
                &&& repaints_only(r, l.id, true)
            },
        }
    }
}

/// What switching to `w` does: nothing at all if `w` is already active;
/// otherwise `w` becomes active, the start menu is closed, and everything
/// is repainted.
pub open spec fn switch_outcome(o: WindowManager, f: WindowManager, r: Option<RenderRequest>, w: u8) -> bool {
    &&& w == o.current_workspace ==> r is None && f == o
    &&& w != o.current_workspace ==> {
        &&& f.current_workspace == w
        &&& f.count_of(WindowLikeType::StartMenu) == 0
        &&& closes_start_menu(o, f.layouts())
        &&& f.id_count == o.id_count
        &&& f.locked == o.locked
        &&& f.held_special_keys == o.held_special_keys
        &&& taskbar_current(f)
        &&& (f.focused_id matches Some(fid) && exists|k: int|
            0 <= k < f.layouts().len() && #[trigger] f.layouts()[k].id == fid && f.layouts()[k].kind
                == WindowLikeType::WorkspaceIndicator)
        &&& exists|k: int|
            #![trigger f.window_infos@[k]]
            0 <= k < f.window_infos@.len() && (f.window_infos@[k].window_like matches WindowBox::WorkspaceIndicator(
                wi,
            ) && wi.current_workspace == w)
        &&& repaints_all(r)
    }
}

/// What moving the focused window to workspace `w` does: nothing if `w`
/// is active or no ordinary window is focused; otherwise the window is
/// tagged `w` and everything is repainted.
pub open spec fn move_to_workspace_outcome(
    o: WindowManager,
    f: WindowManager,
    r: Option<RenderRequest>,
    w: u8,
) -> bool {
    &&& (w == o.current_workspace || forall|i: int| !o.is_focused_window(i)) ==> r is None && f == o
    &&& forall|i: int| #[trigger] o.is_focused_window(i) && w != o.current_workspace ==> {
        &&& f.layouts() == o.layouts().update(i, EntryLayout { workspace: Workspace::Workspace(w), ..o.layouts()[i] })
        &&& o.same_scalars(&f)
        &&& taskbar_current(f)
        &&& repaints_all(r)
    }
}

/// What quitting does: nothing if no ordinary window is focused; otherwise
/// that entry is removed, nothing is focused, and everything is repainted.
pub open spec fn quit_outcome(o: WindowManager, f: WindowManager, r: Option<RenderRequest>) -> bool {
    &&& (forall|i: int| !o.is_focused_window(i)) ==> r is None && f == o
    &&& forall|i: int| #[trigger] o.is_focused_window(i) ==> {
        &&& f.layouts() == o.layouts().remove(i)
        &&& f.focused_id is None
        &&& f.id_count == o.id_count
        &&& f.current_workspace == o.current_workspace
        &&& f.held_special_keys == o.held_special_keys
        &&& !f.locked
        &&& taskbar_current(f)
        &&& repaints_all(r)
    }
}

/// What focusing the next window does: nothing if the active workspace has
/// no ordinary window; otherwise the next one by id (see `is_next_window`)
/// is focused and raised to the top, and everything is repainted.
pub open spec fn focus_next_outcome(o: WindowManager, f: WindowManager, r: Option<RenderRequest>) -> bool {
    &&& (forall|i: int| !o.is_cycle_candidate(i)) ==> r is None && f == o
    &&& (exists|i: int| o.is_cycle_candidate(i)) ==> exists|idx: int|
        {
            &&& #[trigger] o.is_next_window(idx)
            &&& f.focused_id == Some(o.layouts()[idx].id)
            &&& f.layouts() == o.layouts().remove(idx).push(o.layouts()[idx])
            &&& f.id_count == o.id_count
            &&& f.current_workspace == o.current_workspace
            &&& f.held_special_keys == o.held_special_keys
            &&& !f.locked
            &&& taskbar_current(f)
            &&& repaints_all(r)
        }
}

/// Whether the focused surface got the character `c` as message `m`,
/// leaving the compositor as `mid` and answering `resp`; only that
/// surface changed.
pub open spec fn key_delivered(
    o: WindowManager,
    i: int,
    c: char,
    m: WindowMessage,
    mid: WindowManager,
    resp: WindowMessageResponse,
) -> bool {
    &&& (m matches WindowMessage::KeyPress(kp) && kp.key == c)
    &&& o.same_but_surfaces(&mid)
    &&& mid.window_infos@.len() == o.window_infos@.len()
    &&& forall|j: int| 0 <= j < o.window_infos@.len() && j != i ==> mid.window_infos@[j] == o.window_infos@[j]
    &&& o.window_infos@[i].window_like.handles(m, mid.window_infos@[i].window_like, resp)
}

/// What the compositor does with a surface's answer `resp`, from `mid` to
/// `f`: a repaint of that surface alone, nothing, or the request carried
/// out and everything repainted.
pub open spec fn answer_outcome(
    id: usize,
    mid: WindowManager,
    resp: WindowMessageResponse,
    f: WindowManager,
    r: Option<RenderRequest>,
) -> bool {
    &&& resp is JustRerender ==> f == mid && repaints_only(r, id, false)
    &&& resp is DoNothing ==> f == mid && r is None
    &&& resp is Request ==> request_outcome(mid, f, resp->Request_0) && repaints_all(r)
}

/// Whether a modifier named `key` is among `keys`.
pub open spec fn holds_key(keys: Seq<&'static str>, key: Seq<char>) -> bool {
    exists|i: int| 0 <= i < keys.len() && (#[trigger] keys[i])@ == key
}

/// Whether `i` is the first position of the modifier `key` among `keys`.
pub open spec fn first_key_at(keys: Seq<&'static str>, key: Seq<char>, i: int) -> bool {
    &&& 0 <= i < keys.len()
    &&& keys[i]@ == key
    &&& forall|j: int| 0 <= j < i ==> (#[trigger] keys[j])@ != key
}

/// Whether `f` is `o` with, at most, other held modifiers.
pub open spec fn same_but_keys(o: WindowManager, f: WindowManager) -> bool {
    &&& f.window_infos == o.window_infos
    &&& f.id_count == o.id_count
    &&& f.dimensions == o.dimensions
    &&& f.theme == o.theme
    &&& f.focused_id == o.focused_id
    &&& f.locked == o.locked
    &&& f.current_workspace == o.current_workspace
}

/// What the start-menu shortcut does. Without a start menu, one opens on
/// top and takes the focus, and it and the taskbar are repainted. With one,
/// it is closed, the taskbar takes the focus, and everything is repainted.
/// The other entries stay as they were.
pub open spec fn start_menu_outcome(o: WindowManager, f: WindowManager, r: Option<RenderRequest>) -> bool {
    &&& o.count_of(WindowLikeType::StartMenu) == 0 ==> {
        &&& f.layouts().len() > 0
        &&& f.layouts().drop_last() == o.layouts()
        &&& f.layouts().last().kind == WindowLikeType::StartMenu
        &&& f.id_count == o.id_count + 1
        &&& f.layouts().last().id == f.id_count
        &&& f.focused_id == Some(f.id_count)
        &&& r is Some
        &&& !r->Some_0.use_saved_buffer
        &&& r->Some_0.redraw_ids is Some
        &&& exists|k: int|
            0 <= k < o.layouts().len() && #[trigger] o.layouts()[k].kind == WindowLikeType::Taskbar
                && r->Some_0.redraw_ids->Some_0@ == seq![f.id_count, o.layouts()[k].id]
    }
    &&& o.count_of(WindowLikeType::StartMenu) > 0 ==> {
        &&& closes_start_menu(o, f.layouts())
        &&& f.count_of(WindowLikeType::StartMenu) == 0
        &&& f.id_count == o.id_count
        &&& (f.focused_id matches Some(fid) && exists|k: int|
            0 <= k < o.layouts().len() && #[trigger] o.layouts()[k].id == fid && o.layouts()[k].kind
                == WindowLikeType::Taskbar)
        &&& repaints_all(r)
    }
}

/// What handing the character `c` to the focused surface does: nothing
/// without a focused surface; otherwise the surface handles it (see
/// `WindowLike::handles`) and its answer is acted on.
pub open spec fn forward_outcome(o: WindowManager, f: WindowManager, r: Option<RenderRequest>, c: char) -> bool {
    &&& f.wf()
    &&& f.id_count >= o.id_count
    &&& f.held_special_keys == o.held_special_keys
    &&& f.current_workspace == o.current_workspace
    &&& (forall|i: int| !o.is_focused_index(i)) ==> r is None && f == o
    &&& forall|i: int| #[trigger] o.is_focused_index(i) ==> exists|m: WindowMessage, mid: WindowManager, resp: WindowMessageResponse|
        key_delivered(o, i, c, m, mid, resp) && answer_outcome(o.layouts()[i].id, mid, resp, f, r)
}

/// What one key event does to the compositor `o`, leaving `f` and
/// answering `r`.
pub open spec fn key_outcome(o: WindowManager, f: WindowManager, r: Option<RenderRequest>, key_char: KeyChar) -> bool {
    match key_char {
        KeyChar::SpecialPress(k) => {
            &&& r is None
            &&& same_but_keys(o, f)
            &&& f.held_special_keys@ == o.held_special_keys@.push(k)
        },
        KeyChar::SpecialRelease(k) => {
            &&& r is None
            &&& same_but_keys(o, f)
            &&& !holds_key(o.held_special_keys@, k@) ==> f.held_special_keys@ == o.held_special_keys@
            &&& forall|i: int| #[trigger] first_key_at(o.held_special_keys@, k@, i) ==> f.held_special_keys@
                == o.held_special_keys@.remove(i)
        },
        KeyChar::Press(c) => match o.pending_shortcut(c) {
            Some(ShortcutType::FocusNextWindow) => focus_next_outcome(o, f, r),
            Some(ShortcutType::MoveWindow(d)) => move_outcome(o, f, r, d, false),
            Some(ShortcutType::MoveWindowToEdge(d)) => move_outcome(o, f, r, d, true),
            Some(ShortcutType::SwitchWorkspace(w)) => switch_outcome(o, f, r, w),
            Some(ShortcutType::MoveWindowToWorkspace(w)) => move_to_workspace_outcome(o, f, r, w),
            Some(ShortcutType::QuitWindow) => quit_outcome(o, f, r),
            Some(ShortcutType::StartMenu) => {
                &&& f.current_workspace == o.current_workspace
                &&& f.held_special_keys == o.held_special_keys
                &&& !f.locked
                &&& start_menu_outcome(o, f, r)
            },
            None => forward_outcome(o, f, r, c),
        },
    }
}

impl WindowManager {
    /// Whether `other` has the same scalar state: counter, screen, theme,
    /// focus, held keys, lock and workspace.
    pub open spec fn same_scalars(&self, other: &WindowManager) -> bool {
        &&& other.id_count == self.id_count
        &&& other.dimensions == self.dimensions
        &&& other.theme == self.theme
        &&& other.focused_id == self.focused_id
        &&& other.held_special_keys == self.held_special_keys
        &&& other.locked == self.locked
        &&& other.current_workspace == self.current_workspace
    }

    /// Whether entry `i` is focused and is an ordinary window.
    pub open spec fn is_focused_window(&self, i: int) -> bool {
        self.is_focused_index(i) && self.layouts()[i].kind == WindowLikeType::Window
    }

    /// Whether entry `j` takes part in focus cycling: an ordinary window of
    /// the active workspace. Windows of other workspaces are left out on
    /// purpose: they are not shown, so focusing one would send typed keys to
    /// a window the user cannot see.
    pub open spec fn is_cycle_candidate(&self, j: int) -> bool {
        &&& 0 <= j < self.layouts().len()
        &&& self.layouts()[j].kind == WindowLikeType::Window
        &&& visible_in(self.layouts()[j].workspace, self.current_workspace, false)
    }

    /// The focused id, or zero (below every id) when nothing is focused.
    pub open spec fn focus_key(&self) -> int {
        match self.focused_id {
            Some(f) => f as int,
            None => 0,
        }
    }

    /// Whether entry `idx` is the window that focus moves to: the candidate
    /// with the smallest id above the focused one, or, when there is none,
    /// the candidate with the smallest id of all. Ids only grow, so this
    /// walks the windows round in the order they were opened.
    pub open spec fn is_next_window(&self, idx: int) -> bool {
        let k = self.focus_key();
        &&& self.is_cycle_candidate(idx)
        &&& if exists|j: int| #[trigger] self.is_cycle_candidate(j) && self.layouts()[j].id > k {
            &&& self.layouts()[idx].id > k
            &&& forall|j: int| #[trigger] self.is_cycle_candidate(j) && self.layouts()[j].id > k
                ==> self.layouts()[idx].id <= self.layouts()[j].id
        } else {
            forall|j: int| #[trigger] self.is_cycle_candidate(j) ==> self.layouts()[idx].id <= self.layouts()[j].id
        }
    }

    /// The focused entry, if it is an ordinary window.
    fn focused_window_index(&self) -> (r: Option<usize>)
        requires
            self.wf(),
        ensures
            r matches Some(i) ==> self.is_focused_window(i as int),
            r is None ==> forall|i: int| !self.is_focused_window(i),
    {
        match self.get_focused_index() {
            Some(i) => {
                assert(self.layouts()[i as int] == self.window_infos@[i as int].layout());
                if self.window_infos[i].window_like.subtype() == WindowLikeType::Window {
                    Some(i)
                } else {
                    proof {
                        self.lemma_focused_sender(i as int);
                    }
                    None
                }
            },
            None => None,
        }
    }

    /// Nudges or snaps the focused ordinary window; see `moved_position`.
    fn shortcut_move(&mut self, direction: Direction, to_edge: bool) -> (r: Option<RenderRequest>)
        requires
            old(self).wf(),
        ensures
            final(self).wf(),
            move_outcome(*old(self), *final(self), r, direction, to_edge),
    {
        let i = match self.focused_window_index() {
            Some(i) => i,
            None => {
                return None;
            },
        };
        proof {
            self.lemma_focused_sender(i as int);
            assert(self.layouts()[i as int] == self.window_infos@[i as int].layout());
        }
        let moved = compute_move(
            self.window_infos[i].top_left,
            self.window_infos[i].dimensions,
            self.dimensions,
            direction,
            to_edge,
        );
        match moved {
            Some(p) => {
                let id = self.window_infos[i].id;
                self.window_infos[i].top_left = p;
                proof {
                    let ol = old(self).layouts();
                    assert(self.layouts() =~= ol.update(i as int, EntryLayout { top_left: p, ..ol[i as int] }));
                    assert(self.kinds() =~= old(self).kinds());
                    let ls = self.layouts();
                    assert forall|a: int| 0 <= a < ls.len() implies #[trigger] ls[a].id == ol[a].id
                        && ls[a].workspace == ol[a].workspace && ls[a].kind == ol[a].kind by {}
                    assert forall|a: int| 0 <= a < ls.len() implies #[trigger] entry_workspace_ok(ls[a]) by {
                        assert(entry_workspace_ok(ol[a]));
                    }
                    if let Some(f) = self.focused_id {
                        let k = choose|k: int| 0 <= k < ol.len() && #[trigger] ol[k].id == f;
                        assert(ls[k].id == f);
                    }
                }
                let ids = vec![id];
                assert(ids@ =~= seq![id]);
                let r = Some(RenderRequest { redraw_ids: Some(ids), use_saved_buffer: true });
                assert(forall|j: int| old(self).is_focused_window(j) ==> j == i);
                r
            },
            None => {
                assert(forall|j: int| old(self).is_focused_window(j) ==> j == i);
                None
            },
        }
    }


    /// Makes `workspace` the active one, closing the start menu and telling
    /// the indicator and the taskbar; nothing at all if it already is.
    fn shortcut_switch_workspace(&mut self, workspace: u8) -> (r: Option<RenderRequest>)
        requires
            old(self).wf(),
            !old(self).locked,
            workspace < WORKSPACE_COUNT,
        ensures
            final(self).wf(),
            switch_outcome(*old(self), *final(self), r, workspace),
    {
        if self.current_workspace == workspace {
            return None;
        }
        self.toggle_start_menu(true);
        self.current_workspace = workspace;
        let indicator_index = match self.position_of_kind(WindowLikeType::WorkspaceIndicator) {
            Some(i) => i,
            None => {
                return None;
            },
        };
        self.focused_id = Some(self.window_infos[indicator_index].id);
        proof {
            assert(self.layouts()[indicator_index as int] == self.window_infos@[indicator_index as int].layout());
            assert(self.layouts()[indicator_index as int].id == self.window_infos@[indicator_index as int].id);
            assert(self.has_id(self.window_infos@[indicator_index as int].id));
        }
        self.message_entry(
            indicator_index,
            WindowMessage::Shortcut(ShortcutType::SwitchWorkspace(workspace)),
        );
        assert(self.layouts()[indicator_index as int] == self.window_infos@[indicator_index as int].layout());
        let ghost told = self.window_infos@[indicator_index as int];
        assert(told.window_like matches WindowBox::WorkspaceIndicator(wi) && wi.current_workspace == workspace);
        self.taskbar_update_windows();
        assert(self.window_infos@[indicator_index as int] == told);
        Some(RenderRequest { redraw_ids: None, use_saved_buffer: false })
    }

    /// Moves the focused ordinary window to `workspace`, unless that is the
    /// active one.
    fn shortcut_move_to_workspace(&mut self, workspace: u8) -> (r: Option<RenderRequest>)
        requires
            old(self).wf(),
            !old(self).locked,
            workspace < WORKSPACE_COUNT,
        ensures
            final(self).wf(),
            move_to_workspace_outcome(*old(self), *final(self), r, workspace),
    {
        if self.current_workspace == workspace {
            return None;
        }
        let i = match self.focused_window_index() {
            Some(i) => i,
            None => {
                return None;
            },
        };
        proof {
            self.lemma_focused_sender(i as int);
            assert(self.layouts()[i as int] == self.window_infos@[i as int].layout());
        }
        self.window_infos[i].workspace = Workspace::Workspace(workspace);
        proof {
            let ol = old(self).layouts();
            assert(self.layouts() =~= ol.update(
                i as int,
                EntryLayout { workspace: Workspace::Workspace(workspace), ..ol[i as int] },
            ));
            assert(self.kinds() =~= old(self).kinds());
            let ls = self.layouts();
            assert forall|a: int| 0 <= a < ls.len() implies #[trigger] ls[a].id == ol[a].id && ls[a].kind
                == ol[a].kind by {}
            assert forall|a: int| 0 <= a < ls.len() implies #[trigger] entry_workspace_ok(ls[a]) by {
                assert(entry_workspace_ok(ol[a]));
            }
            if let Some(f) = self.focused_id {
                let k = choose|k: int| 0 <= k < ol.len() && #[trigger] ol[k].id == f;
                assert(ls[k].id == f);
            }
            assert(forall|j: int| old(self).is_focused_window(j) ==> j == i);
        }
        self.taskbar_update_windows();
        Some(RenderRequest { redraw_ids: None, use_saved_buffer: false })
    }

    /// Closes the focused ordinary window; focus is then on nothing.
    fn shortcut_quit(&mut self) -> (r: Option<RenderRequest>)
        requires
            old(self).wf(),
            !old(self).locked,
        ensures
            final(self).wf(),
            quit_outcome(*old(self), *final(self), r),
    {
        let i = match self.focused_window_index() {
            Some(i) => i,
            None => {
                return None;
            },
        };
        proof {
            self.lemma_focused_sender(i as int);
            assert(self.kinds()[i as int] == WindowLikeType::Window);
            assert(forall|j: int| old(self).is_focused_window(j) ==> j == i);
        }
        self.remove_entry(i);
        self.taskbar_update_windows();
        Some(RenderRequest { redraw_ids: None, use_saved_buffer: false })
    }


    /// Focuses the next ordinary window of the active workspace in id
    /// order, going round, and raises it to the top.
    fn shortcut_focus_next(&mut self) -> (r: Option<RenderRequest>)
        requires
            old(self).wf(),
            !old(self).locked,
        ensures
            final(self).wf(),
            focus_next_outcome(*old(self), *final(self), r),
    {
        let ghost k = self.focus_key();
        let mut above: Option<usize> = None;
        let mut least: Option<usize> = None;
        let mut i: usize = 0;
        while i < self.window_infos.len()
            invariant
                i <= self.window_infos@.len(),
                self.layouts().len() == self.window_infos@.len(),
                k == self.focus_key(),
                above matches Some(b) ==> {
                    &&& b < i
                    &&& self.is_cycle_candidate(b as int)
                    &&& self.layouts()[b as int].id > k
                    &&& forall|j: int| 0 <= j < i && #[trigger] self.is_cycle_candidate(j) && self.layouts()[j].id > k
                        ==> self.layouts()[b as int].id <= self.layouts()[j].id
                },
                above is None ==> forall|j: int| 0 <= j < i && #[trigger] self.is_cycle_candidate(j) ==> self.layouts()[j].id <= k,
                least matches Some(b) ==> {
                    &&& b < i
                    &&& self.is_cycle_candidate(b as int)
                    &&& forall|j: int| 0 <= j < i && #[trigger] self.is_cycle_candidate(j) ==> self.layouts()[b as int].id
                        <= self.layouts()[j].id
                },
                least is None ==> forall|j: int| 0 <= j < i ==> !#[trigger] self.is_cycle_candidate(j),
            decreases self.window_infos@.len() - i,
        {
            let info = &self.window_infos[i];
            assert(self.layouts()[i as int] == self.window_infos@[i as int].layout());
            let candidate = info.window_like.subtype() == WindowLikeType::Window && match info.workspace {
                Workspace::Workspace(w) => w == self.current_workspace,
                Workspace::All => false,
            };
            if candidate {
                let id = info.id;
                let is_above = match self.focused_id {
                    Some(f) => id > f,
                    None => id > 0,
                };
                if is_above {
                    match above {
                        Some(b) => {
                            if id < self.window_infos[b].id {
                                above = Some(i);
                            }
                        },
                        None => {
                            above = Some(i);
                        },
                    }
                }
                match least {
                    Some(b) => {
                        if id < self.window_infos[b].id {
                            least = Some(i);
                        }
                    },
                    None => {
                        least = Some(i);
                    },
                }
            }
            i = i + 1;
        }
        let chosen = match above {
            Some(b) => b,
            None => match least {
                Some(b) => b,
                None => {
                    return None;
                },
            },
        };
        let id = self.window_infos[chosen].id;
        proof {
            assert(self.layouts()[chosen as int] == self.window_infos@[chosen as int].layout());
            assert(self.is_next_window(chosen as int));
            assert(self.layouts()[chosen as int].id == id);
            assert(self.has_id(id));
        }
        self.focused_id = Some(id);
        self.move_index_to_top(chosen);
        self.taskbar_update_windows();
        Some(RenderRequest { redraw_ids: None, use_saved_buffer: false })
    }

    /// Whether the modifier `key` is held.
    fn is_held(&self, key: &str) -> (r: bool)
        ensures
            r == holds_key(self.held_special_keys@, key@),
    {
        match self.held_key_position(key) {
            Some(_) => true,
            None => false,
        }
    }

    /// Where the modifier `key` first stands among the held ones.
    fn held_key_position(&self, key: &str) -> (r: Option<usize>)
        ensures
            r matches Some(i) ==> first_key_at(self.held_special_keys@, key@, i as int),
            r is None ==> !holds_key(self.held_special_keys@, key@),
    {
        let mut i: usize = 0;
        while i < self.held_special_keys.len()
            invariant
                i <= self.held_special_keys@.len(),
                forall|j: int| 0 <= j < i ==> (#[trigger] self.held_special_keys@[j])@ != key@,
            decreases self.held_special_keys@.len() - i,
        {
            if self.held_special_keys[i].eq(key) {
                return Some(i);
            }
            i = i + 1;
        }
        None
    }

    /// The shortcut that pressing `c` triggers now, if any: shortcuts need
    /// "alt" held and the system unlocked.
    pub open spec fn pending_shortcut(&self, c: char) -> Option<ShortcutType> {
        if holds_key(self.held_special_keys@, "alt"@) && !self.locked {
            shortcut_key(c)
        } else {
            None
        }
    }

    /// Toggles the start menu through the taskbar and carries out what the
    /// taskbar asks; the menu and the taskbar are repainted when it opens.
    fn shortcut_start_menu(&mut self) -> (r: Option<RenderRequest>)
        requires
            old(self).wf(),
            !old(self).locked,
            old(self).id_count <= usize::MAX - 3,
        ensures
            final(self).wf(),
            final(self).id_count >= old(self).id_count,
            final(self).current_workspace == old(self).current_workspace,
            final(self).held_special_keys == old(self).held_special_keys,
            !final(self).locked,
            start_menu_outcome(*old(self), *final(self), r),
    {
        let had_menu = self.position_of_kind(WindowLikeType::StartMenu).is_some();
        let response = self.toggle_start_menu(false);
        let ghost mid = *self;
        let taskbar_index = match self.position_of_kind(WindowLikeType::Taskbar) {
            Some(t) => t,
            None => {
                return None;
            },
        };
        let taskbar_id = self.window_infos[taskbar_index].id;
        assert(self.layouts()[taskbar_index as int] == self.window_infos@[taskbar_index as int].layout());
        assert(old(self).layouts()[taskbar_index as int].id == taskbar_id);
        let start_menu_id = self.id_count + 1;
        match response {
            WindowMessageResponse::Request(request) => {
                let ghost req = request;
                self.handle_request(request);
                assert(request_outcome(mid, *self, req));
                if had_menu {
                    Some(RenderRequest { redraw_ids: None, use_saved_buffer: false })
                } else {
                    let ids = vec![start_menu_id, taskbar_id];
                    assert(ids@ =~= seq![start_menu_id, taskbar_id]);
                    assert(mid.layouts() == old(self).layouts());
                    assert(old(self).layouts()[taskbar_index as int].kind == WindowLikeType::Taskbar);
                    assert(start_menu_id == self.id_count);
                    let r = Some(RenderRequest { redraw_ids: Some(ids), use_saved_buffer: false });
                    assert(r->Some_0.redraw_ids->Some_0@ == seq![self.id_count, old(self).layouts()[taskbar_index as int].id]);
                    r
                }
            },
            _ => None,
        }
    }

    /// Hands the typed character `c` to the focused surface and acts on its
    /// answer: a repaint of that surface alone, or a request.
    fn forward_key(&mut self, c: char) -> (r: Option<RenderRequest>)
        requires
            old(self).wf(),
        ensures
            forward_outcome(*old(self), *final(self), r, c),
    {
        let i = match self.get_focused_index() {
            Some(i) => i,
            None => {
                return None;
            },
        };
        proof {
            self.lemma_focused_sender(i as int);
            assert(self.layouts()[i as int] == self.window_infos@[i as int].layout());
        }
        let id = self.window_infos[i].id;
        let keys = self.held_special_keys.clone();
        let message = WindowMessage::KeyPress(KeyPress { key: c, held_special_keys: keys });
        let ghost m = message;
        let response = self.message_entry(i, message);
        let ghost mid = *self;
        let ghost resp = response;
        assert(key_delivered(*old(self), i as int, c, m, mid, resp));
        let r = match response {
            WindowMessageResponse::JustRerender => {
                let ids = vec![id];
                assert(ids@ =~= seq![id]);
                Some(RenderRequest { redraw_ids: Some(ids), use_saved_buffer: false })
            },
            WindowMessageResponse::Request(request) => {
                self.handle_request(request);
                Some(RenderRequest { redraw_ids: None, use_saved_buffer: false })
            },
            WindowMessageResponse::DoNothing => None,
        };
        assert(answer_outcome(old(self).layouts()[i as int].id, mid, resp, *self, r));
        assert(forall|j: int| old(self).is_focused_index(j) ==> j == i);
        r
    }

    /// Handles one input event: modifiers are tracked, a shortcut is carried
    /// out, and any other character goes to the focused surface. The answer
    /// says what to repaint, or `None` for nothing. Once the id counter is
    /// nearly exhausted every event is ignored.
    pub fn handle_message(&mut self, message: WindowManagerMessage) -> (r: Option<RenderRequest>)
        requires
            old(self).wf(),
        ensures
            final(self).wf(),
            final(self).id_count >= old(self).id_count,
            old(self).id_count > usize::MAX - 3 ==> r is None && *final(self) == *old(self),
            old(self).id_count <= usize::MAX - 3 ==> key_outcome(*old(self), *final(self), r, message->KeyChar_0),
    {
        if self.id_count > usize::MAX - 3 {
            return None;
        }
        let WindowManagerMessage::KeyChar(key_char) = message;
        match key_char {
            KeyChar::Press(c) => {
                let shortcut = if !self.locked && self.is_held("alt") {
                    shortcut_for(c)
                } else {
                    None
                };
                assert(shortcut == old(self).pending_shortcut(c));
                let r = match shortcut {
                    Some(ShortcutType::StartMenu) => self.shortcut_start_menu(),
                    Some(ShortcutType::MoveWindow(direction)) => self.shortcut_move(direction, false),
                    Some(ShortcutType::MoveWindowToEdge(direction)) => self.shortcut_move(direction, true),
                    Some(ShortcutType::SwitchWorkspace(workspace)) => self.shortcut_switch_workspace(workspace),
                    Some(ShortcutType::MoveWindowToWorkspace(workspace)) => self.shortcut_move_to_workspace(
                        workspace,
                    ),
                    Some(ShortcutType::FocusNextWindow) => self.shortcut_focus_next(),
                    Some(ShortcutType::QuitWindow) => self.shortcut_quit(),
                    None => self.forward_key(c),
                };
                assert(key_outcome(*old(self), *self, r, key_char));
                r
            },
            KeyChar::SpecialPress(special_key) => {
                self.held_special_keys.push(special_key);
                assert(key_outcome(*old(self), *self, None, key_char));
                None
            },
            KeyChar::SpecialRelease(special_key) => {
                match self.held_key_position(special_key) {
                    Some(i) => {
                        proof {
                            assert forall|j: int| #[trigger] first_key_at(self.held_special_keys@, special_key@, j)
                                implies j == i by {
                                if j < i {
                                    assert(self.held_special_keys@[j]@ != special_key@);
                                } else if j > i {
                                    assert(self.held_special_keys@[i as int]@ != special_key@);
                                }
                            }
                        }
                        self.held_special_keys.remove(i);
                    },
                    None => {},
                }
                assert(key_outcome(*old(self), *self, None, key_char));
                None
            },
        }
    }

    /// The event that a key gives with the held modifiers: with "shift"
    /// held a character is shifted.
    pub open spec fn shifted_key(&self, key_char: KeyChar) -> KeyChar {
        match key_char {
            KeyChar::Press(c) => if holds_key(self.held_special_keys@, "shift"@) {
                KeyChar::Press(shifted(c))
            } else {
                key_char
            },
            _ => key_char,
        }
    }

    /// Feeds a decoded key event in, shifting the character while "shift"
    /// is held.
    pub fn keyboard_emit(&mut self, key_char: KeyChar) -> (r: Option<RenderRequest>)
        requires
            old(self).wf(),
        ensures
            final(self).wf(),
            final(self).id_count >= old(self).id_count,
            old(self).id_count > usize::MAX - 3 ==> r is None && *final(self) == *old(self),
            old(self).id_count <= usize::MAX - 3 ==> key_outcome(
                *old(self),
                *final(self),
                r,
                old(self).shifted_key(key_char),
            ),
    {
        let kc = match key_char {
            KeyChar::Press(c) => if self.is_held("shift") {
                KeyChar::Press(uppercase_or_special(c))
            } else {
                key_char
            },
            _ => key_char,
        };
        self.handle_message(WindowManagerMessage::KeyChar(kc))
    }
}

} // verus!
