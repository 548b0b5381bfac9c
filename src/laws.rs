//! Properties of the compositor that relate several operations or hold of
//! every state.
use vstd::prelude::*;

use crate::framebuffer::{Dimensions, Point};
use crate::input::{
    RenderRequest, answer_outcome, key_delivered, key_outcome, minus_or_zero, moved_position,
};
use crate::keyboard::{ENTER_KEY, KeyChar};
use crate::messages::{Direction, WindowMessage, WindowMessageResponse};
use crate::window_likes::lock_screen::password_matches;
use crate::window_manager::{MOVE_STEP, WindowBox, WindowLike, WindowLikeType, WindowManager};

verus! {

/// A window already at the left edge does not move left; one that a step
/// right would carry past `screen width - window width` stops exactly there.
pub proof fn move_clamps_horizontally(pos: Point, win: Dimensions, screen: Dimensions, to_edge: bool)
    ensures
        pos[0] == 0 ==> moved_position(pos, win, screen, Direction::Left, to_edge) is None,
        ({
            let max_x = minus_or_zero(screen[0] as int, win[0] as int);
            pos[0] != max_x && pos[0] + MOVE_STEP > max_x ==> moved_position(
                pos,
                win,
                screen,
                Direction::Right,
                to_edge,
            ) == Some([max_x as usize, pos[1]])
        }),
{
}

/// The id that the next opened entry gets, one above the counter, is above
/// every id in use; and ids that were used are never above the counter, which
/// only grows. So ids strictly increase and are never handed out twice.
pub proof fn next_id_is_fresh(wm: WindowManager)
    requires
        wm.wf(),
    ensures
        forall|i: int| 0 <= i < wm.layouts().len() ==> #[trigger] wm.layouts()[i].id < wm.id_count + 1,
{
    assert forall|i: int| 0 <= i < wm.layouts().len() implies #[trigger] wm.layouts()[i].id < wm.id_count + 1 by {
        assert(1 <= wm.layouts()[i].id <= wm.id_count);
    }
}

/// While the system is locked, whatever is focused is the lock screen, so
/// an unlock request that the lock screen sends is honoured.
pub proof fn locked_sender_is_lock_screen(wm: WindowManager)
    requires
        wm.wf(),
        wm.locked,
        wm.focused_id is Some,
    ensures
        wm.sender() == Some(WindowLikeType::LockScreen),
{
    let f = wm.focused_id->Some_0;
    let i = choose|i: int| 0 <= i < wm.layouts().len() && #[trigger] wm.layouts()[i].id == f;
    assert(wm.kinds().len() == wm.layouts().len());
    assert(wm.kinds() == seq![WindowLikeType::LockScreen]);
    assert(wm.kinds()[i] == wm.layouts()[i].kind);
    assert(wm.kinds()[i] == WindowLikeType::LockScreen);
    assert(wm.is_focused_index(i));
    wm.lemma_focused_sender(i);
}

/// Pressing enter while locked hands the key to the lock screen. A typed
/// password whose digest is not the stored one leaves the system locked,
/// with the same single entry, and empties the typed password; one whose
/// digest is the stored one unlocks the desktop.
pub proof fn enter_on_the_lock_screen(o: WindowManager, f: WindowManager, r: Option<RenderRequest>)
    requires
        o.wf(),
        o.locked,
        o.focused_id is Some,
        o.id_count <= usize::MAX - 3,
        key_outcome(o, f, r, KeyChar::Press(ENTER_KEY)),
    ensures
        (o.window_infos@[0].window_like matches WindowBox::LockScreen(ls) && !password_matches(ls.input_password@))
            ==> {
            &&& f.locked
            &&& f.layouts() == o.layouts()
            &&& f.id_count == o.id_count
            &&& (f.window_infos@[0].window_like matches WindowBox::LockScreen(n) && n.input_password@.len() == 0)
        },
        (o.window_infos@[0].window_like matches WindowBox::LockScreen(ls) && password_matches(ls.input_password@))
            ==> {
            &&& !f.locked
            &&& f.kinds() == seq![
                WindowLikeType::DesktopBackground,
                WindowLikeType::Taskbar,
                WindowLikeType::WorkspaceIndicator,
            ]
        },
{
    locked_sender_is_lock_screen(o);
    assert(o.kinds().len() == o.layouts().len());
    assert(o.kinds() == seq![WindowLikeType::LockScreen]);
    assert(o.pending_shortcut(ENTER_KEY) is None);
    let fid = o.focused_id->Some_0;
    let i = choose|i: int| 0 <= i < o.layouts().len() && #[trigger] o.layouts()[i].id == fid;
    assert(i == 0);
    assert(o.is_focused_index(0));
    let (m, mid, resp) = choose|m: WindowMessage, mid: WindowManager, resp: WindowMessageResponse|
        key_delivered(o, 0, ENTER_KEY, m, mid, resp) && answer_outcome(o.layouts()[0].id, mid, resp, f, r);
    assert(mid.layouts() == o.layouts());
    assert(mid.is_focused_index(0));
    mid.lemma_focused_sender(0);
    assert(o.layouts()[0] == o.window_infos@[0].layout());
    assert(mid.layouts()[0] == mid.window_infos@[0].layout());
}

} // verus!
