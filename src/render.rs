//! What a repaint draws: the visible entries of the active workspace, each
//! as a window-sized list of instructions clipped to the entry.
use vstd::prelude::*;

use crate::framebuffer::{DEFAULT_FONT, Dimensions, Point};
use crate::themes::{ThemeInfo, get_theme_info, standard_theme};
use crate::window_manager::{
    DrawInstructions, EntryLayout, WINDOW_TOP_HEIGHT, WindowLike, WindowLikeInfo, WindowLikeType, WindowManager, Workspace,
    min, visible_in,
};

verus! {

/// One surface to paint: its instructions, in its own coordinates, make a
/// window-sized image that goes to `top_left` on the screen. When
/// `save_before` holds, the screen is snapshotted first.
pub struct RenderStep {
    pub id: usize,
    pub save_before: bool,
    pub top_left: Point,
    pub dimensions: Dimensions,
    pub instructions: Vec<DrawInstructions>,
}

/// A repaint: restore the saved snapshot first if `restore_saved`, then
/// paint the steps in order.
pub struct RenderPlan {
    pub restore_saved: bool,
    pub steps: Vec<RenderStep>,
}

/// The ids asked for; `None` stands for every visible entry.
pub open spec fn redraw_list(maybe_redraw_ids: Option<Vec<usize>>) -> Option<Seq<usize>> {
    match maybe_redraw_ids {
        Some(ids) => Some(ids@),
        None => None,
    }
}

/// Whether an entry is repainted: it is visible in workspace `current`
/// and, when a list of ids is given, its id is in it.
pub open spec fn is_selected(l: EntryLayout, current: u8, ids: Option<Seq<usize>>) -> bool {
    visible_in(l.workspace, current, true) && (ids matches Some(v) ==> v.contains(l.id))
}

/// The entries repainted for `ids` in workspace `current`, in paint order.
pub open spec fn selected(ls: Seq<EntryLayout>, current: u8, ids: Option<Seq<usize>>) -> Seq<EntryLayout> {
    ls.filter(|l: EntryLayout| is_selected(l, current, ids))
}

/// Whether a rectangle of `instruction` stays inside a surface of size
/// `win` (an empty one counts as inside).
pub open spec fn clipped_to(instruction: DrawInstructions, win: Dimensions) -> bool {
    match instruction {
        DrawInstructions::Rect(p, d, _) => (d[0] == 0 || p[0] + d[0] <= win[0]) && (d[1] == 0 || p[1] + d[1]
            <= win[1]),
        _ => true,
    }
}

/// The part of `len` that fits from `start` within `limit`.
pub open spec fn fit(start: usize, len: usize, limit: usize) -> usize {
    if start >= limit {
        0
    } else if len <= limit - start {
        len
    } else {
        (limit - start) as usize
    }
}

/// Whether `instruction` fills the whole of a surface of size `dims` with `color`.
pub open spec fn fills_background(instruction: DrawInstructions, dims: Dimensions, color: [u8; 3]) -> bool {
    instruction matches DrawInstructions::Rect(p, d, c) && p[0] == 0 && p[1] == 0 && d[0] == dims[0] && d[1]
        == dims[1] && c == color
}

/// `instruction` with a rectangle cut down to fit a surface of size `win`;
/// other instructions unchanged.
pub open spec fn clip_spec(instruction: DrawInstructions, win: Dimensions) -> DrawInstructions {
    match instruction {
        DrawInstructions::Rect(p, d, c) => DrawInstructions::Rect(p, [fit(p[0], d[0], win[0]), fit(p[1], d[1], win[1])], c),
        _ => instruction,
    }
}

/// Each of `s` cut down to fit a surface of size `win`.
pub open spec fn clip_all(s: Seq<DrawInstructions>, win: Dimensions) -> Seq<DrawInstructions> {
    s.map_values(|i: DrawInstructions| clip_spec(i, win))
}

/// Whether `out` is the chrome of an ordinary window of size `dims`: the
/// near borders, the title bar with `title` on it, and three more border
/// strips.
pub open spec fn is_chrome(out: Seq<DrawInstructions>, dims: Dimensions, title: &'static str, theme: ThemeInfo) -> bool {
    &&& out.len() == 7
    &&& out[0] == DrawInstructions::Rect([0usize, 0usize], [dims[0], 1usize], theme.border_left_top)
    &&& out[1] == DrawInstructions::Rect([0usize, 0usize], [1usize, dims[1]], theme.border_left_top)
    &&& (out[2] matches DrawInstructions::Rect(p, _, c) && p == [1usize, 1usize] && c == theme.top)
    &&& (out[3] matches DrawInstructions::Text(p, _, t, ink, paper) && p == [4usize, 4usize] && t@ == title@
        && ink == theme.text_top && paper == theme.top)
    &&& (out[4] matches DrawInstructions::Rect(_, _, c) && c == theme.border_left_top)
    &&& (out[5] matches DrawInstructions::Rect(_, _, c) && c == theme.border_right_bottom)
    &&& (out[6] matches DrawInstructions::Rect(_, _, c) && c == theme.border_right_bottom)
}

/// Whether `out` paints entry `info` with palette `theme`: what its surface
/// draws, clipped to the entry's size; an ordinary window's inside its
/// background first and its chrome after.
pub open spec fn paints(info: WindowLikeInfo, theme: ThemeInfo, out: Seq<DrawInstructions>) -> bool {
    exists|own: Seq<DrawInstructions>, chrome: Seq<DrawInstructions>|
        #![trigger info.window_like.draws(theme, own), own + chrome]
        {
            &&& info.window_like.draws(theme, own)
            &&& info.kind() == WindowLikeType::Window ==> {
                &&& is_chrome(chrome, info.dimensions, info.window_like.spec_title(), theme)
                &&& out == seq![DrawInstructions::Rect([0usize, 0usize], info.dimensions, theme.background)] + clip_all(
                    own + chrome,
                    info.dimensions,
                )
            }
            &&& info.kind() != WindowLikeType::Window ==> out == clip_all(own, info.dimensions)
        }
}

/// `instruction` with a rectangle cut down to fit a surface of size `win`;
/// other instructions unchanged.
pub fn clip_instruction(instruction: DrawInstructions, win: Dimensions) -> (r: DrawInstructions)
    ensures
        clipped_to(r, win),
        r == clip_spec(instruction, win),
        instruction matches DrawInstructions::Rect(p, d, c) ==> r == DrawInstructions::Rect(
            p,
            [fit(p[0], d[0], win[0]), fit(p[1], d[1], win[1])],
            c,
        ),
        !(instruction is Rect) ==> r == instruction,
{
    match instruction {
        DrawInstructions::Rect(top_left, dimensions, color) => {
            let true_dimensions = [
                min(dimensions[0], win[0].saturating_sub(top_left[0])),
                min(dimensions[1], win[1].saturating_sub(top_left[1])),
            ];
            DrawInstructions::Rect(top_left, true_dimensions, color)
        },
        other => other,
    }
}

/// Whether `id` is among `ids`.
fn contains_id(ids: &Vec<usize>, id: usize) -> (r: bool)
    ensures
        r == ids@.contains(id),
{
    let mut i: usize = 0;
    while i < ids.len()
        invariant
            i <= ids@.len(),
            forall|j: int| 0 <= j < i ==> ids@[j] != id,
        decreases ids@.len() - i,
    {
        if ids[i] == id {
            assert(ids@[i as int] == id);
            return true;
        }
        i = i + 1;
    }
    false
}

/// The palette used when a theme has none.
fn standard_theme_info() -> ThemeInfo {
    ThemeInfo {
        background: [192, 192, 192],
        border_left_top: [255, 255, 255],
        border_right_bottom: [0, 0, 0],
        text: [0, 0, 0],
        top: [0, 0, 128],
        text_top: [255, 255, 255],
    }
}

impl WindowManager {
    /// The standard chrome around an ordinary window of size `dims`: borders,
    /// and a title bar holding `title`.
    fn window_chrome(dims: Dimensions, title: &'static str, theme_info: &ThemeInfo) -> (r: Vec<DrawInstructions>)
        ensures
            is_chrome(r@, dims, title, *theme_info),
    {
        let w = dims[0];
        let h = dims[1];
        let text = title.to_string();
        assert(text@ == title@);
        let r = vec![
            DrawInstructions::Rect([0, 0], [w, 1], theme_info.border_left_top),
            DrawInstructions::Rect([0, 0], [1, h], theme_info.border_left_top),
            DrawInstructions::Rect([1, 1], [w.saturating_sub(2), WINDOW_TOP_HEIGHT - 3], theme_info.top),
            DrawInstructions::Text([4, 4], DEFAULT_FONT, text, theme_info.text_top, theme_info.top),
            DrawInstructions::Rect([1, WINDOW_TOP_HEIGHT - 2], [w.saturating_sub(2), 2], theme_info.border_left_top),
            DrawInstructions::Rect([w.saturating_sub(1), 1], [1, h.saturating_sub(1)], theme_info.border_right_bottom),
            DrawInstructions::Rect([1, h.saturating_sub(1)], [w.saturating_sub(1), 1], theme_info.border_right_bottom),
        ];
        r
    }

    /// The instructions that paint entry `i`: the surface's own, inside a
    /// background and chrome for an ordinary window, each clipped to the
    /// entry's size.
    fn entry_instructions(&self, i: usize, theme_info: &ThemeInfo) -> (r: Vec<DrawInstructions>)
        requires
            i < self.window_infos@.len(),
        ensures
            forall|k: int| 0 <= k < r@.len() ==> clipped_to(#[trigger] r@[k], self.layouts()[i as int].dimensions),
            self.layouts()[i as int].kind == WindowLikeType::Window ==> {
                &&& r@.len() >= 8
                &&& fills_background(r@[0], self.layouts()[i as int].dimensions, theme_info.background)
            },
            paints(self.window_infos@[i as int], *theme_info, r@),
    {
        let info = &self.window_infos[i];
        let is_window = info.window_like.subtype() == WindowLikeType::Window;
        let mut instructions = info.window_like.draw(theme_info);
        let ghost own = instructions@;
        let ghost chrome_seq: Seq<DrawInstructions> = Seq::empty();
        if is_window {
            let mut chrome = WindowManager::window_chrome(info.dimensions, info.window_like.title(), theme_info);
            proof {
                chrome_seq = chrome@;
            }
            instructions.append(&mut chrome);
        }
        let ghost orig = instructions@;
        assert(orig == own + chrome_seq);
        let mut clipped: Vec<DrawInstructions> = Vec::new();
        if is_window {
            clipped.push(DrawInstructions::Rect([0, 0], info.dimensions, theme_info.background));
            assert(fills_background(clipped@[0], info.dimensions, theme_info.background));
        }
        let ghost start = clipped@;
        let ghost total = clipped@.len() + instructions@.len();
        while instructions.len() > 0
            invariant
                forall|k: int| 0 <= k < clipped@.len() ==> clipped_to(#[trigger] clipped@[k], info.dimensions),
                clipped@.len() + instructions@.len() == total,
                total == start.len() + orig.len(),
                is_window ==> total >= 8,
                is_window ==> clipped@.len() > 0 && fills_background(clipped@[0], info.dimensions, theme_info.background),
                instructions@ == orig.subrange(orig.len() - instructions@.len(), orig.len() as int),
                clipped@ == start + clip_all(orig.subrange(0, orig.len() - instructions@.len()), info.dimensions),
            decreases instructions@.len(),
        {
            let ghost done = orig.len() - instructions@.len();
            let instruction = instructions.remove(0);
            assert(instruction == orig[done]);
            clipped.push(clip_instruction(instruction, info.dimensions));
            assert(orig.subrange(0, done + 1) =~= orig.subrange(0, done).push(orig[done]));
            assert(clip_all(orig.subrange(0, done + 1), info.dimensions) =~= clip_all(
                orig.subrange(0, done),
                info.dimensions,
            ).push(clip_spec(orig[done], info.dimensions)));
            assert(instructions@ =~= orig.subrange(orig.len() - instructions@.len(), orig.len() as int));
            assert(clipped@ =~= start + clip_all(orig.subrange(0, orig.len() - instructions@.len()), info.dimensions));
        }
        assert(orig.subrange(0, orig.len() as int) =~= orig);
        assert(self.layouts()[i as int] == self.window_infos@[i as int].layout());
        assert(is_window ==> start =~= seq![DrawInstructions::Rect([0usize, 0usize], info.dimensions, theme_info.background)]);
        assert(!is_window ==> start =~= Seq::<DrawInstructions>::empty());
        clipped
    }

    /// What to paint, in order: the visible entries of the active workspace
    /// (all of them if no list is given; else those whose ids are listed,
    /// so an empty list repaints nothing), each as a window-sized list of
    /// clipped instructions to be copied to its place (see `paints`: what the
    /// surface draws, inside a background and chrome for an ordinary window).
    /// The topmost of them, if an ordinary window, is preceded by a snapshot
    /// of the screen, unless the saved snapshot is restored first instead.
    pub fn render(&self, maybe_redraw_ids: Option<Vec<usize>>, use_saved_buffer: bool) -> (r: RenderPlan)
        ensures
            r.restore_saved == use_saved_buffer,
            ({
                let sel = selected(self.layouts(), self.current_workspace, redraw_list(maybe_redraw_ids));
                &&& r.steps@.len() == sel.len()
                &&& forall|k: int| 0 <= k < sel.len() ==> {
                    let step = #[trigger] r.steps@[k];
                    &&& step.id == sel[k].id
                    &&& step.top_left == sel[k].top_left
                    &&& step.dimensions == sel[k].dimensions
                    &&& step.save_before == (sel[k].kind == WindowLikeType::Window && !use_saved_buffer && k
                        == sel.len() - 1)
                    &&& forall|j: int| 0 <= j < step.instructions@.len() ==> clipped_to(#[trigger] step.instructions@[j], sel[k].dimensions)
                    &&& sel[k].kind == WindowLikeType::Window ==> {
                        &&& step.instructions@.len() >= 8
                        &&& fills_background(step.instructions@[0], sel[k].dimensions, standard_theme().background)
                    }
                    &&& exists|j: int|
                        0 <= j < self.window_infos@.len() && #[trigger] self.window_infos@[j].layout() == sel[k]
                            && paints(self.window_infos@[j], standard_theme(), step.instructions@)
                }
            }),
    {
        let theme_info = match get_theme_info(&self.theme) {
            Some(t) => t,
            None => standard_theme_info(),
        };
        assert(theme_info == standard_theme());
        let ghost ids = redraw_list(maybe_redraw_ids);
        let everything = maybe_redraw_ids.is_none();
        let redraw_ids = match maybe_redraw_ids {
            Some(v) => v,
            None => Vec::new(),
        };
        assert(!everything ==> ids == Some(redraw_ids@));
        let ghost ls = self.layouts();
        let ghost pred = |l: EntryLayout| is_selected(l, self.current_workspace, ids);
        let mut chosen: Vec<usize> = Vec::new();
        let mut i: usize = 0;
        while i < self.window_infos.len()
            invariant
                i <= ls.len(),
                ls == self.layouts(),
                ls.len() == self.window_infos@.len(),
                !everything ==> ids == Some(redraw_ids@),
                everything ==> ids is None,
                pred == (|l: EntryLayout| is_selected(l, self.current_workspace, ids)),
                chosen@.len() == ls.take(i as int).filter(pred).len(),
                forall|k: int| 0 <= k < chosen@.len() ==> #[trigger] chosen@[k] < i && ls[chosen@[k] as int]
                    == ls.take(i as int).filter(pred)[k],
            decreases self.window_infos@.len() - i,
        {
            let info = &self.window_infos[i];
            let show = match info.workspace {
                Workspace::Workspace(w) => w == self.current_workspace,
                Workspace::All => true,
            } && (everything || contains_id(&redraw_ids, info.id));
            proof {
                assert(ls[i as int] == self.window_infos@[i as int].layout());
                assert(ls.take(i as int + 1) =~= ls.take(i as int).push(ls[i as int]));
                ls.take(i as int).lemma_filter_push(ls[i as int], pred);
                assert(show == pred(ls[i as int]));
            }
            if show {
                chosen.push(i);
            }
            i = i + 1;
        }
        proof {
            assert(ls.take(ls.len() as int) =~= ls);
        }
        let ghost sel = ls.filter(pred);
        assert(sel == selected(self.layouts(), self.current_workspace, ids));
        let count = chosen.len();
        let mut steps: Vec<RenderStep> = Vec::new();
        let mut k: usize = 0;
        while k < count
            invariant
                k <= count,
                count == chosen@.len(),
                count == sel.len(),
                steps@.len() == k,
                ls == self.layouts(),
                ls.len() == self.window_infos@.len(),
                forall|q: int| 0 <= q < chosen@.len() ==> #[trigger] chosen@[q] < ls.len() && ls[chosen@[q] as int]
                    == sel[q],
                forall|q: int| 0 <= q < k ==> {
                    let step = #[trigger] steps@[q];
                    &&& step.id == sel[q].id
                    &&& step.top_left == sel[q].top_left
                    &&& step.dimensions == sel[q].dimensions
                    &&& step.save_before == (sel[q].kind == WindowLikeType::Window && !use_saved_buffer && q
                        == sel.len() - 1)
                    &&& forall|j: int| 0 <= j < step.instructions@.len() ==> clipped_to(#[trigger] step.instructions@[j], sel[q].dimensions)
                    &&& sel[q].kind == WindowLikeType::Window ==> {
                        &&& step.instructions@.len() >= 8
                        &&& fills_background(step.instructions@[0], sel[q].dimensions, standard_theme().background)
                    }
                    &&& paints(self.window_infos@[chosen@[q] as int], standard_theme(), step.instructions@)
                },
                theme_info == standard_theme(),
            decreases count - k,
        {
            let idx = chosen[k];
            let info = &self.window_infos[idx];
            assert(ls[idx as int] == self.window_infos@[idx as int].layout());
            let is_window = info.window_like.subtype() == WindowLikeType::Window;
            let instructions = self.entry_instructions(idx, &theme_info);
            steps.push(
                RenderStep {
                    id: info.id,
                    save_before: is_window && !use_saved_buffer && k == count - 1,
                    top_left: info.top_left,
                    dimensions: info.dimensions,
                    instructions,
                },
            );
            k = k + 1;
        }
        proof {
            assert forall|q: int| #![trigger steps@[q]] 0 <= q < sel.len() implies exists|j: int|
                0 <= j < self.window_infos@.len() && #[trigger] self.window_infos@[j].layout() == sel[q] && paints(
                    self.window_infos@[j],
                    standard_theme(),
                    steps@[q].instructions@,
                ) by {
                let j = chosen@[q] as int;
                assert(ls[j] == self.window_infos@[j].layout());
            }
        }
        RenderPlan { restore_saved: use_saved_buffer, steps }
    }
}

} // verus!
