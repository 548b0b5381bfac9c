use vstd::prelude::*;

use crate::components::Component;
use crate::components::highlight_button::HighlightButton;
use crate::framebuffer::Dimensions;
use crate::keyboard::ENTER_KEY;
use crate::messages::{WindowManagerRequest, WindowMessage, WindowMessageResponse};
use crate::themes::ThemeInfo;
use crate::window_likes::desktop_background::sat_sub;
use crate::window_manager::{DrawInstructions, WindowLike, WindowLikeType};

verus! {

/// How many categories the menu lists.
pub const CATEGORY_COUNT: usize = 9;

/// The width of the logo column on the menu's left, in pixels.
pub const LOGO_WIDTH: usize = 42;

/// The key that moves the highlight up the list.
pub const KEY_UP: char = '1';

/// The key that moves the highlight down the list.
pub const KEY_DOWN: char = '2';

/// The category in row `c` of the menu.
pub open spec fn category(c: int) -> &'static str {
    if c == 0 {
        "About"
    } else if c == 1 {
        "Utils"
    } else if c == 2 {
        "Games"
    } else if c == 3 {
        "Development"
    } else if c == 4 {
        "Files"
    } else if c == 5 {
        "System"
    } else if c == 6 {
        "Misc"
    } else if c == 7 {
        "Help"
    } else {
        "Logout"
    }
}

/// The category in row `c` of the menu.
fn category_name(c: usize) -> (r: &'static str)
    ensures
        r == category(c as int),
{
    match c {
        0 => "About",
        1 => "Utils",
        2 => "Games",
        3 => "Development",
        4 => "Files",
        5 => "System",
        6 => "Misc",
        7 => "Help",
        _ => "Logout",
    }
}

/// What the menu's entries answer.
#[derive(Clone, Copy, Debug)]
pub enum StartMenuMessage {
    CategoryClick(&'static str),
    WindowClick(&'static str),
    Back,
    ChangeAcknowledge,
}

/// Where row `c` of the menu starts: `c` rows of height `y_each` below the
/// top border, or the largest position if that does not fit.
pub open spec fn row_top(c: int, y_each: int) -> int {
    if 1 + c * y_each <= usize::MAX {
        1 + c * y_each
    } else {
        usize::MAX as int
    }
}

/// The entries after the highlight moves from entry `from` to entry `to`:
/// the first is told it lost focus, then the second that it gained it.
pub open spec fn moved_highlight(
    entries: Seq<HighlightButton<StartMenuMessage>>,
    from: int,
    to: int,
) -> Seq<HighlightButton<StartMenuMessage>> {
    let left = entries.update(from, entries[from].next(WindowMessage::Unfocus));
    left.update(to, left[to].next(WindowMessage::Focus))
}

/// The lower case of an ASCII capital; any other character unchanged.
pub open spec fn ascii_lower(c: char) -> char {
    if 'A' <= c && c <= 'Z' {
        ((c as u32 + 32) as u8) as char
    } else {
        c
    }
}

/// The lower case of an ASCII capital; any other character unchanged.
fn to_ascii_lower(c: char) -> (r: char)
    ensures
        r == ascii_lower(c),
{
    if 'A' <= c && c <= 'Z' {
        ((c as u32 + 32) as u8) as char
    } else {
        c
    }
}

/// Whether `name` starts with the letter `key`, ignoring ASCII case.
pub open spec fn initial_is(name: Seq<char>, key: char) -> bool {
    name.len() > 0 && ascii_lower(name[0]) == key
}

/// The menu that the Start toggle opens: a keyboard-navigated list of
/// categories, one of which is highlighted.
pub struct StartMenu {
    pub first_draw: bool,
    pub dimensions: Dimensions,
    pub components: Vec<HighlightButton<StartMenuMessage>>,
    pub current_focus: &'static str,
    pub old_focus: &'static str,
    pub y_each: usize,
}

impl StartMenu {
    /// Whether entry `i` is the first whose name is the focused name.
    pub open spec fn is_focus_index(&self, i: int) -> bool {
        &&& 0 <= i < self.components@.len()
        &&& self.components@[i].name_@ == self.current_focus@
        &&& forall|j: int| 0 <= j < i ==> self.components@[j].name_@ != self.current_focus@
    }

    /// Whether no entry carries the focused name.
    pub open spec fn has_no_focus(&self) -> bool {
        forall|j: int| 0 <= j < self.components@.len() ==> self.components@[j].name_@ != self.current_focus@
    }

    /// The entry that the highlight moves to from entry `i` on `key`.
    pub open spec fn step_index(&self, i: int, key: char) -> int {
        let n = self.components@.len() as int;
        if key == KEY_DOWN {
            if i + 1 == n {
                0
            } else {
                i + 1
            }
        } else {
            if i == 0 {
                n - 1
            } else {
                i - 1
            }
        }
    }

    /// Whether entry `b` is drawn: every entry on a full draw, otherwise only
    /// the entries that just gained or lost the highlight.
    pub open spec fn shows_entry(&self, b: HighlightButton<StartMenuMessage>) -> bool {
        self.first_draw || b.name_@ == self.old_focus@ || b.name_@ == self.current_focus@
    }

    /// The entries drawn, in order.
    pub open spec fn redrawn(&self) -> Seq<HighlightButton<StartMenuMessage>> {
        self.components@.filter(|b: HighlightButton<StartMenuMessage>| self.shows_entry(b))
    }

    /// An empty menu; its entries come with its size.
    pub fn new() -> (r: Self)
        ensures
            r.first_draw,
            r.components@.len() == 0,
            r.dimensions == [0usize, 0usize],
            r.current_focus == "",
            r.old_focus == "",
            r.y_each == 0,
    {
        StartMenu {
            first_draw: true,
            dimensions: [0, 0],
            components: Vec::new(),
            current_focus: "",
            old_focus: "",
            y_each: 0,
        }
    }

    /// What acting on an entry's answer `message` does: leads to `next`,
    /// answering `r`.
    pub open spec fn menu_step(&self, message: Option<StartMenuMessage>, next: Self, r: WindowMessageResponse) -> bool {
        &&& message is None ==> r is DoNothing && next == *self
        &&& (message matches Some(StartMenuMessage::CategoryClick(name)) && name@ == "Logout"@)
            ==> (r matches WindowMessageResponse::Request(WindowManagerRequest::Lock)
            && next == *self)
        &&& (message matches Some(StartMenuMessage::CategoryClick(name)) && name@ != "Logout"@) ==> {
            &&& r is JustRerender
            &&& next.first_draw
            &&& next.current_focus@ == "Back"@
            &&& next.components@.len() == 1
            &&& next.components@[0].name_@ == "Back"@
            &&& next.components@[0].highlighted
            &&& next.components@[0].top_left == [LOGO_WIDTH, 0usize]
            &&& next.components@[0].click_return == StartMenuMessage::Back
        }
        &&& message matches Some(StartMenuMessage::Back) ==> {
            &&& r is JustRerender
            &&& next.first_draw
            &&& next.components@.len() == CATEGORY_COUNT
            &&& next.current_focus == category(0)
            &&& forall|c: int| 0 <= c < CATEGORY_COUNT ==> {
                &&& (#[trigger] next.components@[c]).name_ == category(c)
                &&& (next.components@[c].highlighted <==> c == 0)
                &&& next.components@[c].click_return == StartMenuMessage::CategoryClick(category(c))
            }
            &&& next.dimensions == self.dimensions
            &&& next.y_each == self.y_each
        }
        &&& message matches Some(StartMenuMessage::WindowClick(_)) ==> r is JustRerender && next == *self
        &&& message matches Some(StartMenuMessage::ChangeAcknowledge) ==> r is JustRerender && next
            == *self
    }

    /// Acts on what an entry answered: "Logout" asks to lock, another
    /// category opens its (empty) sub-list with a "Back" entry, and "Back"
    /// returns to the categories.
    pub fn handle_start_menu_message(&mut self, message: Option<StartMenuMessage>) -> (r: WindowMessageResponse)
        ensures
            old(self).menu_step(message, *final(self), r),
    {
        match message {
            Some(StartMenuMessage::CategoryClick(name)) => {
                if name.eq("Logout") {
                    WindowMessageResponse::Request(WindowManagerRequest::Lock)
                } else {
                    self.first_draw = true;
                    self.current_focus = "Back";
                    self.components = vec![
                        HighlightButton::new(
                            "Back",
                            [LOGO_WIDTH, 0],
                            [self.dimensions[0].saturating_sub(LOGO_WIDTH + 1), self.y_each.saturating_add(1)],
                            "Back",
                            StartMenuMessage::Back,
                            StartMenuMessage::ChangeAcknowledge,
                            true,
                        ),
                    ];
                    WindowMessageResponse::JustRerender
                }
            },
            Some(StartMenuMessage::WindowClick(_name)) => WindowMessageResponse::JustRerender,
            Some(StartMenuMessage::Back) => {
                self.first_draw = true;
                self.add_category_components();
                WindowMessageResponse::JustRerender
            },
            Some(StartMenuMessage::ChangeAcknowledge) => WindowMessageResponse::JustRerender,
            None => WindowMessageResponse::DoNothing,
        }
    }

    /// Fills the menu with one entry per category, one row each, the first
    /// highlighted and focused.
    pub fn add_category_components(&mut self)
        ensures
            final(self).components@.len() == CATEGORY_COUNT,
            final(self).current_focus == category(0),
            forall|c: int| 0 <= c < CATEGORY_COUNT ==> #[trigger] final(self).components@[c].name_ == category(c),
            final(self).components@[0].highlighted,
            forall|k: int| 1 <= k < CATEGORY_COUNT ==> !(#[trigger] final(self).components@[k].highlighted),
            forall|c: int| 0 <= c < CATEGORY_COUNT ==> #[trigger] final(self).components@[c].click_return
                == StartMenuMessage::CategoryClick(category(c)),
            forall|c: int| 0 <= c < CATEGORY_COUNT ==> {
                &&& (#[trigger] final(self).components@[c]).top_left[0] == LOGO_WIDTH
                &&& final(self).components@[c].top_left[1] == row_top(c, old(self).y_each as int)
                &&& final(self).components@[c].size == [
                    sat_sub(old(self).dimensions[0], (LOGO_WIDTH + 1) as int),
                    old(self).y_each,
                ]
                &&& final(self).components@[c].text == category(c)
            },
            final(self).dimensions == old(self).dimensions,
            final(self).y_each == old(self).y_each,
            final(self).first_draw == old(self).first_draw,
    {
        self.current_focus = category_name(0);
        self.components = Vec::new();
        let width = self.dimensions[0].saturating_sub(LOGO_WIDTH + 1);
        let mut y: usize = 1;
        let mut c: usize = 0;
        while c < CATEGORY_COUNT
            invariant
                c <= CATEGORY_COUNT,
                self.components@.len() == c,
                self.current_focus == category(0),
                self.dimensions == old(self).dimensions,
                self.y_each == old(self).y_each,
                self.first_draw == old(self).first_draw,
                y == row_top(c as int, self.y_each as int),
                width == sat_sub(old(self).dimensions[0], (LOGO_WIDTH + 1) as int),
                forall|k: int| 0 <= k < c ==> {
                    &&& (#[trigger] self.components@[k]).top_left[0] == LOGO_WIDTH
                    &&& self.components@[k].top_left[1] == row_top(k, old(self).y_each as int)
                    &&& self.components@[k].size == [sat_sub(old(self).dimensions[0], (LOGO_WIDTH + 1) as int), old(self).y_each]
                    &&& self.components@[k].text == category(k)
                    &&& (#[trigger] self.components@[k]).name_ == category(k)
                    &&& (self.components@[k].highlighted <==> k == 0)
                    &&& self.components@[k].click_return == StartMenuMessage::CategoryClick(category(k))
                },
            decreases CATEGORY_COUNT - c,
        {
            let name = category_name(c);
            self.components.push(
                HighlightButton::new(
                    name,
                    [LOGO_WIDTH, y],
                    [width, self.y_each],
                    name,
                    StartMenuMessage::CategoryClick(name),
                    StartMenuMessage::ChangeAcknowledge,
                    c == 0,
                ),
            );
            proof {
                let ye = self.y_each as int;
                let ci = c as int;
                assert((ci + 1) * ye == ci * ye + ye) by (nonlinear_arith);
                assert(ci * ye >= 0) by (nonlinear_arith)
                    requires
                        ci >= 0,
                        ye >= 0,
                ;
            }
            y = y.saturating_add(self.y_each);
            c = c + 1;
        }
        assert forall|k: int| 0 <= k < CATEGORY_COUNT implies {
            &&& (#[trigger] self.components@[k]).name_ == category(k)
            &&& (self.components@[k].highlighted <==> k == 0)
            &&& self.components@[k].click_return == StartMenuMessage::CategoryClick(category(k))
        } by {
            assert(k < c);
        }
        assert forall|k: int| 0 <= k < CATEGORY_COUNT implies {
            &&& (#[trigger] self.components@[k]).top_left[0] == LOGO_WIDTH
            &&& self.components@[k].top_left[1] == row_top(k, old(self).y_each as int)
            &&& self.components@[k].size == [sat_sub(old(self).dimensions[0], (LOGO_WIDTH + 1) as int), old(self).y_each]
            &&& self.components@[k].text == category(k)
        } by {
            assert(k < c);
        }
    }

    /// The position of the focused entry, if one carries the focused name.
    pub fn get_focus_index(&self) -> (r: Option<usize>)
        ensures
            r matches Some(i) ==> self.is_focus_index(i as int),
            r is None ==> self.has_no_focus(),
    {
        let mut i: usize = 0;
        while i < self.components.len()
            invariant
                i <= self.components@.len(),
                forall|j: int| 0 <= j < i ==> self.components@[j].name_@ != self.current_focus@,
            decreases self.components@.len() - i,
        {
            if self.components[i].name().eq(self.current_focus) {
                return Some(i);
            }
            i = i + 1;
        }
        None
    }

    /// Moves the highlight from entry `from` to entry `to`.
    fn move_focus(&mut self, from: usize, to: usize)
        requires
            from < old(self).components@.len(),
            to < old(self).components@.len(),
        ensures
            final(self).components@ == moved_highlight(old(self).components@, from as int, to as int),
            final(self).current_focus@ == old(self).components@[to as int].name_@,
            final(self).old_focus == old(self).current_focus,
            final(self).dimensions == old(self).dimensions,
            final(self).y_each == old(self).y_each,
            final(self).first_draw == old(self).first_draw,
    {
        self.components[from].handle_message(WindowMessage::Unfocus);
        self.old_focus = self.current_focus;
        self.current_focus = self.components[to].name();
        self.components[to].handle_message(WindowMessage::Focus);
    }

    /// The first entry at or after `start` whose name starts with `key`.
    fn find_initial(&self, start: usize, key: char) -> (r: Option<usize>)
        requires
            start <= self.components@.len(),
        ensures
            r matches Some(k) ==> start <= k < self.components@.len()
                && initial_is(self.components@[k as int].name_@, key)
                && forall|j: int| start <= j < k ==> !initial_is(#[trigger] self.components@[j].name_@, key),
            r is None ==> forall|j: int| start <= j < self.components@.len() ==> !initial_is(#[trigger] self.components@[j].name_@, key),
    {
        let mut k: usize = start;
        while k < self.components.len()
            invariant
                start <= k <= self.components@.len(),
                forall|j: int| start <= j < k ==> !initial_is(#[trigger] self.components@[j].name_@, key),
            decreases self.components@.len() - k,
        {
            let name = self.components[k].name();
            if name.unicode_len() > 0 && to_ascii_lower(name.get_char(0)) == key {
                return Some(k);
            }
            k = k + 1;
        }
        None
    }

    /// What typing `key` does: leads to `next`, answering `r`.
    pub open spec fn key_step(&self, key: char, next: Self, r: WindowMessageResponse) -> bool {
        &&& self.has_no_focus() ==> r is DoNothing && next == *self
        &&& forall|i: int| #[trigger] self.is_focus_index(i) && (key == KEY_UP || key == KEY_DOWN) ==> {
            &&& r is JustRerender
            &&& next.components@ == moved_highlight(self.components@, i, self.step_index(i, key))
            &&& next.current_focus@ == self.components@[self.step_index(i, key)].name_@
            &&& next.old_focus == self.current_focus
            &&& next.dimensions == self.dimensions
            &&& next.y_each == self.y_each
            &&& next.first_draw == self.first_draw
        }
        &&& forall|i: int| #[trigger] self.is_focus_index(i) && key == ENTER_KEY ==> self.menu_step(
            Some(self.components@[i].click_return),
            next,
            r,
        )
        &&& forall|i: int| #[trigger] self.is_focus_index(i) && key != KEY_UP && key != KEY_DOWN && key != ENTER_KEY ==> {
            ||| (forall|j: int| i <= j < self.components@.len() ==> !initial_is(#[trigger] self.components@[j].name_@, key))
                && r is DoNothing && next == *self
            ||| exists|k: int| i <= k < self.components@.len()
                && initial_is(#[trigger] self.components@[k].name_@, key)
                && (forall|j: int| i <= j < k ==> !initial_is(#[trigger] self.components@[j].name_@, key))
                && next.components@ == moved_highlight(self.components@, i, k)
                && next.current_focus@ == self.components@[k].name_@
                && next.old_focus == self.current_focus
                && next.dimensions == self.dimensions
                && next.y_each == self.y_each
                && next.first_draw == self.first_draw
                && r is JustRerender
        }
    }

    /// Handles one typed key: up and down move the highlight round the list,
    /// enter clicks the highlighted entry, and a letter jumps to the next
    /// entry from the highlighted one on that starts with it.
    pub fn handle_key(&mut self, key: char) -> (r: WindowMessageResponse)
        ensures
            old(self).key_step(key, *final(self), r),
    {
        let focus = self.get_focus_index();
        let i = match focus {
            Some(i) => i,
            None => {
                return WindowMessageResponse::DoNothing;
            },
        };
        if key == KEY_UP || key == KEY_DOWN {
            let n = self.components.len();
            let j = if key == KEY_DOWN {
                if i + 1 == n {
                    0
                } else {
                    i + 1
                }
            } else {
                if i == 0 {
                    n - 1
                } else {
                    i - 1
                }
            };
            self.move_focus(i, j);
            WindowMessageResponse::JustRerender
        } else if key == ENTER_KEY {
            let clicked = self.components[i].outcome_of_click();
            self.handle_start_menu_message(clicked)
        } else {
            match self.find_initial(i, key) {
                Some(k) => {
                    self.move_focus(i, k);
                    WindowMessageResponse::JustRerender
                },
                None => WindowMessageResponse::DoNothing,
            }
        }
    }
}

impl WindowLike for StartMenu {
    open spec fn kind(&self) -> WindowLikeType {
        WindowLikeType::StartMenu
    }

    /// `Init` sets the size and lists the categories; a typed key goes to
    /// `key_step` (after the full-frame flag is dropped); anything else is
    /// ignored.
    open spec fn handles(&self, message: WindowMessage, next: Self, r: WindowMessageResponse) -> bool {
        match message {
            WindowMessage::Init(d) => {
                &&& r is JustRerender
                &&& next.first_draw
                &&& next.dimensions == d
                &&& next.components@.len() == CATEGORY_COUNT
                &&& next.current_focus == category(0)
                &&& forall|c: int| 0 <= c < CATEGORY_COUNT ==> (#[trigger] next.components@[c]).name_ == category(c)
            },
            WindowMessage::KeyPress(kp) => (StartMenu { first_draw: false, ..*self }).key_step(kp.key, next, r),
            _ => next == (StartMenu { first_draw: false, ..*self }) && r is DoNothing,
        }
    }

    open spec fn size(&self) -> Dimensions {
        self.dimensions
    }

    open spec fn ideal(&self, screen: Dimensions) -> Dimensions {
        [175, 250]
    }

    fn handle_message(&mut self, message: WindowMessage) -> (r: WindowMessageResponse) {
        self.first_draw = false;
        match message {
            WindowMessage::Init(dimensions) => {
                self.first_draw = true;
                self.dimensions = dimensions;
                self.y_each = dimensions[1].saturating_sub(1) / CATEGORY_COUNT;
                self.add_category_components();
                WindowMessageResponse::JustRerender
            },
            WindowMessage::KeyPress(key_press) => self.handle_key(key_press.key),
            _ => WindowMessageResponse::DoNothing,
        }
    }

    open spec fn spec_title(&self) -> &'static str {
        ""
    }

    fn title(&self) -> (r: &'static str) {
        ""
    }

    fn resizable(&self) -> bool {
        false
    }

    fn subtype(&self) -> (r: WindowLikeType) {
        WindowLikeType::StartMenu
    }

    open spec fn draws(&self, theme: ThemeInfo, out: Seq<DrawInstructions>) -> bool {
        &&& self.first_draw ==> {
            &&& out.len() == 5 + 2 * self.components@.len()
            &&& out[0] == DrawInstructions::Rect([0usize, 0usize], [self.dimensions[0], 1usize], theme.border_left_top)
            &&& out[3] == DrawInstructions::Mingde([2usize, 2usize])
        }
        &&& !self.first_draw ==> out.len() == 2 * self.redrawn().len()
    }

    fn draw(&self, theme_info: &ThemeInfo) -> (r: Vec<DrawInstructions>) {
        let mut instructions: Vec<DrawInstructions> = Vec::new();
        let w = self.dimensions[0];
        let h = self.dimensions[1];
        if self.first_draw {
            instructions = vec![
                DrawInstructions::Rect([0, 0], [w, 1], theme_info.border_left_top),
                DrawInstructions::Rect([w.saturating_sub(1), 0], [1, h], theme_info.border_right_bottom),
                DrawInstructions::Rect([0, 1], [w.saturating_sub(1), h.saturating_sub(1)], theme_info.background),
                DrawInstructions::Mingde([2, 2]),
                DrawInstructions::Gradient([2, 42], [40, h.saturating_sub(30)], [255, 201, 14], [225, 219, 77], 15),
            ];
        }
        let ghost base = instructions@;
        let ghost comps = self.components@;
        let ghost pred = |b: HighlightButton<StartMenuMessage>| self.shows_entry(b);
        let mut c: usize = 0;
        while c < self.components.len()
            invariant
                c <= comps.len(),
                comps == self.components@,
                pred == (|b: HighlightButton<StartMenuMessage>| self.shows_entry(b)),
                instructions@.len() == base.len() + 2 * comps.take(c as int).filter(pred).len(),
                self.first_draw ==> instructions@.len() == base.len() + 2 * c,
                forall|k: int| 0 <= k < base.len() ==> instructions@[k] == base[k],
            decreases self.components@.len() - c,
        {
            let name = self.components[c].name();
            let shown = self.first_draw || name.eq(self.old_focus) || name.eq(self.current_focus);
            proof {
                assert(comps.take(c as int + 1) =~= comps.take(c as int).push(comps[c as int]));
                comps.take(c as int).lemma_filter_push(comps[c as int], pred);
                assert(shown == pred(comps[c as int]));
            }
            if shown {
                let mut drawn = self.components[c].draw(theme_info);
                instructions.append(&mut drawn);
            }
            c = c + 1;
        }
        proof {
            assert(comps.take(comps.len() as int) =~= comps);
            assert(self.redrawn() == comps.filter(pred));
        }
        instructions
    }

    fn ideal_dimensions(&self, _dimensions: Dimensions) -> (r: Dimensions) {
        [175, 250]
    }
}

} // verus!
