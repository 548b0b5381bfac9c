use vstd::prelude::*;

use crate::components::Component;
use crate::components::toggle_button::{ToggleButton, ToggleButtonAlignment};
use crate::framebuffer::{DEFAULT_FONT, Dimensions};
use crate::messages::{
    InfoType, ShortcutType, WindowManagerRequest, WindowMessage, WindowMessageResponse, WindowsVec,
};
use crate::themes::ThemeInfo;
use crate::window_likes::start_menu::StartMenu;
use crate::window_manager::{DrawInstructions, TASKBAR_HEIGHT, WindowBox, WindowLike, WindowLikeType};

verus! {

/// Space around the taskbar's controls, in pixels.
pub const PADDING: usize = 4;

/// What the taskbar's controls answer.
#[derive(Clone, Copy, Debug, PartialEq, Eq, Structural)]
pub enum TaskbarMessage {
    ShowStartMenu,
    HideStartMenu,
}

/// The bar along the bottom of the screen: the Start toggle and the windows
/// of the active workspace.
pub struct Taskbar {
    pub dimensions: Dimensions,
    pub components: Vec<ToggleButton<TaskbarMessage>>,
    pub windows: WindowsVec,
    pub focused_id: Option<usize>,
}

impl WindowLike for Taskbar {
    open spec fn kind(&self) -> WindowLikeType {
        WindowLikeType::Taskbar
    }

    /// `Init` lays out the Start toggle; the start-menu shortcut clicks it
    /// (see `toggle_step`); a window list is kept; anything else is ignored.
    open spec fn handles(&self, message: WindowMessage, next: Self, r: WindowMessageResponse) -> bool {
        match message {
            WindowMessage::Init(d) => {
                &&& r is JustRerender
                &&& next.dimensions == d
                &&& next.components@.len() == 1
                &&& next.is_start_index(0)
                &&& !next.components@[0].inverted
                &&& next.components@[0].click_return == TaskbarMessage::ShowStartMenu
                &&& next.components@[0].unclick_return == TaskbarMessage::HideStartMenu
                &&& next.windows == self.windows
                &&& next.focused_id == self.focused_id
            },
            WindowMessage::Shortcut(ShortcutType::StartMenu) => self.toggle_step(next, r),
            WindowMessage::Info(InfoType::WindowsInWorkspace(ws, f)) => next == (Taskbar {
                windows: ws,
                focused_id: f,
                ..*self
            }) && r is JustRerender,
            _ => next == *self && r is DoNothing,
        }
    }

    open spec fn size(&self) -> Dimensions {
        self.dimensions
    }

    open spec fn ideal(&self, screen: Dimensions) -> Dimensions {
        [screen[0], TASKBAR_HEIGHT]
    }

    fn handle_message(&mut self, message: WindowMessage) -> (r: WindowMessageResponse) {
        match message {
            WindowMessage::Init(dimensions) => {
                self.init_components(dimensions);
                WindowMessageResponse::JustRerender
            },
            WindowMessage::Shortcut(ShortcutType::StartMenu) => self.toggle_start(),
            WindowMessage::Info(InfoType::WindowsInWorkspace(windows, focused_id)) => {
                self.windows = windows;
                self.focused_id = focused_id;
                WindowMessageResponse::JustRerender
            },
            _ => WindowMessageResponse::DoNothing,
        }
    }

    open spec fn spec_title(&self) -> &'static str {
        ""
    }

    fn title(&self) -> (r: &'static str) {
        ""
    }

    fn resizable(&self) -> bool {
        false
    }

    fn subtype(&self) -> (r: WindowLikeType) {
        WindowLikeType::Taskbar
    }

    open spec fn draws(&self, theme: ThemeInfo, out: Seq<DrawInstructions>) -> bool {
        &&& out.len() == 2 + 5 * self.components@.len() + 2 * self.windows@.len()
        &&& forall|w: int|
            0 <= w < self.windows@.len() ==> {
                let fill = if self.focused_id == Some(self.windows@[w].0) {
                    theme.top
                } else {
                    theme.background
                };
                &&& #[trigger] out[2 + 5 * self.components@.len() + 2 * w] matches DrawInstructions::Rect(_, _, c)
                    && c == fill
                &&& out[2 + 5 * self.components@.len() + 2 * w + 1] is Text
            }
    }

    fn draw(&self, theme_info: &ThemeInfo) -> (r: Vec<DrawInstructions>) {
        let mut instructions = vec![
            DrawInstructions::Rect([0, 0], [self.dimensions[0], 1], theme_info.border_left_top),
            DrawInstructions::Rect(
                [0, 1],
                [self.dimensions[0], self.dimensions[1].saturating_sub(1)],
                theme_info.background,
            ),
        ];
        let mut c: usize = 0;
        while c < self.components.len()
            invariant
                c <= self.components@.len(),
                instructions@.len() == 2 + 5 * c,
            decreases self.components@.len() - c,
        {
            let mut drawn = self.components[c].draw(theme_info);
            instructions.append(&mut drawn);
            c = c + 1;
        }
        let mut x: usize = PADDING * 2 + 44;
        let mut w: usize = 0;
        let ghost base = 2 + 5 * self.components@.len();
        while w < self.windows.len()
            invariant
                w <= self.windows@.len(),
                base == 2 + 5 * self.components@.len(),
                instructions@.len() == base + 2 * w,
                forall|v: int|
                    0 <= v < w ==> {
                        let fill = if self.focused_id == Some(self.windows@[v].0) {
                            theme_info.top
                        } else {
                            theme_info.background
                        };
                        &&& #[trigger] instructions@[base + 2 * v] matches DrawInstructions::Rect(_, _, c) && c == fill
                        &&& instructions@[base + 2 * v + 1] is Text
                    },
            decreases self.windows@.len() - w,
        {
            let (id, title) = self.windows[w];
            let (fill, ink) = if self.focused_id == Some(id) {
                (theme_info.top, theme_info.text_top)
            } else {
                (theme_info.background, theme_info.text)
            };
            instructions.push(
                DrawInstructions::Rect(
                    [x, PADDING],
                    [96, self.dimensions[1].saturating_sub(PADDING * 2)],
                    fill,
                ),
            );
            instructions.push(
                DrawInstructions::Text(
                    [x.saturating_add(4), PADDING * 2],
                    DEFAULT_FONT,
                    title.to_string(),
                    ink,
                    fill,
                ),
            );
            x = x.saturating_add(100);
            w = w + 1;
        }
        instructions
    }

    fn ideal_dimensions(&self, dimensions: Dimensions) -> (r: Dimensions) {
        [dimensions[0], TASKBAR_HEIGHT]
    }
}

impl Taskbar {
    /// A taskbar before it is told its size: no controls, no windows.
    pub fn new() -> (r: Self)
        ensures
            r.components@.len() == 0,
            r.windows@.len() == 0,
            r.focused_id is None,
    {
        Taskbar { dimensions: [0, 0], components: Vec::new(), windows: Vec::new(), focused_id: None }
    }

    /// Whether control `i` is the first one named "start-button".
    pub open spec fn is_start_index(&self, i: int) -> bool {
        &&& 0 <= i < self.components@.len()
        &&& self.components@[i].name_@ == "start-button"@
        &&& forall|j: int| 0 <= j < i ==> (#[trigger] self.components@[j]).name_@ != "start-button"@
    }

    /// Takes the taskbar's size and lays out its one control, the Start
    /// toggle, in the up position.
    pub fn init_components(&mut self, dimensions: Dimensions)
        ensures
            final(self).dimensions == dimensions,
            final(self).components@.len() == 1,
            final(self).is_start_index(0),
            !final(self).components@[0].inverted,
            final(self).components@[0].click_return == TaskbarMessage::ShowStartMenu,
            final(self).components@[0].unclick_return == TaskbarMessage::HideStartMenu,
            final(self).windows == old(self).windows,
            final(self).focused_id == old(self).focused_id,
    {
        self.dimensions = dimensions;
        let start = ToggleButton::new(
            "start-button",
            [PADDING, PADDING],
            [44, dimensions[1].saturating_sub(PADDING * 2)],
            "Start",
            TaskbarMessage::ShowStartMenu,
            TaskbarMessage::HideStartMenu,
            false,
            Some(ToggleButtonAlignment::Left),
        );
        self.components = vec![start];
        assert(self.components@[0].name_ == "start-button");
    }

    /// What clicking the Start toggle does: leads to `next`, answering `r`.
    pub open spec fn toggle_step(&self, next: Self, r: WindowMessageResponse) -> bool {
        &&& (forall|i: int| !self.is_start_index(i)) ==> r is DoNothing && next == *self
        &&& forall|i: int| #[trigger] self.is_start_index(i) ==> {
            let b = self.components@[i];
            &&& next.components@ == self.components@.update(i, b.next(WindowMessage::FocusClick))
            &&& !b.inverted && b.click_return == TaskbarMessage::ShowStartMenu ==> (r matches WindowMessageResponse::Request(
                WindowManagerRequest::OpenWindow(w),
            ) && w.kind() == WindowLikeType::StartMenu)
            &&& b.inverted && b.unclick_return == TaskbarMessage::HideStartMenu ==> (r matches WindowMessageResponse::Request(
                WindowManagerRequest::CloseStartMenu,
            ))
        }
    }

    /// Clicks the Start toggle: going down asks to open a start menu, coming
    /// up asks to close it. Without the toggle nothing happens.
    pub fn toggle_start(&mut self) -> (r: WindowMessageResponse)
        ensures
            old(self).toggle_step(*final(self), r),
    {
        match self.start_button_index() {
            Some(i) => {
                let start_response = self.components[i].handle_message(WindowMessage::FocusClick);
                proof {
                    assert forall|j: int| #[trigger] old(self).is_start_index(j) implies j == i by {
                        if j < i {
                            assert(old(self).components@[j].name_@ != "start-button"@);
                        } else if j > i {
                            assert(old(self).components@[i as int].name_@ != "start-button"@);
                        }
                    }
                }
                self.handle_taskbar_message(start_response)
            },
            None => WindowMessageResponse::DoNothing,
        }
    }

    /// The position of the Start toggle among the controls.
    fn start_button_index(&self) -> (r: Option<usize>)
        ensures
            r matches Some(i) ==> self.is_start_index(i as int),
            r is None ==> forall|i: int| !self.is_start_index(i),
    {
        let mut i: usize = 0;
        while i < self.components.len()
            invariant
                i <= self.components@.len(),
                forall|j: int| 0 <= j < i ==> (#[trigger] self.components@[j]).name_@ != "start-button"@,
            decreases self.components@.len() - i,
        {
            if self.components[i].name().eq("start-button") {
                return Some(i);
            }
            i = i + 1;
        }
        None
    }

    /// Turns what the Start toggle answered into a request: showing the
    /// menu asks to open one, hiding it asks to close it.
    pub fn handle_taskbar_message(&mut self, message: Option<TaskbarMessage>) -> (r: WindowMessageResponse)
        ensures
            *final(self) == *old(self),
            message is None ==> r is DoNothing,
            message == Some(TaskbarMessage::ShowStartMenu) ==> (r matches WindowMessageResponse::Request(
                WindowManagerRequest::OpenWindow(w),
            ) && w.kind() == WindowLikeType::StartMenu),
            message == Some(TaskbarMessage::HideStartMenu) ==> (r matches WindowMessageResponse::Request(
                WindowManagerRequest::CloseStartMenu,
            )),
    {
        match message {
            Some(TaskbarMessage::ShowStartMenu) => WindowMessageResponse::Request(
                WindowManagerRequest::OpenWindow(WindowBox::StartMenu(StartMenu::new())),
            ),
            Some(TaskbarMessage::HideStartMenu) => WindowMessageResponse::Request(
                WindowManagerRequest::CloseStartMenu,
            ),
            None => WindowMessageResponse::DoNothing,
        }
    }
}

} // verus!
