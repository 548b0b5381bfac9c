use vstd::prelude::*;

use crate::framebuffer::{DEFAULT_FONT, Dimensions};
use crate::messages::{ShortcutType, WindowMessage, WindowMessageResponse};
use crate::themes::ThemeInfo;
use crate::window_manager::{DrawInstructions, INDICATOR_HEIGHT, WORKSPACE_COUNT, WindowLike, WindowLikeType};

verus! {

/// The strip along the top of the screen that shows the active workspace.
pub struct WorkspaceIndicator {
    pub dimensions: Dimensions,
    pub current_workspace: u8,
}

/// The label of workspace `w`, counted from one.
fn workspace_label(w: usize) -> &'static str {
    match w {
        0 => "1",
        1 => "2",
        2 => "3",
        3 => "4",
        4 => "5",
        5 => "6",
        6 => "7",
        7 => "8",
        _ => "9",
    }
}

impl WindowLike for WorkspaceIndicator {
    open spec fn kind(&self) -> WindowLikeType {
        WindowLikeType::WorkspaceIndicator
    }

    /// `Init` sets the size; switching workspace records the new one;
    /// anything else is ignored.
    open spec fn handles(&self, message: WindowMessage, next: Self, r: WindowMessageResponse) -> bool {
        match message {
            WindowMessage::Init(d) => next == (WorkspaceIndicator { dimensions: d, ..*self }) && r is JustRerender,
            WindowMessage::Shortcut(ShortcutType::SwitchWorkspace(w)) => next == (WorkspaceIndicator {
                current_workspace: w,
                ..*self
            }) && r is JustRerender,
            _ => next == *self && r is DoNothing,
        }
    }

    open spec fn size(&self) -> Dimensions {
        self.dimensions
    }

    open spec fn ideal(&self, screen: Dimensions) -> Dimensions {
        [screen[0], INDICATOR_HEIGHT]
    }

    fn handle_message(&mut self, message: WindowMessage) -> (r: WindowMessageResponse) {
        match message {
            WindowMessage::Init(dimensions) => {
                self.dimensions = dimensions;
                WindowMessageResponse::JustRerender
            },
            WindowMessage::Shortcut(ShortcutType::SwitchWorkspace(w)) => {
                self.current_workspace = w;
                WindowMessageResponse::JustRerender
            },
            _ => WindowMessageResponse::DoNothing,
        }
    }

    open spec fn spec_title(&self) -> &'static str {
        ""
    }

    fn title(&self) -> (r: &'static str) {
        ""
    }

    fn resizable(&self) -> bool {
        false
    }

    fn subtype(&self) -> (r: WindowLikeType) {
        WindowLikeType::WorkspaceIndicator
    }

    open spec fn draws(&self, theme: ThemeInfo, out: Seq<DrawInstructions>) -> bool {
        &&& out.len() == 2 + 2 * WORKSPACE_COUNT
        &&& forall|w: int|
            0 <= w < WORKSPACE_COUNT ==> {
                let fill = if w == self.current_workspace {
                    theme.top
                } else {
                    theme.background
                };
                &&& #[trigger] out[2 + 2 * w] matches DrawInstructions::Rect(_, _, c) && c == fill
                &&& out[2 + 2 * w + 1] is Text
            }
    }

    fn draw(&self, theme_info: &ThemeInfo) -> (r: Vec<DrawInstructions>) {
        let mut instructions = vec![
            DrawInstructions::Rect([0, 0], self.dimensions, theme_info.background),
            DrawInstructions::Rect(
                [0, self.dimensions[1].saturating_sub(1)],
                [self.dimensions[0], 1],
                theme_info.border_right_bottom,
            ),
        ];
        let mut w: usize = 0;
        while w < 9
            invariant
                w <= 9,
                instructions@.len() == 2 + 2 * w,
                forall|v: int|
                    0 <= v < w ==> {
                        let fill = if v == self.current_workspace {
                            theme_info.top
                        } else {
                            theme_info.background
                        };
                        &&& #[trigger] instructions@[2 + 2 * v] matches DrawInstructions::Rect(_, _, c) && c == fill
                        &&& instructions@[2 + 2 * v + 1] is Text
                    },
            decreases 9 - w,
        {
            let x = w * 20;
            let (fill, ink) = if w == self.current_workspace as usize {
                (theme_info.top, theme_info.text_top)
            } else {
                (theme_info.background, theme_info.text)
            };
            instructions.push(DrawInstructions::Rect([x, 0], [20, INDICATOR_HEIGHT - 1], fill));
            instructions.push(
                DrawInstructions::Text([x + 6, 3], DEFAULT_FONT, workspace_label(w).to_string(), ink, fill),
            );
            w = w + 1;
        }
        instructions
    }

    fn ideal_dimensions(&self, dimensions: Dimensions) -> (r: Dimensions) {
        [dimensions[0], INDICATOR_HEIGHT]
    }
}

impl WorkspaceIndicator {
    pub fn new() -> (r: Self)
        ensures
            r.current_workspace == 0,
    {
        WorkspaceIndicator { dimensions: [0, 0], current_workspace: 0 }
    }
}

} // verus!
