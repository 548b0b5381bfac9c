use vstd::prelude::*;

use crate::framebuffer::Dimensions;
use crate::messages::{WindowMessage, WindowMessageResponse};
use crate::themes::ThemeInfo;
use crate::window_manager::{
    DrawInstructions, INDICATOR_HEIGHT, TASKBAR_HEIGHT, WindowLike, WindowLikeType,
};

verus! {

/// The plain fill behind every other surface.
pub struct DesktopBackground {
    pub dimensions: Dimensions,
}

impl WindowLike for DesktopBackground {
    open spec fn kind(&self) -> WindowLikeType {
        WindowLikeType::DesktopBackground
    }

    /// `Init` sets the size; anything else is ignored.
    open spec fn handles(&self, message: WindowMessage, next: Self, r: WindowMessageResponse) -> bool {
        match message {
            WindowMessage::Init(d) => next == (DesktopBackground { dimensions: d }) && r is JustRerender,
            _ => next == *self && r is DoNothing,
        }
    }

    open spec fn size(&self) -> Dimensions {
        self.dimensions
    }

    open spec fn ideal(&self, screen: Dimensions) -> Dimensions {
        [screen[0], sat_sub(screen[1], (TASKBAR_HEIGHT + INDICATOR_HEIGHT) as int)]
    }

    fn handle_message(&mut self, message: WindowMessage) -> (r: WindowMessageResponse) {
        match message {
            WindowMessage::Init(dimensions) => {
                self.dimensions = dimensions;
                WindowMessageResponse::JustRerender
            },
            _ => WindowMessageResponse::DoNothing,
        }
    }

    open spec fn spec_title(&self) -> &'static str {
        ""
    }

    fn title(&self) -> (r: &'static str) {
        ""
    }

    fn resizable(&self) -> bool {
        false
    }

    fn subtype(&self) -> (r: WindowLikeType) {
        WindowLikeType::DesktopBackground
    }

    open spec fn draws(&self, theme: ThemeInfo, out: Seq<DrawInstructions>) -> bool {
        &&& out == seq![DrawInstructions::Rect([0usize, 0usize], self.dimensions, [0u8, 128u8, 128u8])]
    }

    fn draw(&self, _theme_info: &ThemeInfo) -> (r: Vec<DrawInstructions>) {
        let r = vec![DrawInstructions::Rect([0, 0], self.dimensions, [0, 128, 128])];
        assert(r@ =~= seq![DrawInstructions::Rect([0usize, 0usize], self.dimensions, [0u8, 128u8, 128u8])]);
        r
    }

    fn ideal_dimensions(&self, dimensions: Dimensions) -> (r: Dimensions) {
        [dimensions[0], dimensions[1].saturating_sub(TASKBAR_HEIGHT + INDICATOR_HEIGHT)]
    }
}

/// `a - b`, or zero where `b` is larger.
pub open spec fn sat_sub(a: usize, b: int) -> usize {
    if a >= b {
        (a - b) as usize
    } else {
        0
    }
}

impl DesktopBackground {
    pub fn new() -> (r: Self)
        ensures
            r.dimensions == [0usize, 0usize],
    {
        DesktopBackground { dimensions: [0, 0] }
    }
}

} // verus!
