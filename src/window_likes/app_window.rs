use vstd::prelude::*;

use crate::framebuffer::Dimensions;
use crate::messages::{WindowMessage, WindowMessageResponse};
use crate::themes::ThemeInfo;
use crate::window_manager::{DrawInstructions, WindowLike, WindowLikeType};

verus! {

/// An ordinary application window: it lives in one workspace, takes part in
/// focus cycling, and gets its chrome from the compositor.
pub struct AppWindow {
    pub title: &'static str,
    pub size: Dimensions,
    pub dimensions: Dimensions,
}

impl WindowLike for AppWindow {
    open spec fn kind(&self) -> WindowLikeType {
        WindowLikeType::Window
    }

    /// `Init` sets the size; anything else is ignored.
    open spec fn handles(&self, message: WindowMessage, next: Self, r: WindowMessageResponse) -> bool {
        match message {
            WindowMessage::Init(d) => next == (AppWindow { dimensions: d, ..*self }) && r is JustRerender,
            _ => next == *self && r is DoNothing,
        }
    }

    open spec fn size(&self) -> Dimensions {
        self.dimensions
    }

    open spec fn ideal(&self, screen: Dimensions) -> Dimensions {
        self.size
    }

    fn handle_message(&mut self, message: WindowMessage) -> (r: WindowMessageResponse) {
        match message {
            WindowMessage::Init(dimensions) => {
                self.dimensions = dimensions;
                WindowMessageResponse::JustRerender
            },
            _ => WindowMessageResponse::DoNothing,
        }
    }

    open spec fn spec_title(&self) -> &'static str {
        self.title
    }

    fn title(&self) -> (r: &'static str) {
        self.title
    }

    fn resizable(&self) -> bool {
        false
    }

    fn subtype(&self) -> (r: WindowLikeType) {
        WindowLikeType::Window
    }

    open spec fn draws(&self, theme: ThemeInfo, out: Seq<DrawInstructions>) -> bool {
        out.len() == 0
    }

    fn draw(&self, _theme_info: &ThemeInfo) -> (r: Vec<DrawInstructions>) {
        Vec::new()
    }

    fn ideal_dimensions(&self, _dimensions: Dimensions) -> (r: Dimensions) {
        self.size
    }
}

impl AppWindow {
    /// A window titled `title` that asks for `size`.
    pub fn new(title: &'static str, size: Dimensions) -> (r: Self)
        ensures
            r.title == title,
            r.size == size,
    {
        AppWindow { title, size, dimensions: [0, 0] }
    }
}

} // verus!
