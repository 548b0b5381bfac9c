use vstd::prelude::*;

use crate::components::{Component, in_rect, label_position, rect_contains};
use crate::framebuffer::{DEFAULT_FONT, Dimensions, Point};
use crate::messages::WindowMessage;
use crate::themes::ThemeInfo;
use crate::window_manager::DrawInstructions;

verus! {

/// An entry of a keyboard-navigated list: focus and unfocus flip its
/// highlight and give `toggle_highlight_return`; a click gives `click_return`.
pub struct HighlightButton<T> {
    pub name_: &'static str,
    pub top_left: Point,
    pub size: Dimensions,
    pub text: &'static str,
    pub highlighted: bool,
    pub click_return: T,
    pub toggle_highlight_return: T,
}

impl<T: Copy> Component<T> for HighlightButton<T> {
    open spec fn spec_name(&self) -> Seq<char> {
        self.name_@
    }

    open spec fn covers(&self, point: Point) -> bool {
        in_rect(self.top_left, self.size, point)
    }

    open spec fn next(&self, message: WindowMessage) -> Self {
        match message {
            WindowMessage::Focus | WindowMessage::Unfocus => HighlightButton {
                highlighted: !self.highlighted,
                ..*self
            },
            _ => *self,
        }
    }

    open spec fn outcome(&self, message: WindowMessage) -> Option<T> {
        match message {
            WindowMessage::Focus | WindowMessage::Unfocus => Some(self.toggle_highlight_return),
            WindowMessage::FocusClick => Some(self.click_return),
            _ => None,
        }
    }

    fn handle_message(&mut self, message: WindowMessage) -> (r: Option<T>) {
        match message {
            WindowMessage::Focus | WindowMessage::Unfocus => {
                self.highlighted = !self.highlighted;
                Some(self.toggle_highlight_return)
            },
            WindowMessage::FocusClick => Some(self.click_return),
            _ => None,
        }
    }

    fn draw(&self, theme_info: &ThemeInfo) -> (r: Vec<DrawInstructions>)
        ensures
            r@.len() == 2,
            r@[0] == DrawInstructions::Rect(
                self.top_left,
                self.size,
                if self.highlighted {
                    theme_info.top
                } else {
                    theme_info.background
                },
            ),
    {
        let (fill, ink) = if self.highlighted {
            (theme_info.top, theme_info.text_top)
        } else {
            (theme_info.background, theme_info.text)
        };
        vec![
            DrawInstructions::Rect(self.top_left, self.size, fill),
            DrawInstructions::Text(
                label_position(self.top_left, self.size),
                DEFAULT_FONT,
                self.text.to_string(),
                ink,
                fill,
            ),
        ]
    }

    fn point_inside(&self, point: Point) -> (r: bool) {
        rect_contains(self.top_left, self.size, point)
    }

    fn focusable(&self) -> bool {
        true
    }

    fn clickable(&self) -> bool {
        true
    }

    fn name(&self) -> (r: &'static str) {
        self.name_
    }
}

impl<T: Copy> HighlightButton<T> {
    /// What a click answers; a click leaves the entry as it is.
    pub fn outcome_of_click(&self) -> (r: Option<T>)
        ensures
            r == Some(self.click_return),
            self.next(WindowMessage::FocusClick) == *self,
    {
        Some(self.click_return)
    }
}

impl<T> HighlightButton<T> {
    /// A list entry, highlighted or not as asked.
    pub fn new(
        name_: &'static str,
        top_left: Point,
        size: Dimensions,
        text: &'static str,
        click_return: T,
        toggle_highlight_return: T,
        highlighted: bool,
    ) -> (r: Self)
        ensures
            r == (HighlightButton {
                name_,
                top_left,
                size,
                text,
                highlighted,
                click_return,
                toggle_highlight_return,
            }),
    {
        HighlightButton {
            name_,
            top_left,
            size,
            text,
            highlighted,
            click_return,
            toggle_highlight_return,
        }
    }
}

} // verus!
