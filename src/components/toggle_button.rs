use vstd::prelude::*;

use crate::components::{Component, bevel, in_rect, label_position, rect_contains};
use crate::framebuffer::{DEFAULT_FONT, Dimensions, Point};
use crate::messages::WindowMessage;
use crate::themes::ThemeInfo;
use crate::window_manager::DrawInstructions;

verus! {

pub enum ToggleButtonAlignment {
    Centre,
    Left,
    Right,
}

/// A latching button: each click flips it, giving `click_return` when it goes
/// down and `unclick_return` when it comes back up.
pub struct ToggleButton<T> {
    pub name_: &'static str,
    pub top_left: Point,
    pub size: Dimensions,
    pub text: &'static str,
    pub draw_bg: bool,
    pub inverted: bool,
    pub alignment: ToggleButtonAlignment,
    pub click_return: T,
    pub unclick_return: T,
}

impl<T: Copy> Component<T> for ToggleButton<T> {
    open spec fn spec_name(&self) -> Seq<char> {
        self.name_@
    }

    open spec fn covers(&self, point: Point) -> bool {
        in_rect(self.top_left, self.size, point)
    }

    open spec fn next(&self, message: WindowMessage) -> Self {
        match message {
            WindowMessage::FocusClick => ToggleButton { inverted: !self.inverted, ..*self },
            _ => *self,
        }
    }

    open spec fn outcome(&self, message: WindowMessage) -> Option<T> {
        match message {
            WindowMessage::FocusClick => if self.inverted {
                Some(self.unclick_return)
            } else {
                Some(self.click_return)
            },
            _ => None,
        }
    }

    fn handle_message(&mut self, message: WindowMessage) -> (r: Option<T>) {
        match message {
            WindowMessage::FocusClick => {
                self.inverted = !self.inverted;
                if self.inverted {
                    Some(self.click_return)
                } else {
                    Some(self.unclick_return)
                }
            },
            _ => None,
        }
    }

    fn draw(&self, theme_info: &ThemeInfo) -> (r: Vec<DrawInstructions>)
        ensures
            r@.len() == 5,
    {
        let (near, far) = if self.inverted {
            (theme_info.border_right_bottom, theme_info.border_left_top)
        } else {
            (theme_info.border_left_top, theme_info.border_right_bottom)
        };
        let mut instructions = bevel(self.top_left, self.size, near, far);
        instructions.push(
            DrawInstructions::Text(
                label_position(self.top_left, self.size),
                DEFAULT_FONT,
                self.text.to_string(),
                theme_info.text,
                theme_info.background,
            ),
        );
        instructions
    }

    fn point_inside(&self, point: Point) -> (r: bool) {
        rect_contains(self.top_left, self.size, point)
    }

    fn focusable(&self) -> bool {
        true
    }

    fn clickable(&self) -> bool {
        true
    }

    fn name(&self) -> (r: &'static str) {
        self.name_
    }
}

impl<T> ToggleButton<T> {
    /// A toggle button in the up position, centred unless another alignment is given.
    pub fn new(
        name_: &'static str,
        top_left: Point,
        size: Dimensions,
        text: &'static str,
        click_return: T,
        unclick_return: T,
        draw_bg: bool,
        alignment: Option<ToggleButtonAlignment>,
    ) -> (r: Self)
        ensures
            r.name_ == name_,
            r.top_left == top_left,
            r.size == size,
            r.text == text,
            r.click_return == click_return,
            r.unclick_return == unclick_return,
            r.draw_bg == draw_bg,
            !r.inverted,
            alignment is None ==> r.alignment is Centre,
            alignment is Some ==> r.alignment == alignment->0,
    {
        ToggleButton {
            name_,
            top_left,
            size,
            text,
            click_return,
            unclick_return,
            draw_bg,
            inverted: false,
            alignment: match alignment {
                Some(a) => a,
                None => ToggleButtonAlignment::Centre,
            },
        }
    }
}

} // verus!
