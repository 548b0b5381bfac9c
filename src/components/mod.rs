use vstd::prelude::*;

use crate::framebuffer::{DEFAULT_FONT, DEFAULT_FONT_MAX_HEIGHT, Dimensions, Point, get_font_max_height};
use crate::messages::WindowMessage;
use crate::themes::ThemeInfo;
use crate::window_manager::DrawInstructions;

pub mod button;
pub mod highlight_button;
pub mod toggle_button;

verus! {

/// A small control inside a surface. It answers messages with an outcome of
/// the type `T` that its surface chose.
pub trait Component<T>: Sized {
    /// The control's name, unique among its siblings.
    spec fn spec_name(&self) -> Seq<char>;

    /// The control after it handled `message`.
    spec fn next(&self, message: WindowMessage) -> Self;

    /// What the control answers to `message`.
    spec fn outcome(&self, message: WindowMessage) -> Option<T>;

    fn handle_message(&mut self, message: WindowMessage) -> (r: Option<T>)
        ensures
            r == old(self).outcome(message),
            *final(self) == old(self).next(message),
    ;

    fn draw(&self, theme_info: &ThemeInfo) -> (r: Vec<DrawInstructions>)
        ensures
            r@.len() > 0,
    ;

    /// Whether `point` falls on the control.
    spec fn covers(&self, point: Point) -> bool;

    fn point_inside(&self, point: Point) -> (r: bool)
        ensures
            r == self.covers(point),
    ;

    fn focusable(&self) -> bool;

    fn clickable(&self) -> bool;

    fn name(&self) -> (r: &'static str)
        ensures
            r@ == self.spec_name(),
    ;
}

/// Whether `point` lies in the closed rectangle at `top_left` of size `size`.
pub open spec fn in_rect(top_left: Point, size: Dimensions, point: Point) -> bool {
    &&& top_left[0] <= point[0] <= top_left[0] + size[0]
    &&& top_left[1] <= point[1] <= top_left[1] + size[1]
}

/// Whether `point` lies in the closed rectangle at `top_left` of size `size`.
pub fn rect_contains(top_left: Point, size: Dimensions, point: Point) -> (r: bool)
    ensures
        r == in_rect(top_left, size, point),
{
    point[0] >= top_left[0] && point[0] - top_left[0] <= size[0] && point[1] >= top_left[1]
        && point[1] - top_left[1] <= size[1]
}

/// The height of the default font, used to centre a label vertically.
pub fn font_height() -> (r: usize)
    ensures
        r == DEFAULT_FONT_MAX_HEIGHT,
{
    match get_font_max_height(DEFAULT_FONT) {
        Some(h) => h as usize,
        None => DEFAULT_FONT_MAX_HEIGHT as usize,
    }
}

/// Where a label starts inside a control at `top_left` of size `size`:
/// four pixels in, and centred vertically.
pub fn label_position(top_left: Point, size: Dimensions) -> (r: Point)
    ensures
        r[0] == top_left[0] as int + 4 || (r[0] == usize::MAX && top_left[0] as int + 4 > usize::MAX),
{
    let fh = font_height();
    let dy = if size[1] > fh { (size[1] - fh) / 2 } else { 0 };
    [top_left[0].saturating_add(4), top_left[1].saturating_add(dy)]
}

/// The four bevelled edges of a control, the near edges in `near` and the far ones in `far`.
pub fn bevel(top_left: Point, size: Dimensions, near: [u8; 3], far: [u8; 3]) -> (r: Vec<DrawInstructions>)
    ensures
        r@.len() == 4,
{
    let right = top_left[0].saturating_add(size[0]).saturating_sub(2);
    let bottom = top_left[1].saturating_add(size[1]).saturating_sub(2);
    vec![
        DrawInstructions::Rect(top_left, [size[0], 2], near),
        DrawInstructions::Rect(top_left, [2, size[1]], near),
        DrawInstructions::Rect([right, top_left[1]], [2, size[1]], far),
        DrawInstructions::Rect([top_left[0], bottom], [size[0], 2], far),
    ]
}

} // verus!
