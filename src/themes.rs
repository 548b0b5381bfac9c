use vstd::prelude::*;

use crate::framebuffer::RGBColor;

verus! {

#[derive(Clone, Copy, Debug, PartialEq, Eq, Structural)]
pub enum Themes {
    Standard,
}

/// The palette that surfaces are drawn with.
#[derive(Clone, Copy, Debug)]
pub struct ThemeInfo {
    pub background: RGBColor,
    pub border_left_top: RGBColor,
    pub border_right_bottom: RGBColor,
    pub text: RGBColor,
    pub top: RGBColor,
    pub text_top: RGBColor,
}

/// The palette of the standard theme.
pub open spec fn standard_theme() -> ThemeInfo {
    ThemeInfo {
        background: [192, 192, 192],
        border_left_top: [255, 255, 255],
        border_right_bottom: [0, 0, 0],
        text: [0, 0, 0],
        top: [0, 0, 128],
        text_top: [255, 255, 255],
    }
}

/// The palette of `theme`; every theme has one.
pub fn get_theme_info(theme: &Themes) -> (r: Option<ThemeInfo>)
    ensures
        *theme == Themes::Standard ==> r == Some(standard_theme()),
{
    match theme {
        Themes::Standard => Some(ThemeInfo {
            background: [192, 192, 192],
            border_left_top: [255, 255, 255],
            border_right_bottom: [0, 0, 0],
            text: [0, 0, 0],
            top: [0, 0, 128],
            text_top: [255, 255, 255],
        }),
    }
}

} // verus!
