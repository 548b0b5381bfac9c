use vstd::prelude::*;

verus! {

/// A position as `[x, y]`.
pub type Point = [usize; 2];

/// A size as `[width, height]`.
pub type Dimensions = [usize; 2];

/// A colour as `[red, green, blue]`.
pub type RGBColor = [u8; 3];

/// The name of the one bitmap font the system ships.
pub const DEFAULT_FONT: &'static str = "times-new-roman";

/// The tallest glyph of the default font, in pixels.
pub const DEFAULT_FONT_MAX_HEIGHT: u8 = 12;

/// The maximum glyph height of the font called `font_name`, if there is such a font.
pub fn get_font_max_height(font_name: &str) -> (r: Option<u8>)
    ensures
        font_name@ == DEFAULT_FONT@ ==> r == Some(DEFAULT_FONT_MAX_HEIGHT),
        font_name@ != DEFAULT_FONT@ ==> r is None,
{
    if font_name.eq(DEFAULT_FONT) {
        Some(DEFAULT_FONT_MAX_HEIGHT)
    } else {
        None
    }
}

/// One channel of `color` laid over `bg` with opacity `alpha` out of 255.
pub open spec fn blend_channel(color: u8, bg: u8, alpha: u8) -> int {
    (bg as int * (255 - alpha as int)) / 255 + (color as int * alpha as int) / 255
}

/// `color` laid over `bg_color` with opacity `alpha` out of 255, channel by channel.
pub fn color_with_alpha(color: RGBColor, bg_color: RGBColor, alpha: u8) -> (r: RGBColor)
    ensures
        r[0] as int == blend_channel(color[0], bg_color[0], alpha),
        r[1] as int == blend_channel(color[1], bg_color[1], alpha),
        r[2] as int == blend_channel(color[2], bg_color[2], alpha),
{
    [
        blend_u8(color[0], bg_color[0], alpha),
        blend_u8(color[1], bg_color[1], alpha),
        blend_u8(color[2], bg_color[2], alpha),
    ]
}

fn blend_u8(color: u8, bg: u8, alpha: u8) -> (r: u8)
    ensures
        r as int == blend_channel(color, bg, alpha),
{
    let a: u16 = alpha as u16;
    assert(bg as int * (255 - a) <= 65025 && color as int * a <= 65025) by (nonlinear_arith)
        requires
            0 <= bg <= 255,
            0 <= color <= 255,
            0 <= a <= 255,
    ;
    let under: u16 = bg as u16 * (255 - a) / 255;
    let over: u16 = color as u16 * a / 255;
    assert(under + over <= 255) by (nonlinear_arith)
        requires
            under == (bg as int * (255 - a)) / 255,
            over == (color as int * a) / 255,
            0 <= bg <= 255,
            0 <= color <= 255,
            0 <= a <= 255,
    {
        assert(bg as int * (255 - a) <= 255 * (255 - a));
        assert(color as int * a <= 255 * a);
    }
    (under + over) as u8
}

} // verus!
