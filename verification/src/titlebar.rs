//! Native title bar tinting.
//!
//! The window frame is drawn by the OS, not the webview, so a themed app with
//! a stock frame wears a white (or OS-grey) strip above its own palette.
//! Windows 11 takes the caption, text and border colours of the frame; this
//! module holds the palette and which colour goes to which attribute. The
//! call into the window manager belongs to the caller.

use vstd::prelude::*;

verus! {

/// The Win32 `COLORREF` value `0x00BBGGRR` for the colour `#RRGGBB`: the byte
/// order is reversed from CSS hex notation.
pub open spec fn colorref_spec(r: u8, g: u8, b: u8) -> u32 {
    (b as int * 65536 + g as int * 256 + r as int) as u32
}

/// Packs a CSS-style colour into a `COLORREF`.
pub fn colorref(r: u8, g: u8, b: u8) -> (c: u32)
    ensures
        c == colorref_spec(r, g, b),
        c as int == b as int * 65536 + g as int * 256 + r as int,
{
    let c: u32 = (b as u32) << 16 | (g as u32) << 8 | (r as u32);
    assert(c as int == b as int * 65536 + g as int * 256 + r as int) by (bit_vector)
        requires
            c == (b as u32) << 16 | (g as u32) << 8 | (r as u32),
    ;
    c
}

/// Dark theme background, `#1e1640`.
pub const WALL: u32 = 0x0040_161e;

/// Dark theme text, `#ddd4bd`.
pub const CREAM: u32 = 0x00bd_d4dd;

/// Light theme background, `#e9dfc8`.
pub const KRAFT: u32 = 0x00c8_dfe9;

/// Light theme text, `#2c1a72`.
pub const VIOLET: u32 = 0x0072_1a2c;

/// A colour attribute of the window frame.
#[derive(Clone, Copy, PartialEq, Eq, Structural, Debug)]
pub enum FrameAttribute {
    CaptionColor,
    TextColor,
    BorderColor,
}

/// Caption and text colours of the frame for the dark or the light theme.
pub open spec fn frame_colors_spec(dark: bool) -> (u32, u32) {
    if dark { (WALL, CREAM) } else { (KRAFT, VIOLET) }
}

/// The frame's caption and text colours: the ink wall and cream when dark,
/// the kraft sheet and violet when light.
pub fn frame_colors(dark: bool) -> (colors: (u32, u32))
    ensures
        colors == frame_colors_spec(dark),
{
    if dark { (WALL, CREAM) } else { (KRAFT, VIOLET) }
}

/// The attributes to set on the frame, in order: caption, text, and a
/// border in the caption colour. Applying stops at the first attribute the
/// window manager rejects (builds before Windows 11 reject them all).
pub fn frame_attributes(dark: bool) -> (attrs: Vec<(FrameAttribute, u32)>)
    ensures
        attrs@ == seq![
            (FrameAttribute::CaptionColor, frame_colors_spec(dark).0),
            (FrameAttribute::TextColor, frame_colors_spec(dark).1),
            (FrameAttribute::BorderColor, frame_colors_spec(dark).0),
        ],
{
    let (caption, text) = frame_colors(dark);
    let mut attrs: Vec<(FrameAttribute, u32)> = Vec::new();
    attrs.push((FrameAttribute::CaptionColor, caption));
    attrs.push((FrameAttribute::TextColor, text));
    attrs.push((FrameAttribute::BorderColor, caption));
    attrs
}

/// The palette constants are the theme's CSS colours in `COLORREF` order.
pub proof fn law_palette_matches_theme()
    ensures
        WALL == colorref_spec(0x1e, 0x16, 0x40),
        CREAM == colorref_spec(0xdd, 0xd4, 0xbd),
        KRAFT == colorref_spec(0xe9, 0xdf, 0xc8),
        VIOLET == colorref_spec(0x2c, 0x1a, 0x72),
{
}

/// A `COLORREF` keeps red in its low byte, green in the next, blue in the
/// third and nothing above.
pub proof fn law_colorref_byte_order(r: u8, g: u8, b: u8)
    ensures
        colorref_spec(r, g, b) % 256 == r,
        (colorref_spec(r, g, b) / 256) % 256 == g,
        colorref_spec(r, g, b) / 65536 == b,
{
    let c = b as int * 65536 + g as int * 256 + r as int;
    assert(0 <= c < 0x1_0000_0000);
    assert(c % 256 == r as int) by (nonlinear_arith)
        requires c == b as int * 65536 + g as int * 256 + r as int, 0 <= r < 256, 0 <= g < 256, 0 <= b < 256;
    assert((c / 256) % 256 == g as int) by (nonlinear_arith)
        requires c == b as int * 65536 + g as int * 256 + r as int, 0 <= r < 256, 0 <= g < 256, 0 <= b < 256;
    assert(c / 65536 == b as int) by (nonlinear_arith)
        requires c == b as int * 65536 + g as int * 256 + r as int, 0 <= r < 256, 0 <= g < 256, 0 <= b < 256;
}

/// A dark frame wears the ink wall with cream text, a light one the kraft
/// sheet with violet text; the border always takes the caption colour.
pub proof fn law_frame_colors_per_theme()
    ensures
        frame_colors_spec(true) == (colorref_spec(0x1e, 0x16, 0x40), colorref_spec(0xdd, 0xd4, 0xbd)),
        frame_colors_spec(false) == (colorref_spec(0xe9, 0xdf, 0xc8), colorref_spec(0x2c, 0x1a, 0x72)),
{
}

} // verus!
