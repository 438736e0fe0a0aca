//! Channel values: a foreground and a background colour in one `u64`.

use vstd::prelude::*;

verus! {

/// The bit that marks a colour as set rather than the terminal's default.
pub const NOT_DEFAULT: u64 = 0x4000_0000;

/// White text on black.
pub const WHITE_ON_BLACK: u64 = 0x40FFFFFF_40000000;

/// Black text on white.
pub const BLACK_ON_WHITE: u64 = 0x40000000_40FFFFFF;

/// Green text on black.
pub const GREEN_ON_BLACK: u64 = 0x4000FF00_40000000;

/// Red text on black.
pub const RED_ON_BLACK: u64 = 0x40FF0000_40000000;

/// Yellow text on black.
pub const YELLOW_ON_BLACK: u64 = 0x40FFFF00_40000000;

/// Blue text on black.
pub const BLUE_ON_BLACK: u64 = 0x400088FF_40000000;

/// Cyan text on black.
pub const CYAN_ON_BLACK: u64 = 0x4000FFFF_40000000;

/// Magenta text on black.
pub const MAGENTA_ON_BLACK: u64 = 0x40FF00FF_40000000;

/// A colour as one number: red, green and blue, eight bits each.
pub open spec fn rgb(r: u8, g: u8, b: u8) -> int {
    r * 0x1_0000 + g * 0x100 + b
}

/// One half of a channel value: the colour, marked as set.
pub open spec fn channel(r: u8, g: u8, b: u8) -> int {
    NOT_DEFAULT + rgb(r, g, b)
}

/// Create a channel with RGB colors: the foreground in the upper 32 bits,
/// the background in the lower, both marked as set.
pub fn from_rgb(fg_r: u8, fg_g: u8, fg_b: u8, bg_r: u8, bg_g: u8, bg_b: u8) -> (r: u64)
    ensures
        r == channel(fg_r, fg_g, fg_b) * 0x1_0000_0000 + channel(bg_r, bg_g, bg_b),
{
    let fg: u32 = ((fg_r as u32) << 16) | ((fg_g as u32) << 8) | (fg_b as u32);
    let bg: u32 = ((bg_r as u32) << 16) | ((bg_g as u32) << 8) | (bg_b as u32);
    let fg_channel: u64 = (fg as u64) | 0x4000_0000;
    let bg_channel: u64 = (bg as u64) | 0x4000_0000;
    let r: u64 = (fg_channel << 32) | bg_channel;
    assert(fg == fg_r * 0x1_0000 + fg_g * 0x100 + fg_b) by (bit_vector)
        requires
            fg == ((fg_r as u32) << 16) | ((fg_g as u32) << 8) | (fg_b as u32),
    ;
    assert(bg == bg_r * 0x1_0000 + bg_g * 0x100 + bg_b) by (bit_vector)
        requires
            bg == ((bg_r as u32) << 16) | ((bg_g as u32) << 8) | (bg_b as u32),
    ;
    assert(fg_channel == 0x4000_0000 + fg) by (bit_vector)
        requires
            fg_channel == (fg as u64) | 0x4000_0000,
            fg < 0x100_0000,
    ;
    assert(bg_channel == 0x4000_0000 + bg) by (bit_vector)
        requires
            bg_channel == (bg as u64) | 0x4000_0000,
            bg < 0x100_0000,
    ;
    assert(r == fg_channel * 0x1_0000_0000 + bg_channel) by (bit_vector)
        requires
            r == (fg_channel << 32) | bg_channel,
            fg_channel < 0x1_0000_0000,
            bg_channel < 0x1_0000_0000,
    ;
    r
}

/// Create a channel with only foreground RGB, on black.
pub fn fg_rgb(r: u8, g: u8, b: u8) -> (c: u64)
    ensures
        c == channel(r, g, b) * 0x1_0000_0000 + channel(0, 0, 0),
{
    from_rgb(r, g, b, 0, 0, 0)
}

} // verus!
