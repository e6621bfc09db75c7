//! Colours and typeface shared by the icon and the panel.

use vstd::prelude::*;

verus! {

// Colours are GDI values, 0x00BBGGRR.
/// Background of the icon and of the panel.
pub const COLOR_BG: u32 = 0x000e0b0b;

/// Labels, and an idle rate.
pub const COLOR_TEXT_GRAY: u32 = 0x00aaaaaa;

/// Current rates on the panel.
pub const COLOR_TEXT_WHITE: u32 = 0x00ffffff;

/// Download graph line, and a rate under load.
pub const COLOR_DOWN_LINE: u32 = 0x0080de4a;

/// Download graph fill.
pub const COLOR_DOWN_FILL: u32 = 0x0014532d;

/// Upload graph line.
pub const COLOR_UP_LINE: u32 = 0x00b672f4;

/// Upload graph fill.
pub const COLOR_UP_FILL: u32 = 0x00831843;

/// An active rate.
pub const COLOR_ACTIVE: u32 = 0x0008b3ea;

/// A peak rate.
pub const COLOR_PEAK: u32 = 0x000000ff;

/// Typeface of every text drawn.
pub const FONT_FACE: &'static str = "Segoe UI";

} // verus!
