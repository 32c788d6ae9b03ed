//! The fixed three-color palette that spiral arms cycle through.
use vstd::prelude::*;

verus! {

/// Number of entries in the palette.
pub const PALETTE_SIZE: u32 = 3;

/// One palette entry; each is a pure primary color.
#[derive(Clone, Copy, Debug, PartialEq, Eq, Structural)]
pub enum StarColor {
    Red,
    Green,
    Blue,
}

/// The palette entry at a position `0`, `1` or `2`.
pub open spec fn palette_entry(n: nat) -> StarColor {
    if n == 0 {
        StarColor::Red
    } else if n == 1 {
        StarColor::Green
    } else {
        StarColor::Blue
    }
}

/// The color of arm `branch`: the palette is cycled through arm by arm.
pub open spec fn color_of_branch(branch: nat) -> StarColor {
    palette_entry(branch % (PALETTE_SIZE as nat))
}

/// The color that arm `branch` is drawn in.
pub fn branch_color(branch: u32) -> (r: StarColor)
    ensures
        r == color_of_branch(branch as nat),
{
    let n: u32 = branch % PALETTE_SIZE;
    if n == 0 {
        StarColor::Red
    } else if n == 1 {
        StarColor::Green
    } else {
        StarColor::Blue
    }
}

impl StarColor {
    /// The red, green and blue channels, each fully on (1) or off (0).
    pub fn channels(&self) -> (r: (u8, u8, u8))
        ensures
            *self == StarColor::Red ==> r == (1u8, 0u8, 0u8),
            *self == StarColor::Green ==> r == (0u8, 1u8, 0u8),
            *self == StarColor::Blue ==> r == (0u8, 0u8, 1u8),
    {
        match self {
            StarColor::Red => (1, 0, 0),
            StarColor::Green => (0, 1, 0),
            StarColor::Blue => (0, 0, 1),
        }
    }
}

} // verus!
