//! Panel sizes.

use vstd::prelude::*;

verus! {

/// Width and height of a panel in its native, portrait orientation.
///
/// The controller addresses pixels with 16-bit coordinates, so neither
/// side may be zero or exceed 65536. An implementation states this as the
/// proof `addressable`; one written outside verified code gives it an empty
/// body and answers for the bounds itself.
pub trait DisplaySize {
    /// Width in pixels
    const WIDTH: usize;
    /// Height in pixels
    const HEIGHT: usize;

    /// Every pixel of the panel has 16-bit coordinates.
    proof fn addressable()
        ensures
            1 <= Self::WIDTH <= 0x1_0000,
            1 <= Self::HEIGHT <= 0x1_0000,
    ;
}

/// Generic display size of 240x320 pixels
pub struct DisplaySize240x320;

impl DisplaySize for DisplaySize240x320 {
    const WIDTH: usize = 240;
    const HEIGHT: usize = 320;

    proof fn addressable()
        ensures
            Self::WIDTH == 240,
            Self::HEIGHT == 320,
    {
    }
}

/// Generic display size of 320x480 pixels
pub struct DisplaySize320x480;

impl DisplaySize for DisplaySize320x480 {
    const WIDTH: usize = 320;
    const HEIGHT: usize = 480;

    proof fn addressable()
        ensures
            Self::WIDTH == 320,
            Self::HEIGHT == 480,
    {
    }
}

} // verus!
