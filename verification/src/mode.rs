//! Display mode and its encoding as the memory-access-control byte.

use vstd::prelude::*;
use vstd::std_specs::convert::FromSpecImpl;

verus! {

/// Which way the logical screen is laid over the panel.
/// The default orientation is portrait.
#[derive(PartialEq, Eq, Structural, Copy, Clone, Debug)]
pub enum Orientation {
    Portrait,
    Landscape,
}

impl Default for Orientation {
    fn default() -> (r: Self)
        ensures
            r == Orientation::Portrait,
    {
        Orientation::Portrait
    }
}

/// Mirroring of the logical image.
#[derive(PartialEq, Eq, Structural, Copy, Clone, Debug)]
pub enum Flip {
    No,
    FlipHorizontal,
    FlipVertical,
    Rotate180,
}

impl Default for Flip {
    fn default() -> (r: Self)
        ensures
            r == Flip::No,
    {
        Flip::No
    }
}

/// Orientation, mirroring and colour order of the screen.
#[derive(PartialEq, Eq, Structural, Copy, Clone, Debug)]
pub struct DisplayMode {
    pub orientation: Orientation,
    pub flip: Flip,
    pub inverted_rgb: bool,
}

impl Default for DisplayMode {
    fn default() -> (r: Self)
        ensures
            r == (DisplayMode {
                orientation: Orientation::Portrait,
                flip: Flip::No,
                inverted_rgb: false,
            }),
    {
        DisplayMode { orientation: Orientation::Portrait, flip: Flip::No, inverted_rgb: false }
    }
}

/// Bit 3 of the control byte: pixels travel blue first.
pub const BGR_PIXEL_ORDER: u8 = 0x08;

/// Bit 5 of the control byte: rows and columns are exchanged.
pub const ROW_COLUMN_EXCHANGE: u8 = 0x20;

/// Bit 6 of the control byte: columns are addressed right to left.
pub const COLUMN_ORDER_SWAP: u8 = 0x40;

/// Bit 7 of the control byte: rows are addressed bottom to top.
pub const ROW_ORDER_SWAP: u8 = 0x80;

/// The two order-swap bits that a flip sets. Flips are relative to the
/// logical screen, so a horizontal flip swaps columns in portrait and rows in
/// landscape, and a vertical flip the other way round.
pub open spec fn flip_bits(orientation: Orientation, flip: Flip) -> int {
    match (flip, orientation) {
        (Flip::No, _) => 0,
        (Flip::FlipHorizontal, Orientation::Portrait) => 0x40,
        (Flip::FlipHorizontal, Orientation::Landscape) => 0x80,
        (Flip::FlipVertical, Orientation::Portrait) => 0x80,
        (Flip::FlipVertical, Orientation::Landscape) => 0x40,
        (Flip::Rotate180, _) => 0xC0,
    }
}

/// The memory-access-control byte of a mode: the sum of its disjoint bits.
pub open spec fn control_byte(mode: DisplayMode) -> u8 {
    ((if mode.orientation == Orientation::Landscape {
        0x20int
    } else {
        0int
    }) + (if mode.inverted_rgb {
        0x08int
    } else {
        0int
    }) + flip_bits(mode.orientation, mode.flip)) as u8
}

/// Or-ing flags that occupy different bits adds them up.
proof fn lemma_disjoint_or(o: u8, c: u8, f: u8)
    by (bit_vector)
    requires
        o == 0 || o == 0x20,
        c == 0 || c == 0x08,
        f == 0 || f == 0x40 || f == 0x80 || f == 0xC0,
    ensures
        (o | c) == o + c,
        ((o | c) | f) == o + c + f,
        (((o | c) | f) & 0x20 == 0x20) == (o == 0x20),
        (((o | c) | f) & 0x08 == 0x08) == (c == 0x08),
        ((o | c) | f) & 0xC0 == f,
{
}

impl From<DisplayMode> for u8 {
    fn from(mode: DisplayMode) -> (code: u8) {
        let exchange: u8 = if mode.orientation == Orientation::Landscape {
            ROW_COLUMN_EXCHANGE
        } else {
            0
        };
        let order: u8 = if mode.inverted_rgb {
            BGR_PIXEL_ORDER
        } else {
            0
        };
        let swaps: u8 = match mode.flip {
            Flip::No => 0,
            Flip::FlipHorizontal => if mode.orientation == Orientation::Portrait {
                COLUMN_ORDER_SWAP
            } else {
                ROW_ORDER_SWAP
            },
            Flip::FlipVertical => if mode.orientation == Orientation::Landscape {
                COLUMN_ORDER_SWAP
            } else {
                ROW_ORDER_SWAP
            },
            Flip::Rotate180 => COLUMN_ORDER_SWAP | ROW_ORDER_SWAP,
        };
        proof {
            assert(0x40u8 | 0x80u8 == 0xC0u8) by (bit_vector);
            lemma_disjoint_or(exchange, order, swaps);
        }
        exchange | order | swaps
    }
}

impl FromSpecImpl<DisplayMode> for u8 {
    open spec fn obeys_from_spec() -> bool {
        true
    }

    open spec fn from_spec(mode: DisplayMode) -> u8 {
        control_byte(mode)
    }
}

/// Each bit of the control byte answers one question about the mode: bit 5 is
/// set exactly in landscape, bit 3 exactly when the colour order is inverted,
/// and bits 6 and 7 are the column and row swaps that the flip asks for in
/// the mode's orientation.
pub proof fn lemma_control_byte_bits(mode: DisplayMode)
    ensures
        (control_byte(mode) & 0x20 == 0x20) <==> mode.orientation == Orientation::Landscape,
        (control_byte(mode) & 0x08 == 0x08) <==> mode.inverted_rgb,
        mode.flip == Flip::No ==> control_byte(mode) & 0xC0 == 0x00,
        mode.flip == Flip::Rotate180 ==> control_byte(mode) & 0xC0 == 0xC0,
        mode.flip == Flip::FlipHorizontal && mode.orientation == Orientation::Portrait
            ==> control_byte(mode) & 0xC0 == 0x40,
        mode.flip == Flip::FlipHorizontal && mode.orientation == Orientation::Landscape
            ==> control_byte(mode) & 0xC0 == 0x80,
        mode.flip == Flip::FlipVertical && mode.orientation == Orientation::Portrait
            ==> control_byte(mode) & 0xC0 == 0x80,
        mode.flip == Flip::FlipVertical && mode.orientation == Orientation::Landscape
            ==> control_byte(mode) & 0xC0 == 0x40,
{
    let o: u8 = if mode.orientation == Orientation::Landscape { 0x20 } else { 0 };
    let c: u8 = if mode.inverted_rgb { 0x08 } else { 0 };
    let f: u8 = flip_bits(mode.orientation, mode.flip) as u8;
    lemma_disjoint_or(o, c, f);
}

/// Two modes with the same control byte are the same mode.
pub proof fn lemma_control_byte_injective(a: DisplayMode, b: DisplayMode)
    requires
        control_byte(a) == control_byte(b),
    ensures
        a == b,
{
    lemma_control_byte_bits(a);
    lemma_control_byte_bits(b);
}

} // verus!
