//! Hardware vertical scrolling: the offset of the scroll band.

use vstd::prelude::*;

verus! {

/// The scroll region of a screen and where its band currently starts.
pub struct ScrollBand {
    /// Line at which the scrolling band currently starts.
    pub top_offset: int,
    /// Lines at the top that never scroll.
    pub fixed_top_lines: int,
    /// Lines at the bottom that never scroll.
    pub fixed_bottom_lines: int,
    /// Lines along the scroll axis.
    pub height: int,
}

impl ScrollBand {
    /// The offset lies within the band: not above the fixed top lines and
    /// not below the first fixed bottom line.
    pub open spec fn in_band(self) -> bool {
        self.fixed_top_lines <= self.top_offset <= self.height - self.fixed_bottom_lines
    }

    /// Number of lines that scroll.
    pub open spec fn scroll_lines(self) -> int {
        self.height - self.fixed_top_lines - self.fixed_bottom_lines
    }

    /// The offset after scrolling by `num_lines`: the sum, or, where the sum
    /// passes the first fixed bottom line, the fixed top plus the part of
    /// the sum beyond that line.
    pub open spec fn advanced_offset(self, num_lines: int) -> int {
        let sum = self.top_offset + num_lines;
        if sum > self.height - self.fixed_bottom_lines {
            self.fixed_top_lines + (sum + self.fixed_bottom_lines - self.height)
        } else {
            sum
        }
    }

    /// The band after scrolling by `num_lines`.
    pub open spec fn advanced(self, num_lines: int) -> ScrollBand {
        ScrollBand { top_offset: self.advanced_offset(num_lines), ..self }
    }
}

/// Scroller must be provided in order to scroll the screen. It is obtained
/// by configuring the screen for scrolling.
#[derive(Debug)]
pub struct Scroller {
    top_offset: u16,
    fixed_bottom_lines: u16,
    fixed_top_lines: u16,
    height: u16,
}

impl View for Scroller {
    type V = ScrollBand;

    closed spec fn view(&self) -> ScrollBand {
        ScrollBand {
            top_offset: self.top_offset as int,
            fixed_top_lines: self.fixed_top_lines as int,
            fixed_bottom_lines: self.fixed_bottom_lines as int,
            height: self.height as int,
        }
    }
}

impl Scroller {
    /// A scroller whose band starts right below the fixed top lines.
    pub fn new(fixed_top_lines: u16, fixed_bottom_lines: u16, height: u16) -> (s: Scroller)
        ensures
            s@ == (ScrollBand {
                top_offset: fixed_top_lines as int,
                fixed_top_lines: fixed_top_lines as int,
                fixed_bottom_lines: fixed_bottom_lines as int,
                height: height as int,
            }),
    {
        Scroller { top_offset: fixed_top_lines, fixed_top_lines, fixed_bottom_lines, height }
    }

    /// Line at which the scrolling band currently starts.
    pub fn top_offset(&self) -> (r: u16)
        ensures
            r == self@.top_offset,
    {
        self.top_offset
    }

    /// Lines at the top that never scroll.
    pub fn fixed_top_lines(&self) -> (r: u16)
        ensures
            r == self@.fixed_top_lines,
    {
        self.fixed_top_lines
    }

    /// Lines at the bottom that never scroll.
    pub fn fixed_bottom_lines(&self) -> (r: u16)
        ensures
            r == self@.fixed_bottom_lines,
    {
        self.fixed_bottom_lines
    }

    /// Lines along the scroll axis.
    pub fn height(&self) -> (r: u16)
        ensures
            r == self@.height,
    {
        self.height
    }

    /// Whether scrolling by `num_lines` leaves an offset that fits in 16
    /// bits.
    pub fn can_advance(&self, num_lines: u16) -> (r: bool)
        ensures
            r == (self@.advanced_offset(num_lines as int) <= u16::MAX),
    {
        let sum: u32 = self.top_offset as u32 + num_lines as u32;
        if sum + self.fixed_bottom_lines as u32 > self.height as u32 {
            self.fixed_top_lines as u32 + (sum + self.fixed_bottom_lines as u32
                - self.height as u32) <= 0xFFFF
        } else {
            sum <= 0xFFFF
        }
    }

    /// Moves the band by `num_lines`, wrapping by the overshoot at the first
    /// fixed bottom line, and returns the new offset.
    pub fn advance(&mut self, num_lines: u16) -> (offset: u16)
        requires
            old(self)@.advanced_offset(num_lines as int) <= u16::MAX,
        ensures
            final(self)@ == old(self)@.advanced(num_lines as int),
            offset == final(self)@.top_offset,
            old(self)@.in_band() && num_lines <= old(self)@.scroll_lines()
                ==> final(self)@.in_band(),
    {
        let sum: u32 = self.top_offset as u32 + num_lines as u32;
        let next: u32 = if sum + self.fixed_bottom_lines as u32 > self.height as u32 {
            self.fixed_top_lines as u32 + (sum + self.fixed_bottom_lines as u32
                - self.height as u32)
        } else {
            sum
        };
        self.top_offset = next as u16;
        self.top_offset
    }
}

/// Scrolling never moves the offset above the fixed top lines.
pub proof fn lemma_advance_lower_bound(band: ScrollBand, num_lines: int)
    requires
        band.fixed_top_lines <= band.top_offset,
        0 <= num_lines,
    ensures
        band.fixed_top_lines <= band.advanced_offset(num_lines),
{
}

/// A band that scrolls by no more than its own length keeps its offset
/// within the band.
pub proof fn lemma_advance_stays_in_band(band: ScrollBand, num_lines: int)
    requires
        band.in_band(),
        0 <= num_lines <= band.scroll_lines(),
    ensures
        band.advanced(num_lines).in_band(),
{
}

} // verus!
