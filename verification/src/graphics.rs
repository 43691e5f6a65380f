//! The drawing surface: size query, single pixels, styled rectangles and
//! full-screen clears, clipped to the screen and turned into window
//! selections and pixel streams.

use vstd::prelude::*;
use embedded_graphics::pixelcolor::raw::{RawData, RawU16};
use embedded_graphics::pixelcolor::Rgb565;
use embedded_graphics::{drawable, geometry, primitives, style};
use crate::bus::{outcome, script_view, start, BusOp, DisplayError, Transaction, Transfer};
use crate::driver::{Screen, ILI9486};
use crate::protocol::draw_script;

verus! {

/// A position on the drawing plane. The screen's top-left pixel is (0, 0).
#[derive(PartialEq, Eq, Structural, Copy, Clone, Debug)]
pub struct Point {
    pub x: i32,
    pub y: i32,
}

/// Width and height of a surface in pixels.
#[derive(PartialEq, Eq, Structural, Copy, Clone, Debug)]
pub struct Size {
    pub width: u32,
    pub height: u32,
}

/// A position and the RGB565 value to put there.
#[derive(PartialEq, Eq, Copy, Clone, Debug)]
pub struct Pixel(pub Point, pub u16);

/// A rectangle given by two corners, both included.
#[derive(PartialEq, Eq, Copy, Clone, Debug)]
pub struct Rectangle {
    pub top_left: Point,
    pub bottom_right: Point,
}

/// How a primitive is painted: RGB565 values for the inside and for the
/// outline, either of which may be absent, and the outline's width.
#[derive(PartialEq, Eq, Copy, Clone, Debug)]
pub struct PrimitiveStyle {
    pub fill_color: Option<u16>,
    pub stroke_color: Option<u16>,
    pub stroke_width: u32,
}

/// A rectangle together with its style.
#[derive(PartialEq, Eq, Copy, Clone, Debug)]
pub struct StyledRectangle {
    pub primitive: Rectangle,
    pub style: PrimitiveStyle,
}

impl PrimitiveStyle {
    /// The outline width as a signed 32-bit number, saturated.
    pub open spec fn stroke_reach(self) -> int {
        if self.stroke_width > i32::MAX {
            i32::MAX as int
        } else {
            self.stroke_width as int
        }
    }
}

impl StyledRectangle {
    /// The rectangle's pixels can be enumerated in 32-bit arithmetic.
    ///
    /// Nothing is computed for a rectangle without colours or without rows.
    /// Otherwise the enumeration steps one column past the larger corner
    /// abscissa and one row past the bottom, adds the outline width to the
    /// top ordinate, and, where a row lies between the top and the bottom
    /// outline, adds it to the left abscissa as well.
    pub open spec fn iterable(self) -> bool {
        let tl = self.primitive.top_left;
        let br = self.primitive.bottom_right;
        let reach = self.style.stroke_reach();
        ||| (self.style.fill_color is None && self.style.stroke_color is None)
        ||| tl.y > br.y
        ||| {
            &&& tl.x < i32::MAX
            &&& br.x < i32::MAX
            &&& br.y < i32::MAX
            &&& tl.y + reach <= i32::MAX
            &&& tl.y + reach <= br.y - reach ==> tl.x + reach <= i32::MAX
        }
    }

    /// Whether the rectangle's pixels can be enumerated in 32-bit
    /// arithmetic.
    pub fn is_iterable(&self) -> (r: bool)
        ensures
            r == self.iterable(),
    {
        let tl = self.primitive.top_left;
        let br = self.primitive.bottom_right;
        let reach: i64 = if self.style.stroke_width > 0x7FFF_FFFF {
            0x7FFF_FFFF
        } else {
            self.style.stroke_width as i64
        };
        if self.style.fill_color.is_none() && self.style.stroke_color.is_none() {
            return true;
        }
        if tl.y > br.y {
            return true;
        }
        let between_outlines = tl.y as i64 + reach <= br.y as i64 - reach;
        tl.x < i32::MAX && br.x < i32::MAX && br.y < i32::MAX && tl.y as i64 + reach <= 0x7FFF_FFFF
            && (!between_outlines || tl.x as i64 + reach <= 0x7FFF_FFFF)
    }
}

/// The pixels that the graphics library's iterator over a styled rectangle
/// yields, in the order in which it yields them.
pub uninterp spec fn styled_rectangle_pixels(item: StyledRectangle) -> Seq<Pixel>;

/// Enumerates the pixels of a styled rectangle with
/// `embedded_graphics`: builds the library's `Styled<Rectangle,
/// PrimitiveStyle<Rgb565>>` from the corners and the style, runs its pixel
/// iterator to the end and hands out each pixel with its raw 16-bit colour.
/// The contract gives the result its name and claims nothing else about it;
/// the precondition keeps the iterator's coordinate arithmetic within `i32`.
#[verifier::external_body]
fn enumerate_styled_rectangle(item: &StyledRectangle) -> (pixels: Vec<Pixel>)
    requires
        item.iterable(),
    ensures
        pixels@ == styled_rectangle_pixels(*item),
{
    let color = |c: u16| Rgb565::from(RawU16::new(c));
    let mut paint = style::PrimitiveStyle::new();
    paint.fill_color = item.style.fill_color.map(color);
    paint.stroke_color = item.style.stroke_color.map(color);
    paint.stroke_width = item.style.stroke_width;
    let (tl, br) = (item.primitive.top_left, item.primitive.bottom_right);
    let shape = primitives::Rectangle::new(
        geometry::Point::new(tl.x, tl.y),
        geometry::Point::new(br.x, br.y),
    );
    style::Styled::new(shape, paint).into_iter().map(
        |drawable::Pixel(p, c)| Pixel(Point { x: p.x, y: p.y }, RawU16::from(c).into_inner()),
    ).collect()
}

/// The point lies on the screen.
pub open spec fn on_screen(p: Point, screen: Screen) -> bool {
    0 <= p.x < screen.width && 0 <= p.y < screen.height
}

/// The rectangle's top-left corner lies neither right of nor below the
/// screen.
pub open spec fn starts_on_screen(shape: Rectangle, screen: Screen) -> bool {
    shape.top_left.x < screen.width && shape.top_left.y < screen.height
}

/// A coordinate moved into `0..=max`: negative values become 0, values
/// beyond `max` become `max`.
pub open spec fn clamp_coord(v: int, max: int) -> int {
    if v < 0 {
        0
    } else if v > max {
        max
    } else {
        v
    }
}

/// The colours of those pixels that lie on the screen, in the order given.
pub open spec fn visible_colors(pixels: Seq<Pixel>, screen: Screen) -> Seq<u16> {
    pixels.filter(|p: Pixel| on_screen(p.0, screen)).map_values(|p: Pixel| p.1)
}

/// Drawing one pixel: nothing at all if it lies off the screen, else a
/// window of that one pixel and its colour.
pub open spec fn pixel_script(screen: Screen, pixel: Pixel) -> Seq<Transfer> {
    if on_screen(pixel.0, screen) {
        draw_script(
            pixel.0.x as u16,
            pixel.0.y as u16,
            pixel.0.x as u16,
            pixel.0.y as u16,
            seq![pixel.1],
        )
    } else {
        Seq::empty()
    }
}

/// Drawing a rectangle whose pixels are `pixels`: nothing at all if its
/// top-left corner lies right of or below the screen; else the window
/// between the two corners, each clamped onto the screen, and the colours of
/// the pixels that lie on the screen.
pub open spec fn rectangle_script(screen: Screen, shape: Rectangle, pixels: Seq<Pixel>) -> Seq<
    Transfer,
> {
    if !starts_on_screen(shape, screen) {
        Seq::empty()
    } else {
        draw_script(
            clamp_coord(shape.top_left.x as int, screen.width - 1) as u16,
            clamp_coord(shape.top_left.y as int, screen.height - 1) as u16,
            clamp_coord(shape.bottom_right.x as int, screen.width - 1) as u16,
            clamp_coord(shape.bottom_right.y as int, screen.height - 1) as u16,
            visible_colors(pixels, screen),
        )
    }
}

/// Clearing the screen: the window of the whole screen and one copy of the
/// colour for each of its pixels.
pub open spec fn clear_script(screen: Screen, color: u16) -> Seq<Transfer> {
    draw_script(
        0,
        0,
        (screen.width - 1) as u16,
        (screen.height - 1) as u16,
        Seq::new(screen.width * screen.height, |i: int| color),
    )
}

/// Moves a coordinate into `0..=max`.
fn clamp(v: i32, max: i32) -> (r: u16)
    requires
        0 <= max <= 0xFFFF,
    ensures
        r == clamp_coord(v as int, max as int),
{
    if v < 0 {
        0
    } else if v > max {
        max as u16
    } else {
        v as u16
    }
}

impl ILI9486 {
    /// The size of the screen in the current orientation.
    pub fn size(&self) -> (s: Size)
        requires
            self.wf(),
        ensures
            s.width == self@.width,
            s.height == self@.height,
    {
        Size { width: self.width() as u32, height: self.height() as u32 }
    }

    /// Plans the drawing of one pixel. A pixel off the screen is skipped:
    /// the plan is empty and succeeds as it stands.
    pub fn draw_pixel(&self, pixel: Pixel) -> (t: Transaction<()>)
        requires
            self.wf(),
        ensures
            t.script() == pixel_script(self@, pixel),
            t.progress() == start(),
            !on_screen(pixel.0, self@) ==> t.script().len() == 0 && outcome(
                t.script(),
                t.progress(),
                t.value(),
            ) == Some(Ok::<(), DisplayError>(())),
    {
        let Pixel(pos, color) = pixel;

        if pos.x < 0 || pos.y < 0 || pos.x >= self.width() as i32 || pos.y >= self.height() as i32 {
            let ops: Vec<BusOp> = Vec::new();
            assert(script_view(ops@) =~= Seq::empty());
            return Transaction::new(ops, ());
        }
        let data: Vec<u16> = vec![color];
        assert(data@ =~= seq![color]);
        self.draw_raw_iter(pos.x as u16, pos.y as u16, pos.x as u16, pos.y as u16, data)
    }

    /// Plans the drawing of a rectangle whose pixels have been enumerated
    /// already: the window is the rectangle clipped to the screen, and of
    /// the pixels only those on the screen are streamed. A rectangle that
    /// starts right of or below the screen is skipped.
    pub fn draw_rectangle_pixels(&self, shape: &Rectangle, pixels: &Vec<Pixel>) -> (t: Transaction<
        (),
    >)
        requires
            self.wf(),
        ensures
            t.script() == rectangle_script(self@, *shape, pixels@),
            t.progress() == start(),
    {
        let w = self.width() as i32;
        let h = self.height() as i32;
        if shape.top_left.x >= w || shape.top_left.y >= h {
            let ops: Vec<BusOp> = Vec::new();
            assert(script_view(ops@) =~= Seq::empty());
            return Transaction::new(ops, ());
        }
        let x0 = clamp(shape.top_left.x, w - 1);
        let y0 = clamp(shape.top_left.y, h - 1);
        let x1 = clamp(shape.bottom_right.x, w - 1);
        let y1 = clamp(shape.bottom_right.y, h - 1);

        let ghost screen = self@;
        let ghost visible = |p: Pixel| on_screen(p.0, screen);
        let ghost color_of = |p: Pixel| p.1;
        let mut colors: Vec<u16> = Vec::new();
        let mut i: usize = 0;
        proof {
            reveal(Seq::filter);
            assert(pixels@.take(0).filter(visible).map_values(color_of) =~= colors@);
        }
        while i < pixels.len()
            invariant
                i <= pixels.len(),
                w == screen.width,
                h == screen.height,
                visible == |p: Pixel| on_screen(p.0, screen),
                color_of == |p: Pixel| p.1,
                colors@ == pixels@.take(i as int).filter(visible).map_values(color_of),
            decreases pixels.len() - i,
        {
            let Pixel(p, c) = pixels[i];
            proof {
                reveal(Seq::filter);
                let before = pixels@.take(i as int);
                let now = pixels@.take(i + 1);
                assert(now.drop_last() =~= before);
                assert(now.last() == pixels@[i as int]);
                if visible(pixels@[i as int]) {
                    assert(now.filter(visible) =~= before.filter(visible).push(pixels@[i as int]));
                    assert(now.filter(visible).map_values(color_of) =~= before.filter(
                        visible,
                    ).map_values(color_of).push(c));
                } else {
                    assert(now.filter(visible) =~= before.filter(visible));
                }
            }
            if p.x >= 0 && p.y >= 0 && p.x < w && p.y < h {
                colors.push(c);
            }
            i += 1;
        }
        assert(pixels@.take(i as int) =~= pixels@);
        self.draw_raw_iter(x0, y0, x1, y1, colors)
    }

    /// Plans the drawing of a styled rectangle: the rectangle is clipped to
    /// the screen and painted as its style says. A rectangle that starts
    /// right of or below the screen is skipped without being enumerated.
    pub fn draw_rectangle(&self, item: &StyledRectangle) -> (t: Transaction<()>)
        requires
            self.wf(),
            starts_on_screen(item.primitive, self@) ==> item.iterable(),
        ensures
            t.script() == rectangle_script(self@, item.primitive, styled_rectangle_pixels(*item)),
            t.progress() == start(),
            !starts_on_screen(item.primitive, self@) ==> t.script().len() == 0 && outcome(
                t.script(),
                t.progress(),
                t.value(),
            ) == Some(Ok::<(), DisplayError>(())),
    {
        if item.primitive.top_left.x >= self.width() as i32 || item.primitive.top_left.y
            >= self.height() as i32 {
            let ops: Vec<BusOp> = Vec::new();
            assert(script_view(ops@) =~= Seq::empty());
            return Transaction::new(ops, ());
        }
        let pixels = enumerate_styled_rectangle(item);
        self.draw_rectangle_pixels(&item.primitive, &pixels)
    }

    /// Plans a clear of the whole screen to one colour.
    pub fn clear(&self, color: u16) -> (t: Transaction<()>)
        requires
            self.wf(),
            self@.width * self@.height <= usize::MAX,
        ensures
            t.script() == clear_script(self@, color),
            t.progress() == start(),
    {
        let count: usize = self.width() * self.height();
        let mut data: Vec<u16> = Vec::new();
        let mut i: usize = 0;
        while i < count
            invariant
                i <= count,
                data@ == Seq::new(i as nat, |j: int| color),
            decreases count - i,
        {
            data.push(color);
            i += 1;
            assert(data@ =~= Seq::new(i as nat, |j: int| color));
        }
        self.draw_raw_iter(0, 0, (self.width() - 1) as u16, (self.height() - 1) as u16, data)
    }
}

} // verus!
