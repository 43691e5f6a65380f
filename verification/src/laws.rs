//! What holds of the driver as a whole: facts that relate several
//! operations, stated over the same models as their contracts.

use vstd::prelude::*;
use crate::bus::{
    failure_of, is_pending, lemma_run_failure, lemma_run_success, outcome, run, DisplayError,
    Progress, Transfer,
};
use crate::driver::Screen;
use crate::graphics::{
    on_screen, pixel_script, rectangle_script, visible_colors, Pixel, Point, Rectangle,
};
use crate::mode::{DisplayMode, Orientation};
use crate::protocol::{draw_script, high_byte, init_script, low_byte, word_bytes};

verus! {

/// The screen after a series of mode changes, applied in order.
pub open spec fn after_modes(screen: Screen, modes: Seq<DisplayMode>) -> Screen
    decreases modes.len(),
{
    if modes.len() == 0 {
        screen
    } else {
        after_modes(screen, modes.drop_last()).with_mode(modes.last())
    }
}

/// A mode change exchanges width and height if and only if it changes the
/// orientation, and a second change to the same orientation leaves the size
/// as the first one made it.
pub proof fn lemma_orientation_change_swaps_once(
    screen: Screen,
    first: DisplayMode,
    second: DisplayMode,
)
    ensures
        screen.with_mode(first).mode == first,
        screen.mode.orientation != first.orientation ==> screen.with_mode(first).width
            == screen.height && screen.with_mode(first).height == screen.width,
        screen.mode.orientation == first.orientation ==> screen.with_mode(first).width
            == screen.width && screen.with_mode(first).height == screen.height,
        first.orientation == second.orientation ==> screen.with_mode(first).with_mode(second).width
            == screen.with_mode(first).width && screen.with_mode(first).with_mode(second).height
            == screen.with_mode(first).height,
{
}

/// However many mode changes a panel has seen since reset, its size is the
/// native one in portrait and the exchanged one in landscape.
pub proof fn lemma_size_follows_orientation(width: nat, height: nat, modes: Seq<DisplayMode>)
    ensures
        ({
            let screen = after_modes(Screen::native(width, height), modes);
            match screen.mode.orientation {
                Orientation::Portrait => screen.width == width && screen.height == height,
                Orientation::Landscape => screen.width == height && screen.height == width,
            }
        }),
        Screen::native(width, height).addressable() ==> after_modes(
            Screen::native(width, height),
            modes,
        ).addressable(),
    decreases modes.len(),
{
    if modes.len() > 0 {
        lemma_size_follows_orientation(width, height, modes.drop_last());
    }
}

/// A transaction whose transfers all go through delivers its value: once
/// as many successes were reported as the plan has transfers, nothing is
/// pending and the outcome is the value.
pub proof fn lemma_success_delivers<T>(script: Seq<Transfer>, outcomes: Seq<bool>, value: T)
    requires
        outcomes.len() >= script.len(),
        forall|i: int|
            0 <= i < script.len() ==> outcomes[i] || failure_of(#[trigger] script[i]) is None,
    ensures
        !is_pending(script, run(script, outcomes)),
        outcome(script, run(script, outcomes), value) == Some(Ok::<T, DisplayError>(value)),
{
    lemma_run_success(script, outcomes);
}

/// The initialization plan has 38 transfers. Only the first and the third
/// drive the reset line; every other one is a pause or a bus transfer.
pub proof fn lemma_init_script_shape(mode: DisplayMode)
    ensures
        init_script(mode).len() == 38,
        init_script(mode)[0] == Transfer::ResetLow,
        init_script(mode)[1] == Transfer::DelayUs(150),
        init_script(mode)[2] == Transfer::ResetHigh,
        init_script(mode)[3] == Transfer::DelayUs(150),
        forall|i: int|
            4 <= i < 38 ==> failure_of(#[trigger] init_script(mode)[i]) != Some(
                DisplayError::ResetLine,
            ),
{
}

/// If a transfer of the initialization fails, initialization ends with an
/// error and delivers no controller state: the reset-line error if the
/// reset line could not be driven, the transport error if the bus failed.
/// The transfers before the failing one are the only ones that went
/// through, and none is performed after it, whatever is reported later.
pub proof fn lemma_init_failure_aborts<T>(mode: DisplayMode, outcomes: Seq<bool>, k: int, value: T)
    requires
        0 <= k < init_script(mode).len(),
        k < outcomes.len(),
        forall|i: int|
            0 <= i < k ==> outcomes[i] || failure_of(#[trigger] init_script(mode)[i]) is None,
        !outcomes[k],
        failure_of(init_script(mode)[k]) is Some,
    ensures
        run(init_script(mode), outcomes) == (Progress {
            done: k as nat,
            fault: Some(
                if k == 0 || k == 2 {
                    DisplayError::ResetLine
                } else {
                    DisplayError::Transport
                },
            ),
        }),
        !is_pending(init_script(mode), run(init_script(mode), outcomes)),
        outcome(init_script(mode), run(init_script(mode), outcomes), value) == Some(
            Err::<T, DisplayError>(
                if k == 0 || k == 2 {
                    DisplayError::ResetLine
                } else {
                    DisplayError::Transport
                },
            ),
        ),
{
    lemma_init_script_shape(mode);
    lemma_run_failure(init_script(mode), outcomes, k);
}

/// A pixel in a corner of the screen is drawn with one window selection,
/// whose four column bytes and four page bytes name that one pixel, and one
/// memory write that streams the one colour.
pub proof fn lemma_corner_pixels(screen: Screen, color: u16)
    requires
        screen.addressable(),
    ensures
        pixel_script(screen, Pixel(Point { x: 0, y: 0 }, color)) == seq![
            Transfer::Command(0x2a),
            Transfer::Data(seq![0u8, 0u8, 0u8, 0u8]),
            Transfer::Command(0x2b),
            Transfer::Data(seq![0u8, 0u8, 0u8, 0u8]),
            Transfer::Command(0x2c),
            Transfer::Data(Seq::empty()),
            Transfer::Pixels(seq![color]),
        ],
        ({
            let x = (screen.width - 1) as u16;
            let y = (screen.height - 1) as u16;
            pixel_script(
                screen,
                Pixel(Point { x: (screen.width - 1) as i32, y: (screen.height - 1) as i32 }, color),
            ) == seq![
                Transfer::Command(0x2a),
                Transfer::Data(seq![high_byte(x), low_byte(x), high_byte(x), low_byte(x)]),
                Transfer::Command(0x2b),
                Transfer::Data(seq![high_byte(y), low_byte(y), high_byte(y), low_byte(y)]),
                Transfer::Command(0x2c),
                Transfer::Data(Seq::empty()),
                Transfer::Pixels(seq![color]),
            ]
        }),
{
    let x = (screen.width - 1) as u16;
    let y = (screen.height - 1) as u16;
    assert(word_bytes(0) + word_bytes(0) =~= seq![0u8, 0u8, 0u8, 0u8]);
    assert(word_bytes(x) + word_bytes(x) =~= seq![
        high_byte(x),
        low_byte(x),
        high_byte(x),
        low_byte(x),
    ]);
    assert(word_bytes(y) + word_bytes(y) =~= seq![
        high_byte(y),
        low_byte(y),
        high_byte(y),
        low_byte(y),
    ]);
    assert(draw_script(0, 0, 0, 0, seq![color]) =~= seq![
        Transfer::Command(0x2a),
        Transfer::Data(seq![0u8, 0u8, 0u8, 0u8]),
        Transfer::Command(0x2b),
        Transfer::Data(seq![0u8, 0u8, 0u8, 0u8]),
        Transfer::Command(0x2c),
        Transfer::Data(Seq::empty()),
        Transfer::Pixels(seq![color]),
    ]);
    assert(draw_script(x, y, x, y, seq![color]) =~= seq![
        Transfer::Command(0x2a),
        Transfer::Data(seq![high_byte(x), low_byte(x), high_byte(x), low_byte(x)]),
        Transfer::Command(0x2b),
        Transfer::Data(seq![high_byte(y), low_byte(y), high_byte(y), low_byte(y)]),
        Transfer::Command(0x2c),
        Transfer::Data(Seq::empty()),
        Transfer::Pixels(seq![color]),
    ]);
}

/// A rectangle that reaches over every edge of the screen is drawn into the
/// window of the whole screen, with the colours of its pixels that lie on
/// the screen.
pub proof fn lemma_covering_rectangle_fills_screen(
    screen: Screen,
    shape: Rectangle,
    pixels: Seq<Pixel>,
)
    requires
        screen.addressable(),
        shape.top_left.x <= 0,
        shape.top_left.y <= 0,
        shape.bottom_right.x >= screen.width - 1,
        shape.bottom_right.y >= screen.height - 1,
    ensures
        rectangle_script(screen, shape, pixels) == draw_script(
            0,
            0,
            (screen.width - 1) as u16,
            (screen.height - 1) as u16,
            visible_colors(pixels, screen),
        ),
        visible_colors(pixels, screen).len() <= pixels.len(),
{
    pixels.lemma_filter_len(|p: Pixel| on_screen(p.0, screen));
}

/// A rectangle whose top-left corner lies right of or below the screen is
/// not drawn at all, whatever its pixels are.
pub proof fn lemma_rectangle_beyond_screen_draws_nothing(
    screen: Screen,
    shape: Rectangle,
    pixels: Seq<Pixel>,
)
    requires
        shape.top_left.x >= screen.width || shape.top_left.y >= screen.height,
    ensures
        rectangle_script(screen, shape, pixels) == Seq::<Transfer>::empty(),
{
}

} // verus!
