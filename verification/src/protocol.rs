//! The byte-level protocol: which transfers each controller operation is
//! made of.

use vstd::prelude::*;
use crate::bus::{script_view, BusOp, Transfer};
use crate::command::Command;
use crate::mode::{control_byte, DisplayMode};

verus! {

/// The more significant byte of a 16-bit value.
pub open spec fn high_byte(v: u16) -> u8 {
    (v / 256) as u8
}

/// The less significant byte of a 16-bit value.
pub open spec fn low_byte(v: u16) -> u8 {
    (v % 256) as u8
}

/// A 16-bit value as it travels in command arguments: high byte first.
pub open spec fn word_bytes(v: u16) -> Seq<u8> {
    seq![high_byte(v), low_byte(v)]
}

/// A command: its opcode in command mode, then its arguments in data mode.
/// The data transfer is made even when there are no arguments.
pub open spec fn command_script(command: Command, args: Seq<u8>) -> Seq<Transfer> {
    seq![Transfer::Command(command.opcode()), Transfer::Data(args)]
}

/// Selects the window with the inclusive corners `(x0, y0)` and `(x1, y1)`:
/// a column-address-set followed by a page-address-set, each with two
/// 16-bit bounds.
pub open spec fn window_script(x0: u16, y0: u16, x1: u16, y1: u16) -> Seq<Transfer> {
    command_script(Command::ColumnAddressSet, word_bytes(x0) + word_bytes(x1)) + command_script(
        Command::PageAddressSet,
        word_bytes(y0) + word_bytes(y1),
    )
}

/// Streams pixel values into the selected window: a memory-write without
/// arguments, then the values exactly as given.
pub open spec fn write_script(pixels: Seq<u16>) -> Seq<Transfer> {
    command_script(Command::MemoryWrite, Seq::empty()).push(Transfer::Pixels(pixels))
}

/// Selects a window and streams pixel values into it.
pub open spec fn draw_script(x0: u16, y0: u16, x1: u16, y1: u16, pixels: Seq<u16>) -> Seq<
    Transfer,
> {
    window_script(x0, y0, x1, y1) + write_script(pixels)
}

/// Tells the controller the display mode.
pub open spec fn mode_script(mode: DisplayMode) -> Seq<Transfer> {
    command_script(Command::MemoryAccessControl, seq![control_byte(mode)])
}

/// Hardware reset: the reset line held low, then high, 150 microseconds each.
pub open spec fn reset_script() -> Seq<Transfer> {
    seq![
        Transfer::ResetLow,
        Transfer::DelayUs(150),
        Transfer::ResetHigh,
        Transfer::DelayUs(150),
    ]
}

/// Wakes the controller and lets it settle for 120 microseconds.
pub open spec fn sleep_out_script() -> Seq<Transfer> {
    command_script(Command::SleepOut, Seq::empty()).push(Transfer::DelayUs(120))
}

/// Arguments of the first digital gamma table.
pub open spec fn gamma_table_1() -> Seq<u8> {
    seq![
        0x00u8, 0x2C, 0x2C, 0x0B, 0x0C, 0x04, 0x4C, 0x64, 0x36, 0x03, 0x0E, 0x01, 0x10, 0x01, 0x00,
    ]
}

/// Arguments of the second digital gamma table.
pub open spec fn gamma_table_2() -> Seq<u8> {
    seq![
        0x0Fu8, 0x37, 0x37, 0x0C, 0x0F, 0x05, 0x50, 0x32, 0x36, 0x04, 0x0B, 0x00, 0x19, 0x14, 0x0F,
    ]
}

/// Voltage settings, between the pixel format and the display mode.
pub open spec fn power_script() -> Seq<Transfer> {
    command_script(Command::PowerControl1, seq![0x09u8, 0x09]) + command_script(
        Command::PowerControl2,
        seq![0x41u8, 0x00],
    ) + command_script(Command::PowerControl3, seq![0x33u8]) + command_script(
        Command::PowerControl4,
        seq![0x00u8, 0x36],
    )
}

/// The whole initialization: hardware reset, interface mode, wake-up,
/// 16-bit pixel format, inversion off, power control, display mode, gamma
/// tables, display function, a second wake-up, display on, idle off, normal
/// display mode.
pub open spec fn init_script(mode: DisplayMode) -> Seq<Transfer> {
    reset_script() + command_script(Command::InterfaceModeControl, seq![0x00u8])
        + sleep_out_script() + command_script(Command::PixelFormatSet, seq![0x55u8])
        + command_script(Command::DisplayInversionOff, Seq::empty()) + power_script()
        + mode_script(mode) + command_script(Command::DigitalGammaControl1, gamma_table_1())
        + command_script(Command::DigitalGammaControl2, gamma_table_2()) + command_script(
        Command::DisplayFunctionControl,
        seq![0x00u8, 0x02, 0x3B],
    ) + sleep_out_script() + command_script(Command::DisplayOn, Seq::empty()) + command_script(
        Command::IdleModeOff,
        Seq::empty(),
    ) + command_script(Command::NormalDisplayMode, Seq::empty())
}

/// Declares the scroll band: lines fixed at the top, lines that scroll,
/// lines fixed at the bottom, each as a 16-bit value.
pub open spec fn scroll_define_script(fixed_top: u16, scroll_lines: u16, fixed_bottom: u16) -> Seq<
    Transfer,
> {
    command_script(
        Command::VerticalScrollDefine,
        word_bytes(fixed_top) + word_bytes(scroll_lines) + word_bytes(fixed_bottom),
    )
}

/// Moves the scroll band so that it starts at line `offset`.
pub open spec fn scroll_address_script(offset: u16) -> Seq<Transfer> {
    command_script(Command::VerticalScrollAddr, word_bytes(offset))
}

/// The more significant byte of a 16-bit value.
pub fn high(v: u16) -> (b: u8)
    ensures
        b == high_byte(v),
{
    assert(v >> 8 == v / 256 && (v >> 8) < 256) by (bit_vector);
    (v >> 8) as u8
}

/// The less significant byte of a 16-bit value.
pub fn low(v: u16) -> (b: u8)
    ensures
        b == low_byte(v),
{
    assert(v & 0xff == v % 256 && (v & 0xff) < 256) by (bit_vector);
    (v & 0xff) as u8
}

/// Appends one operation to a plan.
pub(crate) fn push_op(ops: &mut Vec<BusOp>, op: BusOp)
    ensures
        script_view(final(ops)@) == script_view(old(ops)@).push(op@),
{
    ops.push(op);
    assert(script_view(ops@) =~= script_view(old(ops)@).push(op@));
}

} // verus!
