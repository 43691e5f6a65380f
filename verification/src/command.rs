//! The controller's command set.

use vstd::prelude::*;

verus! {

/// The commands of the controller that the driver issues or that frame its
/// operation. Each is one opcode byte on the wire.
#[derive(PartialEq, Eq, Structural, Copy, Clone, Debug)]
pub enum Command {
    SoftwareReset,
    SleepIn,
    SleepOut,
    NormalDisplayMode,
    DisplayInversionOff,
    DisplayInversionOn,
    DisplayOff,
    DisplayOn,
    ColumnAddressSet,
    PageAddressSet,
    MemoryWrite,
    VerticalScrollDefine,
    MemoryAccessControl,
    VerticalScrollAddr,
    IdleModeOff,
    IdleModeOn,
    PixelFormatSet,
    InterfaceModeControl,
    DisplayFunctionControl,
    PowerControl1,
    PowerControl2,
    PowerControl3,
    PowerControl4,
    DigitalGammaControl1,
    DigitalGammaControl2,
}

impl Command {
    /// The opcode byte of the command.
    pub open spec fn opcode(self) -> u8 {
        match self {
            Command::SoftwareReset => 0x01,
            Command::SleepIn => 0x10,
            Command::SleepOut => 0x11,
            Command::NormalDisplayMode => 0x13,
            Command::DisplayInversionOff => 0x20,
            Command::DisplayInversionOn => 0x21,
            Command::DisplayOff => 0x28,
            Command::DisplayOn => 0x29,
            Command::ColumnAddressSet => 0x2a,
            Command::PageAddressSet => 0x2b,
            Command::MemoryWrite => 0x2c,
            Command::VerticalScrollDefine => 0x33,
            Command::MemoryAccessControl => 0x36,
            Command::VerticalScrollAddr => 0x37,
            Command::IdleModeOff => 0x38,
            Command::IdleModeOn => 0x39,
            Command::PixelFormatSet => 0x3a,
            Command::InterfaceModeControl => 0xb0,
            Command::DisplayFunctionControl => 0xb6,
            Command::PowerControl1 => 0xc0,
            Command::PowerControl2 => 0xc1,
            Command::PowerControl3 => 0xc2,
            Command::PowerControl4 => 0xc3,
            Command::DigitalGammaControl1 => 0xe2,
            Command::DigitalGammaControl2 => 0xe3,
        }
    }

    /// The opcode byte of the command.
    pub fn code(self) -> (byte: u8)
        ensures
            byte == self.opcode(),
    {
        match self {
            Command::SoftwareReset => 0x01,
            Command::SleepIn => 0x10,
            Command::SleepOut => 0x11,
            Command::NormalDisplayMode => 0x13,
            Command::DisplayInversionOff => 0x20,
            Command::DisplayInversionOn => 0x21,
            Command::DisplayOff => 0x28,
            Command::DisplayOn => 0x29,
            Command::ColumnAddressSet => 0x2a,
            Command::PageAddressSet => 0x2b,
            Command::MemoryWrite => 0x2c,
            Command::VerticalScrollDefine => 0x33,
            Command::MemoryAccessControl => 0x36,
            Command::VerticalScrollAddr => 0x37,
            Command::IdleModeOff => 0x38,
            Command::IdleModeOn => 0x39,
            Command::PixelFormatSet => 0x3a,
            Command::InterfaceModeControl => 0xb0,
            Command::DisplayFunctionControl => 0xb6,
            Command::PowerControl1 => 0xc0,
            Command::PowerControl2 => 0xc1,
            Command::PowerControl3 => 0xc2,
            Command::PowerControl4 => 0xc3,
            Command::DigitalGammaControl1 => 0xe2,
            Command::DigitalGammaControl2 => 0xe3,
        }
    }
}

} // verus!
