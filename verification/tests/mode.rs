use ili9486::{Command, DisplayMode, Flip, Orientation};

fn byte(orientation: Orientation, flip: Flip, inverted_rgb: bool) -> u8 {
    u8::from(DisplayMode { orientation, flip, inverted_rgb })
}

#[test]
fn default_mode_is_portrait_unflipped_rgb() {
    let mode = DisplayMode::default();
    assert_eq!(mode.orientation, Orientation::Portrait);
    assert_eq!(mode.flip, Flip::No);
    assert!(!mode.inverted_rgb);
    assert_eq!(Orientation::default(), Orientation::Portrait);
    assert_eq!(Flip::default(), Flip::No);
    assert_eq!(u8::from(mode), 0x00);
}

#[test]
fn control_byte_of_every_portrait_mode() {
    assert_eq!(byte(Orientation::Portrait, Flip::No, false), 0x00);
    assert_eq!(byte(Orientation::Portrait, Flip::No, true), 0x08);
    assert_eq!(byte(Orientation::Portrait, Flip::FlipHorizontal, false), 0x40);
    assert_eq!(byte(Orientation::Portrait, Flip::FlipHorizontal, true), 0x48);
    assert_eq!(byte(Orientation::Portrait, Flip::FlipVertical, false), 0x80);
    assert_eq!(byte(Orientation::Portrait, Flip::FlipVertical, true), 0x88);
    assert_eq!(byte(Orientation::Portrait, Flip::Rotate180, false), 0xC0);
    assert_eq!(byte(Orientation::Portrait, Flip::Rotate180, true), 0xC8);
}

#[test]
fn control_byte_of_every_landscape_mode() {
    assert_eq!(byte(Orientation::Landscape, Flip::No, false), 0x20);
    assert_eq!(byte(Orientation::Landscape, Flip::No, true), 0x28);
    assert_eq!(byte(Orientation::Landscape, Flip::FlipHorizontal, false), 0xA0);
    assert_eq!(byte(Orientation::Landscape, Flip::FlipHorizontal, true), 0xA8);
    assert_eq!(byte(Orientation::Landscape, Flip::FlipVertical, false), 0x60);
    assert_eq!(byte(Orientation::Landscape, Flip::FlipVertical, true), 0x68);
    assert_eq!(byte(Orientation::Landscape, Flip::Rotate180, false), 0xE0);
    assert_eq!(byte(Orientation::Landscape, Flip::Rotate180, true), 0xE8);
}

#[test]
fn control_byte_bits_follow_the_mode() {
    for orientation in [Orientation::Portrait, Orientation::Landscape] {
        for flip in [Flip::No, Flip::FlipHorizontal, Flip::FlipVertical, Flip::Rotate180] {
            for inverted_rgb in [false, true] {
                let code = byte(orientation, flip, inverted_rgb);
                assert_eq!(code & 0x20 != 0, orientation == Orientation::Landscape);
                assert_eq!(code & 0x08 != 0, inverted_rgb);
                assert_eq!(code & 0x17, 0);
                let swaps = code & 0xC0;
                match (flip, orientation) {
                    (Flip::No, _) => assert_eq!(swaps, 0x00),
                    (Flip::Rotate180, _) => assert_eq!(swaps, 0xC0),
                    (Flip::FlipHorizontal, Orientation::Portrait) => assert_eq!(swaps, 0x40),
                    (Flip::FlipHorizontal, Orientation::Landscape) => assert_eq!(swaps, 0x80),
                    (Flip::FlipVertical, Orientation::Portrait) => assert_eq!(swaps, 0x80),
                    (Flip::FlipVertical, Orientation::Landscape) => assert_eq!(swaps, 0x40),
                }
                assert_eq!(code, byte(orientation, flip, inverted_rgb));
            }
        }
    }
}

#[test]
fn control_bytes_are_distinct() {
    let mut seen: Vec<u8> = Vec::new();
    for orientation in [Orientation::Portrait, Orientation::Landscape] {
        for flip in [Flip::No, Flip::FlipHorizontal, Flip::FlipVertical, Flip::Rotate180] {
            for inverted_rgb in [false, true] {
                let code = byte(orientation, flip, inverted_rgb);
                assert!(!seen.contains(&code));
                seen.push(code);
            }
        }
    }
    assert_eq!(seen.len(), 16);
}

#[test]
fn opcodes_are_the_protocol_values() {
    let table = [
        (Command::SoftwareReset, 0x01u8),
        (Command::SleepIn, 0x10),
        (Command::SleepOut, 0x11),
        (Command::NormalDisplayMode, 0x13),
        (Command::DisplayInversionOff, 0x20),
        (Command::DisplayInversionOn, 0x21),
        (Command::DisplayOff, 0x28),
        (Command::DisplayOn, 0x29),
        (Command::ColumnAddressSet, 0x2a),
        (Command::PageAddressSet, 0x2b),
        (Command::MemoryWrite, 0x2c),
        (Command::VerticalScrollDefine, 0x33),
        (Command::MemoryAccessControl, 0x36),
        (Command::VerticalScrollAddr, 0x37),
        (Command::IdleModeOff, 0x38),
        (Command::IdleModeOn, 0x39),
        (Command::PixelFormatSet, 0x3a),
        (Command::InterfaceModeControl, 0xb0),
        (Command::DisplayFunctionControl, 0xb6),
        (Command::PowerControl1, 0xc0),
        (Command::PowerControl2, 0xc1),
        (Command::PowerControl3, 0xc2),
        (Command::PowerControl4, 0xc3),
        (Command::DigitalGammaControl1, 0xe2),
        (Command::DigitalGammaControl2, 0xe3),
    ];
    for (command, opcode) in table {
        assert_eq!(command.code(), opcode);
    }
}
