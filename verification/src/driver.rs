//! The device controller: screen geometry, display mode, and the plans for
//! initialization, mode changes, raw drawing and scrolling.

use vstd::prelude::*;
use vstd::slice::slice_to_vec;
use crate::bus::{script_view, start, BusOp, Transaction};
use crate::command::Command;
use crate::mode::{control_byte, DisplayMode, Flip, Orientation};
use crate::protocol::{
    command_script, draw_script, gamma_table_1, gamma_table_2, high, init_script, low,
    mode_script, power_script, push_op, reset_script, scroll_address_script,
    scroll_define_script, sleep_out_script, window_script, word_bytes, write_script,
};
use crate::scroll::{ScrollBand, Scroller};
use crate::size::DisplaySize;

verus! {

/// The logical screen: its size in the current orientation and its mode.
pub struct Screen {
    pub width: nat,
    pub height: nat,
    pub mode: DisplayMode,
}

impl Screen {
    /// A panel as it comes out of reset: native size, default mode.
    pub open spec fn native(width: nat, height: nat) -> Screen {
        Screen {
            width,
            height,
            mode: DisplayMode {
                orientation: Orientation::Portrait,
                flip: Flip::No,
                inverted_rgb: false,
            },
        }
    }

    /// Every pixel can be addressed with 16-bit coordinates.
    pub open spec fn addressable(self) -> bool {
        1 <= self.width <= 0x1_0000 && 1 <= self.height <= 0x1_0000
    }

    /// The screen after a mode change: width and height trade places
    /// exactly when the orientation changes.
    pub open spec fn with_mode(self, mode: DisplayMode) -> Screen {
        if self.mode.orientation != mode.orientation {
            Screen { width: self.height, height: self.width, mode }
        } else {
            Screen { width: self.width, height: self.height, mode }
        }
    }

    /// Number of lines along the axis that the hardware scrolls: the
    /// panel's native height, whatever the orientation.
    pub open spec fn scroll_axis(self) -> nat {
        match self.mode.orientation {
            Orientation::Landscape => self.width,
            Orientation::Portrait => self.height,
        }
    }
}

/// Controller state of one ILI9486 panel.
///
/// There are two methods for drawing to the screen: [`ILI9486::draw_raw_iter`]
/// and [`ILI9486::draw_raw_slice`]. In both cases the expected pixel format
/// is RGB565.
///
/// The hardware makes it efficient to draw rectangles on the screen: a
/// drawing window is selected by two opposite corners, and every 16-bit
/// value received afterwards fills the next pixel of the window, left to
/// right and then top to bottom.
#[derive(Debug)]
pub struct ILI9486 {
    width: usize,
    height: usize,
    mode: DisplayMode,
}

impl View for ILI9486 {
    type V = Screen;

    closed spec fn view(&self) -> Screen {
        Screen { width: self.width as nat, height: self.height as nat, mode: self.mode }
    }
}

impl ILI9486 {
    /// The screen can be addressed with 16-bit coordinates.
    pub open spec fn wf(&self) -> bool {
        self@.addressable()
    }

    /// Plans a hardware reset.
    fn reset(ops: &mut Vec<BusOp>)
        ensures
            script_view(final(ops)@) == script_view(old(ops)@) + reset_script(),
    {
        push_op(ops, BusOp::ResetLow);
        push_op(ops, BusOp::DelayUs(150));
        push_op(ops, BusOp::ResetHigh);
        push_op(ops, BusOp::DelayUs(150));
        assert(script_view(ops@) =~= script_view(old(ops)@) + reset_script());
    }

    /// Plans one command with its arguments.
    fn command(ops: &mut Vec<BusOp>, cmd: Command, args: Vec<u8>)
        ensures
            script_view(final(ops)@) == script_view(old(ops)@) + command_script(cmd, args@),
    {
        let ghost sent = args@;
        push_op(ops, BusOp::Command(cmd.code()));
        push_op(ops, BusOp::Data(args));
        assert(script_view(ops@) =~= script_view(old(ops)@) + command_script(cmd, sent));
    }

    /// Plans a wake-up and the pause after it.
    fn sleep_out(ops: &mut Vec<BusOp>)
        ensures
            script_view(final(ops)@) == script_view(old(ops)@) + sleep_out_script(),
    {
        Self::command(ops, Command::SleepOut, Vec::new());
        push_op(ops, BusOp::DelayUs(120));
        assert(script_view(ops@) =~= script_view(old(ops)@) + sleep_out_script());
    }

    /// Plans the four power-control commands.
    fn power_control(ops: &mut Vec<BusOp>)
        ensures
            script_view(final(ops)@) == script_view(old(ops)@) + power_script(),
    {
        let first: Vec<u8> = vec![0x09, 0x09];
        let second: Vec<u8> = vec![0x41, 0x00];
        let third: Vec<u8> = vec![0x33];
        let fourth: Vec<u8> = vec![0x00, 0x36];
        assert(first@ =~= seq![0x09u8, 0x09]);
        assert(second@ =~= seq![0x41u8, 0x00]);
        assert(third@ =~= seq![0x33u8]);
        assert(fourth@ =~= seq![0x00u8, 0x36]);
        Self::command(ops, Command::PowerControl1, first);
        Self::command(ops, Command::PowerControl2, second);
        Self::command(ops, Command::PowerControl3, third);
        Self::command(ops, Command::PowerControl4, fourth);
    }

    /// Plans the memory-write command and the pixel stream after it.
    fn write_iter(ops: &mut Vec<BusOp>, data: Vec<u16>)
        ensures
            script_view(final(ops)@) == script_view(old(ops)@) + write_script(data@),
    {
        let ghost pixels = data@;
        Self::command(ops, Command::MemoryWrite, Vec::new());
        push_op(ops, BusOp::Pixels(data));
        assert(script_view(ops@) =~= script_view(old(ops)@) + write_script(pixels));
    }

    /// Plans the selection of the window with the inclusive corners
    /// `(x0, y0)` and `(x1, y1)`. The bounds are passed on as they are.
    pub fn set_window(ops: &mut Vec<BusOp>, x0: u16, y0: u16, x1: u16, y1: u16)
        ensures
            script_view(final(ops)@) == script_view(old(ops)@) + window_script(x0, y0, x1, y1),
    {
        let columns: Vec<u8> = vec![high(x0), low(x0), high(x1), low(x1)];
        let pages: Vec<u8> = vec![high(y0), low(y0), high(y1), low(y1)];
        assert(columns@ =~= word_bytes(x0) + word_bytes(x1));
        assert(pages@ =~= word_bytes(y0) + word_bytes(y1));
        Self::command(ops, Command::ColumnAddressSet, columns);
        Self::command(ops, Command::PageAddressSet, pages);
        assert(script_view(ops@) =~= script_view(old(ops)@) + window_script(x0, y0, x1, y1));
    }

    /// Records the mode, exchanges width and height if the orientation
    /// changes, and plans the command that tells the controller.
    fn apply_display_mode(&mut self, ops: &mut Vec<BusOp>, mode: DisplayMode)
        ensures
            final(self)@ == old(self)@.with_mode(mode),
            script_view(final(ops)@) == script_view(old(ops)@) + mode_script(mode),
    {
        if self.mode.orientation != mode.orientation {
            let width = self.width;
            self.width = self.height;
            self.height = width;
        }
        self.mode = mode;
        let args: Vec<u8> = vec![u8::from(mode)];
        assert(args@ =~= seq![control_byte(mode)]);
        Self::command(ops, Command::MemoryAccessControl, args);
    }

    /// Plans the initialization of a panel of the given size: a hardware
    /// reset, then the fixed configuration sequence with the given mode in
    /// it. The controller state is delivered once every transfer of the
    /// plan went through.
    pub fn new<SIZE: DisplaySize>(display_mode: DisplayMode, _display_size: SIZE) -> (t:
        Transaction<ILI9486>)
        ensures
            t.script() == init_script(display_mode),
            t.progress() == start(),
            t.value()@ == Screen::native(SIZE::WIDTH as nat, SIZE::HEIGHT as nat).with_mode(
                display_mode,
            ),
            t.value().wf(),
    {
        proof {
            SIZE::addressable();
        }
        let mut ili9486 = ILI9486 {
            width: SIZE::WIDTH,
            height: SIZE::HEIGHT,
            mode: DisplayMode::default(),
        };
        let mut ops: Vec<BusOp> = Vec::new();

        let interface_mode: Vec<u8> = vec![0x00];
        let pixel_format: Vec<u8> = vec![0x55];
        let gamma_1: Vec<u8> = vec![
            0x00, 0x2C, 0x2C, 0x0B, 0x0C, 0x04, 0x4C, 0x64, 0x36, 0x03, 0x0E, 0x01, 0x10, 0x01, 0x00,
        ];
        let gamma_2: Vec<u8> = vec![
            0x0F, 0x37, 0x37, 0x0C, 0x0F, 0x05, 0x50, 0x32, 0x36, 0x04, 0x0B, 0x00, 0x19, 0x14, 0x0F,
        ];
        let display_function: Vec<u8> = vec![0x00, 0x02, 0x3B];
        assert(interface_mode@ =~= seq![0x00u8]);
        assert(pixel_format@ =~= seq![0x55u8]);
        assert(gamma_1@ =~= gamma_table_1());
        assert(gamma_2@ =~= gamma_table_2());
        assert(display_function@ =~= seq![0x00u8, 0x02, 0x3B]);

        Self::reset(&mut ops);
        assert(script_view(ops@) =~= reset_script());
        Self::command(&mut ops, Command::InterfaceModeControl, interface_mode);
        Self::sleep_out(&mut ops);

        Self::command(&mut ops, Command::PixelFormatSet, pixel_format);
        Self::command(&mut ops, Command::DisplayInversionOff, Vec::new());

        Self::power_control(&mut ops);

        ili9486.apply_display_mode(&mut ops, display_mode);
        Self::command(&mut ops, Command::DigitalGammaControl1, gamma_1);
        Self::command(&mut ops, Command::DigitalGammaControl2, gamma_2);
        Self::command(&mut ops, Command::DisplayFunctionControl, display_function);

        Self::sleep_out(&mut ops);

        Self::command(&mut ops, Command::DisplayOn, Vec::new());
        Self::command(&mut ops, Command::IdleModeOff, Vec::new());
        Self::command(&mut ops, Command::NormalDisplayMode, Vec::new());

        Transaction::new(ops, ili9486)
    }

    /// Number of lines along the axis that the hardware scrolls.
    pub fn scroll_axis(&self) -> (lines: usize)
        ensures
            lines == self@.scroll_axis(),
    {
        match self.mode.orientation {
            Orientation::Landscape => self.width,
            Orientation::Portrait => self.height,
        }
    }

    /// Configures the screen for hardware-accelerated vertical scrolling:
    /// plans the scroll definition and delivers the scroller for the band
    /// between the fixed lines.
    pub fn configure_vertical_scroll(&self, fixed_top_lines: u16, fixed_bottom_lines: u16) -> (t:
        Transaction<Scroller>)
        requires
            fixed_top_lines + fixed_bottom_lines <= self@.scroll_axis() <= u16::MAX,
        ensures
            t.script() == scroll_define_script(
                fixed_top_lines,
                (self@.scroll_axis() - fixed_top_lines - fixed_bottom_lines) as u16,
                fixed_bottom_lines,
            ),
            t.progress() == start(),
            t.value()@ == (ScrollBand {
                top_offset: fixed_top_lines as int,
                fixed_top_lines: fixed_top_lines as int,
                fixed_bottom_lines: fixed_bottom_lines as int,
                height: self@.scroll_axis() as int,
            }),
            t.value()@.in_band(),
    {
        let height: u16 = self.scroll_axis() as u16;
        let scroll_lines: u16 = height - fixed_top_lines - fixed_bottom_lines;

        let args: Vec<u8> = vec![
            high(fixed_top_lines),
            low(fixed_top_lines),
            high(scroll_lines),
            low(scroll_lines),
            high(fixed_bottom_lines),
            low(fixed_bottom_lines),
        ];
        assert(args@ =~= word_bytes(fixed_top_lines)
            + word_bytes(scroll_lines) + word_bytes(
            fixed_bottom_lines,
        ));
        let mut ops: Vec<BusOp> = Vec::new();
        Self::command(&mut ops, Command::VerticalScrollDefine, args);
        assert(script_view(ops@) =~= scroll_define_script(
            fixed_top_lines,
            scroll_lines,
            fixed_bottom_lines,
        ));

        Transaction::new(ops, Scroller::new(fixed_top_lines, fixed_bottom_lines, height))
    }

    /// Scrolls by `num_lines`: moves the scroller's offset, wrapping within
    /// its band, and plans the command that tells the controller the new
    /// offset.
    pub fn scroll_vertically(&self, scroller: &mut Scroller, num_lines: u16) -> (t: Transaction<()>)
        requires
            old(scroller)@.advanced_offset(num_lines as int) <= u16::MAX,
        ensures
            final(scroller)@ == old(scroller)@.advanced(num_lines as int),
            old(scroller)@.in_band() && num_lines <= old(scroller)@.scroll_lines()
                ==> final(scroller)@.in_band(),
            t.script() == scroll_address_script(final(scroller)@.top_offset as u16),
            t.progress() == start(),
    {
        let offset = scroller.advance(num_lines);
        let args: Vec<u8> = vec![high(offset), low(offset)];
        assert(args@ =~= word_bytes(offset));
        let mut ops: Vec<BusOp> = Vec::new();
        Self::command(&mut ops, Command::VerticalScrollAddr, args);
        assert(script_view(ops@) =~= scroll_address_script(offset));
        Transaction::new(ops, ())
    }

    /// Draw a rectangle on the screen, represented by top-left corner
    /// (x0, y0) and bottom-right corner (x1, y1). The border is included.
    ///
    /// The pixel values are streamed in the order given, however many there
    /// are.
    pub fn draw_raw_iter(&self, x0: u16, y0: u16, x1: u16, y1: u16, data: Vec<u16>) -> (t:
        Transaction<()>)
        ensures
            t.script() == draw_script(x0, y0, x1, y1, data@),
            t.progress() == start(),
    {
        let ghost pixels = data@;
        let mut ops: Vec<BusOp> = Vec::new();
        Self::set_window(&mut ops, x0, y0, x1, y1);
        Self::write_iter(&mut ops, data);
        assert(script_view(ops@) =~= draw_script(x0, y0, x1, y1, pixels));
        Transaction::new(ops, ())
    }

    /// Draw a rectangle on the screen, represented by top-left corner
    /// (x0, y0) and bottom-right corner (x1, y1). The border is included.
    ///
    /// The buffer is copied into the plan as it is.
    pub fn draw_raw_slice(&self, x0: u16, y0: u16, x1: u16, y1: u16, data: &[u16]) -> (t:
        Transaction<()>)
        ensures
            t.script() == draw_script(x0, y0, x1, y1, data@),
            t.progress() == start(),
    {
        self.draw_raw_iter(x0, y0, x1, y1, slice_to_vec(data))
    }

    /// Change the orientation, flip and colour order of the screen. Width
    /// and height trade places if the orientation changes; the command is
    /// planned in any case.
    pub fn set_display_mode(&mut self, mode: DisplayMode) -> (t: Transaction<()>)
        ensures
            final(self)@ == old(self)@.with_mode(mode),
            old(self).wf() ==> final(self).wf(),
            t.script() == mode_script(mode),
            t.progress() == start(),
    {
        let mut ops: Vec<BusOp> = Vec::new();
        self.apply_display_mode(&mut ops, mode);
        assert(script_view(ops@) =~= mode_script(mode));
        Transaction::new(ops, ())
    }

    /// Get the current screen width. It can change based on the current
    /// orientation.
    pub fn width(&self) -> (w: usize)
        ensures
            w == self@.width,
    {
        self.width
    }

    /// Get the current screen height. It can change based on the current
    /// orientation.
    pub fn height(&self) -> (h: usize)
        ensures
            h == self@.height,
    {
        self.height
    }

    /// The current display mode.
    pub fn mode(&self) -> (m: DisplayMode)
        ensures
            m == self@.mode,
    {
        self.mode
    }
}

} // verus!
