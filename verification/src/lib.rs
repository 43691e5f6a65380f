//! Sans-I/O core of a driver for the ILI9486 TFT LCD controller.
//!
//! The crate turns drawing and configuration requests into the exact
//! sequence of bus transfers the controller expects and tracks the logical
//! screen geometry. It never touches hardware itself: every operation hands
//! back a [`Transaction`] whose transfers the caller performs one by one,
//! reporting each outcome back.

pub mod bus;
pub mod command;
pub mod driver;
pub mod graphics;
pub mod laws;
pub mod mode;
pub mod protocol;
pub mod scroll;
pub mod size;

pub use bus::{BusOp, DisplayError, Transaction};
pub use command::Command;
pub use driver::ILI9486;
pub use graphics::{Pixel, Point, PrimitiveStyle, Rectangle, Size, StyledRectangle};
pub use mode::{DisplayMode, Flip, Orientation};
pub use scroll::Scroller;
pub use size::{DisplaySize, DisplaySize240x320, DisplaySize320x480};
