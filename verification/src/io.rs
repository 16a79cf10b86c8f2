//! Port I/O described as data.
//!
//! A byte written to a hardware port is represented by a [`PortWrite`]. The
//! functions of this crate return the writes they want performed, in order;
//! the caller issues one `out` instruction per element.

use vstd::prelude::*;

verus! {

/// Command port of the master interrupt controller.
pub const PIC1_CMD: u16 = 0x0020;

/// Data port of the master interrupt controller.
pub const PIC1_DATA: u16 = 0x0021;

/// Command port of the slave interrupt controller.
pub const PIC2_CMD: u16 = 0x00A0;

/// Data port of the slave interrupt controller.
pub const PIC2_DATA: u16 = 0x00A1;

/// Data port of the keyboard controller.
pub const KEYBOARD_DATA: u16 = 0x0060;

/// One byte to be written to one hardware port.
#[derive(Clone, Copy, Debug, PartialEq, Eq, Structural)]
pub struct PortWrite {
    pub port: u16,
    pub value: u8,
}

} // verus!
