//! Interrupt-handling core of a minimal x86-64 kernel.
//!
//! The crate decides everything that the boot path and the keyboard
//! interrupt handler have to decide: the contents of the interrupt
//! descriptor table, the command bytes for the two interrupt controllers,
//! the meaning of a keyboard scancode, and what goes where on the text-mode
//! screen. It performs no hardware access itself. Every function takes what
//! was read from the machine as plain values and returns plain values (gate
//! descriptors, lists of port writes, key events, bytes for video memory)
//! that the caller carries out with its own port, table-load and store
//! instructions.
//!
//! - [`io`]: a port write as a value, and the port numbers.
//! - [`pic`]: programming the interrupt controllers, and a register-level
//!   model of them against which the effect of the command bytes is proved.
//! - [`idt`]: gate descriptors, the table, its descriptor, the plan of the
//!   boot-time setup and the servicing of the keyboard interrupt.
//! - [`keyboard`]: scancode decoding.
//! - [`terminal`]: the text-mode screen.
//! - [`kernel`]: the welcome screen.

pub mod io;
pub mod pic;
pub mod keyboard;
pub mod idt;
pub mod terminal;
pub mod kernel;
