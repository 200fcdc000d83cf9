//! Text output for a small bare-metal kernel: a writer that renders ASCII text
//! into the 80 x 25 character grid of the display adapter, and the protocol by
//! which a test run inside an emulator reports its verdict to the host.

pub mod exit;
pub mod harness;
pub mod vga_buffer;

pub use crate::exit::QemuExitCode;
pub use crate::harness::Testable;
