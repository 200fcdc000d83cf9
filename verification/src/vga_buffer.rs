//! The text-mode display: colours, cells, the device grid and the writer that
//! appends text to it.

pub mod cell;
pub mod color;
pub mod grid;
pub mod guard;
pub mod laws;
pub mod screen;
pub mod writer;

pub use crate::vga_buffer::cell::ScreenChar;
pub use crate::vga_buffer::color::Color;
pub use crate::vga_buffer::color::ColorCode;
pub use crate::vga_buffer::grid::Buffer;
pub use crate::vga_buffer::grid::BUFFER_HEIGHT;
pub use crate::vga_buffer::grid::BUFFER_WIDTH;
pub use crate::vga_buffer::guard::_print;
pub use crate::vga_buffer::screen::Screen;
pub use crate::vga_buffer::writer::Writer;
