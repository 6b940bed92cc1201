//! What the processor sees on its 16-bit address bus.

pub mod address;
pub mod memory;
