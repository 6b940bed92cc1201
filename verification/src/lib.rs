//! The bus of an 8-bit console: work RAM, the address decoder in front of the
//! picture unit and the cartridge mapper, and the controller's shift register.

pub mod controller;
pub mod cpu;
pub mod fault;
pub mod link;
pub mod mapper;
pub mod ppu;
