//! The cartridge mapper as the bus sees it.

use vstd::prelude::*;

verus! {

/// The byte interface of a cartridge mapper. The router passes the full bus
/// address through unchanged; banking and decoding are the mapper's own business.
pub trait Mapper {
    /// Reads the byte the cartridge presents at `address`.
    fn read_byte(&self, address: u16) -> u8;

    /// Writes `value` to the cartridge at `address`.
    fn write_byte(&mut self, address: u16, value: u8);
}

/// Whether a mapper of type `M`, in some state, answers a read of `address`
/// with `val`.
pub open spec fn answers_byte<M: Mapper>(address: u16, val: u8) -> bool {
    exists|mapper: M| call_ensures(M::read_byte, (&mapper, address), val)
}

/// Whether a mapper of type `M`, in some state, carries out a write of `val`
/// to `address`.
pub open spec fn takes_byte<M: Mapper>(address: u16, val: u8) -> bool {
    exists|mapper: &mut M| call_ensures(M::write_byte, (mapper, address, val), ())
}

} // verus!
