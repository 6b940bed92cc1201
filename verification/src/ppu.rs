//! The picture unit as the bus sees it: a window of eight registers.

use crate::cpu::address::REGISTER_COUNT;
use vstd::prelude::*;

verus! {

/// The register interface of a picture unit. The router hands over a register
/// number that it has already reduced into the window; what a register holds
/// and what a read or a write does to the unit is the unit's own business.
pub trait Ppu {
    /// Reads register `reg`.
    fn read_register(&self, reg: usize) -> u8
        requires
            reg < REGISTER_COUNT,
    ;

    /// Writes `value` to register `reg`.
    fn write_register(&mut self, reg: usize, value: u8)
        requires
            reg < REGISTER_COUNT,
    ;
}

/// Whether a picture unit of type `P`, in some state, answers a read of
/// register `reg` with `val`.
pub open spec fn answers_register<P: Ppu>(reg: usize, val: u8) -> bool {
    exists|unit: P| call_ensures(P::read_register, (&unit, reg), val)
}

/// Whether a picture unit of type `P`, in some state, carries out a write of
/// `val` to register `reg`.
pub open spec fn takes_register<P: Ppu>(reg: usize, val: u8) -> bool {
    exists|unit: &mut P| call_ensures(P::write_register, (unit, reg, val), ())
}

} // verus!
