//! The address decoder: which region a bus address belongs to, and where in
//! the owning component it lands.

use crate::fault::Component;
use crate::fault::Fault;
use vstd::prelude::*;

verus! {

/// Number of bytes of physical work RAM; the RAM region mirrors them four times.
pub const RAM_SIZE: usize = 0x800;

/// Number of picture-unit registers; the register region mirrors them.
pub const REGISTER_COUNT: usize = 8;

/// A contiguous range of the address space that is routed to one component.
#[derive(Clone, Copy, Debug, PartialEq, Eq, Structural)]
pub enum Region {
    /// 0x0000..=0x1FFF
    WorkRam,
    /// 0x2000..=0x3FFF
    PictureUnit,
    /// 0x4000..=0x4017
    AudioIo,
    /// 0x4018..=0x401F
    TestMode,
    /// 0x4020..=0xFFFE
    Mapper,
    /// 0xFFFF
    Unmapped,
}

impl Region {
    /// First address of the region.
    pub open spec fn first(self) -> u16 {
        match self {
            Region::WorkRam => 0x0000,
            Region::PictureUnit => 0x2000,
            Region::AudioIo => 0x4000,
            Region::TestMode => 0x4018,
            Region::Mapper => 0x4020,
            Region::Unmapped => 0xFFFF,
        }
    }

    /// Last address of the region.
    pub open spec fn last(self) -> u16 {
        match self {
            Region::WorkRam => 0x1FFF,
            Region::PictureUnit => 0x3FFF,
            Region::AudioIo => 0x4017,
            Region::TestMode => 0x401F,
            Region::Mapper => 0xFFFE,
            Region::Unmapped => 0xFFFF,
        }
    }

    /// Whether `addr` lies in the region.
    pub open spec fn covers(self, addr: u16) -> bool {
        self.first() <= addr <= self.last()
    }
}

/// The region that `addr` belongs to.
pub open spec fn region_of(addr: u16) -> Region {
    if addr <= 0x1FFF {
        Region::WorkRam
    } else if addr <= 0x3FFF {
        Region::PictureUnit
    } else if addr <= 0x4017 {
        Region::AudioIo
    } else if addr <= 0x401F {
        Region::TestMode
    } else if addr <= 0xFFFE {
        Region::Mapper
    } else {
        Region::Unmapped
    }
}

/// Where an access that can be served lands.
#[derive(Clone, Copy, Debug, PartialEq, Eq, Structural)]
pub enum Target {
    /// Byte `index` of work RAM.
    Ram { index: usize },
    /// Register `reg` of the picture unit.
    Register { reg: usize },
    /// The mapper, at the bus address itself.
    Cartridge { addr: u16 },
}

impl Target {
    /// The outside component that serves the target, if it is not work RAM.
    pub open spec fn component(self) -> Option<Component> {
        match self {
            Target::Ram { .. } => None,
            Target::Register { .. } => Some(Component::PictureUnit),
            Target::Cartridge { .. } => Some(Component::Mapper),
        }
    }
}

/// The decoder's answer for `addr`: the target with the mirroring already
/// applied, or the fault that an access to `addr` raises.
pub open spec fn route_of(addr: u16) -> Result<Target, Fault> {
    match region_of(addr) {
        Region::WorkRam => Ok(Target::Ram { index: (addr % 0x800) as usize }),
        Region::PictureUnit => Ok(Target::Register { reg: ((addr - 0x2000) % 8) as usize }),
        Region::AudioIo => Err(Fault::AudioIoNotImplemented { addr }),
        Region::TestMode => Err(Fault::TestModeNotImplemented { addr }),
        Region::Mapper => Ok(Target::Cartridge { addr }),
        Region::Unmapped => Err(Fault::InvalidAddress { addr }),
    }
}

/// Classifies `addr`.
pub fn classify(addr: u16) -> (region: Region)
    ensures
        region == region_of(addr),
{
    if addr <= 0x1FFF {
        Region::WorkRam
    } else if addr <= 0x3FFF {
        Region::PictureUnit
    } else if addr <= 0x4017 {
        Region::AudioIo
    } else if addr <= 0x401F {
        Region::TestMode
    } else if addr <= 0xFFFE {
        Region::Mapper
    } else {
        Region::Unmapped
    }
}

/// Decodes `addr`: classifies it and applies the region's mirroring.
pub fn route(addr: u16) -> (routed: Result<Target, Fault>)
    ensures
        routed == route_of(addr),
{
    match classify(addr) {
        Region::WorkRam => Ok(Target::Ram { index: (addr % 0x800) as usize }),
        Region::PictureUnit => Ok(Target::Register { reg: ((addr - 0x2000) % 8) as usize }),
        Region::AudioIo => Err(Fault::AudioIoNotImplemented { addr }),
        Region::TestMode => Err(Fault::TestModeNotImplemented { addr }),
        Region::Mapper => Ok(Target::Cartridge { addr }),
        Region::Unmapped => Err(Fault::InvalidAddress { addr }),
    }
}

/// The regions partition the address space: every address lies in exactly one
/// region, the one the decoder names.
pub proof fn law_regions_partition(addr: u16, region: Region)
    ensures
        region.covers(addr) <==> region == region_of(addr),
{
}

/// A RAM target always lies inside work RAM and a register target inside the
/// register window; a mapper target is the address itself.
pub proof fn law_targets_in_bounds(addr: u16)
    ensures
        route_of(addr) matches Ok(Target::Ram { index }) ==> index < RAM_SIZE,
        route_of(addr) matches Ok(Target::Register { reg }) ==> reg < REGISTER_COUNT,
        route_of(addr) matches Ok(Target::Cartridge { addr: passed }) ==> passed == addr,
{
}

/// Work RAM is mirrored every 0x800 bytes: two addresses of the RAM region
/// that differ by a multiple of 0x800 decode to the same byte.
pub proof fn law_ram_mirrors(addr: u16, windows: nat)
    requires
        addr + 0x800 * windows <= 0x1FFF,
    ensures
        route_of((addr + 0x800 * windows) as u16) == route_of(addr),
        route_of(addr) == Ok::<Target, Fault>(Target::Ram { index: (addr % 0x800) as usize }),
{
    let far = (addr + 0x800 * windows) as u16;
    assert(far % 0x800 == addr % 0x800) by (nonlinear_arith)
        requires
            far == addr + 0x800 * windows,
    ;
}

/// The picture unit's registers are mirrored every 8 bytes: an address of the
/// register region selects register `(addr - 0x2000) mod 8`, which is one of
/// the eight, and so does every address of the region a multiple of 8 above it.
pub proof fn law_registers_mirror(addr: u16, windows: nat)
    requires
        0x2000 <= addr,
        addr + 8 * windows <= 0x3FFF,
    ensures
        route_of(addr) == Ok::<Target, Fault>(
            Target::Register { reg: ((addr - 0x2000) % 8) as usize },
        ),
        (addr - 0x2000) % 8 < REGISTER_COUNT,
        route_of((addr + 8 * windows) as u16) == route_of(addr),
{
    let far = (addr + 8 * windows) as u16;
    assert((far - 0x2000) % 8 == (addr - 0x2000) % 8) by (nonlinear_arith)
        requires
            far == addr + 8 * windows,
    ;
}

/// An access to the audio and I/O window or to the test-mode window always
/// raises its not-implemented fault, with the address that was accessed.
pub proof fn law_unimplemented_windows_fault(addr: u16)
    requires
        0x4000 <= addr <= 0x401F,
    ensures
        addr <= 0x4017 ==> route_of(addr) == Err::<Target, Fault>(
            Fault::AudioIoNotImplemented { addr },
        ),
        addr >= 0x4018 ==> route_of(addr) == Err::<Target, Fault>(
            Fault::TestModeNotImplemented { addr },
        ),
{
}

} // verus!
