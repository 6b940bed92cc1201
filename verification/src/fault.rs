//! The fatal conditions a bus access can end in.

use vstd::prelude::*;

verus! {

/// A component that lives outside the router and is reached through a
/// non-owning reference.
#[derive(Clone, Copy, Debug, PartialEq, Eq, Structural)]
pub enum Component {
    Processor,
    PictureUnit,
    Mapper,
}

/// Why an access could not be served. None of these is recoverable: the
/// embedding machine is expected to stop on any of them.
#[derive(Clone, Copy, Debug, PartialEq, Eq, Structural)]
pub enum Fault {
    /// The address lies in the audio and I/O register window, which is not implemented.
    AudioIoNotImplemented { addr: u16 },
    /// The address lies in the processor's test-mode window, which is not implemented.
    TestModeNotImplemented { addr: u16 },
    /// The address belongs to no region.
    InvalidAddress { addr: u16 },
    /// The component that owns the address is gone or is held exclusively elsewhere.
    Unresolved { component: Component, addr: u16 },
}

impl Fault {
    /// The address of the access that failed.
    pub open spec fn spec_addr(self) -> u16 {
        match self {
            Fault::AudioIoNotImplemented { addr } => addr,
            Fault::TestModeNotImplemented { addr } => addr,
            Fault::InvalidAddress { addr } => addr,
            Fault::Unresolved { addr, .. } => addr,
        }
    }

    /// The address of the access that failed.
    #[verifier::when_used_as_spec(spec_addr)]
    pub fn addr(self) -> (addr: u16)
        ensures
            addr == self.spec_addr(),
    {
        match self {
            Fault::AudioIoNotImplemented { addr } => addr,
            Fault::TestModeNotImplemented { addr } => addr,
            Fault::InvalidAddress { addr } => addr,
            Fault::Unresolved { addr, .. } => addr,
        }
    }
}

} // verus!
