//! The version of the frame protocol.
use vstd::prelude::*;

verus! {

/// Version number carried in every frame.
#[derive(Debug, PartialEq, Eq, Structural, Clone, Copy)]
pub struct ProtocolVersion {
    number: u32,
}

/// The protocol version this library speaks.
pub open spec fn current_protocol_number() -> u32 {
    1
}

impl ProtocolVersion {
    pub closed spec fn spec_number(&self) -> u32 {
        self.number
    }

    pub fn current() -> (r: Self)
        ensures
            r.spec_number() == current_protocol_number(),
    {
        Self { number: 1 }
    }

    pub fn number(&self) -> (r: u32)
        ensures
            r == self.spec_number(),
    {
        self.number
    }

    pub fn from_number(number: u32) -> (r: Self)
        ensures
            r.spec_number() == number,
    {
        Self { number }
    }
}

impl Default for ProtocolVersion {
    fn default() -> (r: Self)
        ensures
            r.spec_number() == current_protocol_number(),
    {
        Self::current()
    }
}

} // verus!
