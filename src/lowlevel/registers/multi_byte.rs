use vstd::prelude::*;

use crate::lowlevel::access::{Access, Mode};

verus! {

/// Multi-byte spaces reached through a single address.
#[allow(non_camel_case_types)]
#[derive(Clone, Copy, Debug, PartialEq, Eq, Structural)]
pub enum MultiByte {
    /// Power amplifier table.
    PATABLE,
    /// FIFO access.
    FIFO,
}

impl MultiByte {
    pub open spec fn spec_code(&self) -> u8 {
        match self {
            MultiByte::PATABLE => 0x3E,
            MultiByte::FIFO => 0x3F,
        }
    }

    /// The space's 6-bit address.
    #[verifier::when_used_as_spec(spec_code)]
    pub fn code(&self) -> (r: u8)
        ensures
            r == self.spec_code(),
    {
        match self {
            MultiByte::PATABLE => 0x3E,
            MultiByte::FIFO => 0x3F,
        }
    }

    pub open spec fn spec_addr(&self, access: Access, mode: Mode) -> u8 {
        access.value() | mode.value() | self.code()
    }

    /// Address byte for this space with the given direction and mode.
    #[verifier::when_used_as_spec(spec_addr)]
    pub fn addr(&self, access: Access, mode: Mode) -> (r: u8)
        ensures
            r == self.spec_addr(access, mode),
    {
        access.value() | mode.value() | self.code()
    }
}

} // verus!
