use vstd::prelude::*;

verus! {

/// Transfer mode encoded in bit 6 of an address byte.
#[derive(Clone, Copy, Debug, PartialEq, Eq, Structural)]
pub enum Mode {
    /// One register.
    Single,
    /// Consecutive bytes after one address byte.
    Burst,
}

impl Mode {
    pub open spec fn spec_value(self) -> u8 {
        match self {
            Mode::Single => 0x00,
            Mode::Burst => 0x40,
        }
    }

    /// The mode bit as it stands in the address byte.
    #[verifier::when_used_as_spec(spec_value)]
    pub fn value(self) -> (r: u8)
        ensures
            r == self.spec_value(),
    {
        match self {
            Mode::Single => 0x00,
            Mode::Burst => 0x40,
        }
    }
}

/// Transfer direction encoded in bit 7 of an address byte.
#[derive(Clone, Copy, Debug, PartialEq, Eq, Structural)]
pub enum Access {
    Read,
    Write,
}

impl Access {
    pub open spec fn spec_value(self) -> u8 {
        match self {
            Access::Read => 0x80,
            Access::Write => 0x00,
        }
    }

    /// The direction bit as it stands in the address byte.
    #[verifier::when_used_as_spec(spec_value)]
    pub fn value(self) -> (r: u8)
        ensures
            r == self.spec_value(),
    {
        match self {
            Access::Read => 0x80,
            Access::Write => 0x00,
        }
    }
}

} // verus!
