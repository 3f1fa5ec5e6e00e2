use vstd::prelude::*;

verus! {

/// Number of preamble bytes to be transmitted (MDMCFG1.NUM_PREAMBLE).
#[allow(non_camel_case_types)]
#[derive(Clone, Copy, Debug, PartialEq, Eq, Structural)]
pub enum NumPreamble {
    /// 2 bytes.
    N_2,
    /// 3 bytes.
    N_3,
    /// 4 bytes.
    N_4,
    /// 6 bytes.
    N_6,
    /// 8 bytes.
    N_8,
    /// 12 bytes.
    N_12,
    /// 16 bytes.
    N_16,
    /// 24 bytes.
    N_24,
}

impl NumPreamble {
    pub open spec fn spec_value(&self) -> u8 {
        match self {
            NumPreamble::N_2 => 0x00,
            NumPreamble::N_3 => 0x01,
            NumPreamble::N_4 => 0x02,
            NumPreamble::N_6 => 0x03,
            NumPreamble::N_8 => 0x04,
            NumPreamble::N_12 => 0x05,
            NumPreamble::N_16 => 0x06,
            NumPreamble::N_24 => 0x07,
        }
    }

    /// The field value that selects this setting.
    #[verifier::when_used_as_spec(spec_value)]
    pub fn value(&self) -> (r: u8)
        ensures
            r == self.spec_value(),
    {
        match self {
            NumPreamble::N_2 => 0x00,
            NumPreamble::N_3 => 0x01,
            NumPreamble::N_4 => 0x02,
            NumPreamble::N_6 => 0x03,
            NumPreamble::N_8 => 0x04,
            NumPreamble::N_12 => 0x05,
            NumPreamble::N_16 => 0x06,
            NumPreamble::N_24 => 0x07,
        }
    }
}

impl From<NumPreamble> for u8 {
    fn from(value: NumPreamble) -> (r: u8) {
        value.value()
    }
}

impl vstd::std_specs::convert::FromSpecImpl<NumPreamble> for u8 {
    open spec fn obeys_from_spec() -> bool {
        true
    }

    open spec fn from_spec(v: NumPreamble) -> u8 {
        v.spec_value()
    }
}

} // verus!
