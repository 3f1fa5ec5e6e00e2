use vstd::prelude::*;

use crate::lowlevel::access::{Access, Mode};

verus! {

/// Command strobes: one-byte transactions that trigger an action inside the chip.
#[allow(non_camel_case_types)]
#[derive(Clone, Copy, Debug, PartialEq, Eq, Structural)]
pub enum Command {
    /// Reset chip.
    SRES,
    /// Enable and calibrate the frequency synthesizer.
    SFSTXON,
    /// Turn off the crystal oscillator.
    SXOFF,
    /// Calibrate the frequency synthesizer and turn it off.
    SCAL,
    /// Enable RX.
    SRX,
    /// Enable TX.
    STX,
    /// Exit RX / TX.
    SIDLE,
    /// Start the automatic RX polling sequence (wake-on-radio).
    SWOR,
    /// Enter power-down mode when the chip is deselected.
    SPWD,
    /// Flush the RX FIFO buffer.
    SFRX,
    /// Flush the TX FIFO buffer.
    SFTX,
    /// Reset the real time clock.
    SWORRST,
    /// No operation.
    SNOP,
}

impl Command {
    pub open spec fn spec_code(&self) -> u8 {
        match self {
            Command::SRES => 0x30,
            Command::SFSTXON => 0x31,
            Command::SXOFF => 0x32,
            Command::SCAL => 0x33,
            Command::SRX => 0x34,
            Command::STX => 0x35,
            Command::SIDLE => 0x36,
            Command::SWOR => 0x38,
            Command::SPWD => 0x39,
            Command::SFRX => 0x3A,
            Command::SFTX => 0x3B,
            Command::SWORRST => 0x3C,
            Command::SNOP => 0x3D,
        }
    }

    /// The strobe's 6-bit address.
    #[verifier::when_used_as_spec(spec_code)]
    pub fn code(&self) -> (r: u8)
        ensures
            r == self.spec_code(),
    {
        match self {
            Command::SRES => 0x30,
            Command::SFSTXON => 0x31,
            Command::SXOFF => 0x32,
            Command::SCAL => 0x33,
            Command::SRX => 0x34,
            Command::STX => 0x35,
            Command::SIDLE => 0x36,
            Command::SWOR => 0x38,
            Command::SPWD => 0x39,
            Command::SFRX => 0x3A,
            Command::SFTX => 0x3B,
            Command::SWORRST => 0x3C,
            Command::SNOP => 0x3D,
        }
    }

    pub open spec fn spec_addr(&self, access: Access, mode: Mode) -> u8 {
        access.value() | mode.value() | self.code()
    }

    /// Address byte for this strobe with the given direction and mode.
    #[verifier::when_used_as_spec(spec_addr)]
    pub fn addr(&self, access: Access, mode: Mode) -> (r: u8)
        ensures
            r == self.spec_addr(access, mode),
    {
        access.value() | mode.value() | self.code()
    }
}

} // verus!
