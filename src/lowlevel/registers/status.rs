use vstd::prelude::*;

use crate::lowlevel::access::{Access, Mode};

verus! {

/// Read-only status registers. They share their addresses with the command
/// strobes: the chip tells them apart by the burst bit, which must be set.
#[allow(non_camel_case_types)]
#[derive(Clone, Copy, Debug, PartialEq, Eq, Structural)]
pub enum Status {
    /// Part number.
    PARTNUM,
    /// Current version number.
    VERSION,
    /// Frequency offset estimate.
    FREQEST,
    /// Demodulator estimate for link quality; bit 7 carries the CRC flag.
    LQI,
    /// Received signal strength indication.
    RSSI,
    /// Control state machine state.
    MARCSTATE,
    /// WOR timer, high byte.
    WORTIME1,
    /// WOR timer, low byte.
    WORTIME0,
    /// Current GDOx status and packet status.
    PKTSTATUS,
    /// Current setting from PLL calibration module.
    VCO_VC_DAC,
    /// Underflow flag and number of bytes in the TX FIFO.
    TXBYTES,
    /// Overflow flag and number of bytes in the RX FIFO.
    RXBYTES,
    /// Last RC oscillator calibration result.
    RCCTRL1_STATUS,
    /// Last RC oscillator calibration result.
    RCCTRL0_STATUS,
}

impl Status {
    pub open spec fn spec_code(&self) -> u8 {
        match self {
            Status::PARTNUM => 0x30,
            Status::VERSION => 0x31,
            Status::FREQEST => 0x32,
            Status::LQI => 0x33,
            Status::RSSI => 0x34,
            Status::MARCSTATE => 0x35,
            Status::WORTIME1 => 0x36,
            Status::WORTIME0 => 0x37,
            Status::PKTSTATUS => 0x38,
            Status::VCO_VC_DAC => 0x39,
            Status::TXBYTES => 0x3A,
            Status::RXBYTES => 0x3B,
            Status::RCCTRL1_STATUS => 0x3C,
            Status::RCCTRL0_STATUS => 0x3D,
        }
    }

    /// The register's 6-bit address.
    #[verifier::when_used_as_spec(spec_code)]
    pub fn code(&self) -> (r: u8)
        ensures
            r == self.spec_code(),
    {
        match self {
            Status::PARTNUM => 0x30,
            Status::VERSION => 0x31,
            Status::FREQEST => 0x32,
            Status::LQI => 0x33,
            Status::RSSI => 0x34,
            Status::MARCSTATE => 0x35,
            Status::WORTIME1 => 0x36,
            Status::WORTIME0 => 0x37,
            Status::PKTSTATUS => 0x38,
            Status::VCO_VC_DAC => 0x39,
            Status::TXBYTES => 0x3A,
            Status::RXBYTES => 0x3B,
            Status::RCCTRL1_STATUS => 0x3C,
            Status::RCCTRL0_STATUS => 0x3D,
        }
    }

    pub open spec fn spec_addr(&self, access: Access, mode: Mode) -> u8 {
        access.value() | mode.value() | self.code()
    }

    /// Address byte for this register with the given direction and mode.
    #[verifier::when_used_as_spec(spec_addr)]
    pub fn addr(&self, access: Access, mode: Mode) -> (r: u8)
        ensures
            r == self.spec_addr(access, mode),
    {
        access.value() | mode.value() | self.code()
    }
}

/// The chip status byte, echoed as the first byte of every transaction.
#[derive(Clone, Copy, Debug, PartialEq, Eq, Structural)]
pub struct StatusByte {
    pub bits: u8,
}

impl StatusByte {
    /// The status byte as received.
    pub fn bits(&self) -> (r: u8)
        ensures
            r == self.bits,
    {
        self.bits
    }

    /// Bit 7: low once the crystal oscillator runs and the chip is ready.
    pub fn chip_rdyn(&self) -> (r: bool)
        ensures
            r == (self.bits >= 0x80),
    {
        self.bits >= 0x80
    }

    /// Bits 6..4: the main state class.
    pub fn state(&self) -> (r: u8)
        ensures
            r == (self.bits / 16) % 8,
    {
        (self.bits / 16) % 8
    }

    /// Bits 3..0: free bytes in the TX FIFO, or available bytes in the RX FIFO.
    pub fn fifo_bytes_available(&self) -> (r: u8)
        ensures
            r == self.bits % 16,
    {
        self.bits % 16
    }
}

} // verus!
