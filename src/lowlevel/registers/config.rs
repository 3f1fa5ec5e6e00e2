use vstd::prelude::*;

use crate::lowlevel::access::{Access, Mode};

verus! {

/// Configuration registers, readable and writable.
#[allow(non_camel_case_types)]
#[derive(Clone, Copy, Debug, PartialEq, Eq, Structural)]
pub enum Config {
    /// GDO2 output pin configuration.
    IOCFG2,
    /// GDO1 output pin configuration.
    IOCFG1,
    /// GDO0 output pin configuration.
    IOCFG0,
    /// RX FIFO and TX FIFO thresholds.
    FIFOTHR,
    /// Sync word, high byte.
    SYNC1,
    /// Sync word, low byte.
    SYNC0,
    /// Packet length.
    PKTLEN,
    /// Packet automation control.
    PKTCTRL1,
    /// Packet automation control.
    PKTCTRL0,
    /// Device address.
    ADDR,
    /// Channel number.
    CHANNR,
    /// Frequency synthesizer control.
    FSCTRL1,
    /// Frequency synthesizer control.
    FSCTRL0,
    /// Frequency control word, high byte.
    FREQ2,
    /// Frequency control word, middle byte.
    FREQ1,
    /// Frequency control word, low byte.
    FREQ0,
    /// Modem configuration.
    MDMCFG4,
    /// Modem configuration.
    MDMCFG3,
    /// Modem configuration.
    MDMCFG2,
    /// Modem configuration.
    MDMCFG1,
    /// Modem configuration.
    MDMCFG0,
    /// Modem deviation setting.
    DEVIATN,
    /// Main radio control state machine configuration.
    MCSM2,
    /// Main radio control state machine configuration.
    MCSM1,
    /// Main radio control state machine configuration.
    MCSM0,
    /// Frequency offset compensation configuration.
    FOCCFG,
    /// Bit synchronization configuration.
    BSCFG,
    /// AGC control.
    AGCCTRL2,
    /// AGC control.
    AGCCTRL1,
    /// AGC control.
    AGCCTRL0,
    /// Event 0 timeout, high byte.
    WOREVT1,
    /// Event 0 timeout, low byte.
    WOREVT0,
    /// Wake on radio control.
    WORCTRL,
    /// Front end RX configuration.
    FREND1,
    /// Front end TX configuration.
    FREND0,
    /// Frequency synthesizer calibration.
    FSCAL3,
    /// Frequency synthesizer calibration.
    FSCAL2,
    /// Frequency synthesizer calibration.
    FSCAL1,
    /// Frequency synthesizer calibration.
    FSCAL0,
    /// RC oscillator configuration.
    RCCTRL1,
    /// RC oscillator configuration.
    RCCTRL0,
    /// Frequency synthesizer calibration control.
    FSTEST,
    /// Production test.
    PTEST,
    /// AGC test.
    AGCTEST,
    /// Various test settings.
    TEST2,
    /// Various test settings.
    TEST1,
    /// Various test settings.
    TEST0,
}

impl Config {
    pub open spec fn spec_code(&self) -> u8 {
        match self {
            Config::IOCFG2 => 0x00,
            Config::IOCFG1 => 0x01,
            Config::IOCFG0 => 0x02,
            Config::FIFOTHR => 0x03,
            Config::SYNC1 => 0x04,
            Config::SYNC0 => 0x05,
            Config::PKTLEN => 0x06,
            Config::PKTCTRL1 => 0x07,
            Config::PKTCTRL0 => 0x08,
            Config::ADDR => 0x09,
            Config::CHANNR => 0x0A,
            Config::FSCTRL1 => 0x0B,
            Config::FSCTRL0 => 0x0C,
            Config::FREQ2 => 0x0D,
            Config::FREQ1 => 0x0E,
            Config::FREQ0 => 0x0F,
            Config::MDMCFG4 => 0x10,
            Config::MDMCFG3 => 0x11,
            Config::MDMCFG2 => 0x12,
            Config::MDMCFG1 => 0x13,
            Config::MDMCFG0 => 0x14,
            Config::DEVIATN => 0x15,
            Config::MCSM2 => 0x16,
            Config::MCSM1 => 0x17,
            Config::MCSM0 => 0x18,
            Config::FOCCFG => 0x19,
            Config::BSCFG => 0x1A,
            Config::AGCCTRL2 => 0x1B,
            Config::AGCCTRL1 => 0x1C,
            Config::AGCCTRL0 => 0x1D,
            Config::WOREVT1 => 0x1E,
            Config::WOREVT0 => 0x1F,
            Config::WORCTRL => 0x20,
            Config::FREND1 => 0x21,
            Config::FREND0 => 0x22,
            Config::FSCAL3 => 0x23,
            Config::FSCAL2 => 0x24,
            Config::FSCAL1 => 0x25,
            Config::FSCAL0 => 0x26,
            Config::RCCTRL1 => 0x27,
            Config::RCCTRL0 => 0x28,
            Config::FSTEST => 0x29,
            Config::PTEST => 0x2A,
            Config::AGCTEST => 0x2B,
            Config::TEST2 => 0x2C,
            Config::TEST1 => 0x2D,
            Config::TEST0 => 0x2E,
        }
    }

    /// The register's 6-bit address.
    #[verifier::when_used_as_spec(spec_code)]
    pub fn code(&self) -> (r: u8)
        ensures
            r == self.spec_code(),
    {
        match self {
            Config::IOCFG2 => 0x00,
            Config::IOCFG1 => 0x01,
            Config::IOCFG0 => 0x02,
            Config::FIFOTHR => 0x03,
            Config::SYNC1 => 0x04,
            Config::SYNC0 => 0x05,
            Config::PKTLEN => 0x06,
            Config::PKTCTRL1 => 0x07,
            Config::PKTCTRL0 => 0x08,
            Config::ADDR => 0x09,
            Config::CHANNR => 0x0A,
            Config::FSCTRL1 => 0x0B,
            Config::FSCTRL0 => 0x0C,
            Config::FREQ2 => 0x0D,
            Config::FREQ1 => 0x0E,
            Config::FREQ0 => 0x0F,
            Config::MDMCFG4 => 0x10,
            Config::MDMCFG3 => 0x11,
            Config::MDMCFG2 => 0x12,
            Config::MDMCFG1 => 0x13,
            Config::MDMCFG0 => 0x14,
            Config::DEVIATN => 0x15,
            Config::MCSM2 => 0x16,
            Config::MCSM1 => 0x17,
            Config::MCSM0 => 0x18,
            Config::FOCCFG => 0x19,
            Config::BSCFG => 0x1A,
            Config::AGCCTRL2 => 0x1B,
            Config::AGCCTRL1 => 0x1C,
            Config::AGCCTRL0 => 0x1D,
            Config::WOREVT1 => 0x1E,
            Config::WOREVT0 => 0x1F,
            Config::WORCTRL => 0x20,
            Config::FREND1 => 0x21,
            Config::FREND0 => 0x22,
            Config::FSCAL3 => 0x23,
            Config::FSCAL2 => 0x24,
            Config::FSCAL1 => 0x25,
            Config::FSCAL0 => 0x26,
            Config::RCCTRL1 => 0x27,
            Config::RCCTRL0 => 0x28,
            Config::FSTEST => 0x29,
            Config::PTEST => 0x2A,
            Config::AGCTEST => 0x2B,
            Config::TEST2 => 0x2C,
            Config::TEST1 => 0x2D,
            Config::TEST0 => 0x2E,
        }
    }

    pub open spec fn spec_reset_value(&self) -> u8 {
        match self {
            Config::IOCFG2 => 0x29,
            Config::IOCFG1 => 0x2E,
            Config::IOCFG0 => 0x3F,
            Config::FIFOTHR => 0x07,
            Config::SYNC1 => 0xD3,
            Config::SYNC0 => 0x91,
            Config::PKTLEN => 0xFF,
            Config::PKTCTRL1 => 0x04,
            Config::PKTCTRL0 => 0x45,
            Config::ADDR => 0x00,
            Config::CHANNR => 0x00,
            Config::FSCTRL1 => 0x0F,
            Config::FSCTRL0 => 0x00,
            Config::FREQ2 => 0x1E,
            Config::FREQ1 => 0xC4,
            Config::FREQ0 => 0xEC,
            Config::MDMCFG4 => 0x8C,
            Config::MDMCFG3 => 0x22,
            Config::MDMCFG2 => 0x02,
            Config::MDMCFG1 => 0x22,
            Config::MDMCFG0 => 0xF8,
            Config::DEVIATN => 0x47,
            Config::MCSM2 => 0x07,
            Config::MCSM1 => 0x30,
            Config::MCSM0 => 0x04,
            Config::FOCCFG => 0x36,
            Config::BSCFG => 0x6C,
            Config::AGCCTRL2 => 0x03,
            Config::AGCCTRL1 => 0x40,
            Config::AGCCTRL0 => 0x91,
            Config::WOREVT1 => 0x87,
            Config::WOREVT0 => 0x6B,
            Config::WORCTRL => 0xF8,
            Config::FREND1 => 0x56,
            Config::FREND0 => 0x10,
            Config::FSCAL3 => 0xA9,
            Config::FSCAL2 => 0x0A,
            Config::FSCAL1 => 0x20,
            Config::FSCAL0 => 0x0D,
            Config::RCCTRL1 => 0x41,
            Config::RCCTRL0 => 0x00,
            Config::FSTEST => 0x59,
            Config::PTEST => 0x7F,
            Config::AGCTEST => 0x3F,
            Config::TEST2 => 0x88,
            Config::TEST1 => 0x31,
            Config::TEST0 => 0x0B,
        }
    }

    /// The value the chip holds in this register after a reset.
    #[verifier::when_used_as_spec(spec_reset_value)]
    pub fn reset_value(&self) -> (r: u8)
        ensures
            r == self.spec_reset_value(),
    {
        match self {
            Config::IOCFG2 => 0x29,
            Config::IOCFG1 => 0x2E,
            Config::IOCFG0 => 0x3F,
            Config::FIFOTHR => 0x07,
            Config::SYNC1 => 0xD3,
            Config::SYNC0 => 0x91,
            Config::PKTLEN => 0xFF,
            Config::PKTCTRL1 => 0x04,
            Config::PKTCTRL0 => 0x45,
            Config::ADDR => 0x00,
            Config::CHANNR => 0x00,
            Config::FSCTRL1 => 0x0F,
            Config::FSCTRL0 => 0x00,
            Config::FREQ2 => 0x1E,
            Config::FREQ1 => 0xC4,
            Config::FREQ0 => 0xEC,
            Config::MDMCFG4 => 0x8C,
            Config::MDMCFG3 => 0x22,
            Config::MDMCFG2 => 0x02,
            Config::MDMCFG1 => 0x22,
            Config::MDMCFG0 => 0xF8,
            Config::DEVIATN => 0x47,
            Config::MCSM2 => 0x07,
            Config::MCSM1 => 0x30,
            Config::MCSM0 => 0x04,
            Config::FOCCFG => 0x36,
            Config::BSCFG => 0x6C,
            Config::AGCCTRL2 => 0x03,
            Config::AGCCTRL1 => 0x40,
            Config::AGCCTRL0 => 0x91,
            Config::WOREVT1 => 0x87,
            Config::WOREVT0 => 0x6B,
            Config::WORCTRL => 0xF8,
            Config::FREND1 => 0x56,
            Config::FREND0 => 0x10,
            Config::FSCAL3 => 0xA9,
            Config::FSCAL2 => 0x0A,
            Config::FSCAL1 => 0x20,
            Config::FSCAL0 => 0x0D,
            Config::RCCTRL1 => 0x41,
            Config::RCCTRL0 => 0x00,
            Config::FSTEST => 0x59,
            Config::PTEST => 0x7F,
            Config::AGCTEST => 0x3F,
            Config::TEST2 => 0x88,
            Config::TEST1 => 0x31,
            Config::TEST0 => 0x0B,
        }
    }

    pub open spec fn spec_addr(&self, access: Access, mode: Mode) -> u8 {
        access.value() | mode.value() | self.code()
    }

    /// Address byte for this register with the given direction and mode.
    #[verifier::when_used_as_spec(spec_addr)]
    pub fn addr(&self, access: Access, mode: Mode) -> (r: u8)
        ensures
            r == self.spec_addr(access, mode),
    {
        access.value() | mode.value() | self.code()
    }
}

} // verus!
