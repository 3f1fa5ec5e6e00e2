//! Bit fields of the chip's registers, read and written through one accessor.

use vstd::prelude::*;

verus! {

/// A named bit field: `width` bits starting at bit `offset` of a register.
#[derive(Clone, Copy, Debug, PartialEq, Eq, Structural)]
pub enum Field {
    /// FSCTRL1: intermediate frequency.
    FreqIf,
    /// AGCCTRL2: allowed DVGA gain reduction.
    MaxDvgaGain,
    /// AGCCTRL2: maximum LNA gain.
    MaxLnaGain,
    /// AGCCTRL2: target amplitude.
    MagnTarget,
    /// AGCCTRL0: channel filter samples or OOK/ASK decision boundary.
    FilterLength,
    /// MCSM0: automatic calibration.
    FsAutocal,
    /// DEVIATN: deviation exponent.
    DeviationE,
    /// DEVIATN: deviation mantissa.
    DeviationM,
    /// MDMCFG4: channel bandwidth exponent.
    ChanbwE,
    /// MDMCFG4: channel bandwidth mantissa.
    ChanbwM,
    /// MDMCFG4: data rate exponent.
    DrateE,
    /// MDMCFG3: data rate mantissa.
    DrateM,
    /// MDMCFG2: disable the digital DC blocking filter.
    DemDcfiltOff,
    /// MDMCFG2: modulation format.
    ModFormat,
    /// MDMCFG2: sync word qualifier.
    SyncMode,
    /// MDMCFG1: forward error correction.
    FecEn,
    /// MDMCFG1: minimum number of preamble bytes.
    NumPreamble,
    /// MCSM1: clear channel indication.
    CcaMode,
    /// PKTCTRL1: address check.
    AdrChk,
    /// PKTCTRL0: data whitening.
    WhiteData,
    /// PKTCTRL0: CRC calculation.
    CrcEn,
    /// PKTCTRL0: packet length mode.
    LengthConfig,
    /// TXBYTES / RXBYTES: bytes in the FIFO.
    NumBytes,
    /// TXBYTES / RXBYTES: underflow or overflow flag.
    FifoError,
    /// MARCSTATE: main radio control state.
    MarcState,
    /// LQI: CRC flag of the last received packet.
    CrcFlag,
    /// LQI: link quality estimate.
    LqiEst,
}

impl Field {
    pub open spec fn spec_offset(&self) -> u8 {
        match self {
            Field::FreqIf => 0,
            Field::MaxDvgaGain => 6,
            Field::MaxLnaGain => 3,
            Field::MagnTarget => 0,
            Field::FilterLength => 0,
            Field::FsAutocal => 4,
            Field::DeviationE => 4,
            Field::DeviationM => 0,
            Field::ChanbwE => 6,
            Field::ChanbwM => 4,
            Field::DrateE => 0,
            Field::DrateM => 0,
            Field::DemDcfiltOff => 7,
            Field::ModFormat => 4,
            Field::SyncMode => 0,
            Field::FecEn => 7,
            Field::NumPreamble => 4,
            Field::CcaMode => 4,
            Field::AdrChk => 0,
            Field::WhiteData => 6,
            Field::CrcEn => 2,
            Field::LengthConfig => 0,
            Field::NumBytes => 0,
            Field::FifoError => 7,
            Field::MarcState => 0,
            Field::CrcFlag => 7,
            Field::LqiEst => 0,
        }
    }

    /// Position of the field's lowest bit.
    #[verifier::when_used_as_spec(spec_offset)]
    pub fn offset(&self) -> (r: u8)
        ensures
            r == self.spec_offset(),
    {
        match self {
            Field::FreqIf => 0,
            Field::MaxDvgaGain => 6,
            Field::MaxLnaGain => 3,
            Field::MagnTarget => 0,
            Field::FilterLength => 0,
            Field::FsAutocal => 4,
            Field::DeviationE => 4,
            Field::DeviationM => 0,
            Field::ChanbwE => 6,
            Field::ChanbwM => 4,
            Field::DrateE => 0,
            Field::DrateM => 0,
            Field::DemDcfiltOff => 7,
            Field::ModFormat => 4,
            Field::SyncMode => 0,
            Field::FecEn => 7,
            Field::NumPreamble => 4,
            Field::CcaMode => 4,
            Field::AdrChk => 0,
            Field::WhiteData => 6,
            Field::CrcEn => 2,
            Field::LengthConfig => 0,
            Field::NumBytes => 0,
            Field::FifoError => 7,
            Field::MarcState => 0,
            Field::CrcFlag => 7,
            Field::LqiEst => 0,
        }
    }

    pub open spec fn spec_width(&self) -> u8 {
        match self {
            Field::FreqIf => 5,
            Field::MaxDvgaGain => 2,
            Field::MaxLnaGain => 3,
            Field::MagnTarget => 3,
            Field::FilterLength => 2,
            Field::FsAutocal => 2,
            Field::DeviationE => 3,
            Field::DeviationM => 3,
            Field::ChanbwE => 2,
            Field::ChanbwM => 2,
            Field::DrateE => 4,
            Field::DrateM => 8,
            Field::DemDcfiltOff => 1,
            Field::ModFormat => 3,
            Field::SyncMode => 3,
            Field::FecEn => 1,
            Field::NumPreamble => 3,
            Field::CcaMode => 2,
            Field::AdrChk => 2,
            Field::WhiteData => 1,
            Field::CrcEn => 1,
            Field::LengthConfig => 2,
            Field::NumBytes => 7,
            Field::FifoError => 1,
            Field::MarcState => 5,
            Field::CrcFlag => 1,
            Field::LqiEst => 7,
        }
    }

    /// Number of bits in the field.
    #[verifier::when_used_as_spec(spec_width)]
    pub fn width(&self) -> (r: u8)
        ensures
            r == self.spec_width(),
    {
        match self {
            Field::FreqIf => 5,
            Field::MaxDvgaGain => 2,
            Field::MaxLnaGain => 3,
            Field::MagnTarget => 3,
            Field::FilterLength => 2,
            Field::FsAutocal => 2,
            Field::DeviationE => 3,
            Field::DeviationM => 3,
            Field::ChanbwE => 2,
            Field::ChanbwM => 2,
            Field::DrateE => 4,
            Field::DrateM => 8,
            Field::DemDcfiltOff => 1,
            Field::ModFormat => 3,
            Field::SyncMode => 3,
            Field::FecEn => 1,
            Field::NumPreamble => 3,
            Field::CcaMode => 2,
            Field::AdrChk => 2,
            Field::WhiteData => 1,
            Field::CrcEn => 1,
            Field::LengthConfig => 2,
            Field::NumBytes => 7,
            Field::FifoError => 1,
            Field::MarcState => 5,
            Field::CrcFlag => 1,
            Field::LqiEst => 7,
        }
    }

    pub proof fn lemma_fits(&self)
        ensures
            1 <= self.width(),
            self.offset() + self.width() <= 8,
    {
    }

    pub open spec fn spec_mask(&self) -> u8 {
        0xFFu8 >> ((8 - self.width()) as u8)
    }

    /// The field's value bits, right-aligned.
    #[verifier::when_used_as_spec(spec_mask)]
    pub fn mask(&self) -> (r: u8)
        ensures
            r == self.spec_mask(),
    {
        proof {
            self.lemma_fits();
        }
        0xFFu8 >> (8 - self.width())
    }

    pub open spec fn spec_get(&self, byte: u8) -> u8 {
        (byte >> self.offset()) & self.mask()
    }

    /// Extracts the field from a register value.
    #[verifier::when_used_as_spec(spec_get)]
    pub fn get(&self, byte: u8) -> (r: u8)
        ensures
            r == self.spec_get(byte),
    {
        proof {
            self.lemma_fits();
        }
        (byte >> self.offset()) & self.mask()
    }

    pub open spec fn spec_set(&self, byte: u8, value: u8) -> u8 {
        (byte & !(self.mask() << self.offset())) | ((value & self.mask()) << self.offset())
    }

    /// Replaces the field in a register value by the low bits of `value`,
    /// leaving every other bit as it was.
    #[verifier::when_used_as_spec(spec_set)]
    pub fn set(&self, byte: u8, value: u8) -> (r: u8)
        ensures
            r == self.spec_set(byte, value),
    {
        proof {
            self.lemma_fits();
        }
        (byte & !(self.mask() << self.offset())) | ((value & self.mask()) << self.offset())
    }
}

} // verus!
