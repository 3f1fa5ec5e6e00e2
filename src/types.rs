//! Settings of the high level interface.

use vstd::prelude::*;

verus! {

/// Modulation format configuration.
#[derive(Clone, Copy, Debug, PartialEq, Eq, Structural)]
pub enum Modulation {
    /// 2-FSK.
    BinaryFrequencyShiftKeying,
    /// GFSK.
    GaussianFrequencyShiftKeying,
    /// ASK / OOK.
    OnOffKeying,
    /// 4-FSK.
    FourFrequencyShiftKeying,
    /// MSK.
    MinimumShiftKeying,
}

/// Packet length configuration.
#[derive(Clone, Copy, Debug, PartialEq, Eq, Structural)]
pub enum PacketLength {
    /// Set packet length to a fixed value.
    Fixed(u8),
    /// Set upper bound of variable packet length.
    Variable(u8),
    /// Infinite packet length, streaming mode.
    Infinite,
}

/// Number of preamble bytes to be transmitted.
#[derive(Clone, Copy, Debug, PartialEq, Eq, Structural)]
pub enum NumPreambleBytes {
    Two,
    Three,
    Four,
    Six,
    Eight,
    Twelve,
    Sixteen,
    TwentyFour,
}

/// CCA mode configuration.
#[derive(Clone, Copy, Debug, PartialEq, Eq, Structural)]
pub enum CcaMode {
    /// Always clear channel assessment.
    AlwaysClear,
    /// Clear channel assessment when RSSI is below threshold.
    ClearBelowThreshold,
    /// Clear channel assessment unless receiving packet.
    ClearWhenReceivingPacket,
    /// Clear channel assessment when RSSI is below threshold unless receiving packet.
    ClearBelowThresholdUnlessReceivingPacket,
}

/// Address check configuration.
#[derive(Clone, Copy, Debug, PartialEq, Eq, Structural)]
pub enum AddressFilter {
    /// No address check.
    Disabled,
    /// Address check, no broadcast.
    Device(u8),
    /// Address check and 0 (0x00) broadcast.
    DeviceLowBroadcast(u8),
    /// Address check and 0 (0x00) and 255 (0xFF) broadcast.
    DeviceHighLowBroadcast(u8),
}

/// Radio operational mode.
#[derive(Clone, Copy, Debug, PartialEq, Eq, Structural)]
pub enum RadioMode {
    Idle,
    Sleep,
    Calibrate,
    Transmit,
    Receive,
}

/// Sync word configuration.
#[derive(Clone, Copy, Debug, PartialEq, Eq, Structural)]
pub enum SyncMode {
    /// No sync word.
    Disabled,
    /// Match 15 of 16 bits of given sync word.
    MatchPartial(u16),
    /// Match 30 of 32 bits of a repetition of given sync word.
    MatchPartialRepeated(u16),
    /// Match 16 of 16 bits of given sync word.
    MatchFull(u16),
}

/// Command strobes.
#[derive(Clone, Copy, Debug, PartialEq, Eq, Structural)]
pub enum CommandStrobe {
    /// SRES
    ResetChip,
    /// SFSTXON
    EnableAndCalFreqSynth,
    /// SXOFF
    TurnOffXosc,
    /// SCAL
    CalFreqSynthAndTurnOff,
    /// SRX
    EnableRx,
    /// STX
    EnableTx,
    /// SIDLE
    ExitRxTx,
    /// SWOR
    StartWakeOnRadio,
    /// SPWD
    EnterPowerDownMode,
    /// SFRX
    FlushRxFifoBuffer,
    /// SFTX
    FlushTxFifoBuffer,
    /// SWORRST
    ResetRtcToEvent1,
    /// SNOP
    NoOperation,
}

/// Target amplitude from channel filter.
#[derive(Clone, Copy, Debug, PartialEq, Eq, Structural)]
pub enum TargetAmplitude {
    /// 24 dB
    Db24,
    /// 27 dB
    Db27,
    /// 30 dB
    Db30,
    /// 33 dB
    Db33,
    /// 36 dB
    Db36,
    /// 38 dB
    Db38,
    /// 40 dB
    Db40,
    /// 42 dB
    Db42,
}

impl TargetAmplitude {
    pub open spec fn spec_value(&self) -> u8 {
        match self {
            TargetAmplitude::Db24 => 0,
            TargetAmplitude::Db27 => 1,
            TargetAmplitude::Db30 => 2,
            TargetAmplitude::Db33 => 3,
            TargetAmplitude::Db36 => 4,
            TargetAmplitude::Db38 => 5,
            TargetAmplitude::Db40 => 6,
            TargetAmplitude::Db42 => 7,
        }
    }
}

impl From<TargetAmplitude> for u8 {
    fn from(value: TargetAmplitude) -> (r: u8) {
        match value {
            TargetAmplitude::Db24 => 0,
            TargetAmplitude::Db27 => 1,
            TargetAmplitude::Db30 => 2,
            TargetAmplitude::Db33 => 3,
            TargetAmplitude::Db36 => 4,
            TargetAmplitude::Db38 => 5,
            TargetAmplitude::Db40 => 6,
            TargetAmplitude::Db42 => 7,
        }
    }
}

impl vstd::std_specs::convert::FromSpecImpl<TargetAmplitude> for u8 {
    open spec fn obeys_from_spec() -> bool {
        true
    }

    open spec fn from_spec(v: TargetAmplitude) -> u8 {
        v.spec_value()
    }
}

/// Channel filter samples or OOK/ASK decision boundary for AGC.
#[derive(Clone, Copy, Debug, PartialEq, Eq, Structural)]
pub enum FilterLength {
    /// 8 filter samples for FSK/MSK, or 4 dB for OOK/ASK.
    Samples8,
    /// 16 filter samples for FSK/MSK, or 8 dB for OOK/ASK.
    Samples16,
    /// 32 filter samples for FSK/MSK, or 12 dB for OOK/ASK.
    Samples32,
    /// 64 filter samples for FSK/MSK, or 16 dB for OOK/ASK.
    Samples64,
}

impl FilterLength {
    pub open spec fn spec_value(&self) -> u8 {
        match self {
            FilterLength::Samples8 => 0,
            FilterLength::Samples16 => 1,
            FilterLength::Samples32 => 2,
            FilterLength::Samples64 => 3,
        }
    }
}

impl From<FilterLength> for u8 {
    fn from(value: FilterLength) -> (r: u8) {
        match value {
            FilterLength::Samples8 => 0,
            FilterLength::Samples16 => 1,
            FilterLength::Samples32 => 2,
            FilterLength::Samples64 => 3,
        }
    }
}

impl vstd::std_specs::convert::FromSpecImpl<FilterLength> for u8 {
    open spec fn obeys_from_spec() -> bool {
        true
    }

    open spec fn from_spec(v: FilterLength) -> u8 {
        v.spec_value()
    }
}

} // verus!
