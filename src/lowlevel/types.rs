//! Field settings of the configuration registers.

use vstd::prelude::*;

pub mod cca_mode;
pub mod machine_state;
pub mod num_preamble;

pub use cca_mode::CcaModeConfig;
pub use machine_state::{MachineState, MachineStateError, NUM_MACHINE_STATES};
pub use num_preamble::NumPreamble;

verus! {

/// Sync word qualifier mode (MDMCFG2.SYNC_MODE).
#[allow(non_camel_case_types)]
#[derive(Clone, Copy, Debug, PartialEq, Eq, Structural)]
pub enum SyncCheck {
    /// No preamble or sync word.
    DISABLED,
    /// 15 of 16 sync word bits detected.
    CHECK_15_16,
    /// 16 of 16 sync word bits detected.
    CHECK_16_16,
    /// 30 of 32 sync word bits detected.
    CHECK_30_32,
    /// No preamble or sync word, carrier sense above threshold.
    DISABLED_CS,
    /// 15 of 16, and carrier sense above threshold.
    CHECK_15_16_CS,
    /// 16 of 16, and carrier sense above threshold.
    CHECK_16_16_CS,
    /// 30 of 32, and carrier sense above threshold.
    CHECK_30_32_CS,
}

impl SyncCheck {
    pub open spec fn spec_value(&self) -> u8 {
        match self {
            SyncCheck::DISABLED => 0x00,
            SyncCheck::CHECK_15_16 => 0x01,
            SyncCheck::CHECK_16_16 => 0x02,
            SyncCheck::CHECK_30_32 => 0x03,
            SyncCheck::DISABLED_CS => 0x04,
            SyncCheck::CHECK_15_16_CS => 0x05,
            SyncCheck::CHECK_16_16_CS => 0x06,
            SyncCheck::CHECK_30_32_CS => 0x07,
        }
    }

    /// The field value that selects this setting.
    #[verifier::when_used_as_spec(spec_value)]
    pub fn value(&self) -> (r: u8)
        ensures
            r == self.spec_value(),
    {
        match self {
            SyncCheck::DISABLED => 0x00,
            SyncCheck::CHECK_15_16 => 0x01,
            SyncCheck::CHECK_16_16 => 0x02,
            SyncCheck::CHECK_30_32 => 0x03,
            SyncCheck::DISABLED_CS => 0x04,
            SyncCheck::CHECK_15_16_CS => 0x05,
            SyncCheck::CHECK_16_16_CS => 0x06,
            SyncCheck::CHECK_30_32_CS => 0x07,
        }
    }
}

/// Modulation format (MDMCFG2.MOD_FORMAT).
#[allow(non_camel_case_types)]
#[derive(Clone, Copy, Debug, PartialEq, Eq, Structural)]
pub enum ModFormat {
    /// 2-FSK.
    MOD_2FSK,
    /// GFSK.
    MOD_GFSK,
    /// ASK / OOK.
    MOD_ASK_OOK,
    /// 4-FSK.
    MOD_4FSK,
    /// MSK.
    MOD_MSK,
}

impl ModFormat {
    pub open spec fn spec_value(&self) -> u8 {
        match self {
            ModFormat::MOD_2FSK => 0x00,
            ModFormat::MOD_GFSK => 0x01,
            ModFormat::MOD_ASK_OOK => 0x03,
            ModFormat::MOD_4FSK => 0x04,
            ModFormat::MOD_MSK => 0x07,
        }
    }

    /// The field value that selects this setting.
    #[verifier::when_used_as_spec(spec_value)]
    pub fn value(&self) -> (r: u8)
        ensures
            r == self.spec_value(),
    {
        match self {
            ModFormat::MOD_2FSK => 0x00,
            ModFormat::MOD_GFSK => 0x01,
            ModFormat::MOD_ASK_OOK => 0x03,
            ModFormat::MOD_4FSK => 0x04,
            ModFormat::MOD_MSK => 0x07,
        }
    }
}

/// Address check configuration (PKTCTRL1.ADR_CHK).
#[allow(non_camel_case_types)]
#[derive(Clone, Copy, Debug, PartialEq, Eq, Structural)]
pub enum AddressCheck {
    /// No address check.
    DISABLED,
    /// Address check, no broadcast.
    SELF,
    /// Address check and 0x00 broadcast.
    SELF_LOW_BROADCAST,
    /// Address check and 0x00 and 0xFF broadcast.
    SELF_HIGH_LOW_BROADCAST,
}

impl AddressCheck {
    pub open spec fn spec_value(&self) -> u8 {
        match self {
            AddressCheck::DISABLED => 0x00,
            AddressCheck::SELF => 0x01,
            AddressCheck::SELF_LOW_BROADCAST => 0x02,
            AddressCheck::SELF_HIGH_LOW_BROADCAST => 0x03,
        }
    }

    /// The field value that selects this setting.
    #[verifier::when_used_as_spec(spec_value)]
    pub fn value(&self) -> (r: u8)
        ensures
            r == self.spec_value(),
    {
        match self {
            AddressCheck::DISABLED => 0x00,
            AddressCheck::SELF => 0x01,
            AddressCheck::SELF_LOW_BROADCAST => 0x02,
            AddressCheck::SELF_HIGH_LOW_BROADCAST => 0x03,
        }
    }
}

/// Packet length configuration (PKTCTRL0.LENGTH_CONFIG).
#[allow(non_camel_case_types)]
#[derive(Clone, Copy, Debug, PartialEq, Eq, Structural)]
pub enum LengthConfig {
    /// Fixed packet length, set by PKTLEN.
    FIXED,
    /// Variable packet length, set by the first byte after the sync word.
    VARIABLE,
    /// Infinite packet length.
    INFINITE,
}

impl LengthConfig {
    pub open spec fn spec_value(&self) -> u8 {
        match self {
            LengthConfig::FIXED => 0x00,
            LengthConfig::VARIABLE => 0x01,
            LengthConfig::INFINITE => 0x02,
        }
    }

    /// The field value that selects this setting.
    #[verifier::when_used_as_spec(spec_value)]
    pub fn value(&self) -> (r: u8)
        ensures
            r == self.spec_value(),
    {
        match self {
            LengthConfig::FIXED => 0x00,
            LengthConfig::VARIABLE => 0x01,
            LengthConfig::INFINITE => 0x02,
        }
    }
}

/// When the frequency synthesizer is calibrated automatically (MCSM0.FS_AUTOCAL).
#[allow(non_camel_case_types)]
#[derive(Clone, Copy, Debug, PartialEq, Eq, Structural)]
pub enum AutoCalibration {
    /// Never (calibrate manually with the SCAL strobe).
    Disabled,
    /// When going from IDLE to RX or TX.
    FromIdle,
    /// When going from RX or TX back to IDLE.
    ToIdle,
    /// Every 4th time when going from RX or TX to IDLE.
    ToIdleEvery4th,
}

impl AutoCalibration {
    pub open spec fn spec_value(&self) -> u8 {
        match self {
            AutoCalibration::Disabled => 0x00,
            AutoCalibration::FromIdle => 0x01,
            AutoCalibration::ToIdle => 0x02,
            AutoCalibration::ToIdleEvery4th => 0x03,
        }
    }

    /// The field value that selects this setting.
    #[verifier::when_used_as_spec(spec_value)]
    pub fn value(&self) -> (r: u8)
        ensures
            r == self.spec_value(),
    {
        match self {
            AutoCalibration::Disabled => 0x00,
            AutoCalibration::FromIdle => 0x01,
            AutoCalibration::ToIdle => 0x02,
            AutoCalibration::ToIdleEvery4th => 0x03,
        }
    }
}

impl From<AutoCalibration> for u8 {
    fn from(value: AutoCalibration) -> (r: u8) {
        value.value()
    }
}

impl vstd::std_specs::convert::FromSpecImpl<AutoCalibration> for u8 {
    open spec fn obeys_from_spec() -> bool {
        true
    }

    open spec fn from_spec(v: AutoCalibration) -> u8 {
        v.spec_value()
    }
}

} // verus!
