use vstd::prelude::*;

verus! {

/// CCA mode configuration (MCSM1.CCA_MODE).
#[allow(non_camel_case_types)]
#[derive(Clone, Copy, Debug, PartialEq, Eq, Structural)]
pub enum CcaModeConfig {
    /// Clear channel always.
    ALWAYS,
    /// Clear channel if RSSI below threshold.
    RSSI_BELOW_THR,
    /// Clear channel unless currently receiving a packet.
    RCV_PACKET,
    /// Clear channel if RSSI below threshold unless currently receiving a packet.
    RSSI_BELOW_THR_UNLESS_RCV_PACKET,
}

impl CcaModeConfig {
    pub open spec fn spec_value(&self) -> u8 {
        match self {
            CcaModeConfig::ALWAYS => 0x00,
            CcaModeConfig::RSSI_BELOW_THR => 0x01,
            CcaModeConfig::RCV_PACKET => 0x02,
            CcaModeConfig::RSSI_BELOW_THR_UNLESS_RCV_PACKET => 0x03,
        }
    }

    /// The field value that selects this setting.
    #[verifier::when_used_as_spec(spec_value)]
    pub fn value(&self) -> (r: u8)
        ensures
            r == self.spec_value(),
    {
        match self {
            CcaModeConfig::ALWAYS => 0x00,
            CcaModeConfig::RSSI_BELOW_THR => 0x01,
            CcaModeConfig::RCV_PACKET => 0x02,
            CcaModeConfig::RSSI_BELOW_THR_UNLESS_RCV_PACKET => 0x03,
        }
    }
}

} // verus!
