use vstd::prelude::*;

verus! {

/// Radio hardware machine states, as reported by the MARCSTATE register.
#[allow(non_camel_case_types)]
#[derive(Clone, Copy, Debug, PartialEq, Eq, Structural)]
pub enum MachineState {
    SLEEP,
    IDLE,
    XOFF,
    VCOON_MC,
    REGON_MC,
    MANCAL,
    VCOON,
    REGON,
    STARTCAL,
    BWBOOST,
    FS_LOCK,
    IFADCON,
    ENDCAL,
    RX,
    RX_END,
    RX_RST,
    TXRX_SWITCH,
    RXFIFO_OVERFLOW,
    FSTXON,
    TX,
    TX_END,
    RXTX_SWITCH,
    TXFIFO_UNDERFLOW,
}

/// A MARCSTATE code that names no machine state.
#[derive(Clone, Copy, Debug, PartialEq, Eq, Structural)]
pub enum MachineStateError {
    InvalidState(u8),
}

/// Number of machine states; their codes are `0..NUM_MACHINE_STATES`.
pub const NUM_MACHINE_STATES: u8 = 23;

impl MachineState {
    pub open spec fn spec_value(&self) -> u8 {
        match self {
            MachineState::SLEEP => 0x00,
            MachineState::IDLE => 0x01,
            MachineState::XOFF => 0x02,
            MachineState::VCOON_MC => 0x03,
            MachineState::REGON_MC => 0x04,
            MachineState::MANCAL => 0x05,
            MachineState::VCOON => 0x06,
            MachineState::REGON => 0x07,
            MachineState::STARTCAL => 0x08,
            MachineState::BWBOOST => 0x09,
            MachineState::FS_LOCK => 0x0A,
            MachineState::IFADCON => 0x0B,
            MachineState::ENDCAL => 0x0C,
            MachineState::RX => 0x0D,
            MachineState::RX_END => 0x0E,
            MachineState::RX_RST => 0x0F,
            MachineState::TXRX_SWITCH => 0x10,
            MachineState::RXFIFO_OVERFLOW => 0x11,
            MachineState::FSTXON => 0x12,
            MachineState::TX => 0x13,
            MachineState::TX_END => 0x14,
            MachineState::RXTX_SWITCH => 0x15,
            MachineState::TXFIFO_UNDERFLOW => 0x16,
        }
    }

    /// The state's code in the MARCSTATE register.
    #[verifier::when_used_as_spec(spec_value)]
    pub fn value(&self) -> (r: u8)
        ensures
            r == self.spec_value(),
    {
        match self {
            MachineState::SLEEP => 0x00,
            MachineState::IDLE => 0x01,
            MachineState::XOFF => 0x02,
            MachineState::VCOON_MC => 0x03,
            MachineState::REGON_MC => 0x04,
            MachineState::MANCAL => 0x05,
            MachineState::VCOON => 0x06,
            MachineState::REGON => 0x07,
            MachineState::STARTCAL => 0x08,
            MachineState::BWBOOST => 0x09,
            MachineState::FS_LOCK => 0x0A,
            MachineState::IFADCON => 0x0B,
            MachineState::ENDCAL => 0x0C,
            MachineState::RX => 0x0D,
            MachineState::RX_END => 0x0E,
            MachineState::RX_RST => 0x0F,
            MachineState::TXRX_SWITCH => 0x10,
            MachineState::RXFIFO_OVERFLOW => 0x11,
            MachineState::FSTXON => 0x12,
            MachineState::TX => 0x13,
            MachineState::TX_END => 0x14,
            MachineState::RXTX_SWITCH => 0x15,
            MachineState::TXFIFO_UNDERFLOW => 0x16,
        }
    }

    /// The state whose code is `value`, or `InvalidState(value)` if none has it.
    pub open spec fn spec_from_value(value: u8) -> Result<MachineState, MachineStateError> {
        match value {
            0x00 => Ok(MachineState::SLEEP),
            0x01 => Ok(MachineState::IDLE),
            0x02 => Ok(MachineState::XOFF),
            0x03 => Ok(MachineState::VCOON_MC),
            0x04 => Ok(MachineState::REGON_MC),
            0x05 => Ok(MachineState::MANCAL),
            0x06 => Ok(MachineState::VCOON),
            0x07 => Ok(MachineState::REGON),
            0x08 => Ok(MachineState::STARTCAL),
            0x09 => Ok(MachineState::BWBOOST),
            0x0A => Ok(MachineState::FS_LOCK),
            0x0B => Ok(MachineState::IFADCON),
            0x0C => Ok(MachineState::ENDCAL),
            0x0D => Ok(MachineState::RX),
            0x0E => Ok(MachineState::RX_END),
            0x0F => Ok(MachineState::RX_RST),
            0x10 => Ok(MachineState::TXRX_SWITCH),
            0x11 => Ok(MachineState::RXFIFO_OVERFLOW),
            0x12 => Ok(MachineState::FSTXON),
            0x13 => Ok(MachineState::TX),
            0x14 => Ok(MachineState::TX_END),
            0x15 => Ok(MachineState::RXTX_SWITCH),
            0x16 => Ok(MachineState::TXFIFO_UNDERFLOW),
            _ => Err(MachineStateError::InvalidState(value)),
        }
    }

    /// Decodes a MARCSTATE code.
    pub fn from_value(value: u8) -> (r: Result<MachineState, MachineStateError>)
        ensures
            r == Self::spec_from_value(value),
            match r {
                Ok(s) => value < NUM_MACHINE_STATES && s.value() == value,
                Err(e) => value >= NUM_MACHINE_STATES && e == MachineStateError::InvalidState(value),
            },
    {
        match value {
            0x00 => Ok(MachineState::SLEEP),
            0x01 => Ok(MachineState::IDLE),
            0x02 => Ok(MachineState::XOFF),
            0x03 => Ok(MachineState::VCOON_MC),
            0x04 => Ok(MachineState::REGON_MC),
            0x05 => Ok(MachineState::MANCAL),
            0x06 => Ok(MachineState::VCOON),
            0x07 => Ok(MachineState::REGON),
            0x08 => Ok(MachineState::STARTCAL),
            0x09 => Ok(MachineState::BWBOOST),
            0x0A => Ok(MachineState::FS_LOCK),
            0x0B => Ok(MachineState::IFADCON),
            0x0C => Ok(MachineState::ENDCAL),
            0x0D => Ok(MachineState::RX),
            0x0E => Ok(MachineState::RX_END),
            0x0F => Ok(MachineState::RX_RST),
            0x10 => Ok(MachineState::TXRX_SWITCH),
            0x11 => Ok(MachineState::RXFIFO_OVERFLOW),
            0x12 => Ok(MachineState::FSTXON),
            0x13 => Ok(MachineState::TX),
            0x14 => Ok(MachineState::TX_END),
            0x15 => Ok(MachineState::RXTX_SWITCH),
            0x16 => Ok(MachineState::TXFIFO_UNDERFLOW),
            _ => Err(MachineStateError::InvalidState(value)),
        }
    }
}

} // verus!
