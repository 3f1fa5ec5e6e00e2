//! Driver for the CC1101 sub-GHz radio transceiver.

mod driver;
pub mod lowlevel;
mod types;

pub use driver::{Cc1101, Error};
pub use lowlevel::registers::StatusByte;
pub use lowlevel::types::{AutoCalibration, MachineState, MachineStateError};
pub use lowlevel::FIFO_MAX_SIZE;
pub use types::{
    AddressFilter, CcaMode, CommandStrobe, FilterLength, Modulation, NumPreambleBytes, PacketLength,
    RadioMode, SyncMode, TargetAmplitude,
};
