use cc1101::lowlevel::access::{Access, Mode};
use cc1101::lowlevel::field::Field;
use cc1101::lowlevel::registers::{Command, Config, MultiByte, Register, Status};
use cc1101::{MachineState, MachineStateError};

#[test]
fn address_bytes() {
    assert_eq!(Config::IOCFG2.addr(Access::Write, Mode::Single), 0x00);
    assert_eq!(Config::FREQ2.addr(Access::Read, Mode::Single), 0x8D);
    assert_eq!(Config::FREQ2.addr(Access::Read, Mode::Burst), 0xCD);
    assert_eq!(Config::TEST0.addr(Access::Write, Mode::Burst), 0x6E);
    assert_eq!(Status::MARCSTATE.addr(Access::Read, Mode::Burst), 0xF5);
    assert_eq!(Command::SRES.addr(Access::Write, Mode::Single), 0x30);
    assert_eq!(Command::SNOP.addr(Access::Read, Mode::Single), 0xBD);
    assert_eq!(MultiByte::FIFO.addr(Access::Read, Mode::Burst), 0xFF);
    assert_eq!(MultiByte::FIFO.addr(Access::Write, Mode::Burst), 0x7F);
    assert_eq!(MultiByte::PATABLE.addr(Access::Write, Mode::Burst), 0x7E);
}

#[test]
fn address_byte_formula_for_every_access() {
    let regs = [
        Register::Config(Config::IOCFG2),
        Register::Config(Config::MDMCFG4),
        Register::Config(Config::TEST0),
        Register::Status(Status::PARTNUM),
        Register::Status(Status::RCCTRL0_STATUS),
        Register::Command(Command::SRES),
        Register::Command(Command::SNOP),
        Register::MultiByte(MultiByte::PATABLE),
        Register::MultiByte(MultiByte::FIFO),
    ];
    for reg in regs {
        for (access, dir) in [(Access::Read, 1u8), (Access::Write, 0u8)] {
            for (mode, burst) in [(Mode::Single, 0u8), (Mode::Burst, 1u8)] {
                assert_eq!(reg.addr(access, mode), (dir << 7) | (burst << 6) | reg.code());
            }
        }
    }
}

#[test]
fn status_registers_are_read_in_burst_mode() {
    assert_eq!(Register::Status(Status::MARCSTATE).raddr(Mode::Single), 0xF5);
    assert_eq!(Register::Status(Status::RXBYTES).raddr(Mode::Single), 0xFB);
    assert_eq!(Register::Config(Config::PKTLEN).raddr(Mode::Single), 0x86);
    assert_eq!(Register::Config(Config::PKTLEN).waddr(Mode::Single), 0x06);
}

#[test]
fn reset_values() {
    assert_eq!(Config::SYNC1.reset_value(), 0xD3);
    assert_eq!(Config::SYNC0.reset_value(), 0x91);
    assert_eq!(Config::MDMCFG4.reset_value(), 0x8C);
    assert_eq!(Config::DEVIATN.reset_value(), 0x47);
}

#[test]
fn fields_get_and_set() {
    assert_eq!(Field::DrateE.get(0x8C), 0x0C);
    assert_eq!(Field::ChanbwE.get(0x8C), 2);
    assert_eq!(Field::ChanbwM.get(0x8C), 0);
    assert_eq!(Field::DrateE.set(0x8C, 0x0A), 0x8A);
    assert_eq!(Field::ChanbwM.set(0x8C, 3), 0xBC);
    assert_eq!(Field::WhiteData.set(0x45, 0), 0x05);
    assert_eq!(Field::MagnTarget.set(0xFF, 0), 0xF8);
    assert_eq!(Field::MagnTarget.set(0x00, 0xFF), 0x07);
    assert_eq!(Field::MarcState.get(0xE1), 0x01);
}

#[test]
fn machine_state_codes() {
    for code in 0u8..23 {
        let state = MachineState::from_value(code).unwrap();
        assert_eq!(state.value(), code);
    }
    assert_eq!(MachineState::from_value(0x01), Ok(MachineState::IDLE));
    assert_eq!(MachineState::from_value(0x16), Ok(MachineState::TXFIFO_UNDERFLOW));
}

#[test]
fn unknown_machine_state_code() {
    assert_eq!(MachineState::from_value(0x1F), Err(MachineStateError::InvalidState(0x1F)));
    assert_eq!(MachineState::from_value(23), Err(MachineStateError::InvalidState(23)));
}
