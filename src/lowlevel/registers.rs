//! The chip's address map.

use vstd::prelude::*;

use crate::lowlevel::access::{Access, Mode};

pub mod command;
pub mod config;
pub mod multi_byte;
pub mod status;

pub use command::Command;
pub use config::Config;
pub use multi_byte::MultiByte;
pub use status::{Status, StatusByte};

verus! {

/// Any addressable entity of the chip.
#[derive(Clone, Copy, Debug, PartialEq, Eq, Structural)]
pub enum Register {
    Config(Config),
    Status(Status),
    Command(Command),
    MultiByte(MultiByte),
}

impl Register {
    pub open spec fn spec_code(&self) -> u8 {
        match self {
            Register::Config(r) => r.code(),
            Register::Status(r) => r.code(),
            Register::Command(r) => r.code(),
            Register::MultiByte(r) => r.code(),
        }
    }

    /// The 6-bit address.
    #[verifier::when_used_as_spec(spec_code)]
    pub fn code(&self) -> (r: u8)
        ensures
            r == self.spec_code(),
    {
        match self {
            Register::Config(r) => r.code(),
            Register::Status(r) => r.code(),
            Register::Command(r) => r.code(),
            Register::MultiByte(r) => r.code(),
        }
    }

    pub open spec fn spec_addr(&self, access: Access, mode: Mode) -> u8 {
        access.value() | mode.value() | self.code()
    }

    /// Address byte with the given direction and mode.
    #[verifier::when_used_as_spec(spec_addr)]
    pub fn addr(&self, access: Access, mode: Mode) -> (r: u8)
        ensures
            r == self.spec_addr(access, mode),
    {
        access.value() | mode.value() | self.code()
    }

    /// The mode actually put on the wire: a status register is only reached
    /// with the burst bit set (without it the address is a command strobe).
    pub open spec fn spec_wire_mode(&self, mode: Mode) -> Mode {
        match self {
            Register::Status(_) => Mode::Burst,
            _ => mode,
        }
    }

    pub open spec fn spec_raddr(&self, mode: Mode) -> u8 {
        self.addr(Access::Read, self.spec_wire_mode(mode))
    }

    /// Address byte that reads this register.
    #[verifier::when_used_as_spec(spec_raddr)]
    pub fn raddr(&self, mode: Mode) -> (r: u8)
        ensures
            r == self.spec_raddr(mode),
    {
        match self {
            Register::Status(_) => self.addr(Access::Read, Mode::Burst),
            _ => self.addr(Access::Read, mode),
        }
    }

    pub open spec fn spec_waddr(&self, mode: Mode) -> u8 {
        self.addr(Access::Write, self.spec_wire_mode(mode))
    }

    /// Address byte that writes this register.
    #[verifier::when_used_as_spec(spec_waddr)]
    pub fn waddr(&self, mode: Mode) -> (r: u8)
        ensures
            r == self.spec_waddr(mode),
    {
        match self {
            Register::Status(_) => self.addr(Access::Write, Mode::Burst),
            _ => self.addr(Access::Write, mode),
        }
    }
}

/// Every address byte holds the direction in bit 7 (1 for a read), the
/// mode in bit 6 (1 for a burst), and the entity's 6-bit address below them.
pub proof fn lemma_address_byte(reg: Register, access: Access, mode: Mode)
    ensures
        reg.code() < 64,
        reg.addr(access, mode) == ((if access == Access::Read { 1u8 } else { 0u8 }) << 7u8) | ((if mode
            == Mode::Burst { 1u8 } else { 0u8 }) << 6u8) | reg.code(),
{
    let c = reg.code();
    assert(c < 64);
    assert((1u8 << 7u8) == 0x80u8 && (0u8 << 7u8) == 0u8 && (1u8 << 6u8) == 0x40u8 && (0u8 << 6u8) == 0u8)
        by (bit_vector);
}

impl From<Config> for Register {
    fn from(r: Config) -> (out: Register) {
        Register::Config(r)
    }
}

impl vstd::std_specs::convert::FromSpecImpl<Config> for Register {
    open spec fn obeys_from_spec() -> bool {
        true
    }

    open spec fn from_spec(r: Config) -> Register {
        Register::Config(r)
    }
}

impl From<Status> for Register {
    fn from(r: Status) -> (out: Register) {
        Register::Status(r)
    }
}

impl vstd::std_specs::convert::FromSpecImpl<Status> for Register {
    open spec fn obeys_from_spec() -> bool {
        true
    }

    open spec fn from_spec(r: Status) -> Register {
        Register::Status(r)
    }
}

impl From<Command> for Register {
    fn from(r: Command) -> (out: Register) {
        Register::Command(r)
    }
}

impl vstd::std_specs::convert::FromSpecImpl<Command> for Register {
    open spec fn obeys_from_spec() -> bool {
        true
    }

    open spec fn from_spec(r: Command) -> Register {
        Register::Command(r)
    }
}

impl From<MultiByte> for Register {
    fn from(r: MultiByte) -> (out: Register) {
        Register::MultiByte(r)
    }
}

impl vstd::std_specs::convert::FromSpecImpl<MultiByte> for Register {
    open spec fn obeys_from_spec() -> bool {
        true
    }

    open spec fn from_spec(r: MultiByte) -> Register {
        Register::MultiByte(r)
    }
}

} // verus!
