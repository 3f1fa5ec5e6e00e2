//! Low level unrestricted access to the CC1101 radio chip.

use vstd::prelude::*;

use self::access::{Access, Mode};
use self::registers::{Command, MultiByte, Register, StatusByte};
use self::transport::{Exchange, Transport};

pub mod access;
pub mod convert;
pub mod field;
pub mod registers;
pub mod transport;
pub mod types;

verus! {

/// Crystal oscillator frequency (Hz), the reference clock of every conversion.
pub const FXOSC: u64 = 26_000_000;

/// Capacity of each of the chip's FIFOs, in bytes.
pub const FIFO_MAX_SIZE: u8 = 64;

/// Filler byte shifted out while the chip answers.
pub const BLANK_BYTE: u8 = 0;

/// Every exchange shifted out at least one byte and got as many back.
pub open spec fn exchange_wf(e: Exchange) -> bool {
    e.0.len() >= 1 && e.1.len() == e.0.len()
}

/// The status byte echoed by the last exchange of `wire`, if any.
pub open spec fn last_status(wire: Seq<Exchange>) -> Option<StatusByte> {
    if wire.len() == 0 {
        None
    } else {
        Some(StatusByte { bits: wire.last().1[0] })
    }
}

/// `after` is `before` with one more exchange, which shifted out `sent`.
pub open spec fn one_more(before: Seq<Exchange>, after: Seq<Exchange>, sent: Seq<u8>) -> bool {
    &&& after.len() == before.len() + 1
    &&& after.drop_last() == before
    &&& after.last().0 == sent
}

/// The byte read by a two-byte exchange.
pub open spec fn value_read(e: Exchange) -> u8 {
    e.1[1]
}

/// Reads `reg` (single access).
pub open spec fn read_frame(reg: Register) -> Seq<u8> {
    seq![reg.raddr(Mode::Single), BLANK_BYTE]
}

/// Writes `value` to `reg` (single access).
pub open spec fn write_frame(reg: Register, value: u8) -> Seq<u8> {
    seq![reg.waddr(Mode::Single), value]
}

/// Issues command strobe `cmd`.
pub open spec fn strobe_frame(cmd: Command) -> Seq<u8> {
    seq![cmd.addr(Access::Write, Mode::Single)]
}

/// Burst access to the FIFO, shifting out `data` after the address byte.
pub open spec fn fifo_frame(access: Access, data: Seq<u8>) -> Seq<u8> {
    seq![MultiByte::FIFO.addr(access, Mode::Burst)] + data
}

/// Failure of a low level FIFO access.
#[derive(Debug, PartialEq, Eq)]
pub enum Error<E> {
    /// A FIFO access longer than the FIFO; carries the requested length.
    UserInputError(usize),
    /// Failure of the transport.
    Transport(E),
}

/// Low level access to the chip: one bus transaction per register, strobe or
/// FIFO access, with the status byte of the last transaction kept.
pub struct Cc1101<T> {
    bus: T,
    status: Option<StatusByte>,
    /// Length of the transport's log when the driver was created.
    start: Ghost<nat>,
}

impl<T: Transport> Cc1101<T> {
    /// The transactions the transport has completed since the driver was
    /// created, oldest first.
    pub closed spec fn wire(&self) -> Seq<Exchange> {
        self.bus.log().skip(self.start@ as int)
    }

    /// Every failure the transport has reported, oldest first.
    pub closed spec fn failures(&self) -> Seq<T::Error> {
        self.bus.failures()
    }

    /// Every transaction shifted out at least one byte, and the kept status
    /// byte is the one the last transaction echoed.
    pub closed spec fn wf(&self) -> bool {
        &&& self.start@ <= self.bus.log().len()
        &&& forall|i: int| 0 <= i < self.wire().len() ==> exchange_wf(#[trigger] self.wire()[i])
        &&& self.status == last_status(self.wire())
    }

    /// Creates a driver over `bus`; no transaction is made.
    pub fn new(bus: T) -> (r: Result<Self, T::Error>)
        ensures
            r matches Ok(c) && c.wf() && c.wire().len() == 0,
    {
        let ghost start = bus.log().len();
        let c = Cc1101 { bus, status: None, start: Ghost(start) };
        assert(c.wire().len() == 0);
        Ok(c)
    }

    /// Gives the transport back.
    pub fn release(self) -> T {
        self.bus
    }

    /// Status byte echoed by the last transaction, if any.
    pub fn status(&self) -> (r: Option<StatusByte>)
        requires
            self.wf(),
        ensures
            r == last_status(self.wire()),
    {
        self.status
    }

    /// Runs one transaction and keeps its status byte.
    fn exchange(&mut self, frame: Vec<u8>) -> (r: Result<Vec<u8>, T::Error>)
        requires
            old(self).wf(),
            frame@.len() >= 1,
        ensures
            final(self).wf(),
            match r {
                Ok(reply) => final(self).wire() == old(self).wire().push((frame@, reply@))
                    && reply@.len() == frame@.len() && final(self).failures() == old(self).failures(),
                Err(e) => final(self).wire() == old(self).wire() && final(self).failures()
                    == old(self).failures().push(e),
            },
    {
        let ghost sent = frame@;
        let mut buf = frame;
        let res = self.bus.transfer(buf.as_mut_slice());
        match res {
            Ok(()) => {
                self.status = Some(StatusByte { bits: buf[0] });
                proof {
                    assert(self.wire() =~= old(self).wire().push((sent, buf@)));
                    assert forall|i: int| 0 <= i < self.wire().len() implies exchange_wf(
                        #[trigger] self.wire()[i],
                    ) by {
                        if i < self.wire().len() - 1 {
                            assert(self.wire()[i] == old(self).wire()[i]);
                        }
                    }
                }
                Ok(buf)
            },
            Err(e) => {
                proof {
                    assert(self.wire() =~= old(self).wire());
                }
                Err(e)
            },
        }
    }

    /// Reads one register.
    pub fn read_register(&mut self, reg: Register) -> (r: Result<u8, T::Error>)
        requires
            old(self).wf(),
        ensures
            final(self).wf(),
            match r {
                Ok(v) => one_more(old(self).wire(), final(self).wire(), read_frame(reg))
                    && v == value_read(final(self).wire().last()) && final(self).failures() == old(self).failures(),
                Err(e) => final(self).wire() == old(self).wire() && final(self).failures()
                    == old(self).failures().push(e),
            },
    {
        let frame = vec![reg.raddr(Mode::Single), BLANK_BYTE];
        let reply = self.exchange(frame)?;
        proof {
            assert(self.wire().drop_last() =~= old(self).wire());
        }
        Ok(reply[1])
    }

    /// Reads from or writes to the FIFO in one burst. Bytes read replace
    /// `data`; a write leaves `data` as it was. A burst longer than the FIFO
    /// is refused before any transaction, since the chip does not split it.
    pub fn access_fifo(&mut self, access: Access, data: &mut [u8]) -> (r: Result<(), Error<T::Error>>)
        requires
            old(self).wf(),
        ensures
            final(self).wf(),
            final(data)@.len() == old(data)@.len(),
            r matches Err(Error::UserInputError(n)) <==> old(data)@.len() > FIFO_MAX_SIZE,
            match r {
                Ok(()) => {
                    &&& one_more(old(self).wire(), final(self).wire(), fifo_frame(access, old(data)@))
                    &&& final(self).failures() == old(self).failures()
                    &&& final(data)@ == if access == Access::Read {
                        final(self).wire().last().1.skip(1)
                    } else {
                        old(data)@
                    }
                },
                Err(Error::UserInputError(n)) => {
                    &&& n == old(data)@.len()
                    &&& final(self).wire() == old(self).wire()
                    &&& final(self).failures() == old(self).failures()
                    &&& final(data)@ == old(data)@
                },
                Err(Error::Transport(e)) => {
                    &&& final(self).wire() == old(self).wire()
                    &&& final(self).failures() == old(self).failures().push(e)
                    &&& final(data)@ == old(data)@
                },
            },
    {
        if data.len() > FIFO_MAX_SIZE as usize {
            return Err(Error::UserInputError(data.len()));
        }
        let mut frame: Vec<u8> = Vec::new();
        frame.push(MultiByte::FIFO.addr(access, Mode::Burst));
        let mut i: usize = 0;
        while i < data.len()
            invariant
                i <= data@.len(),
                frame@ == seq![MultiByte::FIFO.addr(access, Mode::Burst)] + data@.subrange(0, i as int),
            decreases data@.len() - i,
        {
            frame.push(data[i]);
            i = i + 1;
        }
        assert(data@.subrange(0, data@.len() as int) == data@);
        let reply = match self.exchange(frame) {
            Ok(reply) => reply,
            Err(e) => {
                return Err(Error::Transport(e));
            },
        };
        proof {
            assert(self.wire().drop_last() =~= old(self).wire());
        }
        if access == Access::Read {
            let n = data.len();
            let mut j: usize = 0;
            while j < n
                invariant
                    n == data@.len(),
                    reply@.len() == n + 1,
                    j <= n,
                    forall|k: int| 0 <= k < j ==> data@[k] == reply@[k + 1],
                decreases n - j,
            {
                data[j] = reply[j + 1];
                j = j + 1;
            }
            assert(data@ == reply@.skip(1));
        }
        Ok(())
    }

    /// Issues a command strobe.
    pub fn write_cmd_strobe(&mut self, cmd: Command) -> (r: Result<(), T::Error>)
        requires
            old(self).wf(),
        ensures
            final(self).wf(),
            match r {
                Ok(()) => one_more(old(self).wire(), final(self).wire(), strobe_frame(cmd))
                    && final(self).failures() == old(self).failures(),
                Err(e) => final(self).wire() == old(self).wire() && final(self).failures()
                    == old(self).failures().push(e),
            },
    {
        let frame = vec![cmd.addr(Access::Write, Mode::Single)];
        assert(frame@ =~= strobe_frame(cmd));
        self.exchange(frame)?;
        proof {
            assert(self.wire().drop_last() =~= old(self).wire());
        }
        Ok(())
    }

    /// Writes one register.
    pub fn write_register(&mut self, reg: Register, byte: u8) -> (r: Result<(), T::Error>)
        requires
            old(self).wf(),
        ensures
            final(self).wf(),
            match r {
                Ok(()) => one_more(old(self).wire(), final(self).wire(), write_frame(reg, byte))
                    && final(self).failures() == old(self).failures(),
                Err(e) => final(self).wire() == old(self).wire() && final(self).failures()
                    == old(self).failures().push(e),
            },
    {
        let frame = vec![reg.waddr(Mode::Single), byte];
        self.exchange(frame)?;
        proof {
            assert(self.wire().drop_last() =~= old(self).wire());
        }
        Ok(())
    }

    /// Reads `reg`, then writes back `f` of the value read.
    pub fn modify_register<F: FnOnce(u8) -> u8>(&mut self, reg: Register, f: F) -> (r: Result<(), T::Error>)
        requires
            old(self).wf(),
            forall|v: u8| f.requires((v,)),
        ensures
            final(self).wf(),
            old(self).wire().is_prefix_of(final(self).wire()),
            final(self).wire().len() <= old(self).wire().len() + 2,
            final(self).wire().len() > old(self).wire().len() ==> final(self).wire()[old(self).wire().len() as int].0
                == read_frame(reg),
            final(self).wire().len() == old(self).wire().len() + 2 ==> {
                &&& final(self).wire().last().0[0] == reg.waddr(Mode::Single)
                &&& final(self).wire().last().0.len() == 2
                &&& f.ensures(
                    (value_read(final(self).wire()[old(self).wire().len() as int]),),
                    final(self).wire().last().0[1],
                )
            },
            r is Ok <==> final(self).wire().len() == old(self).wire().len() + 2,
            match r {
                Ok(()) => final(self).failures() == old(self).failures(),
                Err(e) => final(self).failures() == old(self).failures().push(e),
            },
    {
        let v = self.read_register(reg)?;
        let ghost mid = self.wire();
        let w = f(v);
        let res = self.write_register(reg, w);
        proof {
            assert(old(self).wire().is_prefix_of(mid));
            if res is Ok {
                assert(self.wire().drop_last() =~= mid);
                assert(self.wire()[old(self).wire().len() as int] == mid.last());
            }
        }
        res
    }
}

} // verus!
