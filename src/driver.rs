//! High level interface to the CC1101 radio chip.
//!
//! Every operation is a short series of bus transactions. The driver keeps a
//! ghost log of all of them, and each contract states which frames an
//! operation shifts out, as a function of what the chip answered before.

use vstd::prelude::*;

use crate::lowlevel::access::Access;
use crate::lowlevel::convert::{
    freq_if_value, from_chanbw, from_deviation, from_drate, from_freq_if, from_frequency,
    from_rssi_to_rssi_dbm, frequency_word, rssi_dbm, smallest_reaching, word_bytes,
};
use crate::lowlevel::field::Field;
use crate::lowlevel::registers::{Command, Config, Register, Status, StatusByte};
use crate::lowlevel::transport::{Exchange, Transport};
use crate::lowlevel::types::{
    AddressCheck, AutoCalibration, CcaModeConfig, LengthConfig, MachineState, MachineStateError,
    ModFormat, NumPreamble, SyncCheck, NUM_MACHINE_STATES,
};
use crate::lowlevel::{
    self, fifo_frame, last_status, one_more, read_frame, strobe_frame, value_read, write_frame,
    FIFO_MAX_SIZE,
};
use crate::types::{
    AddressFilter, CcaMode, CommandStrobe, FilterLength, Modulation, NumPreambleBytes, PacketLength,
    RadioMode, SyncMode, TargetAmplitude,
};

verus! {

/// CC1101 errors.
#[derive(Debug, PartialEq, Eq)]
pub enum Error<E> {
    /// The TX FIFO buffer underflowed, too large packet for configured packet length.
    TxUnderflow,
    /// The RX FIFO buffer overflowed, too small buffer for configured packet length.
    RxOverflow,
    /// Corrupt packet received with invalid CRC.
    CrcMismatch,
    /// Invalid state read from the MARCSTATE register.
    InvalidState(u8),
    /// A FIFO access longer than the FIFO; carries the requested length.
    UserInputError(usize),
    /// A wait for the chip used up its poll budget.
    Timeout,
    /// Failure of the transport.
    Transport(E),
}

impl<E> From<E> for Error<E> {
    fn from(e: E) -> (r: Error<E>) {
        Error::Transport(e)
    }
}

impl<E> vstd::std_specs::convert::FromSpecImpl<E> for Error<E> {
    open spec fn obeys_from_spec() -> bool {
        true
    }

    open spec fn from_spec(e: E) -> Error<E> {
        Error::Transport(e)
    }
}

/// A transport failure becomes `Error::Transport`.
fn lift<V, E>(r: Result<V, E>) -> (out: Result<V, Error<E>>)
    ensures
        match r {
            Ok(v) => out == Ok::<V, Error<E>>(v),
            Err(e) => out == Err::<V, Error<E>>(Error::Transport(e)),
        },
{
    match r {
        Ok(v) => Ok(v),
        Err(e) => Err(Error::Transport(e)),
    }
}

/// The exchanges that `after` holds beyond its prefix `before`.
pub open spec fn added(before: Seq<Exchange>, after: Seq<Exchange>) -> Seq<Exchange> {
    after.skip(before.len() as int)
}

/// `t` shifted out `frames` in order: all of them when `complete`, a proper
/// prefix of them otherwise.
pub open spec fn sends(t: Seq<Exchange>, frames: Seq<Seq<u8>>, complete: bool) -> bool {
    &&& if complete {
        t.len() == frames.len()
    } else {
        t.len() < frames.len()
    }
    &&& forall|i: int| 0 <= i < t.len() ==> #[trigger] t[i].0 == frames[i]
}

/// Only the transport can make an operation of fixed frames fail.
pub open spec fn transport_only<V, E>(r: Result<V, Error<E>>) -> bool {
    r is Ok || failed_transport(r)
}

/// The transport failed.
pub open spec fn failed_transport<V, E>(r: Result<V, Error<E>>) -> bool {
    r matches Err(Error::Transport(_))
}

/// The byte read by exchange `i` of `t`.
pub open spec fn read_at(t: Seq<Exchange>, i: int) -> u8 {
    value_read(t[i])
}

pub open spec fn config_read(reg: Config) -> Seq<u8> {
    read_frame(Register::Config(reg))
}

pub open spec fn config_write(reg: Config, value: u8) -> Seq<u8> {
    write_frame(Register::Config(reg), value)
}

pub open spec fn status_read(reg: Status) -> Seq<u8> {
    read_frame(Register::Status(reg))
}

/// Frames that set `field` of `reg` to `value`, keeping the other bits of
/// the value `read` back first.
pub open spec fn field_update(reg: Config, field: Field, value: u8, read: u8) -> Seq<Seq<u8>> {
    seq![config_read(reg), config_write(reg, field.set(read, value))]
}

/// Frames that write each register of `writes` in turn.
pub open spec fn write_frames(writes: Seq<(Config, u8)>) -> Seq<Seq<u8>> {
    writes.map_values(|w: (Config, u8)| config_write(w.0, w.1))
}

/// The strobe that each command of the high level interface issues.
pub open spec fn strobe_of(cmd: CommandStrobe) -> Command {
    match cmd {
        CommandStrobe::ResetChip => Command::SRES,
        CommandStrobe::EnableAndCalFreqSynth => Command::SFSTXON,
        CommandStrobe::TurnOffXosc => Command::SXOFF,
        CommandStrobe::CalFreqSynthAndTurnOff => Command::SCAL,
        CommandStrobe::EnableRx => Command::SRX,
        CommandStrobe::EnableTx => Command::STX,
        CommandStrobe::ExitRxTx => Command::SIDLE,
        CommandStrobe::StartWakeOnRadio => Command::SWOR,
        CommandStrobe::EnterPowerDownMode => Command::SPWD,
        CommandStrobe::FlushRxFifoBuffer => Command::SFRX,
        CommandStrobe::FlushTxFifoBuffer => Command::SFTX,
        CommandStrobe::ResetRtcToEvent1 => Command::SWORRST,
        CommandStrobe::NoOperation => Command::SNOP,
    }
}

pub open spec fn cca_config_of(mode: CcaMode) -> CcaModeConfig {
    match mode {
        CcaMode::AlwaysClear => CcaModeConfig::ALWAYS,
        CcaMode::ClearBelowThreshold => CcaModeConfig::RSSI_BELOW_THR,
        CcaMode::ClearWhenReceivingPacket => CcaModeConfig::RCV_PACKET,
        CcaMode::ClearBelowThresholdUnlessReceivingPacket => CcaModeConfig::RSSI_BELOW_THR_UNLESS_RCV_PACKET,
    }
}

pub open spec fn preamble_of(n: NumPreambleBytes) -> NumPreamble {
    match n {
        NumPreambleBytes::Two => NumPreamble::N_2,
        NumPreambleBytes::Three => NumPreamble::N_3,
        NumPreambleBytes::Four => NumPreamble::N_4,
        NumPreambleBytes::Six => NumPreamble::N_6,
        NumPreambleBytes::Eight => NumPreamble::N_8,
        NumPreambleBytes::Twelve => NumPreamble::N_12,
        NumPreambleBytes::Sixteen => NumPreamble::N_16,
        NumPreambleBytes::TwentyFour => NumPreamble::N_24,
    }
}

pub open spec fn format_of(m: Modulation) -> ModFormat {
    match m {
        Modulation::BinaryFrequencyShiftKeying => ModFormat::MOD_2FSK,
        Modulation::GaussianFrequencyShiftKeying => ModFormat::MOD_GFSK,
        Modulation::OnOffKeying => ModFormat::MOD_ASK_OOK,
        Modulation::FourFrequencyShiftKeying => ModFormat::MOD_4FSK,
        Modulation::MinimumShiftKeying => ModFormat::MOD_MSK,
    }
}

/// The sync word reset value, SYNC1:SYNC0.
pub open spec fn reset_sync_word() -> u16 {
    ((Config::SYNC1.reset_value() as u16) << 8u16 | Config::SYNC0.reset_value() as u16) as u16
}

/// Sync check mode and sync word that a sync mode selects.
pub open spec fn sync_of(mode: SyncMode) -> (SyncCheck, u16) {
    match mode {
        SyncMode::Disabled => (SyncCheck::DISABLED, reset_sync_word()),
        SyncMode::MatchPartial(word) => (SyncCheck::CHECK_15_16, word),
        SyncMode::MatchPartialRepeated(word) => (SyncCheck::CHECK_30_32, word),
        SyncMode::MatchFull(word) => (SyncCheck::CHECK_16_16, word),
    }
}

/// Address check mode and device address that an address filter selects.
pub open spec fn address_of(filter: AddressFilter) -> (AddressCheck, u8) {
    match filter {
        AddressFilter::Disabled => (AddressCheck::DISABLED, Config::ADDR.reset_value()),
        AddressFilter::Device(a) => (AddressCheck::SELF, a),
        AddressFilter::DeviceLowBroadcast(a) => (AddressCheck::SELF_LOW_BROADCAST, a),
        AddressFilter::DeviceHighLowBroadcast(a) => (AddressCheck::SELF_HIGH_LOW_BROADCAST, a),
    }
}

/// Length mode and PKTLEN value that a packet length selects.
pub open spec fn length_of(length: PacketLength) -> (LengthConfig, u8) {
    match length {
        PacketLength::Fixed(limit) => (LengthConfig::FIXED, limit),
        PacketLength::Variable(max) => (LengthConfig::VARIABLE, max),
        PacketLength::Infinite => (LengthConfig::INFINITE, Config::PKTLEN.reset_value()),
    }
}

/// The DEVIATN value for `(m, e)` on top of the reset value.
pub open spec fn deviatn_value(m: u8, e: u8) -> u8 {
    Field::DeviationE.set(Field::DeviationM.set(Config::DEVIATN.reset_value(), m), e)
}

/// Frames that configure the frequency deviation `(m, e)`.
pub open spec fn deviation_frames(m: u8, e: u8) -> Seq<Seq<u8>> {
    seq![config_write(Config::DEVIATN, deviatn_value(m, e))]
}

/// `(m, e)` is the deviation encoding chosen for `deviation` Hz.
pub open spec fn deviation_choice(deviation: u64, m: u8, e: u8) -> bool {
    smallest_reaching(deviation * vstd::arithmetic::power2::pow2(17), 8, 7, m as int, e as nat)
}

/// `(m, e)` is the data rate encoding chosen for `baud`.
pub open spec fn drate_choice(baud: u64, m: u8, e: u8) -> bool {
    e < 16 && smallest_reaching(baud * vstd::arithmetic::power2::pow2(28), 256, 15, m as int, e as nat)
}

/// Frames that configure the data rate `(m, e)`, MDMCFG4 having read `read`.
pub open spec fn drate_frames(m: u8, e: u8, read: u8) -> Seq<Seq<u8>> {
    field_update(Config::MDMCFG4, Field::DrateE, e, read) + seq![
        config_write(Config::MDMCFG3, Field::DrateM.set(Config::MDMCFG3.reset_value(), m)),
    ]
}

/// `(m, e)` is the channel bandwidth encoding chosen for `bandwidth` Hz.
pub open spec fn chanbw_choice(bandwidth: u64, m: u8, e: u8) -> bool {
    &&& m < 4
    &&& e < 4
    &&& if crate::lowlevel::convert::chanbw_covers(bandwidth as int, 0, 0) {
        &&& crate::lowlevel::convert::chanbw_covers(bandwidth as int, m as int, e as nat)
        &&& forall|m2: int, e2: nat|
            0 <= m2 < 4 && e2 < 4 && #[trigger] crate::lowlevel::convert::chanbw_covers(
                bandwidth as int,
                m2,
                e2,
            ) ==> crate::lowlevel::convert::chanbw_divisor(m2, e2)
                <= crate::lowlevel::convert::chanbw_divisor(m as int, e as nat)
    } else {
        m == 0 && e == 0
    }
}

/// Frames that configure the channel bandwidth `(m, e)`, MDMCFG4 having read `read`.
pub open spec fn chanbw_frames(m: u8, e: u8, read: u8) -> Seq<Seq<u8>> {
    seq![
        config_read(Config::MDMCFG4),
        config_write(Config::MDMCFG4, Field::ChanbwE.set(Field::ChanbwM.set(read, m), e)),
    ]
}

/// Frames of `set_defaults`.
pub open spec fn default_frames() -> Seq<Seq<u8>> {
    seq![strobe_frame(Command::SRES)] + write_frames(
        seq![
            (Config::PKTCTRL0, Field::WhiteData.set(Config::PKTCTRL0.reset_value(), 0)),
            (Config::FSCTRL1, Field::FreqIf.set(Config::FSCTRL1.reset_value(), 0x08)),
            (Config::MDMCFG2, Field::DemDcfiltOff.set(Config::MDMCFG2.reset_value(), 1)),
            (Config::MCSM0, Field::FsAutocal.set(Config::MCSM0.reset_value(), AutoCalibration::FromIdle.value())),
            (Config::AGCCTRL2, Field::MaxLnaGain.set(Config::AGCCTRL2.reset_value(), 0x04)),
        ],
    )
}

/// The FIFO byte count a TXBYTES or RXBYTES read reports.
pub open spec fn fifo_count(e: Exchange) -> u8 {
    Field::NumBytes.get(value_read(e))
}

/// A TXBYTES or RXBYTES read reports underflow or overflow.
pub open spec fn fifo_flagged(e: Exchange) -> bool {
    Field::FifoError.get(value_read(e)) != 0
}

/// The outcome of a TXBYTES or RXBYTES read: the count, or `fault` if flagged.
pub open spec fn fifo_outcome<E>(e: Exchange, fault: Error<E>) -> Result<u8, Error<E>> {
    if fifo_flagged(e) {
        Err(fault)
    } else {
        Ok(fifo_count(e))
    }
}

/// The code a MARCSTATE read reports.
pub open spec fn state_code(e: Exchange) -> u8 {
    Field::MarcState.get(value_read(e))
}

/// The outcome of a MARCSTATE read.
pub open spec fn state_outcome<E>(e: Exchange) -> Result<MachineState, Error<E>> {
    match MachineState::spec_from_value(state_code(e)) {
        Ok(s) => Ok(s),
        Err(MachineStateError::InvalidState(c)) => Err(Error::InvalidState(c)),
    }
}

/// An operation that makes one transaction and decodes its reply.
pub open spec fn one_read<V, E>(t: Seq<Exchange>, frame: Seq<u8>, r: Result<V, Error<E>>, outcome: Result<V, Error<E>>) -> bool {
    &&& sends(t, seq![frame], !(failed_transport(r)))
    &&& t.len() == 1 ==> r == outcome
}

/// A MARCSTATE read names a valid state other than `a` and `b`.
pub open spec fn passes(e: Exchange, a: MachineState, b: MachineState) -> bool {
    MachineState::spec_from_value(state_code(e)) matches Ok(s) && s != a && s != b
}

/// `t` polls the machine state, at most `limit` times, until it reads `a`
/// or `b`; `r` is the outcome of the wait.
pub open spec fn awaits<E>(
    t: Seq<Exchange>,
    a: MachineState,
    b: MachineState,
    limit: nat,
    r: Result<MachineState, Error<E>>,
) -> bool {
    &&& t.len() <= limit
    &&& forall|i: int| 0 <= i < t.len() ==> #[trigger] t[i].0 == status_read(Status::MARCSTATE)
    &&& forall|i: int| 0 <= i < t.len() - 1 ==> passes(#[trigger] t[i], a, b)
    &&& match r {
        Ok(s) => t.len() >= 1 && state_outcome::<E>(t.last()) == Ok::<MachineState, Error<E>>(s) && (s == a
            || s == b),
        Err(Error::InvalidState(c)) => t.len() >= 1 && state_outcome::<E>(t.last()) == Err::<
            MachineState,
            Error<E>,
        >(Error::InvalidState(c)),
        Err(Error::Timeout) => t.len() == limit && (t.len() == 0 || passes(t.last(), a, b)),
        Err(Error::Transport(_)) => t.len() < limit && (t.len() == 0 || passes(t.last(), a, b)),
        _ => false,
    }
}

/// The outcome of a wait for `s` alone, given the outcome of an operation
/// that returns nothing.
pub open spec fn reached<E>(r: Result<(), Error<E>>, s: MachineState) -> Result<MachineState, Error<E>> {
    match r {
        Ok(()) => Ok(s),
        Err(e) => Err(e),
    }
}

/// `t` issues strobe `cmd`, then waits for machine state `s`.
pub open spec fn switches<E>(
    t: Seq<Exchange>,
    cmd: Command,
    s: MachineState,
    limit: nat,
    r: Result<(), Error<E>>,
) -> bool {
    ||| t.len() == 0 && failed_transport(r)
    ||| t.len() >= 1 && t[0].0 == strobe_frame(cmd) && awaits(t.skip(1), s, s, limit, reached(r, s))
}

/// Strobe and machine state of each mode other than idle.
pub open spec fn mode_target(mode: RadioMode) -> (Command, MachineState) {
    match mode {
        RadioMode::Idle => (Command::SIDLE, MachineState::IDLE),
        RadioMode::Sleep => (Command::SPWD, MachineState::SLEEP),
        RadioMode::Calibrate => (Command::SCAL, MachineState::MANCAL),
        RadioMode::Transmit => (Command::STX, MachineState::TX),
        RadioMode::Receive => (Command::SRX, MachineState::RX),
    }
}

/// `t` puts the radio in `mode`: through idle first, unless `mode` is idle.
pub open spec fn enters<E>(t: Seq<Exchange>, mode: RadioMode, limit: nat, r: Result<(), Error<E>>) -> bool {
    if mode == RadioMode::Idle {
        switches(t, Command::SIDLE, MachineState::IDLE, limit, r)
    } else {
        ||| switches(t, Command::SIDLE, MachineState::IDLE, limit, r) && r is Err
        ||| exists|k: int|
            0 <= k <= t.len() && #[trigger] switches(
                t.take(k),
                Command::SIDLE,
                MachineState::IDLE,
                limit,
                Ok::<(), Error<E>>(()),
            ) && switches(t.skip(k), mode_target(mode).0, mode_target(mode).1, limit, r)
    }
}

/// Read `i` of `t` reports a nonzero FIFO count equal to the one read
/// before it (zero before the first read).
pub open spec fn settled(t: Seq<Exchange>, i: int) -> bool {
    &&& fifo_count(t[i]) > 0
    &&& fifo_count(t[i]) == if i == 0 {
        0u8
    } else {
        fifo_count(t[i - 1])
    }
}

/// After read `i` of `t` the wait for a settled RX FIFO goes on.
pub open spec fn keeps_polling(t: Seq<Exchange>, i: int) -> bool {
    !fifo_flagged(t[i]) && !settled(t, i)
}

/// `t` polls the RX FIFO count, at most `limit` times, until two reads in
/// a row give the same nonzero count or the overflow flag shows; `r` is the
/// outcome.
pub open spec fn rx_waits<E>(t: Seq<Exchange>, limit: nat, r: Result<u8, Error<E>>) -> bool {
    &&& t.len() <= limit
    &&& forall|i: int| 0 <= i < t.len() ==> #[trigger] t[i].0 == status_read(Status::RXBYTES)
    &&& forall|i: int| 0 <= i < t.len() - 1 ==> #[trigger] keeps_polling(t, i)
    &&& match r {
        Ok(n) => t.len() >= 1 && !fifo_flagged(t.last()) && settled(t, t.len() - 1) && n == fifo_count(
            t.last(),
        ),
        Err(Error::RxOverflow) => t.len() >= 1 && fifo_flagged(t.last()),
        Err(Error::Timeout) => t.len() == limit && (t.len() == 0 || keeps_polling(t, t.len() - 1)),
        Err(Error::Transport(_)) => t.len() < limit && (t.len() == 0 || keeps_polling(t, t.len() - 1)),
        _ => false,
    }
}

/// The outcome of a received packet of length `length` whose LQI read gave `lqi`:
/// a set CRC flag means the CRC did not match.
pub open spec fn crc_outcome<E>(lqi: u8, length: u8) -> Result<u8, Error<E>> {
    if Field::CrcFlag.get(lqi) != 0 {
        Err(Error::CrcMismatch)
    } else {
        Ok(length)
    }
}

/// The outcome of a received packet of length `length` whose LQI read gave
/// `lqi`, the wait for idle that followed having ended with `w`.
pub open spec fn rx_outcome<E>(lqi: u8, length: u8, w: Result<(), Error<E>>) -> Result<u8, Error<E>> {
    match w {
        Ok(()) => crc_outcome(lqi, length),
        Err(e) => Err(e),
    }
}

/// `s` is a flush of the RX FIFO, after which the operation gives `outcome`.
pub open spec fn flushes_rx<E>(s: Seq<Exchange>, r: Result<u8, Error<E>>, outcome: Result<u8, Error<E>>) -> bool {
    &&& sends(s, seq![strobe_frame(Command::SFRX)], !failed_transport(r))
    &&& (failed_transport(r) || r == outcome)
}

/// `s` reads LQI, waits for idle, then flushes the RX FIFO unless the
/// transport failed.
pub open spec fn finishes_rx<E>(s: Seq<Exchange>, limit: nat, r: Result<u8, Error<E>>, length: u8) -> bool {
    ||| s.len() == 0 && failed_transport(r)
    ||| s.len() >= 1 && s[0].0 == status_read(Status::LQI) && exists|j: int, w: Result<(), Error<E>>|
        0 <= j <= s.len() - 1 && #[trigger] awaits(
            s.subrange(1, 1 + j),
            MachineState::IDLE,
            MachineState::IDLE,
            limit,
            reached(w, MachineState::IDLE),
        ) && if failed_transport(w) {
            s.len() == 1 + j && r == Err::<u8, Error<E>>(w->Err_0)
        } else {
            flushes_rx(s.skip(1 + j), r, rx_outcome(value_read(s[0]), length, w))
        }
}

/// `t` receives one packet into a buffer that held `data`: it waits for the
/// RX FIFO to settle, reads the FIFO, then finishes; after an overflow or a
/// wait that timed out it flushes the RX FIFO instead. `data_after` and
/// `addr_after` are the buffer and the address afterwards.
pub open spec fn receives<E>(
    t: Seq<Exchange>,
    data: Seq<u8>,
    limit: nat,
    r: Result<u8, Error<E>>,
    data_after: Seq<u8>,
    addr_before: u8,
    addr_after: u8,
) -> bool {
    exists|k: int, w: Result<u8, Error<E>>|
        0 <= k <= t.len() && #[trigger] rx_waits(t.take(k), limit, w) && match w {
            Ok(_) => {
                ||| t.len() == k && failed_transport(r) && data_after == data && addr_after == addr_before
                ||| {
                    &&& t.len() > k
                    &&& t[k].0 == fifo_frame(Access::Read, data)
                    &&& data_after == t[k].1.skip(1)
                    &&& addr_after == data_after[1]
                    &&& finishes_rx(t.skip(k + 1), limit, r, data_after[0])
                }
            },
            Err(e) => {
                &&& data_after == data && addr_after == addr_before
                &&& if failed_transport(w) {
                    t.len() == k && r == Err::<u8, Error<E>>(e)
                } else {
                    flushes_rx(t.skip(k), r, Err(e))
                }
            },
        }
}

/// The outcome of a transmission whose TXBYTES read was `e`, the wait for
/// the end of transmission having ended with `w`: an underflow flag wins.
pub open spec fn tx_outcome<E>(e: Exchange, w: Result<MachineState, Error<E>>) -> Result<(), Error<E>> {
    if fifo_flagged(e) {
        Err(Error::TxUnderflow)
    } else {
        match w {
            Ok(_) => Ok(()),
            Err(x) => Err(x),
        }
    }
}

/// `s` reads the TX FIFO count, then flushes the TX FIFO.
pub open spec fn flushes_tx<E>(s: Seq<Exchange>, r: Result<(), Error<E>>, w: Result<MachineState, Error<E>>) -> bool {
    &&& sends(s, seq![status_read(Status::TXBYTES), strobe_frame(Command::SFTX)], !failed_transport(r))
    &&& (failed_transport(r) || r == tx_outcome(s[0], w))
}

/// `s` starts transmission, waits for idle or TX underflow, then, unless
/// the transport failed, reads the TX FIFO count and flushes the TX FIFO.
pub open spec fn sends_out<E>(s: Seq<Exchange>, limit: nat, r: Result<(), Error<E>>) -> bool {
    ||| s.len() == 0 && failed_transport(r)
    ||| s.len() >= 1 && s[0].0 == strobe_frame(Command::STX) && exists|j: int, w: Result<MachineState, Error<E>>|
        0 <= j <= s.len() - 1 && #[trigger] awaits(
            s.subrange(1, 1 + j),
            MachineState::IDLE,
            MachineState::TXFIFO_UNDERFLOW,
            limit,
            w,
        ) && if failed_transport(w) {
            s.len() == 1 + j && r == Err::<(), Error<E>>(w->Err_0)
        } else {
            flushes_tx(s.skip(1 + j), r, w)
        }
}

/// `t` transmits `packet`: writes it to the TX FIFO, then sends it out.
pub open spec fn transmits<E>(t: Seq<Exchange>, packet: Seq<u8>, limit: nat, r: Result<(), Error<E>>) -> bool {
    ||| t.len() == 0 && failed_transport(r)
    ||| t.len() >= 1 && t[0].0 == fifo_frame(Access::Write, packet) && sends_out(t.skip(1), limit, r)
}

/// High level API for interacting with the CC1101 radio chip.
pub struct Cc1101<T> {
    radio: lowlevel::Cc1101<T>,
    poll_limit: u32,
}

impl<T: Transport> Cc1101<T> {
    /// Every bus transaction completed so far, oldest first.
    pub closed spec fn wire(&self) -> Seq<Exchange> {
        self.radio.wire()
    }

    /// The kept status byte is the one the last transaction echoed.
    pub closed spec fn wf(&self) -> bool {
        self.radio.wf()
    }

    /// Most reads of the chip that one wait makes.
    pub closed spec fn limit(&self) -> nat {
        self.poll_limit as nat
    }

    /// `after` comes from `before` by further transactions.
    pub open spec fn follows(before: &Self, after: &Self) -> bool {
        &&& after.wf()
        &&& before.wire().is_prefix_of(after.wire())
        &&& before.failures().is_prefix_of(after.failures())
        &&& after.limit() == before.limit()
    }

    /// Every failure the transport has reported, oldest first.
    pub closed spec fn failures(&self) -> Seq<T::Error> {
        self.radio.failures()
    }

    /// A transport error that `r` returns is the last failure the transport
    /// reported, during the call, passed on as it came.
    pub open spec fn passes_on<V>(before: &Self, after: &Self, r: Result<V, Error<T::Error>>) -> bool {
        match r {
            Err(Error::Transport(e)) => {
                &&& after.failures().len() > before.failures().len()
                &&& e == after.failures().last()
            },
            _ => true,
        }
    }

    /// The transactions between `before` and `after`.
    pub open spec fn since(before: &Self, after: &Self) -> Seq<Exchange> {
        added(before.wire(), after.wire())
    }

    /// Creates a driver over `spi`; no transaction is made.
    pub fn new(spi: T) -> (r: Result<Self, Error<T::Error>>)
        ensures
            r matches Ok(c) && c.wf() && c.wire().len() == 0 && c.limit() == u32::MAX,
    {
        match lowlevel::Cc1101::new(spi) {
            Ok(radio) => Ok(Cc1101 { radio, poll_limit: u32::MAX }),
            Err(e) => Err(Error::Transport(e)),
        }
    }

    /// Gives the transport back.
    pub fn release(self) -> T {
        self.radio.release()
    }

    /// Sets how many reads of the chip one wait makes at most before it
    /// gives up with `Error::Timeout`.
    pub fn set_poll_limit(&mut self, limit: u32)
        requires
            old(self).wf(),
        ensures
            final(self).wf(),
            final(self).wire() == old(self).wire(),
            final(self).limit() == limit,
    {
        self.poll_limit = limit;
    }

    /// Last Chip Status Byte
    pub fn get_chip_status(&mut self) -> (r: Option<StatusByte>)
        requires
            old(self).wf(),
        ensures
            *final(self) == *old(self),
            r == last_status(old(self).wire()),
    {
        self.radio.status()
    }

    /// One exchange sent one frame.
    proof fn lemma_one(before: Seq<Exchange>, after: Seq<Exchange>, frame: Seq<u8>)
        requires
            one_more(before, after, frame),
        ensures
            before.is_prefix_of(after),
            added(before, after).len() == 1,
            added(before, after)[0] == after.last(),
            sends(added(before, after), seq![frame], true),
    {
        assert(after.drop_last() =~= after.subrange(0, before.len() as int));
    }

    /// No exchange sent a proper prefix of any run of frames.
    proof fn lemma_none(s: Seq<Exchange>, frames: Seq<Seq<u8>>)
        requires
            frames.len() >= 1,
        ensures
            s.is_prefix_of(s),
            added(s, s).len() == 0,
            sends(added(s, s), frames, false),
    {
        assert(s.subrange(0, s.len() as int) =~= s);
    }

    /// Two runs of frames, one after the other.
    proof fn lemma_concat(
        a: Seq<Exchange>,
        b: Seq<Exchange>,
        c: Seq<Exchange>,
        f1: Seq<Seq<u8>>,
        f2: Seq<Seq<u8>>,
        ok: bool,
    )
        requires
            a.is_prefix_of(b),
            b.is_prefix_of(c),
            sends(added(a, b), f1, true),
            sends(added(b, c), f2, ok),
        ensures
            a.is_prefix_of(c),
            sends(added(a, c), f1 + f2, ok),
            forall|i: int| 0 <= i < added(a, b).len() ==> added(a, c)[i] == added(a, b)[i],
    {
        let t = added(a, c);
        assert forall|i: int| 0 <= i < t.len() implies #[trigger] t[i].0 == (f1 + f2)[i] by {
            if i < f1.len() {
                assert(t[i] == added(a, b)[i]);
            } else {
                assert(t[i] == added(b, c)[i - f1.len()]);
            }
        }
    }

    /// A run of frames that stopped early, with more that never came.
    proof fn lemma_stop(t: Seq<Exchange>, f1: Seq<Seq<u8>>, f2: Seq<Seq<u8>>)
        requires
            sends(t, f1, false),
        ensures
            sends(t, f1 + f2, false),
    {
        assert forall|i: int| 0 <= i < t.len() implies #[trigger] t[i].0 == (f1 + f2)[i] by {
        }
    }

    /// Reads one register.
    fn read(&mut self, reg: Register) -> (r: Result<u8, Error<T::Error>>)
        requires
            old(self).wf(),
        ensures
            Self::follows(old(self), final(self)),
            Self::passes_on(old(self), final(self), r),
            sends(Self::since(old(self), final(self)), seq![read_frame(reg)], r is Ok),
            r is Ok ==> r == Ok::<u8, Error<T::Error>>(read_at(Self::since(old(self), final(self)), 0)),
            transport_only(r),
    {
        let res = self.radio.read_register(reg);
        proof {
            if res is Ok {
                Self::lemma_one(old(self).wire(), self.wire(), read_frame(reg));
            } else {
                Self::lemma_none(self.wire(), seq![read_frame(reg)]);
            }
        }
        lift(res)
    }

    /// Writes one configuration register.
    fn write(&mut self, reg: Config, value: u8) -> (r: Result<(), Error<T::Error>>)
        requires
            old(self).wf(),
        ensures
            Self::follows(old(self), final(self)),
            Self::passes_on(old(self), final(self), r),
            sends(Self::since(old(self), final(self)), seq![config_write(reg, value)], r is Ok),
            transport_only(r),
    {
        let res = self.radio.write_register(Register::Config(reg), value);
        proof {
            if res is Ok {
                Self::lemma_one(old(self).wire(), self.wire(), config_write(reg, value));
            } else {
                Self::lemma_none(self.wire(), seq![config_write(reg, value)]);
            }
        }
        lift(res)
    }

    /// Writes each register of `writes` in turn.
    fn write_all(&mut self, writes: &Vec<(Config, u8)>) -> (r: Result<(), Error<T::Error>>)
        requires
            old(self).wf(),
        ensures
            Self::follows(old(self), final(self)),
            Self::passes_on(old(self), final(self), r),
            sends(Self::since(old(self), final(self)), write_frames(writes@), r is Ok),
            transport_only(r),
    {
        let ghost start = self.wire();
        let mut i: usize = 0;
        proof {
            assert(start.subrange(0, start.len() as int) =~= start);
        }
        while i < writes.len()
            invariant
                self.wf(),
                self.limit() == old(self).limit(),
                start == old(self).wire(),
                start.is_prefix_of(self.wire()),
                old(self).failures().is_prefix_of(self.failures()),
                i <= writes@.len(),
                sends(added(start, self.wire()), write_frames(writes@).take(i as int), true),
            decreases writes@.len() - i,
        {
            let (reg, value) = writes[i];
            let ghost mid = self.wire();
            let res = self.write(reg, value);
            proof {
                let f1 = write_frames(writes@).take(i as int);
                let f2 = seq![config_write(reg, value)];
                assert(f1 + f2 =~= write_frames(writes@).take(i + 1));
                if res is Ok {
                    Self::lemma_concat(start, mid, self.wire(), f1, f2, true);
                } else {
                    Self::lemma_concat(start, mid, self.wire(), f1, f2, false);
                    Self::lemma_stop(
                        added(start, self.wire()),
                        write_frames(writes@).take(i + 1),
                        write_frames(writes@).skip(i + 1),
                    );
                    assert(write_frames(writes@).take(i + 1) + write_frames(writes@).skip(i + 1)
                        =~= write_frames(writes@));
                }
            }
            if res.is_err() {
                return res;
            }
            i = i + 1;
        }
        proof {
            assert(write_frames(writes@).take(i as int) =~= write_frames(writes@));
        }
        Ok(())
    }

    /// Sets `field` of `reg` to `value`, keeping the register's other bits.
    fn modify_field(&mut self, reg: Config, field: Field, value: u8) -> (r: Result<(), Error<T::Error>>)
        requires
            old(self).wf(),
        ensures
            Self::follows(old(self), final(self)),
            Self::passes_on(old(self), final(self), r),
            sends(
                Self::since(old(self), final(self)),
                field_update(reg, field, value, read_at(Self::since(old(self), final(self)), 0)),
                r is Ok,
            ),
            transport_only(r),
    {
        let ghost start = self.wire();
        let ghost f2 = seq![config_write(reg, field.set(0, value))];
        let read = self.read(Register::Config(reg));
        let ghost mid = self.wire();
        let read = match read {
            Ok(v) => v,
            Err(e) => {
                proof {
                    Self::lemma_stop(added(start, mid), seq![config_read(reg)], f2);
                }
                return Err(e);
            },
        };
        let res = self.write(reg, field.set(read, value));
        proof {
            let f1 = seq![config_read(reg)];
            let f2 = seq![config_write(reg, field.set(read, value))];
            Self::lemma_concat(start, mid, self.wire(), f1, f2, res is Ok);
            assert(f1 + f2 =~= field_update(reg, field, value, read_at(added(start, self.wire()), 0)));
        }
        res
    }

    /// Issues a command strobe.
    pub fn command(&mut self, command: CommandStrobe) -> (r: Result<(), Error<T::Error>>)
        requires
            old(self).wf(),
        ensures
            Self::follows(old(self), final(self)),
            Self::passes_on(old(self), final(self), r),
            sends(Self::since(old(self), final(self)), seq![strobe_frame(strobe_of(command))], r is Ok),
            transport_only(r),
    {
        let command_strobe = match command {
            CommandStrobe::ResetChip => Command::SRES,
            CommandStrobe::EnableAndCalFreqSynth => Command::SFSTXON,
            CommandStrobe::TurnOffXosc => Command::SXOFF,
            CommandStrobe::CalFreqSynthAndTurnOff => Command::SCAL,
            CommandStrobe::EnableRx => Command::SRX,
            CommandStrobe::EnableTx => Command::STX,
            CommandStrobe::ExitRxTx => Command::SIDLE,
            CommandStrobe::StartWakeOnRadio => Command::SWOR,
            CommandStrobe::EnterPowerDownMode => Command::SPWD,
            CommandStrobe::FlushRxFifoBuffer => Command::SFRX,
            CommandStrobe::FlushTxFifoBuffer => Command::SFTX,
            CommandStrobe::ResetRtcToEvent1 => Command::SWORRST,
            CommandStrobe::NoOperation => Command::SNOP,
        };
        let res = self.radio.write_cmd_strobe(command_strobe);
        proof {
            if res is Ok {
                Self::lemma_one(old(self).wire(), self.wire(), strobe_frame(command_strobe));
            } else {
                Self::lemma_none(self.wire(), seq![strobe_frame(command_strobe)]);
            }
        }
        lift(res)
    }

    /// Sets the carrier frequency (in Hertz).
    pub fn set_frequency(&mut self, hz: u64) -> (r: Result<(), Error<T::Error>>)
        requires
            old(self).wf(),
        ensures
            Self::follows(old(self), final(self)),
            Self::passes_on(old(self), final(self), r),
            sends(
                Self::since(old(self), final(self)),
                write_frames(
                    seq![
                        (Config::FREQ0, word_bytes(frequency_word(hz as int)).0),
                        (Config::FREQ1, word_bytes(frequency_word(hz as int)).1),
                        (Config::FREQ2, word_bytes(frequency_word(hz as int)).2),
                    ],
                ),
                r is Ok,
            ),
            transport_only(r),
    {
        let (freq0, freq1, freq2) = from_frequency(hz);
        let writes = vec![(Config::FREQ0, freq0), (Config::FREQ1, freq1), (Config::FREQ2, freq2)];
        assert(writes@ =~= seq![
            (Config::FREQ0, word_bytes(frequency_word(hz as int)).0),
            (Config::FREQ1, word_bytes(frequency_word(hz as int)).1),
            (Config::FREQ2, word_bytes(frequency_word(hz as int)).2),
        ]);
        self.write_all(&writes)
    }

    /// Sets the frequency synthesizer intermediate frequency (in Hertz).
    pub fn set_freq_if(&mut self, hz: u64) -> (r: Result<(), Error<T::Error>>)
        requires
            old(self).wf(),
        ensures
            Self::follows(old(self), final(self)),
            Self::passes_on(old(self), final(self), r),
            sends(
                Self::since(old(self), final(self)),
                seq![
                    config_write(
                        Config::FSCTRL1,
                        Field::FreqIf.set(Config::FSCTRL1.reset_value(), freq_if_value(hz as int) as u8),
                    ),
                ],
                r is Ok,
            ),
            transport_only(r),
    {
        let value = Field::FreqIf.set(Config::FSCTRL1.reset_value(), from_freq_if(hz));
        self.write(Config::FSCTRL1, value)
    }

    /// Sets the target value for the averaged amplitude from the digital channel filter.
    pub fn set_target_amplitude(&mut self, target: TargetAmplitude) -> (r: Result<(), Error<T::Error>>)
        requires
            old(self).wf(),
        ensures
            Self::follows(old(self), final(self)),
            Self::passes_on(old(self), final(self), r),
            sends(
                Self::since(old(self), final(self)),
                field_update(
                    Config::AGCCTRL2,
                    Field::MagnTarget,
                    target.spec_value(),
                    read_at(Self::since(old(self), final(self)), 0),
                ),
                r is Ok,
            ),
            transport_only(r),
    {
        self.modify_field(Config::AGCCTRL2, Field::MagnTarget, u8::from(target))
    }

    /// Sets the filter length (in FSK/MSK mode) or decision boundary (in OOK/ASK mode) for the AGC.
    pub fn set_filter_length(&mut self, filter_length: FilterLength) -> (r: Result<(), Error<T::Error>>)
        requires
            old(self).wf(),
        ensures
            Self::follows(old(self), final(self)),
            Self::passes_on(old(self), final(self), r),
            sends(
                Self::since(old(self), final(self)),
                field_update(
                    Config::AGCCTRL0,
                    Field::FilterLength,
                    filter_length.spec_value(),
                    read_at(Self::since(old(self), final(self)), 0),
                ),
                r is Ok,
            ),
            transport_only(r),
    {
        self.modify_field(Config::AGCCTRL0, Field::FilterLength, u8::from(filter_length))
    }

    /// Configures when to run automatic calibration.
    pub fn set_autocalibration(&mut self, autocal: AutoCalibration) -> (r: Result<(), Error<T::Error>>)
        requires
            old(self).wf(),
        ensures
            Self::follows(old(self), final(self)),
            Self::passes_on(old(self), final(self), r),
            sends(
                Self::since(old(self), final(self)),
                field_update(
                    Config::MCSM0,
                    Field::FsAutocal,
                    autocal.value(),
                    read_at(Self::since(old(self), final(self)), 0),
                ),
                r is Ok,
            ),
            transport_only(r),
    {
        self.modify_field(Config::MCSM0, Field::FsAutocal, u8::from(autocal))
    }

    /// Sets the frequency deviation (in Hertz).
    pub fn set_deviation(&mut self, deviation: u64) -> (r: Result<(), Error<T::Error>>)
        requires
            old(self).wf(),
        ensures
            Self::follows(old(self), final(self)),
            Self::passes_on(old(self), final(self), r),
            exists|m: u8, e: u8|
                #[trigger] deviation_choice(deviation, m, e) && sends(
                    Self::since(old(self), final(self)),
                    deviation_frames(m, e),
                    r is Ok,
                ),
            transport_only(r),
    {
        let (mantissa, exponent) = from_deviation(deviation);
        let value = Field::DeviationE.set(Field::DeviationM.set(Config::DEVIATN.reset_value(), mantissa), exponent);
        let res = self.write(Config::DEVIATN, value);
        assert(deviation_choice(deviation, mantissa, exponent));
        res
    }

    /// Sets the data rate (in bits per second).
    pub fn set_data_rate(&mut self, baud: u64) -> (r: Result<(), Error<T::Error>>)
        requires
            old(self).wf(),
        ensures
            Self::follows(old(self), final(self)),
            Self::passes_on(old(self), final(self), r),
            exists|m: u8, e: u8|
                #[trigger] drate_choice(baud, m, e) && sends(
                    Self::since(old(self), final(self)),
                    drate_frames(m, e, read_at(Self::since(old(self), final(self)), 0)),
                    r is Ok,
                ),
            transport_only(r),
    {
        let (mantissa, exponent) = from_drate(baud);
        assert(drate_choice(baud, mantissa, exponent));
        let ghost start = self.wire();
        let res = self.modify_field(Config::MDMCFG4, Field::DrateE, exponent);
        let ghost mid = self.wire();
        let ghost f1 = field_update(Config::MDMCFG4, Field::DrateE, exponent, read_at(added(start, mid), 0));
        let ghost f2 = seq![config_write(Config::MDMCFG3, Field::DrateM.set(Config::MDMCFG3.reset_value(), mantissa))];
        if res.is_err() {
            proof {
                Self::lemma_stop(added(start, mid), f1, f2);
            }
            return res;
        }
        let res2 = self.write(Config::MDMCFG3, Field::DrateM.set(Config::MDMCFG3.reset_value(), mantissa));
        proof {
            Self::lemma_concat(start, mid, self.wire(), f1, f2, res2 is Ok);
            assert(read_at(added(start, self.wire()), 0) == read_at(added(start, mid), 0));
        }
        res2
    }

    /// Turns forward error correction on / off.
    pub fn enable_fec(&mut self, enable: bool) -> (r: Result<(), Error<T::Error>>)
        requires
            old(self).wf(),
        ensures
            Self::follows(old(self), final(self)),
            Self::passes_on(old(self), final(self), r),
            sends(
                Self::since(old(self), final(self)),
                field_update(
                    Config::MDMCFG1,
                    Field::FecEn,
                    if enable { 1 } else { 0 },
                    read_at(Self::since(old(self), final(self)), 0),
                ),
                r is Ok,
            ),
            transport_only(r),
    {
        self.modify_field(Config::MDMCFG1, Field::FecEn, enable as u8)
    }

    /// Configures the clear channel assessment.
    pub fn set_cca_mode(&mut self, cca_mode: CcaMode) -> (r: Result<(), Error<T::Error>>)
        requires
            old(self).wf(),
        ensures
            Self::follows(old(self), final(self)),
            Self::passes_on(old(self), final(self), r),
            sends(
                Self::since(old(self), final(self)),
                field_update(
                    Config::MCSM1,
                    Field::CcaMode,
                    cca_config_of(cca_mode).value(),
                    read_at(Self::since(old(self), final(self)), 0),
                ),
                r is Ok,
            ),
            transport_only(r),
    {
        let mode = match cca_mode {
            CcaMode::AlwaysClear => CcaModeConfig::ALWAYS,
            CcaMode::ClearBelowThreshold => CcaModeConfig::RSSI_BELOW_THR,
            CcaMode::ClearWhenReceivingPacket => CcaModeConfig::RCV_PACKET,
            CcaMode::ClearBelowThresholdUnlessReceivingPacket => {
                CcaModeConfig::RSSI_BELOW_THR_UNLESS_RCV_PACKET
            },
        };
        self.modify_field(Config::MCSM1, Field::CcaMode, mode.value())
    }

    /// Sets the number of preamble bytes; MDMCFG1 is written on top of its
    /// reset value.
    pub fn set_num_preamble(&mut self, num_preamble: NumPreambleBytes) -> (r: Result<(), Error<T::Error>>)
        requires
            old(self).wf(),
        ensures
            Self::follows(old(self), final(self)),
            Self::passes_on(old(self), final(self), r),
            sends(
                Self::since(old(self), final(self)),
                seq![
                    config_write(
                        Config::MDMCFG1,
                        Field::NumPreamble.set(Config::MDMCFG1.reset_value(), preamble_of(num_preamble).value()),
                    ),
                ],
                r is Ok,
            ),
            transport_only(r),
    {
        let preamble_setting = match num_preamble {
            NumPreambleBytes::Two => NumPreamble::N_2,
            NumPreambleBytes::Three => NumPreamble::N_3,
            NumPreambleBytes::Four => NumPreamble::N_4,
            NumPreambleBytes::Six => NumPreamble::N_6,
            NumPreambleBytes::Eight => NumPreamble::N_8,
            NumPreambleBytes::Twelve => NumPreamble::N_12,
            NumPreambleBytes::Sixteen => NumPreamble::N_16,
            NumPreambleBytes::TwentyFour => NumPreamble::N_24,
        };
        let value = Field::NumPreamble.set(Config::MDMCFG1.reset_value(), u8::from(preamble_setting));
        self.write(Config::MDMCFG1, value)
    }

    /// Turns CRC calculation on / off.
    pub fn crc_enable(&mut self, enable: bool) -> (r: Result<(), Error<T::Error>>)
        requires
            old(self).wf(),
        ensures
            Self::follows(old(self), final(self)),
            Self::passes_on(old(self), final(self), r),
            sends(
                Self::since(old(self), final(self)),
                field_update(
                    Config::PKTCTRL0,
                    Field::CrcEn,
                    if enable { 1 } else { 0 },
                    read_at(Self::since(old(self), final(self)), 0),
                ),
                r is Ok,
            ),
            transport_only(r),
    {
        self.modify_field(Config::PKTCTRL0, Field::CrcEn, enable as u8)
    }

    /// Sets the channel bandwidth (in Hertz).
    pub fn set_chanbw(&mut self, bandwidth: u64) -> (r: Result<(), Error<T::Error>>)
        requires
            old(self).wf(),
        ensures
            Self::follows(old(self), final(self)),
            Self::passes_on(old(self), final(self), r),
            exists|m: u8, e: u8|
                #[trigger] chanbw_choice(bandwidth, m, e) && sends(
                    Self::since(old(self), final(self)),
                    chanbw_frames(m, e, read_at(Self::since(old(self), final(self)), 0)),
                    r is Ok,
                ),
            transport_only(r),
    {
        let (mantissa, exponent) = from_chanbw(bandwidth);
        assert(chanbw_choice(bandwidth, mantissa, exponent));
        let ghost start = self.wire();
        let ghost f2 = seq![config_write(Config::MDMCFG4, 0)];
        let read = self.read(Register::Config(Config::MDMCFG4));
        let ghost mid = self.wire();
        let read = match read {
            Ok(v) => v,
            Err(e) => {
                proof {
                    Self::lemma_stop(added(start, mid), seq![config_read(Config::MDMCFG4)], f2);
                }
                return Err(e);
            },
        };
        let value = Field::ChanbwE.set(Field::ChanbwM.set(read, mantissa), exponent);
        let res = self.write(Config::MDMCFG4, value);
        proof {
            let f1 = seq![config_read(Config::MDMCFG4)];
            let f2 = seq![config_write(Config::MDMCFG4, value)];
            Self::lemma_concat(start, mid, self.wire(), f1, f2, res is Ok);
            assert(f1 + f2 =~= chanbw_frames(mantissa, exponent, read_at(added(start, self.wire()), 0)));
        }
        res
    }

    /// Reads the part number and version of the chip.
    pub fn get_hw_info(&mut self) -> (r: Result<(u8, u8), Error<T::Error>>)
        requires
            old(self).wf(),
        ensures
            Self::follows(old(self), final(self)),
            Self::passes_on(old(self), final(self), r),
            sends(
                Self::since(old(self), final(self)),
                seq![status_read(Status::PARTNUM), status_read(Status::VERSION)],
                r is Ok,
            ),
            r is Ok ==> r == Ok::<(u8, u8), Error<T::Error>>(
                (read_at(Self::since(old(self), final(self)), 0), read_at(Self::since(old(self), final(self)), 1)),
            ),
            transport_only(r),
    {
        let ghost start = self.wire();
        let ghost f1 = seq![status_read(Status::PARTNUM)];
        let ghost f2 = seq![status_read(Status::VERSION)];
        let partnum = self.read(Register::Status(Status::PARTNUM));
        let ghost mid = self.wire();
        let partnum = match partnum {
            Ok(v) => v,
            Err(e) => {
                proof {
                    Self::lemma_stop(added(start, mid), f1, f2);
                    assert(f1 + f2 =~= seq![status_read(Status::PARTNUM), status_read(Status::VERSION)]);
                }
                return Err(e);
            },
        };
        let version = self.read(Register::Status(Status::VERSION));
        proof {
            Self::lemma_concat(start, mid, self.wire(), f1, f2, version is Ok);
            assert(f1 + f2 =~= seq![status_read(Status::PARTNUM), status_read(Status::VERSION)]);
        }
        let version = version?;
        proof {
            assert(added(start, self.wire())[1] == added(mid, self.wire())[0]);
        }
        Ok((partnum, version))
    }

    /// Received Signal Strength Indicator is an estimate of the signal power level in the chosen channel.
    pub fn get_rssi_dbm(&mut self) -> (r: Result<i16, Error<T::Error>>)
        requires
            old(self).wf(),
        ensures
            Self::follows(old(self), final(self)),
            Self::passes_on(old(self), final(self), r),
            sends(Self::since(old(self), final(self)), seq![status_read(Status::RSSI)], r is Ok),
            r matches Ok(dbm) ==> dbm == rssi_dbm(read_at(Self::since(old(self), final(self)), 0)),
            transport_only(r),
    {
        let raw = self.read(Register::Status(Status::RSSI))?;
        Ok(from_rssi_to_rssi_dbm(raw))
    }

    /// The Link Quality Indicator metric of the current quality of the received signal.
    pub fn get_lqi(&mut self) -> (r: Result<u8, Error<T::Error>>)
        requires
            old(self).wf(),
        ensures
            Self::follows(old(self), final(self)),
            Self::passes_on(old(self), final(self), r),
            sends(Self::since(old(self), final(self)), seq![status_read(Status::LQI)], r is Ok),
            r is Ok ==> r == Ok::<u8, Error<T::Error>>(
                Field::LqiEst.get(read_at(Self::since(old(self), final(self)), 0)),
            ),
            transport_only(r),
    {
        let lqi = self.read(Register::Status(Status::LQI))?;
        Ok(Field::LqiEst.get(lqi))
    }

    /// Sets `field` of `reg` to `value`, then writes each register of `writes`.
    fn modify_then_write(&mut self, reg: Config, field: Field, value: u8, writes: &Vec<(Config, u8)>) -> (r: Result<(), Error<T::Error>>)
        requires
            old(self).wf(),
        ensures
            Self::follows(old(self), final(self)),
            Self::passes_on(old(self), final(self), r),
            sends(
                Self::since(old(self), final(self)),
                field_update(reg, field, value, read_at(Self::since(old(self), final(self)), 0))
                    + write_frames(writes@),
                r is Ok,
            ),
            transport_only(r),
    {
        let ghost start = self.wire();
        let res = self.modify_field(reg, field, value);
        let ghost mid = self.wire();
        let ghost f1 = field_update(reg, field, value, read_at(added(start, mid), 0));
        if res.is_err() {
            proof {
                Self::lemma_stop(added(start, mid), f1, write_frames(writes@));
            }
            return res;
        }
        let res2 = self.write_all(writes);
        proof {
            Self::lemma_concat(start, mid, self.wire(), f1, write_frames(writes@), res2 is Ok);
            assert(read_at(added(start, self.wire()), 0) == read_at(added(start, mid), 0));
        }
        res2
    }

    /// Configure the sync word to use, and at what level it should be verified.
    pub fn set_sync_mode(&mut self, sync_mode: SyncMode) -> (r: Result<(), Error<T::Error>>)
        requires
            old(self).wf(),
        ensures
            Self::follows(old(self), final(self)),
            Self::passes_on(old(self), final(self), r),
            sends(
                Self::since(old(self), final(self)),
                field_update(
                    Config::MDMCFG2,
                    Field::SyncMode,
                    sync_of(sync_mode).0.value(),
                    read_at(Self::since(old(self), final(self)), 0),
                ) + write_frames(
                    seq![
                        (Config::SYNC1, ((sync_of(sync_mode).1 >> 8u16) & 0xffu16) as u8),
                        (Config::SYNC0, (sync_of(sync_mode).1 & 0xffu16) as u8),
                    ],
                ),
                r is Ok,
            ),
            transport_only(r),
    {
        let reset: u16 = (Config::SYNC1.reset_value() as u16) << 8 | (Config::SYNC0.reset_value() as u16);
        let (mode, word) = match sync_mode {
            SyncMode::Disabled => (SyncCheck::DISABLED, reset),
            SyncMode::MatchPartial(word) => (SyncCheck::CHECK_15_16, word),
            SyncMode::MatchPartialRepeated(word) => (SyncCheck::CHECK_30_32, word),
            SyncMode::MatchFull(word) => (SyncCheck::CHECK_16_16, word),
        };
        let writes = vec![(Config::SYNC1, ((word >> 8) & 0xff) as u8), (Config::SYNC0, (word & 0xff) as u8)];
        assert(writes@ =~= seq![
            (Config::SYNC1, ((sync_of(sync_mode).1 >> 8u16) & 0xffu16) as u8),
            (Config::SYNC0, (sync_of(sync_mode).1 & 0xffu16) as u8),
        ]);
        self.modify_then_write(Config::MDMCFG2, Field::SyncMode, mode.value(), &writes)
    }

    /// Configure signal modulation.
    pub fn set_modulation(&mut self, format: Modulation) -> (r: Result<(), Error<T::Error>>)
        requires
            old(self).wf(),
        ensures
            Self::follows(old(self), final(self)),
            Self::passes_on(old(self), final(self), r),
            sends(
                Self::since(old(self), final(self)),
                field_update(
                    Config::MDMCFG2,
                    Field::ModFormat,
                    format_of(format).value(),
                    read_at(Self::since(old(self), final(self)), 0),
                ),
                r is Ok,
            ),
            transport_only(r),
    {
        let value = match format {
            Modulation::BinaryFrequencyShiftKeying => ModFormat::MOD_2FSK,
            Modulation::GaussianFrequencyShiftKeying => ModFormat::MOD_GFSK,
            Modulation::OnOffKeying => ModFormat::MOD_ASK_OOK,
            Modulation::FourFrequencyShiftKeying => ModFormat::MOD_4FSK,
            Modulation::MinimumShiftKeying => ModFormat::MOD_MSK,
        };
        self.modify_field(Config::MDMCFG2, Field::ModFormat, value.value())
    }

    /// Configure device address, and address filtering.
    pub fn set_address_filter(&mut self, filter: AddressFilter) -> (r: Result<(), Error<T::Error>>)
        requires
            old(self).wf(),
        ensures
            Self::follows(old(self), final(self)),
            Self::passes_on(old(self), final(self), r),
            sends(
                Self::since(old(self), final(self)),
                field_update(
                    Config::PKTCTRL1,
                    Field::AdrChk,
                    address_of(filter).0.value(),
                    read_at(Self::since(old(self), final(self)), 0),
                ) + write_frames(seq![(Config::ADDR, address_of(filter).1)]),
                r is Ok,
            ),
            transport_only(r),
    {
        let (mode, addr) = match filter {
            AddressFilter::Disabled => (AddressCheck::DISABLED, Config::ADDR.reset_value()),
            AddressFilter::Device(addr) => (AddressCheck::SELF, addr),
            AddressFilter::DeviceLowBroadcast(addr) => (AddressCheck::SELF_LOW_BROADCAST, addr),
            AddressFilter::DeviceHighLowBroadcast(addr) => (AddressCheck::SELF_HIGH_LOW_BROADCAST, addr),
        };
        let writes = vec![(Config::ADDR, addr)];
        assert(writes@ =~= seq![(Config::ADDR, address_of(filter).1)]);
        self.modify_then_write(Config::PKTCTRL1, Field::AdrChk, mode.value(), &writes)
    }

    /// Configure packet mode, and length.
    pub fn set_packet_length(&mut self, length: PacketLength) -> (r: Result<(), Error<T::Error>>)
        requires
            old(self).wf(),
        ensures
            Self::follows(old(self), final(self)),
            Self::passes_on(old(self), final(self), r),
            sends(
                Self::since(old(self), final(self)),
                field_update(
                    Config::PKTCTRL0,
                    Field::LengthConfig,
                    length_of(length).0.value(),
                    read_at(Self::since(old(self), final(self)), 0),
                ) + write_frames(seq![(Config::PKTLEN, length_of(length).1)]),
                r is Ok,
            ),
            transport_only(r),
    {
        let (format, pktlen) = match length {
            PacketLength::Fixed(limit) => (LengthConfig::FIXED, limit),
            PacketLength::Variable(max_limit) => (LengthConfig::VARIABLE, max_limit),
            PacketLength::Infinite => (LengthConfig::INFINITE, Config::PKTLEN.reset_value()),
        };
        let writes = vec![(Config::PKTLEN, pktlen)];
        assert(writes@ =~= seq![(Config::PKTLEN, length_of(length).1)]);
        self.modify_then_write(Config::PKTCTRL0, Field::LengthConfig, format.value(), &writes)
    }

    /// Turn data whitening on / off.
    pub fn white_data(&mut self, enable: bool) -> (r: Result<(), Error<T::Error>>)
        requires
            old(self).wf(),
        ensures
            Self::follows(old(self), final(self)),
            Self::passes_on(old(self), final(self), r),
            sends(
                Self::since(old(self), final(self)),
                field_update(
                    Config::PKTCTRL0,
                    Field::WhiteData,
                    if enable { 1 } else { 0 },
                    read_at(Self::since(old(self), final(self)), 0),
                ),
                r is Ok,
            ),
            transport_only(r),
    {
        self.modify_field(Config::PKTCTRL0, Field::WhiteData, enable as u8)
    }

    /// Reads the number of bytes in the TX FIFO; fails with `TxUnderflow`
    /// when the FIFO underflowed.
    pub fn read_tx_bytes(&mut self) -> (r: Result<u8, Error<T::Error>>)
        requires
            old(self).wf(),
        ensures
            Self::follows(old(self), final(self)),
            Self::passes_on(old(self), final(self), r),
            one_read(
                Self::since(old(self), final(self)),
                status_read(Status::TXBYTES),
                r,
                fifo_outcome(Self::since(old(self), final(self))[0], Error::TxUnderflow),
            ),
    {
        let txbytes = self.read(Register::Status(Status::TXBYTES))?;
        let num_txbytes: u8 = Field::NumBytes.get(txbytes);
        if Field::FifoError.get(txbytes) != 0 {
            return Err(Error::TxUnderflow);
        }
        Ok(num_txbytes)
    }

    /// Reads the number of bytes in the RX FIFO; fails with `RxOverflow`
    /// when the FIFO overflowed.
    pub fn read_rx_bytes(&mut self) -> (r: Result<u8, Error<T::Error>>)
        requires
            old(self).wf(),
        ensures
            Self::follows(old(self), final(self)),
            Self::passes_on(old(self), final(self), r),
            one_read(
                Self::since(old(self), final(self)),
                status_read(Status::RXBYTES),
                r,
                fifo_outcome(Self::since(old(self), final(self))[0], Error::RxOverflow),
            ),
    {
        let rxbytes = self.read(Register::Status(Status::RXBYTES))?;
        let num_rxbytes: u8 = Field::NumBytes.get(rxbytes);
        if Field::FifoError.get(rxbytes) != 0 {
            return Err(Error::RxOverflow);
        }
        Ok(num_rxbytes)
    }

    /// Read the Machine State
    pub fn read_machine_state(&mut self) -> (r: Result<MachineState, Error<T::Error>>)
        requires
            old(self).wf(),
        ensures
            Self::follows(old(self), final(self)),
            Self::passes_on(old(self), final(self), r),
            one_read(
                Self::since(old(self), final(self)),
                status_read(Status::MARCSTATE),
                r,
                state_outcome(Self::since(old(self), final(self))[0]),
            ),
    {
        let marcstate = self.read(Register::Status(Status::MARCSTATE))?;
        match MachineState::from_value(Field::MarcState.get(marcstate)) {
            Ok(state) => Ok(state),
            Err(e) => match e {
                MachineStateError::InvalidState(value) => Err(Error::InvalidState(value)),
            },
        }
    }

    /// Burst access to the FIFO, refused before any transaction when `data`
    /// is longer than the FIFO.
    fn fifo(&mut self, access: Access, data: &mut [u8]) -> (r: Result<(), Error<T::Error>>)
        requires
            old(self).wf(),
        ensures
            Self::follows(old(self), final(self)),
            Self::passes_on(old(self), final(self), r),
            old(data)@.len() > FIFO_MAX_SIZE ==> {
                &&& r == Err::<(), Error<T::Error>>(Error::UserInputError(old(data)@.len() as usize))
                &&& final(self).wire() == old(self).wire()
            },
            old(data)@.len() <= FIFO_MAX_SIZE ==> {
                &&& sends(Self::since(old(self), final(self)), seq![fifo_frame(access, old(data)@)], r is Ok)
                &&& transport_only(r)
            },
            final(data)@.len() == old(data)@.len(),
            final(data)@ == if r is Ok && access == Access::Read {
                Self::since(old(self), final(self))[0].1.skip(1)
            } else {
                old(data)@
            },
    {
        let res = self.radio.access_fifo(access, data);
        proof {
            if res is Ok {
                Self::lemma_one(old(self).wire(), self.wire(), fifo_frame(access, old(data)@));
            } else if res matches Err(lowlevel::Error::Transport(_)) {
                Self::lemma_none(self.wire(), seq![fifo_frame(access, old(data)@)]);
            } else {
                assert(self.wire().subrange(0, self.wire().len() as int) =~= self.wire());
            }
        }
        match res {
            Ok(()) => Ok(()),
            Err(lowlevel::Error::UserInputError(n)) => Err(Error::UserInputError(n)),
            Err(lowlevel::Error::Transport(e)) => Err(Error::Transport(e)),
        }
    }

    /// Read data from FIFO
    pub fn read_data(&mut self, data: &mut [u8]) -> (r: Result<(), Error<T::Error>>)
        requires
            old(self).wf(),
        ensures
            Self::follows(old(self), final(self)),
            Self::passes_on(old(self), final(self), r),
            old(data)@.len() > FIFO_MAX_SIZE ==> {
                &&& r == Err::<(), Error<T::Error>>(Error::UserInputError(old(data)@.len() as usize))
                &&& final(self).wire() == old(self).wire()
            },
            old(data)@.len() <= FIFO_MAX_SIZE ==> {
                &&& sends(Self::since(old(self), final(self)), seq![fifo_frame(Access::Read, old(data)@)], r is Ok)
                &&& transport_only(r)
            },
            final(data)@.len() == old(data)@.len(),
            final(data)@ == if r is Ok {
                Self::since(old(self), final(self))[0].1.skip(1)
            } else {
                old(data)@
            },
    {
        self.fifo(Access::Read, data)
    }

    /// Write data into FIFO
    pub fn write_data(&mut self, data: &mut [u8]) -> (r: Result<(), Error<T::Error>>)
        requires
            old(self).wf(),
        ensures
            Self::follows(old(self), final(self)),
            Self::passes_on(old(self), final(self), r),
            old(data)@.len() > FIFO_MAX_SIZE ==> {
                &&& r == Err::<(), Error<T::Error>>(Error::UserInputError(old(data)@.len() as usize))
                &&& final(self).wire() == old(self).wire()
            },
            old(data)@.len() <= FIFO_MAX_SIZE ==> {
                &&& sends(Self::since(old(self), final(self)), seq![fifo_frame(Access::Write, old(data)@)], r is Ok)
                &&& transport_only(r)
            },
            final(data)@ == old(data)@,
    {
        self.fifo(Access::Write, data)
    }

    /// Resets the chip and configures some default settings.
    pub fn set_defaults(&mut self) -> (r: Result<(), Error<T::Error>>)
        requires
            old(self).wf(),
        ensures
            Self::follows(old(self), final(self)),
            Self::passes_on(old(self), final(self), r),
            sends(Self::since(old(self), final(self)), default_frames(), r is Ok),
            transport_only(r),
    {
        let ghost start = self.wire();
        let ghost f1 = seq![strobe_frame(Command::SRES)];
        let writes = vec![
            (Config::PKTCTRL0, Field::WhiteData.set(Config::PKTCTRL0.reset_value(), 0)),
            (Config::FSCTRL1, Field::FreqIf.set(Config::FSCTRL1.reset_value(), 0x08)),
            (Config::MDMCFG2, Field::DemDcfiltOff.set(Config::MDMCFG2.reset_value(), 1)),
            (Config::MCSM0, Field::FsAutocal.set(Config::MCSM0.reset_value(), AutoCalibration::FromIdle.value())),
            (Config::AGCCTRL2, Field::MaxLnaGain.set(Config::AGCCTRL2.reset_value(), 0x04)),
        ];
        assert(f1 + write_frames(writes@) =~= default_frames());
        let res = self.command(CommandStrobe::ResetChip);
        let ghost mid = self.wire();
        if res.is_err() {
            proof {
                Self::lemma_stop(added(start, mid), f1, write_frames(writes@));
            }
            return res;
        }
        let res2 = self.write_all(&writes);
        proof {
            Self::lemma_concat(start, mid, self.wire(), f1, write_frames(writes@), res2 is Ok);
        }
        res2
    }

    /// The exchanges of two calls in a row.
    proof fn lemma_append(a: Seq<Exchange>, b: Seq<Exchange>, c: Seq<Exchange>)
        requires
            a.is_prefix_of(b),
            b.is_prefix_of(c),
        ensures
            a.is_prefix_of(c),
            added(a, c) == added(a, b) + added(b, c),
    {
        assert(added(a, c) =~= added(a, b) + added(b, c));
    }

    /// Polls the machine state until it is `a` or `b`, at most `poll_limit` times.
    fn await_states(&mut self, a: MachineState, b: MachineState) -> (r: Result<MachineState, Error<T::Error>>)
        requires
            old(self).wf(),
        ensures
            Self::follows(old(self), final(self)),
            Self::passes_on(old(self), final(self), r),
            awaits(Self::since(old(self), final(self)), a, b, final(self).limit(), r),
    {
        let ghost start = self.wire();
        proof {
            assert(start.subrange(0, start.len() as int) =~= start);
            assert(added(start, start) =~= Seq::<Exchange>::empty());
        }
        let mut n: u32 = 0;
        loop
            invariant
                Self::follows(old(self), self),
                start == old(self).wire(),
                n <= self.limit(),
                n == added(start, self.wire()).len(),
                forall|i: int|
                    0 <= i < n ==> #[trigger] added(start, self.wire())[i].0 == status_read(Status::MARCSTATE),
                forall|i: int| 0 <= i < n ==> passes(#[trigger] added(start, self.wire())[i], a, b),
            decreases self.limit() - n,
        {
            if n >= self.poll_limit {
                return Err(Error::Timeout);
            }
            let ghost mid = self.wire();
            let st = self.read_machine_state();
            proof {
                Self::lemma_append(start, mid, self.wire());
            }
            match st {
                Ok(s) => {
                    if s == a || s == b {
                        return Ok(s);
                    }
                },
                Err(e) => {
                    return Err(e);
                },
            }
            n = n + 1;
        }
    }

    /// Polls the machine state until it is `target`.
    fn await_machine_state(&mut self, target_state: MachineState) -> (r: Result<(), Error<T::Error>>)
        requires
            old(self).wf(),
        ensures
            Self::follows(old(self), final(self)),
            Self::passes_on(old(self), final(self), r),
            awaits(Self::since(old(self), final(self)), target_state, target_state, final(self).limit(), reached(r, target_state)),
    {
        match self.await_states(target_state, target_state) {
            Ok(_) => Ok(()),
            Err(e) => Err(e),
        }
    }

    /// Issues strobe `cmd`, then waits for machine state `s`.
    fn switch_to(&mut self, cmd: CommandStrobe, s: MachineState) -> (r: Result<(), Error<T::Error>>)
        requires
            old(self).wf(),
        ensures
            Self::follows(old(self), final(self)),
            Self::passes_on(old(self), final(self), r),
            switches(Self::since(old(self), final(self)), strobe_of(cmd), s, final(self).limit(), r),
    {
        let ghost start = self.wire();
        let res = self.command(cmd);
        let ghost mid = self.wire();
        if res.is_err() {
            return res;
        }
        let res2 = self.await_machine_state(s);
        proof {
            Self::lemma_append(start, mid, self.wire());
            let t = added(start, self.wire());
            assert(t.skip(1) =~= added(mid, self.wire()));
        }
        res2
    }

    /// Set radio in Receive/Transmit/Idle mode.
    pub fn set_radio_mode(&mut self, radio_mode: RadioMode) -> (r: Result<(), Error<T::Error>>)
        requires
            old(self).wf(),
        ensures
            Self::follows(old(self), final(self)),
            Self::passes_on(old(self), final(self), r),
            enters(Self::since(old(self), final(self)), radio_mode, final(self).limit(), r),
    {
        let ghost start = self.wire();
        let idle = self.switch_to(CommandStrobe::ExitRxTx, MachineState::IDLE);
        let ghost mid = self.wire();
        let (command, target) = match radio_mode {
            RadioMode::Idle => {
                return idle;
            },
            RadioMode::Sleep => (CommandStrobe::EnterPowerDownMode, MachineState::SLEEP),
            RadioMode::Calibrate => (CommandStrobe::CalFreqSynthAndTurnOff, MachineState::MANCAL),
            RadioMode::Transmit => (CommandStrobe::EnableTx, MachineState::TX),
            RadioMode::Receive => (CommandStrobe::EnableRx, MachineState::RX),
        };
        if idle.is_err() {
            return idle;
        }
        let res = self.switch_to(command, target);
        proof {
            Self::lemma_append(start, mid, self.wire());
            let t = added(start, self.wire());
            let k = added(start, mid).len() as int;
            assert(t.take(k) =~= added(start, mid));
            assert(t.skip(k) =~= added(mid, self.wire()));
            assert(switches(t.take(k), Command::SIDLE, MachineState::IDLE, self.limit(), Ok::<(), Error<T::Error>>(())));
        }
        res
    }

    /// Polls the RX FIFO count until two reads in a row give the same
    /// nonzero count, which means a packet has fully landed.
    fn rx_bytes_available(&mut self) -> (r: Result<u8, Error<T::Error>>)
        requires
            old(self).wf(),
        ensures
            Self::follows(old(self), final(self)),
            Self::passes_on(old(self), final(self), r),
            rx_waits(Self::since(old(self), final(self)), final(self).limit(), r),
    {
        let ghost start = self.wire();
        proof {
            assert(start.subrange(0, start.len() as int) =~= start);
            assert(added(start, start) =~= Seq::<Exchange>::empty());
        }
        let mut last: u8 = 0;
        let mut n: u32 = 0;
        loop
            invariant
                Self::follows(old(self), self),
                start == old(self).wire(),
                n <= self.limit(),
                n == added(start, self.wire()).len(),
                forall|i: int|
                    0 <= i < n ==> #[trigger] added(start, self.wire())[i].0 == status_read(Status::RXBYTES),
                forall|i: int| 0 <= i < n ==> #[trigger] keeps_polling(added(start, self.wire()), i),
                last == if n == 0 {
                    0u8
                } else {
                    fifo_count(added(start, self.wire())[n - 1])
                },
            decreases self.limit() - n,
        {
            if n >= self.poll_limit {
                return Err(Error::Timeout);
            }
            let ghost mid = self.wire();
            let res = self.read_rx_bytes();
            proof {
                Self::lemma_append(start, mid, self.wire());
                let t = added(start, self.wire());
                assert forall|i: int| 0 <= i < n implies #[trigger] keeps_polling(t, i) by {
                    assert(t[i] == added(start, mid)[i]);
                    if i > 0 {
                        assert(t[i - 1] == added(start, mid)[i - 1]);
                    }
                    assert(keeps_polling(added(start, mid), i));
                }
                if n > 0 {
                    assert(t[n - 1] == added(start, mid)[n - 1]);
                }
            }
            let num_rxbytes = res?;
            if num_rxbytes > 0 && num_rxbytes == last {
                return Ok(last);
            }
            last = num_rxbytes;
            n = n + 1;
        }
    }

    /// The wait for a settled RX FIFO, which ran from `start` to `mid`,
    /// stands at the front of everything sent since `start`.
    proof fn lemma_rx_prefix(
        start: Seq<Exchange>,
        mid: Seq<Exchange>,
        now: Seq<Exchange>,
        limit: nat,
        w: Result<u8, Error<T::Error>>,
    )
        requires
            start.is_prefix_of(mid),
            mid.is_prefix_of(now),
            rx_waits(added(start, mid), limit, w),
        ensures
            start.is_prefix_of(now),
            added(start, now) == added(start, mid) + added(mid, now),
            added(start, now).take(added(start, mid).len() as int) == added(start, mid),
            added(start, now).skip(added(start, mid).len() as int) == added(mid, now),
            rx_waits(added(start, now).take(added(start, mid).len() as int), limit, w),
    {
        Self::lemma_append(start, mid, now);
        let k = added(start, mid).len() as int;
        assert(added(start, now).take(k) =~= added(start, mid));
        assert(added(start, now).skip(k) =~= added(mid, now));
    }

    /// Receives one packet into `buf`: its first byte is the payload
    /// length, its second the address, which also goes to `addr`. Whatever
    /// the outcome, the RX FIFO is flushed before returning, unless the
    /// transport failed.
    pub fn receive(&mut self, addr: &mut u8, buf: &mut [u8]) -> (r: Result<u8, Error<T::Error>>)
        requires
            old(self).wf(),
            old(buf)@.len() >= 2,
        ensures
            Self::follows(old(self), final(self)),
            Self::passes_on(old(self), final(self), r),
            old(buf)@.len() > FIFO_MAX_SIZE ==> {
                &&& r == Err::<u8, Error<T::Error>>(Error::UserInputError(old(buf)@.len() as usize))
                &&& final(self).wire() == old(self).wire()
                &&& final(buf)@ == old(buf)@
                &&& *final(addr) == *old(addr)
            },
            old(buf)@.len() <= FIFO_MAX_SIZE ==> receives(
                Self::since(old(self), final(self)),
                old(buf)@,
                final(self).limit(),
                r,
                final(buf)@,
                *old(addr),
                *final(addr),
            ),
    {
        if buf.len() > FIFO_MAX_SIZE as usize {
            proof {
                assert(self.wire().subrange(0, self.wire().len() as int) =~= self.wire());
            }
            return Err(Error::UserInputError(buf.len()));
        }
        let ghost start = self.wire();
        let ghost data = buf@;
        let avail = self.rx_bytes_available();
        let ghost m1 = self.wire();
        let ghost avail_g = avail;
        proof {
            assert(m1.subrange(0, m1.len() as int) =~= m1);
            Self::lemma_rx_prefix(start, m1, m1, self.limit(), avail_g);
        }
        match avail {
            Ok(_) => {},
            Err(Error::Transport(e)) => {
                return Err(Error::Transport(e));
            },
            Err(e) => {
                let res = self.flush_rx(Err(e));
                proof {
                    Self::lemma_rx_prefix(start, m1, self.wire(), self.limit(), avail_g);
                }
                return res;
            },
        }
        let rd = self.read_data(buf);
        let ghost m2 = self.wire();
        proof {
            Self::lemma_rx_prefix(start, m1, m2, self.limit(), avail_g);
            let t = added(start, m2);
            let k = added(start, m1).len() as int;
            if rd is Ok {
                assert(t[k] == added(m1, m2)[0]);
            }
        }
        if let Err(e) = rd {
            return Err(e);
        }
        let length = buf[0];
        *addr = buf[1];
        let lqi = self.read(Register::Status(Status::LQI));
        let ghost m3 = self.wire();
        proof {
            Self::lemma_rx_prefix(start, m1, m3, self.limit(), avail_g);
            Self::lemma_append(m1, m2, m3);
            let t = added(start, m3);
            let k = added(start, m1).len() as int;
            assert(t[k] == added(m1, m2)[0]);
            assert(t.skip(k + 1) =~= added(m2, m3));
        }
        let lqi = match lqi {
            Ok(v) => v,
            Err(e) => {
                return Err(e);
            },
        };
        let idle = self.await_machine_state(MachineState::IDLE);
        let ghost m4 = self.wire();
        let ghost idle_g = idle;
        proof {
            Self::lemma_rx_prefix(start, m1, m4, self.limit(), avail_g);
            Self::lemma_append(m1, m2, m4);
            Self::lemma_append(m2, m3, m4);
            let t = added(start, m4);
            let k = added(start, m1).len() as int;
            let s = t.skip(k + 1);
            let j = added(m3, m4).len() as int;
            assert(t[k] == added(m1, m2)[0]);
            assert(s =~= added(m2, m3) + added(m3, m4));
            assert(s.subrange(1, 1 + j) =~= added(m3, m4));
            assert(awaits(s.subrange(1, 1 + j), MachineState::IDLE, MachineState::IDLE, self.limit(), reached(idle_g, MachineState::IDLE)));
        }
        if let Err(Error::Transport(e)) = idle {
            return Err(Error::Transport(e));
        }
        let outcome = match idle {
            Ok(()) => if Field::CrcFlag.get(lqi) != 0 {
                Err(Error::CrcMismatch)
            } else {
                Ok(length)
            },
            Err(e) => Err(e),
        };
        let res = self.flush_rx(outcome);
        proof {
            Self::lemma_rx_prefix(start, m1, self.wire(), self.limit(), avail_g);
            Self::lemma_append(m1, m2, self.wire());
            Self::lemma_append(m2, m3, self.wire());
            Self::lemma_append(m3, m4, self.wire());
            let t = added(start, self.wire());
            let k = added(start, m1).len() as int;
            let s = t.skip(k + 1);
            let j = added(m3, m4).len() as int;
            assert(t[k] == added(m1, m2)[0]);
            assert(s =~= added(m2, m3) + added(m3, m4) + added(m4, self.wire()));
            assert(s.subrange(1, 1 + j) =~= added(m3, m4));
            assert(s.skip(1 + j) =~= added(m4, self.wire()));
            assert(awaits(s.subrange(1, 1 + j), MachineState::IDLE, MachineState::IDLE, self.limit(), reached(idle_g, MachineState::IDLE)));
        }
        res
    }

    /// Transmits `buf`, whose first two bytes are set to the payload length
    /// and to `addr`. Once the frame is in the TX FIFO and TX is enabled,
    /// the TX FIFO count is read and the TX FIFO flushed whatever the wait
    /// gave, unless the transport failed.
    pub fn transmit(&mut self, addr: &mut u8, buf: &mut [u8]) -> (r: Result<(), Error<T::Error>>)
        requires
            old(self).wf(),
            old(buf)@.len() >= 2,
        ensures
            Self::follows(old(self), final(self)),
            Self::passes_on(old(self), final(self), r),
            *final(addr) == *old(addr),
            old(buf)@.len() > FIFO_MAX_SIZE ==> {
                &&& r == Err::<(), Error<T::Error>>(Error::UserInputError(old(buf)@.len() as usize))
                &&& final(self).wire() == old(self).wire()
                &&& final(buf)@ == old(buf)@
            },
            old(buf)@.len() <= FIFO_MAX_SIZE ==> {
                &&& final(buf)@ == old(buf)@.update(0, (old(buf)@.len() - 2) as u8).update(1, *old(addr))
                &&& transmits(Self::since(old(self), final(self)), final(buf)@, final(self).limit(), r)
            },
    {
        let tx_len = buf.len();
        if tx_len > FIFO_MAX_SIZE as usize {
            proof {
                assert(self.wire().subrange(0, self.wire().len() as int) =~= self.wire());
            }
            return Err(Error::UserInputError(tx_len));
        }
        buf[0] = (tx_len - 2) as u8;
        buf[1] = *addr;
        let ghost start = self.wire();
        let wr = self.write_data(buf);
        let ghost m1 = self.wire();
        if let Err(e) = wr {
            return Err(e);
        }
        let stx = self.command(CommandStrobe::EnableTx);
        let ghost m2 = self.wire();
        proof {
            Self::lemma_append(start, m1, m2);
            let t = added(start, m2);
            assert(t[0] == added(start, m1)[0]);
            assert(t.skip(1) =~= added(m1, m2));
        }
        if let Err(e) = stx {
            return Err(e);
        }
        let st = self.await_states(MachineState::IDLE, MachineState::TXFIFO_UNDERFLOW);
        let ghost m3 = self.wire();
        let ghost st_g = st;
        proof {
            Self::lemma_append(start, m1, m3);
            Self::lemma_append(m1, m2, m3);
            let t = added(start, m3);
            let s = t.skip(1);
            let j = added(m2, m3).len() as int;
            assert(t[0] == added(start, m1)[0]);
            assert(s =~= added(m1, m2) + added(m2, m3));
            assert(s.subrange(1, 1 + j) =~= added(m2, m3));
            assert(awaits(s.subrange(1, 1 + j), MachineState::IDLE, MachineState::TXFIFO_UNDERFLOW, self.limit(), st_g));
        }
        if let Err(Error::Transport(e)) = st {
            return Err(Error::Transport(e));
        }
        let res = self.flush_tx(st);
        proof {
            Self::lemma_append(start, m1, self.wire());
            Self::lemma_append(m1, m2, self.wire());
            Self::lemma_append(m2, m3, self.wire());
            let t = added(start, self.wire());
            let s = t.skip(1);
            let j = added(m2, m3).len() as int;
            assert(t[0] == added(start, m1)[0]);
            assert(s =~= added(m1, m2) + added(m2, m3) + added(m3, self.wire()));
            assert(s.subrange(1, 1 + j) =~= added(m2, m3));
            assert(s.skip(1 + j) =~= added(m3, self.wire()));
            assert(awaits(s.subrange(1, 1 + j), MachineState::IDLE, MachineState::TXFIFO_UNDERFLOW, self.limit(), st_g));
        }
        res
    }

    /// Flushes the RX FIFO, then gives `outcome`.
    fn flush_rx(&mut self, outcome: Result<u8, Error<T::Error>>) -> (r: Result<u8, Error<T::Error>>)
        requires
            old(self).wf(),
            !failed_transport(outcome),
        ensures
            Self::follows(old(self), final(self)),
            Self::passes_on(old(self), final(self), r),
            flushes_rx(Self::since(old(self), final(self)), r, outcome),
    {
        let res = self.command(CommandStrobe::FlushRxFifoBuffer);
        match res {
            Ok(()) => outcome,
            Err(e) => Err(e),
        }
    }

    /// Reads the TX FIFO count, then flushes the TX FIFO; the wait before
    /// ended with `w`.
    fn flush_tx(&mut self, w: Result<MachineState, Error<T::Error>>) -> (r: Result<(), Error<T::Error>>)
        requires
            old(self).wf(),
            !failed_transport(w),
        ensures
            Self::follows(old(self), final(self)),
            Self::passes_on(old(self), final(self), r),
            flushes_tx(Self::since(old(self), final(self)), r, w),
    {
        let ghost start = self.wire();
        let ghost f1 = seq![status_read(Status::TXBYTES)];
        let ghost f2 = seq![strobe_frame(Command::SFTX)];
        let tx = self.read_tx_bytes();
        let ghost mid = self.wire();
        proof {
            assert(f1 + f2 =~= seq![status_read(Status::TXBYTES), strobe_frame(Command::SFTX)]);
        }
        if let Err(Error::Transport(e)) = tx {
            proof {
                Self::lemma_stop(added(start, mid), f1, f2);
            }
            return Err(Error::Transport(e));
        }
        let flush = self.command(CommandStrobe::FlushTxFifoBuffer);
        proof {
            Self::lemma_concat(start, mid, self.wire(), f1, f2, flush is Ok);
        }
        if let Err(e) = flush {
            return Err(e);
        }
        match tx {
            Err(e) => Err(e),
            Ok(_) => match w {
                Ok(_) => Ok(()),
                Err(x) => Err(x),
            },
        }
    }
}

} // verus!
