use cc1101::lowlevel::access::Access;
use cc1101::lowlevel::transport::{ScriptExhausted, ScriptedTransport};
use cc1101::{AddressFilter, Cc1101, CommandStrobe, Error, MachineState, PacketLength, RadioMode, SyncMode};

const S: u8 = 0x0F;

fn radio(replies: Vec<Vec<u8>>) -> Cc1101<ScriptedTransport> {
    Cc1101::new(ScriptedTransport::new(replies)).unwrap()
}

fn sent(c: Cc1101<ScriptedTransport>) -> Vec<Vec<u8>> {
    c.release().sent().clone()
}

#[test]
fn transmit_writes_length_address_payload() {
    let mut c = radio(vec![vec![S], vec![S], vec![S, 0x01], vec![S, 0x00], vec![S]]);
    let mut addr = 0x01u8;
    let mut buf = [0u8, 0, 0xAA, 0xBB];
    assert_eq!(c.transmit(&mut addr, &mut buf), Ok(()));
    assert_eq!(buf, [0x02, 0x01, 0xAA, 0xBB]);
    assert_eq!(
        sent(c),
        vec![
            vec![0x7F, 0x02, 0x01, 0xAA, 0xBB],
            vec![0x35],
            vec![0xF5, 0x00],
            vec![0xFA, 0x00],
            vec![0x3B],
        ]
    );
}

#[test]
fn transmit_underflow_still_flushes() {
    let mut c = radio(vec![vec![S], vec![S], vec![S, 0x13], vec![S, 0x16], vec![S, 0x80], vec![S]]);
    let mut addr = 0x01u8;
    let mut buf = [0u8, 0, 0xAA, 0xBB];
    assert_eq!(c.transmit(&mut addr, &mut buf), Err(Error::TxUnderflow));
    let frames = sent(c);
    assert_eq!(frames.len(), 6);
    assert_eq!(frames[4], vec![0xFA, 0x00]);
    assert_eq!(frames[5], vec![0x3B]);
}

#[test]
fn receive_valid_crc() {
    let mut c = radio(vec![
        vec![S, 3],
        vec![S, 3],
        vec![S, 0x02, 0x01, 0xCC, 0xDD],
        vec![S, 0x2A],
        vec![S, 0x01],
        vec![S],
    ]);
    let mut addr = 0u8;
    let mut buf = [0u8; 4];
    assert_eq!(c.receive(&mut addr, &mut buf), Ok(2));
    assert_eq!(addr, 0x01);
    assert_eq!(buf, [0x02, 0x01, 0xCC, 0xDD]);
    assert_eq!(
        sent(c),
        vec![
            vec![0xFB, 0x00],
            vec![0xFB, 0x00],
            vec![0xFF, 0, 0, 0, 0],
            vec![0xF3, 0x00],
            vec![0xF5, 0x00],
            vec![0x3A],
        ]
    );
}

#[test]
fn receive_crc_mismatch_still_flushes() {
    let mut c = radio(vec![
        vec![S, 3],
        vec![S, 3],
        vec![S, 0x02, 0x01, 0xCC, 0xDD],
        vec![S, 0xAA],
        vec![S, 0x01],
        vec![S],
    ]);
    let mut addr = 0u8;
    let mut buf = [0u8; 4];
    assert_eq!(c.receive(&mut addr, &mut buf), Err(Error::CrcMismatch));
    assert_eq!(sent(c).last(), Some(&vec![0x3A]));
}

#[test]
fn receive_waits_for_stable_count() {
    let mut c = radio(vec![
        vec![S, 0],
        vec![S, 2],
        vec![S, 3],
        vec![S, 3],
        vec![S, 0x01, 0x07, 0x55],
        vec![S, 0x00],
        vec![S, 0x0D],
        vec![S, 0x01],
        vec![S],
    ]);
    let mut addr = 0u8;
    let mut buf = [0u8; 3];
    assert_eq!(c.receive(&mut addr, &mut buf), Ok(1));
    assert_eq!(addr, 0x07);
    assert_eq!(sent(c).len(), 9);
}

#[test]
fn receive_overflow_flushes() {
    let mut c = radio(vec![vec![S, 0x85], vec![S]]);
    let mut addr = 0x33u8;
    let mut buf = [0u8; 4];
    assert_eq!(c.receive(&mut addr, &mut buf), Err(Error::RxOverflow));
    assert_eq!(addr, 0x33);
    assert_eq!(sent(c), vec![vec![0xFB, 0x00], vec![0x3A]]);
}

#[test]
fn unknown_machine_state_is_an_error() {
    let mut c = radio(vec![vec![S, 0x1F]]);
    assert_eq!(c.read_machine_state(), Err(Error::InvalidState(0x1F)));
}

#[test]
fn machine_state_read() {
    let mut c = radio(vec![vec![S, 0xE1]]);
    assert_eq!(c.read_machine_state(), Ok(MachineState::IDLE));
    assert_eq!(sent(c), vec![vec![0xF5, 0x00]]);
}

#[test]
fn oversized_fifo_read_is_refused_before_the_bus() {
    let mut c = radio(vec![vec![S]]);
    let mut buf = [0u8; 65];
    assert_eq!(c.read_data(&mut buf), Err(Error::UserInputError(65)));
    assert_eq!(sent(c).len(), 0);
}

#[test]
fn oversized_fifo_write_is_refused_before_the_bus() {
    let mut c = radio(vec![vec![S]]);
    let mut buf = [0u8; 65];
    assert_eq!(c.write_data(&mut buf), Err(Error::UserInputError(65)));
    let mut addr = 1u8;
    assert_eq!(c.transmit(&mut addr, &mut buf), Err(Error::UserInputError(65)));
    let mut rx = [0u8; 65];
    assert_eq!(c.receive(&mut addr, &mut rx), Err(Error::UserInputError(65)));
    assert_eq!(sent(c).len(), 0);
}

#[test]
fn fifo_of_sixty_four_bytes_is_accepted() {
    let mut c = radio(vec![vec![S; 65]]);
    let mut buf = [0u8; 64];
    assert_eq!(c.read_data(&mut buf), Ok(()));
    assert_eq!(buf, [S; 64]);
}

#[test]
fn write_data_keeps_buffer() {
    let mut c = radio(vec![vec![S, 9, 9]]);
    let mut buf = [1u8, 2];
    assert_eq!(c.write_data(&mut buf), Ok(()));
    assert_eq!(buf, [1, 2]);
    assert_eq!(sent(c), vec![vec![0x7F, 1, 2]]);
}

#[test]
fn set_frequency_writes_three_registers() {
    let mut c = radio(vec![vec![S, 0], vec![S, 0], vec![S, 0]]);
    assert_eq!(c.set_frequency(433_920_000), Ok(()));
    assert_eq!(sent(c), vec![vec![0x0F, 0x71], vec![0x0E, 0xB0], vec![0x0D, 0x10]]);
}

#[test]
fn set_data_rate_keeps_bandwidth_bits() {
    let mut c = radio(vec![vec![S, 0x8C], vec![S, 0], vec![S, 0]]);
    assert_eq!(c.set_data_rate(9_600), Ok(()));
    assert_eq!(sent(c), vec![vec![0x90, 0x00], vec![0x10, 0x88], vec![0x11, 132]]);
}

#[test]
fn set_chanbw_keeps_data_rate_bits() {
    let mut c = radio(vec![vec![S, 0x8C], vec![S, 0]]);
    assert_eq!(c.set_chanbw(58_036), Ok(()));
    assert_eq!(sent(c), vec![vec![0x90, 0x00], vec![0x10, 0xEC]]);
}

#[test]
fn set_deviation_writes_deviatn() {
    let mut c = radio(vec![vec![S, 0]]);
    assert_eq!(c.set_deviation(20_000), Ok(()));
    assert_eq!(sent(c), vec![vec![0x15, 0x35]]);
}

#[test]
fn set_sync_mode_writes_word() {
    let mut c = radio(vec![vec![S, 0x02], vec![S, 0], vec![S, 0], vec![S, 0]]);
    assert_eq!(c.set_sync_mode(SyncMode::MatchFull(0xBEEF)), Ok(()));
    assert_eq!(sent(c), vec![vec![0x92, 0], vec![0x12, 0x02], vec![0x04, 0xBE], vec![0x05, 0xEF]]);
    let mut c = radio(vec![vec![S, 0xFF], vec![S, 0], vec![S, 0], vec![S, 0]]);
    assert_eq!(c.set_sync_mode(SyncMode::Disabled), Ok(()));
    assert_eq!(sent(c), vec![vec![0x92, 0], vec![0x12, 0xF8], vec![0x04, 0xD3], vec![0x05, 0x91]]);
}

#[test]
fn set_address_filter_and_packet_length() {
    let mut c = radio(vec![vec![S, 0x04], vec![S, 0], vec![S, 0], vec![S, 0x45], vec![S, 0], vec![S, 0]]);
    assert_eq!(c.set_address_filter(AddressFilter::DeviceLowBroadcast(0x42)), Ok(()));
    assert_eq!(c.set_packet_length(PacketLength::Variable(20)), Ok(()));
    assert_eq!(
        sent(c),
        vec![
            vec![0x87, 0],
            vec![0x07, 0x06],
            vec![0x09, 0x42],
            vec![0x88, 0],
            vec![0x08, 0x45],
            vec![0x06, 20],
        ]
    );
}

#[test]
fn set_defaults_frames() {
    let mut c = radio(vec![vec![S]; 6]);
    assert_eq!(c.set_defaults(), Ok(()));
    assert_eq!(
        sent(c),
        vec![
            vec![0x30],
            vec![0x08, 0x05],
            vec![0x0B, 0x08],
            vec![0x12, 0x82],
            vec![0x18, 0x14],
            vec![0x1B, 0x23],
        ]
    );
}

#[test]
fn set_radio_mode_receive_goes_through_idle() {
    let mut c = radio(vec![vec![S], vec![S, 0x0D], vec![S, 0x01], vec![S], vec![S, 0x0D]]);
    assert_eq!(c.set_radio_mode(RadioMode::Receive), Ok(()));
    assert_eq!(
        sent(c),
        vec![vec![0x36], vec![0xF5, 0], vec![0xF5, 0], vec![0x34], vec![0xF5, 0]]
    );
}

#[test]
fn wait_gives_up_after_poll_limit() {
    let mut c = radio(vec![vec![S], vec![S, 0x0D], vec![S, 0x0D], vec![S, 0x0D]]);
    c.set_poll_limit(3);
    assert_eq!(c.set_radio_mode(RadioMode::Idle), Err(Error::Timeout));
    assert_eq!(sent(c).len(), 4);
}

#[test]
fn transport_failure_is_passed_on() {
    let mut c = radio(vec![vec![S, 0]]);
    assert_eq!(c.set_frequency(433_920_000), Err(Error::Transport(ScriptExhausted)));
    assert_eq!(sent(c).len(), 2);
}

#[test]
fn status_reads() {
    let mut c = radio(vec![vec![S, 0x00], vec![S, 0x14], vec![S, 0xC8], vec![0x1F, 0xAA], vec![S, 0x7F]]);
    assert_eq!(c.get_chip_status(), None);
    assert_eq!(c.get_hw_info(), Ok((0x00, 0x14)));
    assert_eq!(c.get_rssi_dbm(), Ok(-102));
    assert_eq!(c.get_lqi(), Ok(0x2A));
    assert_eq!(c.get_chip_status().map(|s| s.bits()), Some(0x1F));
    assert_eq!(c.read_rx_bytes(), Ok(0x7F));
    assert_eq!(
        sent(c),
        vec![vec![0xF0, 0], vec![0xF1, 0], vec![0xF4, 0], vec![0xF3, 0], vec![0xFB, 0]]
    );
}

#[test]
fn fifo_counts() {
    let mut c = radio(vec![vec![S, 0x05], vec![S, 0x80]]);
    assert_eq!(c.read_tx_bytes(), Ok(5));
    assert_eq!(c.read_tx_bytes(), Err(Error::TxUnderflow));
}

#[test]
fn command_strobes() {
    let mut c = radio(vec![vec![S], vec![S]]);
    assert_eq!(c.command(CommandStrobe::FlushRxFifoBuffer), Ok(()));
    assert_eq!(c.command(CommandStrobe::NoOperation), Ok(()));
    assert_eq!(sent(c), vec![vec![0x3A], vec![0x3D]]);
}

#[test]
fn field_settings() {
    let mut c = radio(vec![vec![S, 0xFF], vec![S, 0], vec![S, 0x00], vec![S, 0]]);
    assert_eq!(c.white_data(false), Ok(()));
    assert_eq!(c.enable_fec(true), Ok(()));
    assert_eq!(sent(c), vec![vec![0x88, 0], vec![0x08, 0xBF], vec![0x93, 0], vec![0x13, 0x80]]);
}

#[test]
fn transmit_timeout_still_flushes() {
    let mut c = radio(vec![vec![S], vec![S], vec![S, 0x13], vec![S, 0x00], vec![S]]);
    c.set_poll_limit(1);
    let mut addr = 0x01u8;
    let mut buf = [0u8, 0, 0xAA];
    assert_eq!(c.transmit(&mut addr, &mut buf), Err(Error::Timeout));
    let frames = sent(c);
    assert_eq!(frames.len(), 5);
    assert_eq!(frames[3], vec![0xFA, 0x00]);
    assert_eq!(frames[4], vec![0x3B]);
}

#[test]
fn receive_idle_timeout_still_flushes() {
    let mut c = radio(vec![
        vec![S, 3],
        vec![S, 3],
        vec![S, 0x02, 0x01, 0xCC, 0xDD],
        vec![S, 0x00],
        vec![S, 0x0D],
        vec![S, 0x0D],
        vec![S, 0x0D],
        vec![S],
    ]);
    c.set_poll_limit(3);
    let mut addr = 0u8;
    let mut buf = [0u8; 4];
    assert_eq!(c.receive(&mut addr, &mut buf), Err(Error::Timeout));
    let frames = sent(c);
    assert_eq!(frames.len(), 8);
    assert_eq!(frames[7], vec![0x3A]);
}

#[test]
fn receive_wait_timeout_flushes() {
    let mut c = radio(vec![vec![S, 0], vec![S, 0], vec![S]]);
    c.set_poll_limit(2);
    let mut addr = 0u8;
    let mut buf = [0u8; 4];
    assert_eq!(c.receive(&mut addr, &mut buf), Err(Error::Timeout));
    assert_eq!(sent(c), vec![vec![0xFB, 0x00], vec![0xFB, 0x00], vec![0x3A]]);
}

#[test]
fn low_level_fifo_refuses_oversized_buffer() {
    let mut ll = cc1101::lowlevel::Cc1101::new(ScriptedTransport::new(vec![vec![S]])).unwrap();
    let mut buf = [7u8; 65];
    assert_eq!(ll.access_fifo(Access::Write, &mut buf), Err(cc1101::lowlevel::Error::UserInputError(65)));
    assert_eq!(ll.access_fifo(Access::Read, &mut buf), Err(cc1101::lowlevel::Error::UserInputError(65)));
    assert_eq!(buf, [7u8; 65]);
    assert_eq!(ll.release().sent().len(), 0);
}

#[test]
fn low_level_fifo_passes_transport_error_on() {
    let mut ll = cc1101::lowlevel::Cc1101::new(ScriptedTransport::new(vec![])).unwrap();
    let mut buf = [1u8, 2];
    assert_eq!(ll.access_fifo(Access::Read, &mut buf), Err(cc1101::lowlevel::Error::Transport(ScriptExhausted)));
    assert_eq!(buf, [1, 2]);
}
