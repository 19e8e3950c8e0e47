//! Deadline tracker, error codes, session headers, EEM headers and the
//! small building blocks.

use tunnel_firmware::eem::{CommandHeader, DataHeader, EemCmd, PacketHeader, PacketType};
use tunnel_firmware::fifo::Fifo;
use tunnel_firmware::plc::Header;
use tunnel_firmware::signal::Signal;
use tunnel_firmware::types::{StErr, Timeout};
use tunnel_firmware::util::Exchange;

#[test]
fn timeout_expires_after_duration() {
    let mut t = Timeout::default();
    assert!(!t.is_expired(0));
    t.set(10, 100);
    assert!(!t.is_expired(100));
    assert!(!t.is_expired(109));
    assert!(t.is_expired(110));
    assert!(t.is_expired(5000));
}

#[test]
fn timeout_wraparound_is_not_spurious() {
    // Armed just before the counter wraps: expiry comes only once the
    // true elapsed ticks reach the duration, never before.
    let mut t = Timeout::default();
    t.set(10, u32::MAX - 5);
    assert!(!t.is_expired(u32::MAX - 5)); // elapsed 0
    assert!(!t.is_expired(u32::MAX)); // elapsed 5
    assert!(!t.is_expired(0)); // elapsed 6, across the wrap
    assert!(!t.is_expired(3)); // elapsed 9
    assert!(t.is_expired(4)); // elapsed 10: due
    assert!(t.is_expired(5)); // elapsed 11
}

#[test]
fn timeout_clear_disarms() {
    let mut t = Timeout::default();
    t.set(10, 0);
    t.clear();
    assert!(!t.is_expired(1_000_000));
}

#[test]
fn timeout_zero_duration_never_expires() {
    let mut t = Timeout::default();
    t.set(0, 50);
    assert!(!t.is_expired(50));
    assert!(!t.is_expired(u32::MAX));
}

#[test]
fn st_err_codes_round_trip() {
    let all = [
        StErr::TxInProgress,
        StErr::ErrConfirm,
        StErr::ErrBufLen,
        StErr::ErrTimeout,
        StErr::ErrPing,
        StErr::ErrArgs,
        StErr::UnexpectedFrame,
        StErr::RcvBufTooSmall,
        StErr::TxErrNak,
        StErr::TxErrNoStatus,
        StErr::TxErrAckTmo,
        StErr::TxErrBusy,
    ];
    for e in all {
        assert_eq!(StErr::from_code(e.code()), Ok(e));
    }
    assert_eq!(StErr::from_code(0x00), Err(0x00));
    assert_eq!(StErr::from_code(0xF7), Err(0xF7));
}

#[test]
fn st_err_known_wire_values() {
    assert_eq!(StErr::TxInProgress.code(), 0xFF);
    assert_eq!(StErr::ErrArgs.code(), 0xFA);
    assert_eq!(StErr::TxErrBusy.code(), 0xF3);
}

#[test]
fn session_header_round_trip() {
    assert_eq!(Header::Idle.to_byte(), 0x00);
    assert_eq!(Header::Data.to_byte(), 0x01);
    assert_eq!(Header::Ping.to_byte(), 0x02);
    assert_eq!(Header::try_from_byte(0x00), Ok(Header::Idle));
    assert_eq!(Header::try_from_byte(0x01), Ok(Header::Data));
    assert_eq!(Header::try_from_byte(0x02), Ok(Header::Ping));
    assert_eq!(Header::try_from_byte(0x03), Err(0x03));
}

#[test]
fn eem_packet_classification() {
    assert_eq!(PacketHeader(0).into_packet_type(), PacketType::ZeroLength);
    assert_eq!(
        PacketHeader(0x1234).into_packet_type(),
        PacketType::Data(DataHeader(0x1234))
    );
    assert_eq!(
        PacketHeader(0x8001).into_packet_type(),
        PacketType::Command(CommandHeader(0x8001))
    );
}

#[test]
fn eem_data_header_fields() {
    let h = DataHeader(0x7abc);
    assert!(h.is_crc_calculated());
    assert_eq!(h.length(), 0x3abc);
    let h2 = DataHeader(0x0123);
    assert!(!h2.is_crc_calculated());
    assert_eq!(h2.length(), 0x0123);
}

#[test]
fn eem_command_decoding() {
    // Opcode in bits 13..11; any bit under the 0x7000 mask makes the
    // command reserved, so only the two echo opcodes decode.
    assert!(matches!(CommandHeader(0x8000).eem_cmd(), EemCmd::Echo(_)));
    assert!(matches!(CommandHeader(0x8123).eem_cmd(), EemCmd::Echo(_)));
    assert!(matches!(
        CommandHeader(0x8800).eem_cmd(),
        EemCmd::EchoResponse(_)
    ));
    assert_eq!(CommandHeader(0x9000).eem_cmd(), EemCmd::ReservedTagged);
    assert_eq!(CommandHeader(0xA000).eem_cmd(), EemCmd::ReservedTagged);
    assert_eq!(CommandHeader(0xB800).eem_cmd(), EemCmd::ReservedTagged);
    assert_eq!(CommandHeader(0x9001).eem_cmd(), EemCmd::ReservedTagged);
}

#[test]
fn fifo_is_first_in_first_out() {
    let mut q: Fifo<u32> = Fifo::new(2);
    assert!(q.enqueue(1).is_ok());
    assert!(q.enqueue(2).is_ok());
    assert_eq!(q.enqueue(3), Err(3));
    assert_eq!(q.dequeue(), Some(1));
    assert_eq!(q.dequeue(), Some(2));
    assert_eq!(q.dequeue(), None);
}

#[test]
fn signal_take_consumes() {
    let mut s = Signal::new();
    assert!(!s.take_signal());
    s.set_signal();
    assert!(s.take_signal());
    assert!(!s.take_signal());
    s.set_signal();
    s.clear();
    assert!(!s.take_signal());
}

#[test]
fn exchange_swaps_and_returns_old() {
    let mut x = 5u32;
    let old = x.exchange(9);
    assert_eq!(old, 5);
    assert_eq!(x, 9);
}
