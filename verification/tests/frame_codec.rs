//! Frame, checksum and byte-level codec behaviour.

use tunnel_firmware::constants::{
    ACK, CMD_DL_DATA_CNF, CMD_DL_DATA_IND, CMD_RESET_IND, NAK, STX_02, STX_03, STX_STATUS,
};
use tunnel_firmware::frame::Frame;
use tunnel_firmware::isr::IsrFault;
use tunnel_firmware::globals::Globals;
use tunnel_firmware::isr::InterruptHandler;
use tunnel_firmware::payload::Payload;

fn payload(bytes: &[u8]) -> Payload {
    Payload::from_vec(&bytes.to_vec()).unwrap()
}

fn wire_bytes(f: &Frame) -> Vec<u8> {
    let mut out = vec![f.stx, f.length, f.command];
    out.extend_from_slice(&f.data.to_vec());
    out.push((f.checksum & 0xff) as u8);
    out.push((f.checksum >> 8) as u8);
    out
}

/// Feed bytes through the receive machine at a fixed tick.
fn feed(isr: &mut InterruptHandler, g: &mut Globals, now: u32, bytes: &[u8]) {
    for &b in bytes {
        isr.rx(g, now, b).unwrap();
    }
}

/// Drain the transmit machine while the transmit-ready interrupt stays
/// enabled, collecting the bytes it writes.
fn collect_tx(isr: &mut InterruptHandler, g: &mut Globals, now: u32) -> Vec<u8> {
    let mut out = Vec::new();
    while g.txe_listen {
        match isr.handle(g, now, None, true).unwrap() {
            Some(b) => out.push(b),
            None => {}
        }
    }
    out
}

#[test]
fn checksum_known_values() {
    // An empty reset request: checksum is command + length.
    let f = Frame::new(STX_02, 0, 0x3C, payload(&[]));
    assert_eq!(f.checksum, 0x3C);
    // Bytes sum with wraparound at 16 bits.
    let f2 = Frame::new(STX_02, 3, 0x50, payload(&[0xFF, 0xFE, 0x01]));
    assert_eq!(f2.checksum, 0x50 + 3 + 0xFF + 0xFE + 0x01);
}

#[test]
fn checksum_wraps_at_16_bits() {
    let data: Vec<u8> = vec![0xFF; 255];
    let p = Payload::from_vec(&data).unwrap();
    let f = Frame::new(STX_02, 255, 0xFF, p);
    let expected = ((0xFFu32 + 255 + 255 * 0xFF) % 0x10000) as u16;
    assert_eq!(f.checksum, expected);
}

#[test]
fn checksum_deterministic() {
    let a = Frame::calc_checksum(0x50, 4, &payload(&[1, 2, 3, 4]));
    let b = Frame::calc_checksum(0x50, 4, &payload(&[1, 2, 3, 4]));
    assert_eq!(a, b);
}

#[test]
fn checksum_changes_on_single_bit_flip() {
    let base = vec![0x10u8, 0x20, 0x30, 0x40];
    let c0 = Frame::calc_checksum(0x50, 4, &payload(&base));
    for i in 0..base.len() {
        for bit in 0..8 {
            let mut flipped = base.clone();
            flipped[i] ^= 1 << bit;
            let c1 = Frame::calc_checksum(0x50, 4, &payload(&flipped));
            assert_ne!(c0, c1, "flip of byte {} bit {} went undetected", i, bit);
        }
    }
}

#[test]
fn recomputed_checksum_matches_stored() {
    let f = Frame::new(STX_03, 5, CMD_DL_DATA_IND, payload(&[9, 8, 7, 6, 5]));
    assert_eq!(f.checksum(), f.checksum);
}

#[test]
fn payload_round_trips_through_vec() {
    let bytes: Vec<u8> = (0..=200).collect();
    let p = Payload::from_vec(&bytes).unwrap();
    assert_eq!(p.to_vec(), bytes);
    assert_eq!(p.len(), bytes.len());
}

#[test]
fn payload_refuses_oversize() {
    let bytes = vec![0u8; 256];
    assert!(Payload::from_vec(&bytes).is_none());
}

#[test]
fn payload_prefix_and_strip() {
    let p = payload(&[10, 20, 30]);
    let q = p.with_prefix(0x01).unwrap();
    assert_eq!(q.to_vec(), vec![0x01, 10, 20, 30]);
    let back = q.drop_prefix(1);
    assert_eq!(back.to_vec(), vec![10, 20, 30]);
}

#[test]
fn frame_clear_resets_fields() {
    let mut f = Frame::new(STX_02, 2, 0x24, payload(&[1, 2]));
    f.clear();
    assert_eq!(f.stx, 0);
    assert_eq!(f.length, 0);
    assert_eq!(f.command, 0);
    assert_eq!(f.checksum, 0);
    assert_eq!(f.data.to_vec(), Vec::<u8>::new());
}

#[test]
fn frame_duplicate_copies_payload() {
    let f = Frame::new(STX_02, 3, 0x24, payload(&[7, 8, 9]));
    let d = f.duplicate();
    assert_eq!(d.stx, f.stx);
    assert_eq!(d.data.to_vec(), f.data.to_vec());
    assert_eq!(d.checksum, f.checksum);
}

#[test]
fn rx_decodes_confirmation_frame() {
    let mut isr = InterruptHandler::new();
    let mut g = Globals::new();
    let f = Frame::new(STX_02, 3, CMD_DL_DATA_CNF, payload(&[1, 2, 3]));
    feed(&mut isr, &mut g, 0, &wire_bytes(&f));
    let got = g.cnf_frame_queue.dequeue().expect("confirmation queued");
    assert_eq!(got.stx, f.stx);
    assert_eq!(got.length, f.length);
    assert_eq!(got.command, f.command);
    assert_eq!(got.data.to_vec(), f.data.to_vec());
    assert_eq!(got.checksum, f.checksum);
    // The codec wants to answer with an ack byte.
    let acks = collect_tx(&mut isr, &mut g, 0);
    assert_eq!(acks, vec![ACK]);
}

#[test]
fn rx_admits_non_reset_indications_only_when_ready() {
    let mut isr = InterruptHandler::new();
    let mut g = Globals::new();
    let f = Frame::new(STX_03, 1, CMD_DL_DATA_IND, payload(&[0]));
    feed(&mut isr, &mut g, 0, &wire_bytes(&f));
    // Not ready yet: dropped.
    assert!(g.ind_frame_queue.dequeue().is_none());
    let _ = collect_tx(&mut isr, &mut g, 0);
    g.ready_to_receive = true;
    feed(&mut isr, &mut g, 0, &wire_bytes(&f));
    assert!(g.ind_frame_queue.dequeue().is_some());
}

#[test]
fn rx_reset_indication_passes_before_ready() {
    let mut isr = InterruptHandler::new();
    let mut g = Globals::new();
    let f = Frame::new(STX_03, 0, CMD_RESET_IND, payload(&[]));
    feed(&mut isr, &mut g, 0, &wire_bytes(&f));
    let got = g.ind_frame_queue.dequeue().expect("reset indication queued");
    assert_eq!(got.command, CMD_RESET_IND);
}

#[test]
fn rx_drops_frame_with_bad_checksum() {
    let mut isr = InterruptHandler::new();
    let mut g = Globals::new();
    let f = Frame::new(STX_03, 0, CMD_RESET_IND, payload(&[]));
    let mut bytes = wire_bytes(&f);
    let n = bytes.len();
    bytes[n - 2] ^= 0x01; // corrupt the checksum low byte
    feed(&mut isr, &mut g, 0, &bytes);
    assert!(g.ind_frame_queue.dequeue().is_none());
    // The codec still answers, with a nak.
    let acks = collect_tx(&mut isr, &mut g, 0);
    assert_eq!(acks, vec![NAK]);
}

#[test]
fn rx_intercharacter_timeout_abandons_partial_frame() {
    let mut isr = InterruptHandler::new();
    let mut g = Globals::new();
    // Start a frame at tick 0, then go silent past the 10 ms window.
    feed(&mut isr, &mut g, 0, &[STX_03, 2, CMD_DL_DATA_IND]);
    // A fresh, complete frame arriving late must decode cleanly.
    let f = Frame::new(STX_03, 0, CMD_RESET_IND, payload(&[]));
    feed(&mut isr, &mut g, 50, &wire_bytes(&f));
    let got = g.ind_frame_queue.dequeue().expect("late frame decoded");
    assert_eq!(got.command, CMD_RESET_IND);
}

#[test]
fn rx_ack_byte_cross_cancels_when_unexpected() {
    let mut isr = InterruptHandler::new();
    let mut g = Globals::new();
    // An ack while only a status byte is expected clears the status
    // expectation; the delivery of an expected ack is covered by the
    // sequencer's ack and nak scenarios.
    g.wait_status.set_signal();
    feed(&mut isr, &mut g, 0, &[ACK]);
    assert!(!g.wait_status.raised);
    // An expected ack consumes the expectation.
    g.wait_ack.set_signal();
    feed(&mut isr, &mut g, 0, &[NAK]);
    assert!(!g.wait_ack.raised);
}

#[test]
fn rx_status_marker_consumes_expectation() {
    let mut isr = InterruptHandler::new();
    let mut g = Globals::new();
    // The status marker is honoured only while a status byte is
    // expected; the delivered value is covered by the sequencer's busy
    // and clean-status scenarios.
    g.wait_status.set_signal();
    feed(&mut isr, &mut g, 0, &[STX_STATUS, 0x00]);
    assert!(!g.wait_status.raised);
    // Without the expectation, the marker cancels the ack wait instead.
    g.wait_ack.set_signal();
    feed(&mut isr, &mut g, 0, &[STX_STATUS]);
    assert!(!g.wait_ack.raised);
}

#[test]
fn rx_junk_byte_clears_both_expectations() {
    let mut isr = InterruptHandler::new();
    let mut g = Globals::new();
    g.wait_status.set_signal();
    g.wait_ack.set_signal();
    feed(&mut isr, &mut g, 0, &[0x99]);
    assert!(!g.wait_status.raised);
    assert!(!g.wait_ack.raised);
}

#[test]
fn tx_emits_wire_image_and_signals_done() {
    let mut isr = InterruptHandler::new();
    let mut g = Globals::new();
    let f = Frame::new(STX_02, 4, 0x24, payload(&[0xDE, 0xAD, 0xBE, 0xEF]));
    let expected = wire_bytes(&f);
    g.tx_frame_queue.enqueue(f).ok().unwrap();
    g.tx_active.set_signal();
    g.txe_listen = true;
    let sent = collect_tx(&mut isr, &mut g, 0);
    assert_eq!(sent, expected);
    assert!(g.local_frame_tx.raised);
    assert!(g.t_req_high);
}

#[test]
fn tx_emits_zero_length_frame() {
    let mut isr = InterruptHandler::new();
    let mut g = Globals::new();
    let f = Frame::new(STX_02, 0, 0x3C, payload(&[]));
    let expected = wire_bytes(&f);
    g.tx_frame_queue.enqueue(f).ok().unwrap();
    g.tx_active.set_signal();
    g.txe_listen = true;
    let sent = collect_tx(&mut isr, &mut g, 0);
    assert_eq!(sent, expected);
}

#[test]
fn codec_round_trip_all_payload_sizes() {
    // Encoding then decoding reproduces the frame for a sweep of
    // lengths, the empty and the maximal payload included.
    for len in [0usize, 1, 2, 7, 63, 128, 254, 255] {
        let data: Vec<u8> = (0..len).map(|i| (i * 37 % 251) as u8).collect();
        let f = Frame::new(STX_02, len as u8, CMD_DL_DATA_CNF, payload(&data));
        let mut tx_isr = InterruptHandler::new();
        let mut tx_g = Globals::new();
        tx_g.tx_frame_queue.enqueue(f.duplicate()).ok().unwrap();
        tx_g.tx_active.set_signal();
        tx_g.txe_listen = true;
        let wire = collect_tx(&mut tx_isr, &mut tx_g, 0);
        assert_eq!(wire, wire_bytes(&f), "wire image for length {}", len);

        let mut rx_isr = InterruptHandler::new();
        let mut rx_g = Globals::new();
        feed(&mut rx_isr, &mut rx_g, 0, &wire);
        let got = rx_g.cnf_frame_queue.dequeue().expect("frame decoded");
        assert_eq!(got.stx, f.stx, "length {}", len);
        assert_eq!(got.length, f.length, "length {}", len);
        assert_eq!(got.command, f.command, "length {}", len);
        assert_eq!(got.data.to_vec(), f.data.to_vec(), "length {}", len);
        assert_eq!(got.checksum, f.checksum, "length {}", len);
    }
}

#[test]
fn isr_reports_indication_overflow() {
    let mut isr = InterruptHandler::new();
    let mut g = Globals::new();
    let f = Frame::new(STX_03, 0, CMD_RESET_IND, payload(&[]));
    for _ in 0..8 {
        feed(&mut isr, &mut g, 0, &wire_bytes(&f));
        let _ = collect_tx(&mut isr, &mut g, 0);
    }
    // The ninth frame finds the queue full.
    let bytes = wire_bytes(&f);
    let mut fault = None;
    for &b in &bytes {
        if let Err(e) = isr.rx(&mut g, 0, b) {
            fault = Some(e);
        }
    }
    assert_eq!(fault, Some(IsrFault::IndQueueFull));
}

#[test]
fn isr_reports_transmit_without_frame() {
    let mut isr = InterruptHandler::new();
    let mut g = Globals::new();
    // A transmit-ready event with the signal raised but nothing queued
    // is the fault the firmware would treat as fatal.
    g.tx_active.set_signal();
    g.txe_listen = true;
    assert_eq!(
        isr.handle(&mut g, 0, None, true),
        Err(IsrFault::TxQueueEmpty)
    );
}

#[test]
fn isr_reports_confirmation_overflow() {
    let mut isr = InterruptHandler::new();
    let mut g = Globals::new();
    let f = Frame::new(STX_02, 0, CMD_DL_DATA_CNF, payload(&[]));
    for _ in 0..2 {
        feed(&mut isr, &mut g, 0, &wire_bytes(&f));
        let _ = collect_tx(&mut isr, &mut g, 0);
    }
    // The third confirmation finds the two-slot queue full.
    let mut fault = None;
    for &b in &wire_bytes(&f) {
        if let Err(e) = isr.rx(&mut g, 0, b) {
            fault = Some(e);
        }
    }
    assert_eq!(fault, Some(IsrFault::CnfQueueFull));
}
