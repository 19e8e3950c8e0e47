//! Request builders and the half-duplex transmit sequencer, stage by
//! stage.

use tunnel_firmware::constants::{
    ACK, CMD_DL_DATA_CNF, CMD_DL_DATA_ERR, CMD_DL_DATA_REQ, CMD_MIB_ERASE_REQ, CMD_MIB_WRITE_REQ,
    CMD_PING_CNF, CMD_PING_REQ, CMD_RESET_REQ, NAK, STX_02, STX_STATUS,
};
use tunnel_firmware::driver::{DSender, Driver};
use tunnel_firmware::frame::Frame;
use tunnel_firmware::globals::Globals;
use tunnel_firmware::isr::InterruptHandler;
use tunnel_firmware::payload::Payload;
use tunnel_firmware::types::{NbStErr, StErr};

fn payload(bytes: &[u8]) -> Payload {
    Payload::from_vec(&bytes.to_vec()).unwrap()
}

fn would_block(r: Result<(), NbStErr>) {
    assert_eq!(r, Err(NbStErr::WouldBlock));
}

/// Feed bytes through the receive machine at a fixed tick.
fn feed(isr: &mut InterruptHandler, g: &mut Globals, now: u32, bytes: &[u8]) {
    for &b in bytes {
        isr.rx(g, now, b).unwrap();
    }
}

/// Drain the transmit machine, collecting the bytes it writes.
fn collect_tx(isr: &mut InterruptHandler, g: &mut Globals, now: u32) -> Vec<u8> {
    let mut out = Vec::new();
    while g.txe_listen {
        match isr.handle(g, now, None, true).unwrap() {
            Some(b) => out.push(b),
            None => {}
        }
    }
    out
}

/// An armed sequencer with a DL data request queued, polled once so it
/// is waiting for the status byte.
fn armed_sender(g: &mut Globals, now: u32) -> DSender {
    let mut driver = Driver::new();
    let mut sender = DSender::new();
    let tag = driver.dl_data(0x44, payload(&[1, 2, 3])).unwrap();
    sender.enqueue(g, tag).unwrap();
    would_block(sender.process(g, now));
    assert!(!g.t_req_high, "transmit-request line pulled low");
    assert!(g.wait_status.raised, "status byte requested");
    sender
}

#[test]
fn no_status_fails_exactly_at_timeout() {
    let mut g = Globals::new();
    let mut sender = armed_sender(&mut g, 1000);
    // One tick before the 200 ms status window closes: still waiting.
    would_block(sender.process(&mut g, 1199));
    // At the window edge: the failure, and only then.
    assert_eq!(
        sender.process(&mut g, 1200),
        Err(NbStErr::Other(StErr::TxErrNoStatus))
    );
    assert!(g.t_req_high, "line released after the failure");
    assert!(!sender.is_active(), "sequencer idle after the failure");
}

#[test]
fn busy_status_fails_immediately() {
    let mut g = Globals::new();
    let mut isr = InterruptHandler::new();
    let mut sender = armed_sender(&mut g, 0);
    feed(&mut isr, &mut g, 1, &[STX_STATUS, 0x06]);
    assert_eq!(
        sender.process(&mut g, 1),
        Err(NbStErr::Other(StErr::TxErrBusy))
    );
    assert!(g.t_req_high);
    assert!(!sender.is_active());
}

#[test]
fn missing_ack_fails_at_ack_timeout() {
    let mut g = Globals::new();
    let mut isr = InterruptHandler::new();
    let mut sender = armed_sender(&mut g, 0);
    feed(&mut isr, &mut g, 1, &[STX_STATUS, 0x00]);
    would_block(sender.process(&mut g, 1)); // clean status: transmission starts
    let _wire = collect_tx(&mut isr, &mut g, 1); // the frame leaves
    would_block(sender.process(&mut g, 2)); // frame-done seen, ack wait armed at 2
    would_block(sender.process(&mut g, 41)); // one tick before the 40 ms window
    assert_eq!(
        sender.process(&mut g, 42),
        Err(NbStErr::Other(StErr::TxErrAckTmo))
    );
    assert!(!sender.is_active());
}

#[test]
fn nak_fails_immediately() {
    let mut g = Globals::new();
    let mut isr = InterruptHandler::new();
    let mut sender = armed_sender(&mut g, 0);
    feed(&mut isr, &mut g, 1, &[STX_STATUS, 0x00]);
    would_block(sender.process(&mut g, 1));
    let _wire = collect_tx(&mut isr, &mut g, 1);
    would_block(sender.process(&mut g, 2)); // ack wait armed
    feed(&mut isr, &mut g, 3, &[NAK]);
    assert_eq!(
        sender.process(&mut g, 3),
        Err(NbStErr::Other(StErr::TxErrNak))
    );
    assert!(!sender.is_active());
}

#[test]
fn missing_confirmation_fails_at_command_timeout() {
    let mut g = Globals::new();
    let mut isr = InterruptHandler::new();
    let mut sender = armed_sender(&mut g, 0);
    feed(&mut isr, &mut g, 1, &[STX_STATUS, 0x00]);
    would_block(sender.process(&mut g, 1));
    let _wire = collect_tx(&mut isr, &mut g, 1);
    would_block(sender.process(&mut g, 2));
    feed(&mut isr, &mut g, 3, &[ACK]);
    would_block(sender.process(&mut g, 3)); // confirmation wait armed at 3
    would_block(sender.process(&mut g, 4002)); // one tick before the 4000 ms window
    assert_eq!(
        sender.process(&mut g, 4003),
        Err(NbStErr::Other(StErr::ErrTimeout))
    );
    assert!(!sender.is_active());
}

#[test]
fn happy_path_returns_ok() {
    let mut g = Globals::new();
    let mut isr = InterruptHandler::new();
    let mut sender = armed_sender(&mut g, 0);
    feed(&mut isr, &mut g, 1, &[STX_STATUS, 0x00]);
    would_block(sender.process(&mut g, 1));
    let wire = collect_tx(&mut isr, &mut g, 1);
    assert_eq!(wire[0], STX_02);
    assert_eq!(wire[2], CMD_DL_DATA_REQ);
    would_block(sender.process(&mut g, 2));
    feed(&mut isr, &mut g, 3, &[ACK]);
    would_block(sender.process(&mut g, 3));
    // The confirmation frame arrives over the wire.
    let cnf = Frame::new(STX_02, 0, CMD_DL_DATA_CNF, payload(&[]));
    let cnf_bytes = {
        let mut v = vec![cnf.stx, cnf.length, cnf.command];
        v.push((cnf.checksum & 0xff) as u8);
        v.push((cnf.checksum >> 8) as u8);
        v
    };
    feed(&mut isr, &mut g, 4, &cnf_bytes);
    let _ack_reply = collect_tx(&mut isr, &mut g, 4);
    assert_eq!(sender.process(&mut g, 4), Ok(()));
    assert!(!sender.is_active());
}

#[test]
fn error_confirmation_carries_wire_code() {
    let mut g = Globals::new();
    let mut sender = {
        let mut driver = Driver::new();
        let mut s = DSender::new();
        let tag = driver.dl_data(0x44, payload(&[1])).unwrap();
        s.enqueue(&mut g, tag).unwrap();
        s
    };
    let mut isr = InterruptHandler::new();
    would_block(sender.process(&mut g, 0));
    feed(&mut isr, &mut g, 1, &[STX_STATUS, 0x00]);
    would_block(sender.process(&mut g, 1));
    g.local_frame_tx.set_signal();
    g.tx_frame_queue.dequeue(); // the codec would have consumed it
    would_block(sender.process(&mut g, 2));
    feed(&mut isr, &mut g, 3, &[ACK]);
    would_block(sender.process(&mut g, 3));
    // An error confirmation whose first byte is the ErrArgs wire code.
    let err = Frame::new(STX_02, 1, CMD_DL_DATA_ERR, payload(&[0xFA]));
    g.cnf_frame_queue.enqueue(err).ok().unwrap();
    assert_eq!(
        sender.process(&mut g, 4),
        Err(NbStErr::Other(StErr::ErrArgs))
    );
}

#[test]
fn wrong_confirmation_command_is_err_confirm() {
    let mut g = Globals::new();
    let mut sender = {
        let mut driver = Driver::new();
        let mut s = DSender::new();
        let tag = driver.dl_data(0x44, payload(&[1])).unwrap();
        s.enqueue(&mut g, tag).unwrap();
        s
    };
    let mut isr = InterruptHandler::new();
    would_block(sender.process(&mut g, 0));
    feed(&mut isr, &mut g, 1, &[STX_STATUS, 0x00]);
    would_block(sender.process(&mut g, 1));
    g.local_frame_tx.set_signal();
    g.tx_frame_queue.dequeue();
    would_block(sender.process(&mut g, 2));
    feed(&mut isr, &mut g, 3, &[ACK]);
    would_block(sender.process(&mut g, 3));
    let other = Frame::new(STX_02, 0, CMD_PING_CNF, payload(&[]));
    g.cnf_frame_queue.enqueue(other).ok().unwrap();
    assert_eq!(
        sender.process(&mut g, 4),
        Err(NbStErr::Other(StErr::ErrConfirm))
    );
}

#[test]
fn ping_echo_mismatch_is_err_ping() {
    let mut g = Globals::new();
    let mut driver = Driver::new();
    let mut sender = DSender::new();
    let tag = driver.ping(payload(&[0x11, 0x22])).unwrap();
    sender.enqueue(&mut g, tag).unwrap();
    let mut isr = InterruptHandler::new();
    would_block(sender.process(&mut g, 0));
    feed(&mut isr, &mut g, 1, &[STX_STATUS, 0x00]);
    would_block(sender.process(&mut g, 1));
    g.local_frame_tx.set_signal();
    g.tx_frame_queue.dequeue();
    would_block(sender.process(&mut g, 2));
    feed(&mut isr, &mut g, 3, &[ACK]);
    would_block(sender.process(&mut g, 3));
    // The modem echoes the wrong bytes.
    let cnf = Frame::new(STX_02, 2, CMD_PING_CNF, payload(&[0x11, 0x23]));
    g.cnf_frame_queue.enqueue(cnf).ok().unwrap();
    assert_eq!(sender.process(&mut g, 4), Err(NbStErr::Other(StErr::ErrPing)));
}

#[test]
fn ping_exact_echo_is_ok() {
    let mut g = Globals::new();
    let mut driver = Driver::new();
    let mut sender = DSender::new();
    let tag = driver.ping(payload(&[0x11, 0x22])).unwrap();
    sender.enqueue(&mut g, tag).unwrap();
    let mut isr = InterruptHandler::new();
    would_block(sender.process(&mut g, 0));
    feed(&mut isr, &mut g, 1, &[STX_STATUS, 0x00]);
    would_block(sender.process(&mut g, 1));
    g.local_frame_tx.set_signal();
    g.tx_frame_queue.dequeue();
    would_block(sender.process(&mut g, 2));
    feed(&mut isr, &mut g, 3, &[ACK]);
    would_block(sender.process(&mut g, 3));
    let cnf = Frame::new(STX_02, 2, CMD_PING_CNF, payload(&[0x11, 0x22]));
    g.cnf_frame_queue.enqueue(cnf).ok().unwrap();
    assert_eq!(sender.process(&mut g, 4), Ok(()));
}

#[test]
fn dl_data_boundary_242_and_243() {
    let mut driver = Driver::new();
    let ok = driver.dl_data(0x44, payload(&vec![0u8; 242]));
    assert!(ok.is_ok());
    let t = ok.unwrap();
    assert_eq!(t.0.length, 243);
    assert_eq!(t.0.command, CMD_DL_DATA_REQ);
    let err = driver.dl_data(0x44, payload(&vec![0u8; 243]));
    assert!(matches!(err, Err(StErr::ErrArgs)));
}

#[test]
fn phy_data_boundary_250_and_251() {
    let mut driver = Driver::new();
    let ok = driver.phy_data(0x44, payload(&vec![0u8; 250]));
    assert!(ok.is_ok());
    assert_eq!(ok.unwrap().0.length, 251);
    let err = driver.phy_data(0x44, payload(&vec![0u8; 251]));
    assert!(matches!(err, Err(StErr::ErrArgs)));
}

#[test]
fn builders_produce_expected_frames() {
    let mut driver = Driver::new();
    let r = driver.reset().unwrap();
    assert_eq!(r.0.stx, STX_02);
    assert_eq!(r.0.length, 0);
    assert_eq!(r.0.command, CMD_RESET_REQ);

    let w = driver.mib_write(0x01, &payload(&[0xAB, 0xCD])).unwrap();
    assert_eq!(w.0.length, 3);
    assert_eq!(w.0.command, CMD_MIB_WRITE_REQ);
    assert_eq!(w.0.data.to_vec(), vec![0x01, 0xAB, 0xCD]);

    let e = driver.mib_erase(0x07).unwrap();
    assert_eq!(e.0.length, 1);
    assert_eq!(e.0.command, CMD_MIB_ERASE_REQ);
    assert_eq!(e.0.data.to_vec(), vec![0x07]);

    let p = driver.ping(payload(&[9, 9])).unwrap();
    assert_eq!(p.0.length, 2);
    assert_eq!(p.0.command, CMD_PING_REQ);
    assert_eq!(p.0.data.to_vec(), vec![9, 9]);

    let d = driver.dl_data(0x44, payload(&[5])).unwrap();
    assert_eq!(d.0.data.to_vec(), vec![0x44, 5]);
}

#[test]
fn mib_write_oversize_is_err_args() {
    let mut driver = Driver::new();
    let r = driver.mib_write(0x01, &payload(&vec![0u8; 255]));
    assert!(matches!(r, Err(StErr::ErrArgs)));
}

#[test]
fn enqueue_refused_when_slot_doubly_occupied() {
    let mut g = Globals::new();
    let mut driver = Driver::new();
    let mut sender = DSender::new();
    // Two stale frames already sit in the outgoing queue.
    g.tx_frame_queue
        .enqueue(Frame::new(STX_02, 0, CMD_RESET_REQ, payload(&[])))
        .ok()
        .unwrap();
    g.tx_frame_queue
        .enqueue(Frame::new(STX_02, 0, CMD_RESET_REQ, payload(&[])))
        .ok()
        .unwrap();
    let tag = driver.dl_data(0x44, payload(&[1])).unwrap();
    assert_eq!(sender.enqueue(&mut g, tag), Err(StErr::TxInProgress));
}

#[test]
fn failed_attempt_drains_unsent_frame() {
    let mut g = Globals::new();
    let mut sender = armed_sender(&mut g, 0);
    assert_eq!(g.tx_frame_queue.len(), 1);
    assert_eq!(
        sender.process(&mut g, 200),
        Err(NbStErr::Other(StErr::TxErrNoStatus))
    );
    assert_eq!(g.tx_frame_queue.len(), 0, "stale frame drained");
    // The sequencer accepts a fresh request immediately.
    let mut driver = Driver::new();
    let tag = driver.dl_data(0x44, payload(&[1])).unwrap();
    assert!(sender.enqueue(&mut g, tag).is_ok());
}

#[test]
fn reset_poll_recognises_reset_indication() {
    let mut g = Globals::new();
    let mut driver = Driver::new();
    let mut isr = InterruptHandler::new();
    assert!(!driver.poll_reset_indication(&mut g));
    let f = Frame::new(
        tunnel_firmware::constants::STX_03,
        0,
        tunnel_firmware::constants::CMD_RESET_IND,
        payload(&[]),
    );
    let bytes = vec![
        f.stx,
        f.length,
        f.command,
        (f.checksum & 0xff) as u8,
        (f.checksum >> 8) as u8,
    ];
    feed(&mut isr, &mut g, 0, &bytes);
    assert!(driver.poll_reset_indication(&mut g));
}
