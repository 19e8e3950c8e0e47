//! Leader/Follower sessions over a scripted link: the handshake that
//! carries one payload across, and the ping that keeps the link warm.

use tunnel_firmware::constants::{ACK, CMD_DL_DATA_CNF, CMD_DL_DATA_IND, STX_02, STX_03, STX_STATUS};
use tunnel_firmware::driver::{DSender, Driver};
use tunnel_firmware::frame::Frame;
use tunnel_firmware::globals::Globals;
use tunnel_firmware::isr::InterruptHandler;
use tunnel_firmware::payload::Payload;
use tunnel_firmware::plc::follower::{Follower, FollowerState};
use tunnel_firmware::plc::leader::{Leader, LeaderState};
use tunnel_firmware::types::StErr;

fn payload(bytes: &[u8]) -> Payload {
    Payload::from_vec(&bytes.to_vec()).unwrap()
}

fn feed(isr: &mut InterruptHandler, g: &mut Globals, now: u32, bytes: &[u8]) {
    for &b in bytes {
        isr.rx(g, now, b).unwrap();
    }
}

fn collect_tx(isr: &mut InterruptHandler, g: &mut Globals, now: u32) -> Vec<u8> {
    let mut out = Vec::new();
    while g.txe_listen {
        match isr.handle(g, now, None, true).unwrap() {
            Some(b) => out.push(b),
            None => {}
        }
    }
    out
}

fn wire_bytes(f: &Frame) -> Vec<u8> {
    let mut out = vec![f.stx, f.length, f.command];
    out.extend_from_slice(&f.data.to_vec());
    out.push((f.checksum & 0xff) as u8);
    out.push((f.checksum >> 8) as u8);
    out
}

/// Play the modem's half of one outgoing exchange: status, ack and
/// confirmation, with the interrupt codec in between. Returns the wire
/// image of the frame the session sent.
fn modem_accepts_exchange(
    isr: &mut InterruptHandler,
    g: &mut Globals,
    now: u32,
    poll: &mut dyn FnMut(&mut Globals, u32),
) -> Vec<u8> {
    // The sequencer asked for a status byte when it pulled the line low.
    assert!(!g.t_req_high);
    feed(isr, g, now, &[STX_STATUS, 0x00]);
    poll(g, now); // clean status: transmission starts
    let wire = collect_tx(isr, g, now);
    assert!(!wire.is_empty(), "a frame went out");
    poll(g, now); // frame-done observed, ack wait armed
    feed(isr, g, now, &[ACK]);
    poll(g, now); // ack observed, confirmation wait armed
    let cnf = Frame::new(STX_02, 0, CMD_DL_DATA_CNF, payload(&[]));
    feed(isr, g, now, &wire_bytes(&cnf));
    let ack_reply = collect_tx(isr, g, now);
    assert_eq!(ack_reply, vec![ACK]);
    poll(g, now); // confirmation consumed: exchange complete
    wire
}

/// The indication frame a receiving modem delivers for an over-the-air
/// payload: four link-metadata bytes, then the session bytes.
fn data_indication(session_bytes: &[u8]) -> Vec<u8> {
    let mut data = vec![0u8; 4];
    data.extend_from_slice(session_bytes);
    let f = Frame::new(
        STX_03,
        data.len() as u8,
        CMD_DL_DATA_IND,
        Payload::from_vec(&data).unwrap(),
    );
    wire_bytes(&f)
}

#[test]
fn leader_to_follower_handshake_delivers_payload() {
    // Leader side.
    let mut lg = Globals::new();
    let mut l_isr = InterruptHandler::new();
    let mut leader: Leader<true> = Leader::new(Driver::new(), DSender::new(), 0);
    // Follower side.
    let mut fg = Globals::new();
    let mut f_isr = InterruptHandler::new();
    let mut follower: Follower<true> = Follower::new(Driver::new(), DSender::new());
    follower.driver.set_ready_to_receive(&mut fg);

    let user_payload = vec![0xAA, 0xBB, 0xCC];
    assert!(leader.push_outbound(payload(&user_payload)));

    // The backoff armed at construction has elapsed by tick 10.
    leader.process(&mut lg, 10).unwrap();
    assert_eq!(leader.state, LeaderState::SendData);
    leader.process(&mut lg, 10).unwrap(); // line low, status requested

    let wire = modem_accepts_exchange(&mut l_isr, &mut lg, 10, &mut |g, now| {
        leader.process(g, now).unwrap();
    });
    assert_eq!(leader.state, LeaderState::Dispatch);

    // Over the air: the modem strips stx/length/command/opts/checksum
    // and hands the far side the session bytes as a data indication.
    let session_bytes = &wire[4..wire.len() - 2]; // drop header trio + opts, checksum
    assert_eq!(session_bytes[0], 0x01, "data header leads the payload");
    let ind = data_indication(session_bytes);
    feed(&mut f_isr, &mut fg, 20, &ind);
    let _ack = collect_tx(&mut f_isr, &mut fg, 20);

    follower.process(&mut fg, 20).unwrap();
    assert_eq!(follower.state, FollowerState::Wait);
    let got = follower.pop_inbound().expect("payload relayed");
    assert_eq!(got.to_vec(), user_payload);
    assert!(follower.pop_inbound().is_none(), "exactly one payload");
}

#[test]
fn ping_liveness_returns_to_dispatch_without_inbound_data() {
    let mut lg = Globals::new();
    let mut l_isr = InterruptHandler::new();
    let mut leader: Leader<true> = Leader::new(Driver::new(), DSender::new(), 0);
    leader.driver.set_ready_to_receive(&mut lg);

    // Nothing queued: the leader probes instead.
    leader.process(&mut lg, 10).unwrap();
    assert_eq!(leader.state, LeaderState::SendPing);
    leader.process(&mut lg, 10).unwrap();
    let wire = modem_accepts_exchange(&mut l_isr, &mut lg, 10, &mut |g, now| {
        leader.process(g, now).unwrap();
    });
    assert_eq!(leader.state, LeaderState::WaitPing);
    let session_bytes = &wire[4..wire.len() - 2];
    assert_eq!(session_bytes, &[0x02], "a bare ping went out");

    // The follower answers idle; the reply reaches the leader as a data
    // indication carrying just the idle header.
    let reply = data_indication(&[0x00]);
    feed(&mut l_isr, &mut lg, 30, &reply);
    let _ack = collect_tx(&mut l_isr, &mut lg, 30);
    leader.process(&mut lg, 30).unwrap();
    assert_eq!(leader.state, LeaderState::Dispatch);
    assert!(leader.pop_inbound().is_none(), "idle reply enqueued nothing");
}

#[test]
fn ping_wait_expires_back_to_dispatch() {
    let mut lg = Globals::new();
    let mut leader: Leader<true> = Leader::new(Driver::new(), DSender::new(), 0);
    let mut l_isr = InterruptHandler::new();
    leader.process(&mut lg, 10).unwrap();
    leader.process(&mut lg, 10).unwrap();
    let _wire = modem_accepts_exchange(&mut l_isr, &mut lg, 10, &mut |g, now| {
        leader.process(g, now).unwrap();
    });
    assert_eq!(leader.state, LeaderState::WaitPing);
    // No reply: one tick inside the 500 ms window, still waiting.
    leader.process(&mut lg, 509).unwrap();
    assert_eq!(leader.state, LeaderState::WaitPing);
    leader.process(&mut lg, 510).unwrap();
    assert_eq!(leader.state, LeaderState::Dispatch);
}

#[test]
fn one_way_leader_stays_idle_with_empty_queue() {
    let mut lg = Globals::new();
    let mut leader: Leader<false> = Leader::new(Driver::new(), DSender::new(), 0);
    leader.process(&mut lg, 10).unwrap();
    assert_eq!(leader.state, LeaderState::Dispatch);
    assert_eq!(lg.tx_frame_queue.len(), 0, "nothing was sent");
}

#[test]
fn follower_answers_ping_with_queued_data() {
    let mut fg = Globals::new();
    let mut f_isr = InterruptHandler::new();
    let mut follower: Follower<true> = Follower::new(Driver::new(), DSender::new());
    follower.driver.set_ready_to_receive(&mut fg);
    assert!(follower.push_outbound(payload(&[0x55, 0x66])));

    let ping = data_indication(&[0x02]);
    feed(&mut f_isr, &mut fg, 0, &ping);
    let _ack = collect_tx(&mut f_isr, &mut fg, 0);
    follower.process(&mut fg, 0).unwrap();
    assert_eq!(follower.state, FollowerState::Send);
    follower.process(&mut fg, 0).unwrap(); // line low, status requested

    let wire = modem_accepts_exchange(&mut f_isr, &mut fg, 1, &mut |g, now| {
        follower.process(g, now).unwrap();
    });
    assert_eq!(follower.state, FollowerState::Wait);
    let session_bytes = &wire[4..wire.len() - 2];
    assert_eq!(session_bytes, &[0x01, 0x55, 0x66], "data header plus payload");
}

#[test]
fn follower_answers_ping_with_idle_when_empty() {
    let mut fg = Globals::new();
    let mut f_isr = InterruptHandler::new();
    let mut follower: Follower<true> = Follower::new(Driver::new(), DSender::new());
    follower.driver.set_ready_to_receive(&mut fg);

    let ping = data_indication(&[0x02]);
    feed(&mut f_isr, &mut fg, 0, &ping);
    let _ack = collect_tx(&mut f_isr, &mut fg, 0);
    follower.process(&mut fg, 0).unwrap();
    assert_eq!(follower.state, FollowerState::Send);
    follower.process(&mut fg, 0).unwrap();
    let wire = modem_accepts_exchange(&mut f_isr, &mut fg, 1, &mut |g, now| {
        follower.process(g, now).unwrap();
    });
    let session_bytes = &wire[4..wire.len() - 2];
    assert_eq!(session_bytes, &[0x00], "a bare idle reply");
}

#[test]
fn follower_relays_data_frame() {
    let mut fg = Globals::new();
    let mut f_isr = InterruptHandler::new();
    let mut follower: Follower<true> = Follower::new(Driver::new(), DSender::new());
    follower.driver.set_ready_to_receive(&mut fg);
    let ind = data_indication(&[0x01, 1, 2, 3]);
    feed(&mut f_isr, &mut fg, 0, &ind);
    let _ack = collect_tx(&mut f_isr, &mut fg, 0);
    follower.process(&mut fg, 0).unwrap();
    assert_eq!(follower.pop_inbound().unwrap().to_vec(), vec![1, 2, 3]);
}

#[test]
fn follower_rejects_ping_in_one_way_mode() {
    let mut fg = Globals::new();
    let mut f_isr = InterruptHandler::new();
    let mut follower: Follower<false> = Follower::new(Driver::new(), DSender::new());
    follower.driver.set_ready_to_receive(&mut fg);
    let ping = data_indication(&[0x02]);
    feed(&mut f_isr, &mut fg, 0, &ping);
    let _ack = collect_tx(&mut f_isr, &mut fg, 0);
    assert_eq!(follower.process(&mut fg, 0), Err(StErr::UnexpectedFrame));
}

#[test]
fn leader_rejects_ping_reply_header() {
    let mut lg = Globals::new();
    let mut l_isr = InterruptHandler::new();
    let mut leader: Leader<true> = Leader::new(Driver::new(), DSender::new(), 0);
    leader.driver.set_ready_to_receive(&mut lg);
    leader.process(&mut lg, 10).unwrap();
    leader.process(&mut lg, 10).unwrap();
    let _wire = modem_accepts_exchange(&mut l_isr, &mut lg, 10, &mut |g, now| {
        leader.process(g, now).unwrap();
    });
    assert_eq!(leader.state, LeaderState::WaitPing);
    // A ping coming back at the leader violates the protocol.
    let bad = data_indication(&[0x02]);
    feed(&mut l_isr, &mut lg, 20, &bad);
    let _ack = collect_tx(&mut l_isr, &mut lg, 20);
    assert_eq!(leader.process(&mut lg, 20), Err(StErr::UnexpectedFrame));
}

#[test]
fn leader_discards_short_indication() {
    let mut lg = Globals::new();
    let mut l_isr = InterruptHandler::new();
    let mut leader: Leader<true> = Leader::new(Driver::new(), DSender::new(), 0);
    leader.process(&mut lg, 10).unwrap();
    leader.process(&mut lg, 10).unwrap();
    let _wire = modem_accepts_exchange(&mut l_isr, &mut lg, 10, &mut |g, now| {
        leader.process(g, now).unwrap();
    });
    assert_eq!(leader.state, LeaderState::WaitPing);
    // An indication too short to carry a session header is dropped.
    let f = Frame::new(STX_03, 2, CMD_DL_DATA_IND, payload(&[0, 0]));
    lg.ready_to_receive = true;
    feed(&mut l_isr, &mut lg, 20, &wire_bytes(&f));
    let _ack = collect_tx(&mut l_isr, &mut lg, 20);
    leader.process(&mut lg, 20).unwrap();
    assert_eq!(leader.state, LeaderState::Dispatch);
    assert!(leader.pop_inbound().is_none());
}
