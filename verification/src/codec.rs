//! The frame round trip: what the transmit machine puts on the wire,
//! the receive machine decodes back to the same frame.
//!
//! `frame_bytes` is the wire image of a frame; `tx_run` and `rx_run`
//! iterate the two step functions the interrupt-level codec is proved
//! to implement. The theorems here show that the transmit machine emits
//! exactly the wire image, and that feeding the wire image of any
//! well-formed frame to an idle receive machine reproduces the frame,
//! field for field, in the proper queue.

use vstd::prelude::*;
use vstd::arithmetic::div_mod::{lemma_add_mod_noop, lemma_add_mod_noop_right, lemma_small_mod};

use crate::constants::{is_indication_spec, CMD_RESET_IND, STX_02, STX_03};
use crate::frame::{lemma_sum_bytes_front, lemma_sum_bytes_nonneg, sum_bytes, FrameV};
use crate::globals::GlobalsV;
use crate::isr::{ic_armed, ic_cleared, rx_step, tx_step, IsrFault, IsrV, RxStep};
use crate::types::{RxIrqStatus, TxIrqStatus};

verus! {

/// The wire image of a frame: start byte, length, command, payload,
/// checksum little-endian.
pub open spec fn frame_bytes(f: FrameV) -> Seq<u8> {
    seq![f.stx, f.length, f.command] + f.data + seq![
        (f.checksum & 0xff) as u8,
        (f.checksum >> 8) as u8,
    ]
}

/// Run the receive machine over a byte sequence, stopping at the first
/// fault.
pub open spec fn rx_run(isr: IsrV, g: GlobalsV, now: u32, bytes: Seq<u8>) -> RxStep
    decreases bytes.len(),
{
    if bytes.len() == 0 {
        RxStep { isr, g, fault: None }
    } else {
        let s = rx_step(isr, g, now, bytes[0]);
        if s.fault is Some {
            s
        } else {
            rx_run(s.isr, s.g, now, bytes.skip(1))
        }
    }
}

/// A faultless run decomposes over concatenation.
pub proof fn lemma_rx_run_append(isr: IsrV, g: GlobalsV, now: u32, b1: Seq<u8>, b2: Seq<u8>)
    requires
        rx_run(isr, g, now, b1).fault is None,
    ensures
        rx_run(isr, g, now, b1 + b2) == rx_run(
            rx_run(isr, g, now, b1).isr,
            rx_run(isr, g, now, b1).g,
            now,
            b2,
        ),
    decreases b1.len(),
{
    if b1.len() == 0 {
        assert(b1 + b2 =~= b2);
    } else {
        let s = rx_step(isr, g, now, b1[0]);
        assert((b1 + b2)[0] == b1[0]);
        assert((b1 + b2).skip(1) =~= b1.skip(1) + b2);
        lemma_rx_run_append(s.isr, s.g, now, b1.skip(1), b2);
    }
}

/// Running the data phase: from the `Data` state, consuming the
/// remaining payload bytes accumulates them into the checksum and ends
/// at `ChecksumLsb`, touching nothing else.
pub proof fn lemma_rx_data_phase(isr: IsrV, g: GlobalsV, now: u32, rest: Seq<u8>)
    requires
        isr.rx_state is Data,
        isr.ic_timeout == ic_armed(now),
        isr.rx_frame.data.len() + rest.len() == isr.rx_frame.length,
        rest.len() > 0,
    ensures
        ({
            let r = rx_run(isr, g, now, rest);
            &&& r.fault is None
            &&& r.g == g
            &&& r.isr == (IsrV {
                rx_frame: FrameV { data: isr.rx_frame.data + rest, ..isr.rx_frame },
                rx_cksum: (((isr.rx_cksum + sum_bytes(rest)) % 0x10000) as u16),
                ic_timeout: ic_armed(now),
                rx_state: RxIrqStatus::ChecksumLsb,
                ..isr
            })
        }),
    decreases rest.len(),
{
    assert(!isr.ic_timeout.expired_at(now)) by {
        assert(crate::types::elapsed_ticks(now, now) == 0);
    }
    let c = rest[0];
    let s = rx_step(isr, g, now, c);
    lemma_sum_bytes_front(rest);
    lemma_sum_bytes_nonneg(rest.skip(1));
    if rest.len() == 1 {
        assert(isr.rx_frame.data.push(c) =~= isr.rx_frame.data + rest);
        assert(rest.skip(1) =~= Seq::<u8>::empty());
        lemma_small_mod(c as nat, 0x10000);
        assert(s.isr.rx_state is ChecksumLsb);
        assert(rx_run(isr, g, now, rest) == s);
        assert(s.isr =~~= (IsrV {
            rx_frame: FrameV { data: isr.rx_frame.data + rest, ..isr.rx_frame },
            rx_cksum: (((isr.rx_cksum + sum_bytes(rest)) % 0x10000) as u16),
            ic_timeout: ic_armed(now),
            rx_state: RxIrqStatus::ChecksumLsb,
            ..isr
        }));
    } else {
        assert(s.isr.rx_state is Data);
        assert(s.isr.rx_frame.data =~= isr.rx_frame.data.push(c));
        lemma_rx_data_phase(s.isr, s.g, now, rest.skip(1));
        let r = rx_run(isr, g, now, rest);
        assert(r == rx_run(s.isr, s.g, now, rest.skip(1)));
        assert(isr.rx_frame.data.push(c) + rest.skip(1) =~= isr.rx_frame.data + rest);
        // The checksum accumulates modulo 2^16 regardless of the order
        // the modulus is applied in.
        let m = 0x10000 as int;
        let x = isr.rx_cksum + c;
        let y = sum_bytes(rest.skip(1));
        assert(s.isr.rx_cksum == x % m);
        assert(r.isr.rx_cksum == ((x % m + y) % m) as u16);
        lemma_add_mod_noop_right(x % m, y, m);
        lemma_add_mod_noop(x, y, m);
        vstd::arithmetic::div_mod::lemma_mod_twice(x, m);
        assert((x % m + y) % m == (x % m + y % m) % m);
        assert(((x % m) % m + (y % m)) % m == (x + y) % m);
        assert((x % m + y) % m == (x + y) % m);
        assert(x + y == isr.rx_cksum + sum_bytes(rest));
        assert(r.isr =~~= (IsrV {
            rx_frame: FrameV { data: isr.rx_frame.data + rest, ..isr.rx_frame },
            rx_cksum: (((isr.rx_cksum + sum_bytes(rest)) % 0x10000) as u16),
            ic_timeout: ic_armed(now),
            rx_state: RxIrqStatus::ChecksumLsb,
            ..isr
        }));
    }
}

/// Feeding the wire image of a well-formed frame to an idle receive
/// machine reproduces the frame exactly: it lands, field for field, in
/// the indication queue when its command is an indication (and the
/// receiver admits it), in the confirmation queue otherwise, with a
/// positive ack pending — the frame-codec round trip.
pub proof fn lemma_frame_round_trip(isr: IsrV, g: GlobalsV, now: u32, f: FrameV)
    requires
        f.wf(),
        f.stx == STX_02 || f.stx == STX_03,
        isr.rx_state is FirstByte,
    ensures
        ({
            let r = rx_run(isr, g, now, frame_bytes(f));
            &&& r.isr.rx_state is FirstByte
            &&& r.isr.rx_frame == f
            &&& r.isr.ack_tx_value == Some(true)
            &&& r.isr.ic_timeout == ic_cleared()
            &&& r.isr.tx_state == isr.tx_state
            &&& r.isr.tx_cur_idx == isr.tx_cur_idx
            &&& r.isr.tx_frame == isr.tx_frame
            &&& r.g.tx_active
            &&& r.g.txe_listen
            &&& r.g.status_value == g.status_value
            &&& r.g.ack_rx_value == g.ack_rx_value
            &&& r.g.wait_ack == g.wait_ack
            &&& r.g.wait_status == g.wait_status
            &&& r.g.local_frame_tx == g.local_frame_tx
            &&& r.g.ready_to_receive == g.ready_to_receive
            &&& r.g.tx_q == g.tx_q
            &&& r.g.t_req_high == g.t_req_high
            &&& (if is_indication_spec(f.command) {
                if f.command == CMD_RESET_IND || g.ready_to_receive {
                    if g.ind_q.len() < 8 {
                        &&& r.fault is None
                        &&& r.g.ind_q == g.ind_q.push(f)
                        &&& r.g.cnf_q == g.cnf_q
                    } else {
                        r.fault == Some(IsrFault::IndQueueFull) && r.g.ind_q == g.ind_q
                            && r.g.cnf_q == g.cnf_q
                    }
                } else {
                    r.fault is None && r.g.ind_q == g.ind_q && r.g.cnf_q == g.cnf_q
                }
            } else {
                if g.cnf_q.len() < 2 {
                    &&& r.fault is None
                    &&& r.g.cnf_q == g.cnf_q.push(f)
                    &&& r.g.ind_q == g.ind_q
                } else {
                    r.fault == Some(IsrFault::CnfQueueFull) && r.g.cnf_q == g.cnf_q
                        && r.g.ind_q == g.ind_q
                }
            })
        }),
{
    let bytes = frame_bytes(f);
    let lsb = (f.checksum & 0xff) as u8;
    let msb = (f.checksum >> 8) as u8;

    // Byte one: the start byte opens a frame.
    assert(bytes[0] == f.stx);
    assert(f.stx != crate::constants::ACK && f.stx != crate::constants::NAK
        && f.stx != crate::constants::STX_STATUS);
    let s1 = rx_step(isr, g, now, f.stx);
    assert(s1.fault is None && s1.g == g);
    assert(s1.isr.rx_state is Length);
    assert(!s1.isr.ic_timeout.expired_at(now)) by {
        assert(crate::types::elapsed_ticks(now, now) == 0);
    }

    // Byte two: the length seeds the running checksum.
    assert(bytes.skip(1)[0] == f.length);
    let s2 = rx_step(s1.isr, g, now, f.length);
    assert(s2.fault is None && s2.g == g);
    assert(s2.isr.rx_state is Command);
    assert(s2.isr.rx_cksum == f.length as u16);

    // Byte three: the command joins the sum and the payload begins.
    assert(bytes.skip(2)[0] == f.command);
    let s3 = rx_step(s2.isr, g, now, f.command);
    assert(s3.fault is None && s3.g == g);
    lemma_small_mod((f.length + f.command) as nat, 0x10000);
    assert(s3.isr.rx_cksum == f.length + f.command);
    assert(s3.isr.rx_frame.data =~= Seq::<u8>::empty());

    let tail = seq![lsb, msb];
    // The machine state after the whole payload went through.
    let s4_isr = IsrV {
        rx_frame: FrameV {
            data: f.data,
            stx: f.stx,
            length: f.length,
            command: f.command,
            ..s3.isr.rx_frame
        },
        rx_cksum: (((f.length + f.command + sum_bytes(f.data)) % 0x10000) as u16),
        ic_timeout: ic_armed(now),
        rx_state: RxIrqStatus::ChecksumLsb,
        ..s3.isr
    };
    if f.length == 0 {
        assert(f.data.len() == 0);
        assert(sum_bytes(f.data) == 0);
        assert(s3.isr.rx_state is ChecksumLsb);
        assert(s3.isr =~~= s4_isr) by {
            assert(s3.isr.rx_frame.data =~= f.data);
            lemma_small_mod((f.length + f.command) as nat, 0x10000);
        }
        assert(bytes =~= seq![f.stx, f.length, f.command] + tail);
        assert(bytes.skip(3) =~= tail);
    } else {
        assert(s3.isr.rx_state is Data);
        assert(s3.isr.rx_frame.length == f.length);
        lemma_rx_data_phase(s3.isr, g, now, f.data);
        let rd = rx_run(s3.isr, g, now, f.data);
        assert(rd.fault is None && rd.g == g);
        assert(rd.isr =~~= s4_isr) by {
            assert(s3.isr.rx_frame.data + f.data =~= f.data);
        }
        assert(bytes.skip(3) =~= f.data + tail);
    }

    // The two checksum bytes close the frame and deliver it.
    assert(!s4_isr.ic_timeout.expired_at(now)) by {
        assert(crate::types::elapsed_ticks(now, now) == 0);
    }
    let s5 = rx_step(s4_isr, g, now, lsb);
    assert(s5.fault is None && s5.g == g);
    assert(s5.isr.rx_state is ChecksumMsb);
    assert(s5.isr.rx_frame.checksum == lsb as u16);
    assert(!s5.isr.ic_timeout.expired_at(now)) by {
        assert(crate::types::elapsed_ticks(now, now) == 0);
    }
    let s6 = rx_step(s5.isr, g, now, msb);

    // The reassembled checksum equals the sent field, and the sent
    // field equals the recomputed sum, so the frame is accepted.
    let ck = f.checksum;
    assert(((lsb as u16) | ((msb as u16) << 8)) == ck) by (bit_vector)
        requires
            lsb == (ck & 0xff) as u8,
            msb == (ck >> 8) as u8,
    ;
    lemma_sum_bytes_nonneg(f.data);
    assert(s4_isr.rx_cksum == ck) by {
        assert(f.checksum == crate::frame::checksum_spec(f.command, f.length, f.data));
    }
    assert(s6.isr.rx_frame =~~= f);

    // Stitch the runs together, one unfolding at a time.
    assert(rx_run(isr, g, now, bytes) == rx_run(s1.isr, g, now, bytes.skip(1)));
    assert(bytes.skip(1).skip(1) =~= bytes.skip(2));
    assert(rx_run(s1.isr, g, now, bytes.skip(1)) == rx_run(s2.isr, g, now, bytes.skip(2)));
    assert(bytes.skip(2).skip(1) =~= bytes.skip(3));
    assert(rx_run(s2.isr, g, now, bytes.skip(2)) == rx_run(s3.isr, g, now, bytes.skip(3)));
    if f.length == 0 {
        assert(bytes.skip(3) =~= tail);
        assert(rx_run(s3.isr, g, now, bytes.skip(3)) == rx_run(s4_isr, g, now, tail));
    } else {
        assert(bytes.skip(3) =~= f.data + tail);
        lemma_rx_run_append(s3.isr, g, now, f.data, tail);
        assert(rx_run(s3.isr, g, now, bytes.skip(3)) == rx_run(s4_isr, g, now, tail));
    }
    assert(tail[0] == lsb);
    assert(tail.skip(1) =~= seq![msb]);
    assert(rx_run(s4_isr, g, now, tail) == rx_run(s5.isr, g, now, seq![msb]));
    assert(seq![msb][0] == msb);
    assert(seq![msb].skip(1) =~= Seq::<u8>::empty());
    assert(rx_run(s5.isr, g, now, seq![msb]) == s6) by {
        if s6.fault is None {
            assert(rx_run(s6.isr, s6.g, now, Seq::<u8>::empty()) == (RxStep {
                isr: s6.isr,
                g: s6.g,
                fault: None,
            }));
            assert(s6 =~~= (RxStep { isr: s6.isr, g: s6.g, fault: None }));
        }
    }
}

/// Result of running the transmit machine: codec state, link state, the
/// bytes written to the UART in order, and a fault if the machine ran
/// dry.
#[verifier::ext_equal]
pub ghost struct TxRun {
    pub isr: IsrV,
    pub g: GlobalsV,
    pub written: Seq<u8>,
    pub fault: Option<IsrFault>,
}

/// Run the transmit machine for `n` ready events, collecting the bytes
/// written and stopping at the first fault.
pub open spec fn tx_run(isr: IsrV, g: GlobalsV, n: nat) -> TxRun
    decreases n,
{
    if n == 0 {
        TxRun { isr, g, written: Seq::<u8>::empty(), fault: None }
    } else {
        let s = tx_step(isr, g);
        let w = match s.wrote {
            Some(b) => seq![b],
            None => Seq::<u8>::empty(),
        };
        if s.fault is Some {
            TxRun { isr: s.isr, g: s.g, written: w, fault: s.fault }
        } else {
            let rest = tx_run(s.isr, s.g, (n - 1) as nat);
            TxRun { isr: rest.isr, g: rest.g, written: w + rest.written, fault: rest.fault }
        }
    }
}

/// From mid-payload to completion: the machine writes the remaining
/// payload bytes and the two checksum bytes, signals the frame sent,
/// and comes back to rest.
pub proof fn lemma_tx_tail(isr: IsrV, g: GlobalsV)
    requires
        isr.ack_tx_value is None,
        isr.tx_state is SendData,
        isr.tx_frame.data.len() == isr.tx_frame.length,
        isr.tx_cur_idx < isr.tx_frame.length,
    ensures
        ({
            let n = ((isr.tx_frame.length - isr.tx_cur_idx) + 3) as nat;
            let r = tx_run(isr, g, n);
            &&& r.fault is None
            &&& r.written =~= isr.tx_frame.data.skip(isr.tx_cur_idx as int) + seq![
                (isr.tx_frame.checksum & 0xff) as u8,
                (isr.tx_frame.checksum >> 8) as u8,
            ]
            &&& r.isr == (IsrV { tx_state: TxIrqStatus::SendStx, tx_cur_idx: 0, ..isr })
            &&& r.g == (GlobalsV { tx_active: true, local_frame_tx: true, txe_listen: false, ..g })
        }),
    decreases isr.tx_frame.length - isr.tx_cur_idx,
{
    let f = isr.tx_frame;
    let idx = isr.tx_cur_idx as int;
    let lsb = (f.checksum & 0xff) as u8;
    let msb = (f.checksum >> 8) as u8;
    let tail = seq![lsb, msb];
    let e = Seq::<u8>::empty();
    let n = ((f.length - isr.tx_cur_idx) + 3) as nat;
    let s = tx_step(isr, g);
    assert(s.fault is None && s.wrote == Some(f.data[idx]));
    if isr.tx_cur_idx + 1 == f.length {
        // Last payload byte, then checksum low, checksum high, done.
        assert(s.isr.tx_state is SendChecksumLsb);
        let s2 = tx_step(s.isr, s.g);
        let s3 = tx_step(s2.isr, s2.g);
        let s4 = tx_step(s3.isr, s3.g);
        assert(s2.wrote == Some(lsb) && s3.wrote == Some(msb) && s4.wrote is None);
        assert(tx_run(s4.isr, s4.g, 0) == (TxRun { isr: s4.isr, g: s4.g, written: e, fault: None }));
        assert(tx_run(s3.isr, s3.g, 1) == (TxRun { isr: s4.isr, g: s4.g, written: e, fault: None }))
            by {
            assert(tx_run(s4.isr, s4.g, 0) == (TxRun { isr: s4.isr, g: s4.g, written: e, fault: None }));
            assert(e + e =~= e);
        }
        assert(tx_run(s2.isr, s2.g, 2) == (TxRun {
            isr: s4.isr,
            g: s4.g,
            written: seq![msb],
            fault: None,
        })) by {
            assert(tx_run(s3.isr, s3.g, 1) == (TxRun { isr: s4.isr, g: s4.g, written: e, fault: None }))
                by {
                assert(tx_run(s4.isr, s4.g, 0) == (TxRun {
                    isr: s4.isr,
                    g: s4.g,
                    written: e,
                    fault: None,
                }));
                assert(e + e =~= e);
            }
            assert(seq![msb] + e =~= seq![msb]);
        }
        assert(tx_run(s.isr, s.g, 3) == (TxRun {
            isr: s4.isr,
            g: s4.g,
            written: tail,
            fault: None,
        })) by {
            assert(seq![lsb] + seq![msb] =~= tail);
        }
        assert(n == 4);
        let r = tx_run(isr, g, n);
        assert(r == (TxRun {
            isr: s4.isr,
            g: s4.g,
            written: seq![f.data[idx]] + tail,
            fault: None,
        }));
        assert(r.isr =~~= (IsrV { tx_state: TxIrqStatus::SendStx, tx_cur_idx: 0, ..isr }));
        assert(r.g =~~= (GlobalsV { tx_active: true, local_frame_tx: true, txe_listen: false, ..g }));
        assert(f.data.skip(idx) =~= seq![f.data[idx]]);
        assert(r.written =~= f.data.skip(idx) + tail);
    } else {
        assert(s.isr.tx_state is SendData);
        lemma_tx_tail(s.isr, s.g);
        let rest = tx_run(s.isr, s.g, ((s.isr.tx_frame.length - s.isr.tx_cur_idx) + 3) as nat);
        assert(((s.isr.tx_frame.length - s.isr.tx_cur_idx) + 3) as nat == (n - 1) as nat);
        assert(rest.fault is None);
        let r = tx_run(isr, g, n);
        assert(r == (TxRun {
            isr: rest.isr,
            g: rest.g,
            written: seq![f.data[idx]] + rest.written,
            fault: None,
        }));
        assert(r.isr =~~= (IsrV { tx_state: TxIrqStatus::SendStx, tx_cur_idx: 0, ..isr }));
        assert(r.g =~~= (GlobalsV { tx_active: true, local_frame_tx: true, txe_listen: false, ..g }));
        assert(f.data.skip(idx) =~= seq![f.data[idx]] + f.data.skip(idx + 1));
        assert(r.written =~= f.data.skip(idx) + tail);
    }
}

/// From rest with a frame queued, `6 + length` ready events emit
/// exactly the frame's wire image: the frame is dequeued, the
/// transmit-request line raised at the length byte, the sent signal
/// raised at the end, and the machine back at rest.
pub proof fn lemma_tx_emits_frame(isr: IsrV, g: GlobalsV, f: FrameV)
    requires
        isr.ack_tx_value is None,
        isr.tx_state is SendStx,
        isr.tx_cur_idx == 0,
        g.tx_q.len() > 0,
        g.tx_q[0] == f,
        f.data.len() == f.length,
    ensures
        ({
            let r = tx_run(isr, g, (6 + f.data.len()) as nat);
            &&& r.fault is None
            &&& r.written =~= frame_bytes(f)
            &&& r.isr == (IsrV { tx_frame: f, tx_state: TxIrqStatus::SendStx, tx_cur_idx: 0, ..isr })
            &&& r.g == (GlobalsV {
                tx_q: g.tx_q.skip(1),
                tx_active: true,
                local_frame_tx: true,
                txe_listen: false,
                t_req_high: true,
                ..g
            })
        }),
{
    let lsb = (f.checksum & 0xff) as u8;
    let msb = (f.checksum >> 8) as u8;
    let tail = seq![lsb, msb];
    let e = Seq::<u8>::empty();
    let s1 = tx_step(isr, g);
    assert(s1.fault is None && s1.wrote == Some(f.stx) && s1.isr.tx_frame == f);
    let s2 = tx_step(s1.isr, s1.g);
    assert(s2.fault is None && s2.wrote == Some(f.length));
    let s3 = tx_step(s2.isr, s2.g);
    assert(s3.fault is None && s3.wrote == Some(f.command));
    let r = tx_run(isr, g, (6 + f.data.len()) as nat);
    if f.length == 0 {
        // No payload: checksum low, checksum high, done.
        let s4 = tx_step(s3.isr, s3.g);
        let s5 = tx_step(s4.isr, s4.g);
        let s6 = tx_step(s5.isr, s5.g);
        assert(s4.wrote == Some(lsb) && s5.wrote == Some(msb) && s6.wrote is None);
        assert(tx_run(s6.isr, s6.g, 0) == (TxRun { isr: s6.isr, g: s6.g, written: e, fault: None }));
        assert(tx_run(s5.isr, s5.g, 1) == (TxRun { isr: s6.isr, g: s6.g, written: e, fault: None }))
            by {
            assert(tx_run(s6.isr, s6.g, 0) == (TxRun { isr: s6.isr, g: s6.g, written: e, fault: None }));
            assert(e + e =~= e);
        }
        assert(tx_run(s4.isr, s4.g, 2) == (TxRun {
            isr: s6.isr,
            g: s6.g,
            written: seq![msb],
            fault: None,
        })) by {
            assert(seq![msb] + e =~= seq![msb]);
        }
        assert(tx_run(s3.isr, s3.g, 3) == (TxRun {
            isr: s6.isr,
            g: s6.g,
            written: tail,
            fault: None,
        })) by {
            assert(seq![lsb] + seq![msb] =~= tail);
        }
        assert(tx_run(s2.isr, s2.g, 4) == (TxRun {
            isr: s6.isr,
            g: s6.g,
            written: seq![f.command] + tail,
            fault: None,
        }));
        assert(tx_run(s1.isr, s1.g, 5) == (TxRun {
            isr: s6.isr,
            g: s6.g,
            written: seq![f.length] + (seq![f.command] + tail),
            fault: None,
        }));
        assert((6 + f.data.len()) as nat == 6);
        assert(r == (TxRun {
            isr: s6.isr,
            g: s6.g,
            written: seq![f.stx] + (seq![f.length] + (seq![f.command] + tail)),
            fault: None,
        }));
        assert(r.isr =~~= (IsrV { tx_frame: f, tx_state: TxIrqStatus::SendStx, tx_cur_idx: 0, ..isr }));
        assert(r.g =~~= (GlobalsV {
            tx_q: g.tx_q.skip(1),
            tx_active: true,
            local_frame_tx: true,
            txe_listen: false,
            t_req_high: true,
            ..g
        }));
        assert(f.data =~= e);
        assert(r.written =~= frame_bytes(f));
    } else {
        assert(s3.isr.tx_state is SendData && s3.isr.tx_cur_idx == 0);
        lemma_tx_tail(s3.isr, s3.g);
        let rest = tx_run(s3.isr, s3.g, ((s3.isr.tx_frame.length - s3.isr.tx_cur_idx) + 3) as nat);
        assert(rest.fault is None);
        assert(((s3.isr.tx_frame.length - s3.isr.tx_cur_idx) + 3) as nat == (3 + f.data.len()) as nat);
        assert(rest.written =~= f.data + tail) by {
            assert(f.data.skip(0) =~= f.data);
        }
        assert(tx_run(s2.isr, s2.g, (4 + f.data.len()) as nat) == (TxRun {
            isr: rest.isr,
            g: rest.g,
            written: seq![f.command] + rest.written,
            fault: None,
        }));
        assert(tx_run(s1.isr, s1.g, (5 + f.data.len()) as nat) == (TxRun {
            isr: rest.isr,
            g: rest.g,
            written: seq![f.length] + (seq![f.command] + rest.written),
            fault: None,
        }));
        assert(r == (TxRun {
            isr: rest.isr,
            g: rest.g,
            written: seq![f.stx] + (seq![f.length] + (seq![f.command] + rest.written)),
            fault: None,
        }));
        assert(r.isr =~~= (IsrV { tx_frame: f, tx_state: TxIrqStatus::SendStx, tx_cur_idx: 0, ..isr }));
        assert(r.g =~~= (GlobalsV {
            tx_q: g.tx_q.skip(1),
            tx_active: true,
            local_frame_tx: true,
            txe_listen: false,
            t_req_high: true,
            ..g
        }));
        assert(r.written =~= frame_bytes(f));
    }
}

/// The frame codec round trip: the wire image one codec transmits for a
/// well-formed frame, decoded by an idle receiving codec, reproduces
/// the frame exactly in the receiver's queue, indication or
/// confirmation as its command demands.
pub proof fn lemma_codec_round_trip(
    tx_side: IsrV,
    gt: GlobalsV,
    rx_side: IsrV,
    gr: GlobalsV,
    now: u32,
    f: FrameV,
)
    requires
        f.wf(),
        f.stx == STX_02 || f.stx == STX_03,
        tx_side.ack_tx_value is None,
        tx_side.tx_state is SendStx,
        tx_side.tx_cur_idx == 0,
        gt.tx_q.len() > 0,
        gt.tx_q[0] == f,
        rx_side.rx_state is FirstByte,
        is_indication_spec(f.command) ==> (f.command == CMD_RESET_IND || gr.ready_to_receive)
            && gr.ind_q.len() < 8,
        !is_indication_spec(f.command) ==> gr.cnf_q.len() < 2,
    ensures
        ({
            let t = tx_run(tx_side, gt, (6 + f.data.len()) as nat);
            let r = rx_run(rx_side, gr, now, t.written);
            &&& t.fault is None
            &&& t.written == frame_bytes(f)
            &&& r.fault is None
            &&& r.isr.rx_frame == f
            &&& r.isr.ack_tx_value == Some(true)
            &&& (is_indication_spec(f.command) ==> r.g.ind_q == gr.ind_q.push(f))
            &&& (!is_indication_spec(f.command) ==> r.g.cnf_q == gr.cnf_q.push(f))
        }),
{
    lemma_tx_emits_frame(tx_side, gt, f);
    lemma_frame_round_trip(rx_side, gr, now, f);
}

} // verus!
