//! Interrupt-level frame codec: the byte-at-a-time receive and transmit
//! state machines driven by UART events.
//!
//! Each invocation handles one received byte and/or emits one byte to
//! transmit; the UART itself stays outside, so the received byte and the
//! current tick count come in as arguments and the byte to write goes
//! out as the result. The exact behaviour of each step is captured by
//! the `rx_step` and `tx_step` specification functions, which the
//! executable code is proved to implement; the frame round-trip theorem
//! builds on those.

use vstd::prelude::*;

use crate::constants::{
    is_indication_spec, AckValue, IndicationValue, ACK, CMD_RESET_IND, IC_TMO, NAK, STX_02,
    STX_03, STX_STATUS,
};
use crate::frame::{sum_bytes, Frame, FrameV};
use crate::globals::{Globals, GlobalsV, QUEUE_SIZE};
use crate::types::{RxIrqStatus, Timeout, TxIrqStatus};

verus! {

/// A condition the running firmware treats as a fatal design error: a
/// cross-context queue overflowed or the transmit machine ran without a
/// frame. The codec reports it to the caller instead of aborting.
#[derive(Debug, Clone, Copy, PartialEq, Eq, Structural)]
pub enum IsrFault {
    IndQueueFull,
    CnfQueueFull,
    StatusQueueFull,
    AckQueueFull,
    TxQueueEmpty,
}

/// Ghost image of the codec state.
#[verifier::ext_equal]
pub ghost struct IsrV {
    pub ic_timeout: Timeout,
    pub rx_state: RxIrqStatus,
    pub rx_cksum: u16,
    pub rx_frame: FrameV,
    pub ack_tx_value: Option<bool>,
    pub tx_state: TxIrqStatus,
    pub tx_cur_idx: u8,
    pub tx_frame: FrameV,
}

/// Result of one receive step: codec state, link state and a fault if a
/// queue overflowed.
#[verifier::ext_equal]
pub ghost struct RxStep {
    pub isr: IsrV,
    pub g: GlobalsV,
    pub fault: Option<IsrFault>,
}

/// Result of one transmit step: codec state, link state, the byte
/// written to the UART if any, and a fault if no frame was queued.
#[verifier::ext_equal]
pub ghost struct TxStep {
    pub isr: IsrV,
    pub g: GlobalsV,
    pub wrote: Option<u8>,
    pub fault: Option<IsrFault>,
}

/// The inter-character timeout freshly armed at `now`.
pub open spec fn ic_armed(now: u32) -> Timeout {
    Timeout { armed: true, tmo: IC_TMO, tmo_start_time: now }
}

/// A disarmed timeout.
pub open spec fn ic_cleared() -> Timeout {
    Timeout { armed: false, tmo: 0, tmo_start_time: 0 }
}

/// One step of the receive state machine on byte `c` at tick `now`.
///
/// An expired inter-character timeout first abandons any partial frame;
/// then the byte is dispatched on the current state exactly as the
/// interrupt handler does: ack/nak and status bytes feed the sequencer's
/// slots, start bytes open a frame, and a completed frame with a valid
/// checksum is routed to the indication or confirmation queue.
pub open spec fn rx_step(isr0: IsrV, g: GlobalsV, now: u32, c: u8) -> RxStep {
    let isr = if isr0.ic_timeout.expired_at(now) {
        IsrV { rx_state: RxIrqStatus::FirstByte, ..isr0 }
    } else {
        isr0
    };
    match isr.rx_state {
        RxIrqStatus::FirstByte => {
            if (c == ACK || c == NAK) && g.wait_ack {
                if g.ack_rx_value.len() < 2 {
                    RxStep {
                        isr,
                        g: GlobalsV { wait_ack: false, ack_rx_value: g.ack_rx_value.push(c), ..g },
                        fault: None,
                    }
                } else {
                    RxStep {
                        isr,
                        g: GlobalsV { wait_ack: false, ..g },
                        fault: Some(IsrFault::AckQueueFull),
                    }
                }
            } else if c == ACK || c == NAK {
                RxStep { isr, g: GlobalsV { wait_status: false, ..g }, fault: None }
            } else if c == STX_02 || c == STX_03 {
                RxStep {
                    isr: IsrV {
                        rx_frame: FrameV { stx: c, ..isr.rx_frame },
                        ic_timeout: ic_armed(now),
                        rx_state: RxIrqStatus::Length,
                        ..isr
                    },
                    g,
                    fault: None,
                }
            } else if c == STX_STATUS && g.wait_status {
                RxStep {
                    isr: IsrV { ic_timeout: ic_armed(now), rx_state: RxIrqStatus::StatusValue, ..isr },
                    g: GlobalsV { wait_status: false, ..g },
                    fault: None,
                }
            } else if c == STX_STATUS {
                RxStep { isr, g: GlobalsV { wait_ack: false, ..g }, fault: None }
            } else {
                RxStep { isr, g: GlobalsV { wait_status: false, wait_ack: false, ..g }, fault: None }
            }
        },
        RxIrqStatus::StatusValue => {
            let isr2 = IsrV { ic_timeout: ic_cleared(), rx_state: RxIrqStatus::FirstByte, ..isr };
            if g.status_value.len() < 2 {
                RxStep { isr: isr2, g: GlobalsV { status_value: g.status_value.push(c), ..g }, fault: None }
            } else {
                RxStep { isr: isr2, g, fault: Some(IsrFault::StatusQueueFull) }
            }
        },
        RxIrqStatus::Length => {
            RxStep {
                isr: IsrV {
                    rx_frame: FrameV { length: c, ..isr.rx_frame },
                    rx_cksum: c as u16,
                    ic_timeout: ic_armed(now),
                    rx_state: RxIrqStatus::Command,
                    ..isr
                },
                g,
                fault: None,
            }
        },
        RxIrqStatus::Command => {
            RxStep {
                isr: IsrV {
                    rx_frame: FrameV { command: c, data: Seq::<u8>::empty(), ..isr.rx_frame },
                    rx_cksum: (((isr.rx_cksum + c) % 0x10000) as u16),
                    ic_timeout: ic_armed(now),
                    rx_state: if isr.rx_frame.length == 0 {
                        RxIrqStatus::ChecksumLsb
                    } else {
                        RxIrqStatus::Data
                    },
                    ..isr
                },
                g,
                fault: None,
            }
        },
        RxIrqStatus::Data => {
            let data2 = isr.rx_frame.data.push(c);
            RxStep {
                isr: IsrV {
                    rx_frame: FrameV { data: data2, ..isr.rx_frame },
                    rx_cksum: (((isr.rx_cksum + c) % 0x10000) as u16),
                    ic_timeout: ic_armed(now),
                    rx_state: if isr.rx_frame.length == data2.len() {
                        RxIrqStatus::ChecksumLsb
                    } else {
                        RxIrqStatus::Data
                    },
                    ..isr
                },
                g,
                fault: None,
            }
        },
        RxIrqStatus::ChecksumLsb => {
            RxStep {
                isr: IsrV {
                    rx_frame: FrameV { checksum: c as u16, ..isr.rx_frame },
                    ic_timeout: ic_armed(now),
                    rx_state: RxIrqStatus::ChecksumMsb,
                    ..isr
                },
                g,
                fault: None,
            }
        },
        RxIrqStatus::ChecksumMsb => {
            let ck = (isr.rx_frame.checksum | ((c as u16) << 8)) as u16;
            let frame2 = FrameV { checksum: ck, ..isr.rx_frame };
            let valid = ck == isr.rx_cksum;
            let isr2 = IsrV {
                rx_frame: frame2,
                ack_tx_value: Some(valid),
                ic_timeout: ic_cleared(),
                rx_state: RxIrqStatus::FirstByte,
                ..isr
            };
            let g2 = GlobalsV { tx_active: true, txe_listen: true, ..g };
            if !valid {
                RxStep { isr: isr2, g: g2, fault: None }
            } else if is_indication_spec(frame2.command) {
                if frame2.command == CMD_RESET_IND || g.ready_to_receive {
                    if g.ind_q.len() < QUEUE_SIZE {
                        RxStep { isr: isr2, g: GlobalsV { ind_q: g2.ind_q.push(frame2), ..g2 }, fault: None }
                    } else {
                        RxStep { isr: isr2, g: g2, fault: Some(IsrFault::IndQueueFull) }
                    }
                } else {
                    RxStep { isr: isr2, g: g2, fault: None }
                }
            } else {
                if g.cnf_q.len() < 2 {
                    RxStep { isr: isr2, g: GlobalsV { cnf_q: g2.cnf_q.push(frame2), ..g2 }, fault: None }
                } else {
                    RxStep { isr: isr2, g: g2, fault: Some(IsrFault::CnfQueueFull) }
                }
            }
        },
    }
}

/// One step of the transmit state machine.
///
/// A pending ack/nak reply is sent first and alone; otherwise the
/// machine emits the next byte of the dequeued outgoing frame, raising
/// the transmit-request line when the length goes out and signalling
/// frame completion after the checksum.
pub open spec fn tx_step(isr: IsrV, g: GlobalsV) -> TxStep {
    if isr.ack_tx_value is Some {
        TxStep {
            isr: IsrV { ack_tx_value: None, ..isr },
            g: GlobalsV { txe_listen: false, ..g },
            wrote: Some(crate::constants::ack_byte_spec(isr.ack_tx_value->0)),
            fault: None,
        }
    } else {
        let g1 = if !(isr.tx_state is TxDone) {
            GlobalsV { tx_active: true, ..g }
        } else {
            g
        };
        match isr.tx_state {
            TxIrqStatus::SendStx => {
                if g1.tx_q.len() == 0 {
                    TxStep { isr, g: g1, wrote: None, fault: Some(IsrFault::TxQueueEmpty) }
                } else {
                    let f = g1.tx_q[0];
                    TxStep {
                        isr: IsrV { tx_frame: f, tx_state: TxIrqStatus::SendLength, ..isr },
                        g: GlobalsV { tx_q: g1.tx_q.skip(1), ..g1 },
                        wrote: Some(f.stx),
                        fault: None,
                    }
                }
            },
            TxIrqStatus::SendLength => {
                TxStep {
                    isr: IsrV { tx_state: TxIrqStatus::SendCommand, ..isr },
                    g: GlobalsV { t_req_high: true, ..g1 },
                    wrote: Some(isr.tx_frame.length),
                    fault: None,
                }
            },
            TxIrqStatus::SendCommand => {
                TxStep {
                    isr: IsrV {
                        tx_state: if isr.tx_frame.length == 0 {
                            TxIrqStatus::SendChecksumLsb
                        } else {
                            TxIrqStatus::SendData
                        },
                        ..isr
                    },
                    g: g1,
                    wrote: Some(isr.tx_frame.command),
                    fault: None,
                }
            },
            TxIrqStatus::SendData => {
                let idx2 = (isr.tx_cur_idx + 1) as u8;
                TxStep {
                    isr: IsrV {
                        tx_cur_idx: idx2,
                        tx_state: if isr.tx_frame.length == idx2 {
                            TxIrqStatus::SendChecksumLsb
                        } else {
                            TxIrqStatus::SendData
                        },
                        ..isr
                    },
                    g: g1,
                    wrote: Some(isr.tx_frame.data[isr.tx_cur_idx as int]),
                    fault: None,
                }
            },
            TxIrqStatus::SendChecksumLsb => {
                TxStep {
                    isr: IsrV { tx_state: TxIrqStatus::SendChecksumMsb, ..isr },
                    g: g1,
                    wrote: Some((isr.tx_frame.checksum & 0xff) as u8),
                    fault: None,
                }
            },
            TxIrqStatus::SendChecksumMsb => {
                TxStep {
                    isr: IsrV { tx_state: TxIrqStatus::TxDone, ..isr },
                    g: g1,
                    wrote: Some((isr.tx_frame.checksum >> 8) as u8),
                    fault: None,
                }
            },
            TxIrqStatus::TxDone => {
                TxStep {
                    isr: IsrV { tx_state: TxIrqStatus::SendStx, tx_cur_idx: 0, ..isr },
                    g: GlobalsV { txe_listen: false, local_frame_tx: true, ..g1 },
                    wrote: None,
                    fault: None,
                }
            },
        }
    }
}

/// One whole interrupt: the receive step on the delivered byte, if any,
/// then — when transmit-ready fired — one transmit step, gated on and
/// consuming the transmit-active signal.
pub open spec fn handle_step(
    isr: IsrV,
    g: GlobalsV,
    now: u32,
    rx_byte: Option<u8>,
    tx_ready: bool,
) -> TxStep {
    let r1 = match rx_byte {
        Some(c) => rx_step(isr, g, now, c),
        None => RxStep { isr, g, fault: None },
    };
    if r1.fault is Some {
        TxStep { isr: r1.isr, g: r1.g, wrote: None, fault: r1.fault }
    } else if tx_ready && r1.g.tx_active {
        tx_step(r1.isr, GlobalsV { tx_active: false, ..r1.g })
    } else {
        TxStep { isr: r1.isr, g: r1.g, wrote: None, fault: None }
    }
}

/// Receive-side well-formedness: in mid-frame states the running
/// checksum really is the sum over the bytes received so far, and the
/// payload never outruns the announced length.
pub open spec fn isr_rx_wf(v: IsrV) -> bool {
    &&& (v.rx_state is Command ==> v.rx_cksum == v.rx_frame.length)
    &&& (v.rx_state is Data ==> {
        &&& v.rx_frame.data.len() < v.rx_frame.length
        &&& v.rx_cksum == v.rx_frame.command + v.rx_frame.length + sum_bytes(v.rx_frame.data)
    })
    &&& ((v.rx_state is ChecksumLsb || v.rx_state is ChecksumMsb) ==> {
        &&& v.rx_frame.data.len() == v.rx_frame.length
        &&& v.rx_cksum == v.rx_frame.command + v.rx_frame.length + sum_bytes(v.rx_frame.data)
    })
}

/// Transmit-side well-formedness: the byte index stays inside the frame
/// being sent, whose announced length matches its payload.
pub open spec fn isr_tx_wf(v: IsrV) -> bool {
    &&& ((v.tx_state is SendStx || v.tx_state is SendLength || v.tx_state is SendCommand)
        ==> v.tx_cur_idx == 0)
    &&& ((v.tx_state is SendLength || v.tx_state is SendCommand || v.tx_state is SendData
        || v.tx_state is SendChecksumLsb || v.tx_state is SendChecksumMsb)
        ==> v.tx_frame.data.len() == v.tx_frame.length)
    &&& (v.tx_state is SendData ==> v.tx_cur_idx < v.tx_frame.length)
}

/// Sum of a byte sequence is at most 255 per byte.
pub proof fn lemma_sum_bytes_le(data: Seq<u8>)
    ensures
        sum_bytes(data) <= 255 * data.len(),
    decreases data.len(),
{
    if data.len() > 0 {
        lemma_sum_bytes_le(data.drop_last());
    }
}

/// The interrupt-level codec state: receive machine, transmit machine,
/// and the pending ack/nak reply connecting them.
pub struct InterruptHandler {
    pub ic_timeout: Timeout,
    pub rx_state: RxIrqStatus,
    pub rx_cksum: u16,
    pub rx_frame: Frame,
    pub ack_tx_value: Option<bool>,
    pub tx_state: TxIrqStatus,
    pub tx_cur_idx: u8,
    pub tx_frame: Frame,
}

impl View for InterruptHandler {
    type V = IsrV;

    open spec fn view(&self) -> IsrV {
        IsrV {
            ic_timeout: self.ic_timeout,
            rx_state: self.rx_state,
            rx_cksum: self.rx_cksum,
            rx_frame: self.rx_frame@,
            ack_tx_value: self.ack_tx_value,
            tx_state: self.tx_state,
            tx_cur_idx: self.tx_cur_idx,
            tx_frame: self.tx_frame@,
        }
    }
}

impl InterruptHandler {
    pub open spec fn wf(self) -> bool {
        isr_rx_wf(self@) && isr_tx_wf(self@)
    }

    /// A fresh codec: both machines idle, nothing pending.
    pub fn new() -> (r: InterruptHandler)
        ensures
            r.wf(),
            r@.rx_state is FirstByte,
            r@.tx_state is SendStx,
            r@.ack_tx_value is None,
            r@.tx_cur_idx == 0,
            !r@.ic_timeout.armed,
    {
        InterruptHandler {
            ic_timeout: Timeout::default(),
            rx_state: RxIrqStatus::FirstByte,
            rx_cksum: 0,
            rx_frame: Frame::empty(),
            ack_tx_value: None,
            tx_state: TxIrqStatus::SendStx,
            tx_cur_idx: 0,
            tx_frame: Frame::empty(),
        }
    }

    /// Process one received byte `c` at tick `now`, exactly as `rx_step`
    /// describes.
    #[verifier::rlimit(100)]
    pub fn rx(&mut self, g: &mut Globals, now: u32, c: u8) -> (r: Result<(), IsrFault>)
        requires
            old(self).wf(),
            old(g).inv(),
        ensures
            final(self).wf(),
            final(g).inv(),
            ({
                let s = rx_step(old(self)@, old(g)@, now, c);
                &&& final(self)@ == s.isr
                &&& final(g)@ == s.g
                &&& (match r {
                    Ok(()) => s.fault is None,
                    Err(f) => s.fault == Some(f),
                })
            }),
    {
        let ghost pre_isr = self@;
        let ghost pre_g = g@;
        if self.ic_timeout.is_expired(now) {
            self.rx_state = RxIrqStatus::FirstByte;
        }
        let ghost spec_res = rx_step(pre_isr, pre_g, now, c);
        match self.rx_state {
            RxIrqStatus::FirstByte => {
                if c == ACK || c == NAK {
                    if g.wait_ack.take_signal() {
                        let ok = g.ack_rx_value.enqueue(c);
                        proof {
                            assert(g@ =~~= spec_res.g);
                        }
                        if !ok {
                            return Err(IsrFault::AckQueueFull);
                        }
                        Ok(())
                    } else {
                        g.wait_status.clear();
                        proof {
                            assert(g@ =~~= spec_res.g);
                        }
                        Ok(())
                    }
                } else if c == STX_02 || c == STX_03 {
                    self.rx_frame.stx = c;
                    self.ic_timeout.set(IC_TMO, now);
                    self.rx_state = RxIrqStatus::Length;
                    proof {
                        assert(self@ =~~= spec_res.isr);
                    }
                    Ok(())
                } else if c == STX_STATUS {
                    if g.wait_status.take_signal() {
                        self.ic_timeout.set(IC_TMO, now);
                        self.rx_state = RxIrqStatus::StatusValue;
                        proof {
                            assert(self@ =~~= spec_res.isr);
                            assert(g@ =~~= spec_res.g);
                        }
                        Ok(())
                    } else {
                        g.wait_ack.clear();
                        proof {
                            assert(g@ =~~= spec_res.g);
                        }
                        Ok(())
                    }
                } else {
                    g.wait_status.clear();
                    g.wait_ack.clear();
                    proof {
                        assert(g@ =~~= spec_res.g);
                    }
                    Ok(())
                }
            },
            RxIrqStatus::StatusValue => {
                self.ic_timeout.clear();
                self.rx_state = RxIrqStatus::FirstByte;
                let ok = g.status_value.enqueue(c);
                proof {
                    assert(self@ =~~= spec_res.isr);
                    assert(g@ =~~= spec_res.g);
                }
                if !ok {
                    return Err(IsrFault::StatusQueueFull);
                }
                Ok(())
            },
            RxIrqStatus::Length => {
                self.rx_frame.length = c;
                self.rx_cksum = c as u16;
                self.ic_timeout.set(IC_TMO, now);
                self.rx_state = RxIrqStatus::Command;
                proof {
                    assert(self@ =~~= spec_res.isr);
                }
                Ok(())
            },
            RxIrqStatus::Command => {
                self.rx_frame.command = c;
                self.rx_cksum = self.rx_cksum + c as u16;
                self.rx_frame.data.clear();
                self.ic_timeout.set(IC_TMO, now);
                self.rx_state = if self.rx_frame.length == 0 {
                    RxIrqStatus::ChecksumLsb
                } else {
                    RxIrqStatus::Data
                };
                proof {
                    vstd::arithmetic::div_mod::lemma_small_mod(
                        (pre_isr.rx_frame.length + c) as nat,
                        0x10000,
                    );
                    assert(self@ =~~= spec_res.isr);
                }
                Ok(())
            },
            RxIrqStatus::Data => {
                proof {
                    lemma_sum_bytes_le(self.rx_frame.data@);
                }
                let pushed = self.rx_frame.data.push(c);
                assert(pushed);
                self.rx_cksum = self.rx_cksum + c as u16;
                self.ic_timeout.set(IC_TMO, now);
                if self.rx_frame.length as usize == self.rx_frame.data.len() {
                    self.rx_state = RxIrqStatus::ChecksumLsb;
                }
                proof {
                    crate::frame::lemma_sum_bytes_push(pre_isr.rx_frame.data, c);
                    vstd::arithmetic::div_mod::lemma_small_mod(
                        (pre_isr.rx_cksum + c) as nat,
                        0x10000,
                    );
                    assert(self@ =~~= spec_res.isr);
                }
                Ok(())
            },
            RxIrqStatus::ChecksumLsb => {
                self.rx_frame.checksum = c as u16;
                self.ic_timeout.set(IC_TMO, now);
                self.rx_state = RxIrqStatus::ChecksumMsb;
                proof {
                    assert(self@ =~~= spec_res.isr);
                }
                Ok(())
            },
            RxIrqStatus::ChecksumMsb => {
                self.rx_frame.checksum = self.rx_frame.checksum | ((c as u16) << 8);
                let valid_cksum = self.rx_frame.checksum == self.rx_cksum;
                self.ack_tx_value = Some(valid_cksum);
                let mut fault: Option<IsrFault> = None;
                if !valid_cksum {
                    // A corrupt frame is dropped silently; the nak reply
                    // above is still sent as the ack byte.
                } else if self.rx_frame.command.is_indication() {
                    if self.rx_frame.command == CMD_RESET_IND || g.ready_to_receive {
                        let f = self.rx_frame.duplicate();
                        match g.ind_frame_queue.enqueue(f) {
                            Ok(()) => {},
                            Err(_) => {
                                fault = Some(IsrFault::IndQueueFull);
                            },
                        }
                    }
                } else {
                    let f = self.rx_frame.duplicate();
                    match g.cnf_frame_queue.enqueue(f) {
                        Ok(()) => {},
                        Err(_) => {
                            fault = Some(IsrFault::CnfQueueFull);
                        },
                    }
                }
                self.ic_timeout.clear();
                g.tx_active.set_signal();
                g.txe_listen = true;
                self.rx_state = RxIrqStatus::FirstByte;
                proof {
                    assert(self@ =~~= spec_res.isr);
                    assert(g@.ind_q =~= spec_res.g.ind_q);
                    assert(g@.cnf_q =~= spec_res.g.cnf_q);
                    assert(g@ =~~= spec_res.g);
                }
                match fault {
                    None => Ok(()),
                    Some(f) => Err(f),
                }
            },
        }
    }

    /// Emit the next byte on a transmit-ready event, exactly as
    /// `tx_step` describes; the returned byte is what the caller must
    /// write to the UART.
    pub fn tx(&mut self, g: &mut Globals) -> (r: Result<Option<u8>, IsrFault>)
        requires
            old(self).wf(),
            old(g).inv(),
        ensures
            final(self).wf(),
            final(g).inv(),
            ({
                let s = tx_step(old(self)@, old(g)@);
                &&& final(self)@ == s.isr
                &&& final(g)@ == s.g
                &&& (match r {
                    Ok(b) => s.fault is None && s.wrote == b,
                    Err(f) => s.fault == Some(f),
                })
            }),
    {
        let ghost pre_isr = self@;
        let ghost pre_g = g@;
        let ghost spec_res = tx_step(pre_isr, pre_g);
        if let Some(ack_tx) = self.ack_tx_value {
            let b = ack_tx.to_ack();
            g.txe_listen = false;
            self.ack_tx_value = None;
            proof {
                assert(self@ =~~= spec_res.isr);
                assert(g@ =~~= spec_res.g);
            }
            return Ok(Some(b));
        }
        if !matches!(self.tx_state, TxIrqStatus::TxDone) {
            g.tx_active.set_signal();
        }
        match self.tx_state {
            TxIrqStatus::SendStx => {
                match g.tx_frame_queue.dequeue() {
                    None => {
                        proof {
                            assert(g@ =~~= spec_res.g);
                        }
                        Err(IsrFault::TxQueueEmpty)
                    },
                    Some(f) => {
                        self.tx_frame = f;
                        let b = self.tx_frame.stx;
                        self.tx_state = TxIrqStatus::SendLength;
                        proof {
                            assert(pre_g.tx_q[0].data.len() == pre_g.tx_q[0].length);
                            assert(g@.tx_q =~= pre_g.tx_q.skip(1));
                            assert(self@ =~~= spec_res.isr);
                            assert(g@ =~~= spec_res.g);
                        }
                        Ok(Some(b))
                    },
                }
            },
            TxIrqStatus::SendLength => {
                g.t_req_high = true;
                let b = self.tx_frame.length;
                self.tx_state = TxIrqStatus::SendCommand;
                proof {
                    assert(self@ =~~= spec_res.isr);
                    assert(g@ =~~= spec_res.g);
                }
                Ok(Some(b))
            },
            TxIrqStatus::SendCommand => {
                let b = self.tx_frame.command;
                self.tx_state = if self.tx_frame.length == 0 {
                    TxIrqStatus::SendChecksumLsb
                } else {
                    TxIrqStatus::SendData
                };
                proof {
                    assert(self@ =~~= spec_res.isr);
                    assert(g@ =~~= spec_res.g);
                }
                Ok(Some(b))
            },
            TxIrqStatus::SendData => {
                let b = self.tx_frame.data.byte_at(self.tx_cur_idx as usize);
                self.tx_cur_idx = self.tx_cur_idx + 1;
                if self.tx_frame.length == self.tx_cur_idx {
                    self.tx_state = TxIrqStatus::SendChecksumLsb;
                }
                proof {
                    assert(self@ =~~= spec_res.isr);
                    assert(g@ =~~= spec_res.g);
                }
                Ok(Some(b))
            },
            TxIrqStatus::SendChecksumLsb => {
                let b = (self.tx_frame.checksum & 0xff) as u8;
                self.tx_state = TxIrqStatus::SendChecksumMsb;
                proof {
                    assert(self@ =~~= spec_res.isr);
                    assert(g@ =~~= spec_res.g);
                }
                Ok(Some(b))
            },
            TxIrqStatus::SendChecksumMsb => {
                let b = (self.tx_frame.checksum >> 8) as u8;
                self.tx_state = TxIrqStatus::TxDone;
                proof {
                    assert(self@ =~~= spec_res.isr);
                    assert(g@ =~~= spec_res.g);
                }
                Ok(Some(b))
            },
            TxIrqStatus::TxDone => {
                g.txe_listen = false;
                g.local_frame_tx.set_signal();
                self.tx_state = TxIrqStatus::SendStx;
                self.tx_cur_idx = 0;
                proof {
                    assert(self@ =~~= spec_res.isr);
                    assert(g@ =~~= spec_res.g);
                }
                Ok(None)
            },
        }
    }

    /// One UART interrupt: feed the received byte, if any, through the
    /// receive machine, then, when transmit-ready fired and the transmit
    /// signal is raised, emit one byte — exactly as `handle_step`
    /// describes.
    pub fn handle(&mut self, g: &mut Globals, now: u32, rx_byte: Option<u8>, tx_ready: bool) -> (r:
        Result<Option<u8>, IsrFault>)
        requires
            old(self).wf(),
            old(g).inv(),
        ensures
            final(self).wf(),
            final(g).inv(),
            ({
                let s = handle_step(old(self)@, old(g)@, now, rx_byte, tx_ready);
                &&& final(self)@ == s.isr
                &&& final(g)@ == s.g
                &&& (match r {
                    Ok(b) => s.fault is None && s.wrote == b,
                    Err(f) => s.fault == Some(f),
                })
            }),
    {
        if let Some(c) = rx_byte {
            match self.rx(g, now, c) {
                Ok(()) => {},
                Err(f) => {
                    return Err(f);
                },
            }
        }
        if tx_ready {
            let ghost gpre = *g;
            let run = g.tx_active.take_signal();
            proof {
                assert(g@.tx_q == gpre@.tx_q);
                assert(g@ =~~= (GlobalsV { tx_active: false, ..gpre@ }));
            }
            if run {
                return self.tx(g);
            }
        }
        Ok(None)
    }
}

} // verus!
