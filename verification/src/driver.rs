//! Task-level façade and half-duplex transmit sequencer.
//!
//! The driver builds well-formed request frames, each tagged with the
//! kind of confirmation it expects, and exposes the receive-indication
//! queue. The sequencer owns the one-frame-in-flight discipline: assert
//! the transmit-request line, wait for a clean status byte, wait for the
//! frame to go out, wait for the byte-level ack, wait for the command
//! confirmation, with a timeout bounding every stage. Both are polled,
//! never blocking; the current tick count comes in as an argument.

use vstd::prelude::*;

use crate::constants::{
    ACK, BUSY_MASK, ACK_TMO, CMD_TMO, STATUS_MSG_TMO, CMD_DL_DATA_CNF, CMD_DL_DATA_ERR,
    CMD_DL_DATA_REQ, CMD_MIB_ERASE_CNF, CMD_MIB_ERASE_ERR, CMD_MIB_ERASE_REQ, CMD_MIB_WRITE_CNF,
    CMD_MIB_WRITE_ERR, CMD_MIB_WRITE_REQ, CMD_PHY_DATA_CNF, CMD_PHY_DATA_ERR, CMD_PHY_DATA_REQ,
    CMD_PING_CNF, CMD_PING_REQ, CMD_RESET_CNF, CMD_RESET_ERR, CMD_RESET_IND, CMD_RESET_REQ,
    DL_DATALEN_MAX, PHY_DATALEN_MAX, STX_02,
};
use crate::frame::{checksum_spec, Frame, FrameV};
use crate::globals::{tx_frames_wf, Globals, GlobalsV};
use crate::payload::Payload;
use crate::types::{NbStErr, NbStResult, StErr, StResult, Timeout, TxStatus};

verus! {

/// Which outstanding request a pending confirmation belongs to; `Ping`
/// carries the sent payload so the echo can be checked.
pub enum SenderTag {
    Inactive,
    Reset,
    MibWrite,
    MibErase,
    DlData,
    PhyData,
    Ping(Payload),
}

/// Ghost image of a sender tag.
#[verifier::ext_equal]
pub ghost enum SenderTagV {
    Inactive,
    Reset,
    MibWrite,
    MibErase,
    DlData,
    PhyData,
    Ping(Seq<u8>),
}

impl View for SenderTag {
    type V = SenderTagV;

    open spec fn view(&self) -> SenderTagV {
        match self {
            SenderTag::Inactive => SenderTagV::Inactive,
            SenderTag::Reset => SenderTagV::Reset,
            SenderTag::MibWrite => SenderTagV::MibWrite,
            SenderTag::MibErase => SenderTagV::MibErase,
            SenderTag::DlData => SenderTagV::DlData,
            SenderTag::PhyData => SenderTagV::PhyData,
            SenderTag::Ping(p) => SenderTagV::Ping(p@),
        }
    }
}

/// A built request frame together with its tag, ready to hand to the
/// sequencer.
pub struct DSTag(pub Frame, pub SenderTag);

/// Task-level request builder and receive-indication front end.
pub struct Driver {
    /// Mirror of the admission flag set by `set_ready_to_receive`.
    pub ready_announced: bool,
}

impl Driver {
    pub fn new() -> (r: Driver)
        ensures
            !r.ready_announced,
    {
        Driver { ready_announced: false }
    }

    /// A reset request: empty payload, reset command.
    pub fn reset(&mut self) -> (r: StResult<DSTag>)
        ensures
            (match r {
                Ok(t) => t.0@ == (FrameV {
                    stx: STX_02,
                    length: 0,
                    command: CMD_RESET_REQ,
                    data: Seq::<u8>::empty(),
                    checksum: checksum_spec(CMD_RESET_REQ, 0, Seq::<u8>::empty()),
                }) && t.1@ is Reset,
                Err(_) => false,
            }),
    {
        let data = Payload::new();
        let f = Frame::new(STX_02, 0, CMD_RESET_REQ, data);
        Ok(DSTag(f, SenderTag::Reset))
    }

    /// A configuration-write request: the parameter index followed by
    /// the value bytes. Refused with `ErrArgs` when the value cannot fit
    /// behind the one-byte length field.
    pub fn mib_write(&mut self, idx: u8, buf: &Payload) -> (r: StResult<DSTag>)
        ensures
            (match r {
                Ok(t) => buf@.len() < 255 && t.0@ == (FrameV {
                    stx: STX_02,
                    length: (buf@.len() + 1) as u8,
                    command: CMD_MIB_WRITE_REQ,
                    data: seq![idx] + buf@,
                    checksum: checksum_spec(
                        CMD_MIB_WRITE_REQ,
                        (buf@.len() + 1) as u8,
                        seq![idx] + buf@,
                    ),
                }) && t.1@ is MibWrite,
                Err(e) => buf@.len() >= 255 && e == StErr::ErrArgs,
            }),
    {
        if buf.len() >= 255 {
            return Err(StErr::ErrArgs);
        }
        let data = buf.with_prefix(idx).unwrap();
        let f = Frame::new(STX_02, (buf.len() + 1) as u8, CMD_MIB_WRITE_REQ, data);
        Ok(DSTag(f, SenderTag::MibWrite))
    }

    /// A configuration-erase request for one parameter index.
    pub fn mib_erase(&mut self, idx: u8) -> (r: StResult<DSTag>)
        ensures
            (match r {
                Ok(t) => t.0@ == (FrameV {
                    stx: STX_02,
                    length: 1,
                    command: CMD_MIB_ERASE_REQ,
                    data: seq![idx],
                    checksum: checksum_spec(CMD_MIB_ERASE_REQ, 1, seq![idx]),
                }) && t.1@ is MibErase,
                Err(_) => false,
            }),
    {
        let mut data = Payload::new();
        let ok = data.push(idx);
        assert(ok);
        assert(data@ =~= seq![idx]);
        let f = Frame::new(STX_02, 1, CMD_MIB_ERASE_REQ, data);
        Ok(DSTag(f, SenderTag::MibErase))
    }

    /// A ping request carrying test data the modem must echo back; the
    /// tag keeps a copy for the comparison. Refused with `ErrArgs` when
    /// the data cannot fit behind the one-byte length field.
    pub fn ping(&mut self, buf: Payload) -> (r: StResult<DSTag>)
        ensures
            (match r {
                Ok(t) => buf@.len() < 255 && t.0@ == (FrameV {
                    stx: STX_02,
                    length: buf@.len() as u8,
                    command: CMD_PING_REQ,
                    data: buf@,
                    checksum: checksum_spec(CMD_PING_REQ, buf@.len() as u8, buf@),
                }) && t.1@ == SenderTagV::Ping(buf@),
                Err(e) => buf@.len() >= 255 && e == StErr::ErrArgs,
            }),
    {
        if buf.len() >= 255 {
            return Err(StErr::ErrArgs);
        }
        let copy = buf.duplicate();
        let len = buf.len() as u8;
        let f = Frame::new(STX_02, len, CMD_PING_REQ, buf);
        Ok(DSTag(f, SenderTag::Ping(copy)))
    }

    /// A PHY-layer data request; at most 250 payload bytes.
    pub fn phy_data(&mut self, plm_opts: u8, send_buf: Payload) -> (r: StResult<DSTag>)
        ensures
            (match r {
                Ok(t) => send_buf@.len() <= PHY_DATALEN_MAX && t.0@ == (FrameV {
                    stx: STX_02,
                    length: (send_buf@.len() + 1) as u8,
                    command: CMD_PHY_DATA_REQ,
                    data: seq![plm_opts] + send_buf@,
                    checksum: checksum_spec(
                        CMD_PHY_DATA_REQ,
                        (send_buf@.len() + 1) as u8,
                        seq![plm_opts] + send_buf@,
                    ),
                }) && t.1@ is PhyData,
                Err(e) => send_buf@.len() > PHY_DATALEN_MAX && e == StErr::ErrArgs,
            }),
    {
        self.impl_phy_dl_data(PHY_DATALEN_MAX, CMD_PHY_DATA_REQ, plm_opts, send_buf, SenderTag::PhyData)
    }

    /// A DL-layer data request; at most 242 payload bytes.
    pub fn dl_data(&mut self, plm_opts: u8, send_buf: Payload) -> (r: StResult<DSTag>)
        ensures
            (match r {
                Ok(t) => send_buf@.len() <= DL_DATALEN_MAX && t.0@ == (FrameV {
                    stx: STX_02,
                    length: (send_buf@.len() + 1) as u8,
                    command: CMD_DL_DATA_REQ,
                    data: seq![plm_opts] + send_buf@,
                    checksum: checksum_spec(
                        CMD_DL_DATA_REQ,
                        (send_buf@.len() + 1) as u8,
                        seq![plm_opts] + send_buf@,
                    ),
                }) && t.1@ is DlData,
                Err(e) => send_buf@.len() > DL_DATALEN_MAX && e == StErr::ErrArgs,
            }),
    {
        self.impl_phy_dl_data(DL_DATALEN_MAX, CMD_DL_DATA_REQ, plm_opts, send_buf, SenderTag::DlData)
    }

    /// Shared body of the two data builders: one option byte, then the
    /// user payload, under the command family's length ceiling.
    fn impl_phy_dl_data(
        &mut self,
        len_max: usize,
        req: u8,
        plm_opts: u8,
        send_buf: Payload,
        tag: SenderTag,
    ) -> (r: StResult<DSTag>)
        requires
            len_max <= 250,
        ensures
            (match r {
                Ok(t) => send_buf@.len() <= len_max && t.0@ == (FrameV {
                    stx: STX_02,
                    length: (send_buf@.len() + 1) as u8,
                    command: req,
                    data: seq![plm_opts] + send_buf@,
                    checksum: checksum_spec(req, (send_buf@.len() + 1) as u8, seq![plm_opts] + send_buf@),
                }) && t.1 == tag,
                Err(e) => send_buf@.len() > len_max && e == StErr::ErrArgs,
            }),
    {
        if send_buf.len() > len_max {
            return Err(StErr::ErrArgs);
        }
        let data = send_buf.with_prefix(plm_opts).unwrap();
        let f = Frame::new(STX_02, (send_buf.len() + 1) as u8, req, data);
        Ok(DSTag(f, tag))
    }

    /// Pull the next decoded indication frame, if any.
    pub fn receive_frame(&mut self, g: &mut Globals) -> (r: Option<Frame>)
        requires
            old(g).inv(),
        ensures
            final(g).inv(),
            old(g)@.ind_q.len() == 0 ==> r is None && final(g)@ == old(g)@,
            old(g)@.ind_q.len() > 0 ==> (r matches Some(f) && f@ == old(g)@.ind_q[0]
                && final(g)@ == (GlobalsV { ind_q: old(g)@.ind_q.skip(1), ..old(g)@ })),
    {
        let r = g.ind_frame_queue.dequeue();
        proof {
            if old(g)@.ind_q.len() == 0 {
                assert(g@ =~~= old(g)@);
            } else {
                assert(g@.ind_q =~= old(g)@.ind_q.skip(1));
                assert(g@ =~~= (GlobalsV { ind_q: old(g)@.ind_q.skip(1), ..old(g)@ }));
            }
        }
        r
    }

    /// Raise the flag that lets non-reset indications through to the
    /// indication queue: called once the session layer is ready.
    pub fn set_ready_to_receive(&mut self, g: &mut Globals)
        requires
            old(g).inv(),
        ensures
            final(g).inv(),
            final(self).ready_announced,
            final(g)@ == (GlobalsV { ready_to_receive: true, ..old(g)@ }),
    {
        self.ready_announced = true;
        g.ready_to_receive = true;
        proof {
            assert(g@ =~~= (GlobalsV { ready_to_receive: true, ..old(g)@ }));
        }
    }

    /// One polling step of the reset handshake: report whether the next
    /// queued indication is the reset notice. The embedding repeats
    /// this, with its delay between attempts, until it reports true.
    pub fn poll_reset_indication(&mut self, g: &mut Globals) -> (r: bool)
        requires
            old(g).inv(),
        ensures
            final(g).inv(),
            r == (old(g)@.ind_q.len() > 0 && old(g)@.ind_q[0].command == CMD_RESET_IND),
            old(g)@.ind_q.len() == 0 ==> final(g)@ == old(g)@,
            old(g)@.ind_q.len() > 0 ==> final(g)@ == (GlobalsV {
                ind_q: old(g)@.ind_q.skip(1),
                ..old(g)@
            }),
    {
        match self.receive_frame(g) {
            Some(f) => f.command == CMD_RESET_IND,
            None => false,
        }
    }
}

/// Ghost image of the sequencer.
#[verifier::ext_equal]
pub ghost struct DSenderV {
    pub sf_state: TxStatus,
    pub tag: SenderTagV,
    pub ack_tmo: Timeout,
    pub cmd_tmo: Timeout,
    pub status_msg_tmo: Timeout,
}

/// Outcome of one sequencer poll: still waiting, failed with a code, or
/// done with the confirmation frame.
#[verifier::ext_equal]
pub ghost enum SfOut {
    Block,
    Fail(StErr),
    Done(FrameV),
}

/// Result of one sequencer step.
#[verifier::ext_equal]
pub ghost struct SfStep {
    pub ds: DSenderV,
    pub g: GlobalsV,
    pub out: SfOut,
}

/// A timeout armed for `tmo` ticks at `now`.
pub open spec fn armed_at(tmo: u32, now: u32) -> Timeout {
    Timeout { armed: true, tmo, tmo_start_time: now }
}

/// A disarmed timeout.
pub open spec fn disarmed() -> Timeout {
    Timeout { armed: false, tmo: 0, tmo_start_time: 0 }
}

/// A sequence with its first element dropped when it has one.
pub open spec fn drop_front<T>(s: Seq<T>) -> Seq<T> {
    if s.len() > 0 {
        s.skip(1)
    } else {
        s
    }
}

/// One step of the half-duplex handshake at tick `now`.
///
/// From `TxreqLow` the sequencer drains a stale status byte, pulls the
/// transmit-request line low and asks for a status byte. A clean status
/// starts the transmission; the local-frame-sent signal arms the ack
/// wait; an ack arms the confirmation wait; the confirmation frame ends
/// the exchange. Every waiting stage fails with its own code when its
/// timeout expires, releasing the line and, while the frame is still
/// queued untransmitted, draining it.
pub open spec fn send_frame_step(ds: DSenderV, g: GlobalsV, now: u32) -> SfStep {
    match ds.sf_state {
        TxStatus::TxreqLow => SfStep {
            ds: DSenderV {
                status_msg_tmo: armed_at(STATUS_MSG_TMO, now),
                sf_state: TxStatus::WaitStatusFrame,
                ..ds
            },
            g: GlobalsV {
                local_frame_tx: false,
                status_value: drop_front(g.status_value),
                t_req_high: false,
                wait_status: true,
                ..g
            },
            out: SfOut::Block,
        },
        TxStatus::WaitStatusFrame => {
            if ds.status_msg_tmo.expired_at(now) {
                SfStep {
                    ds: DSenderV { sf_state: TxStatus::TxreqLow, ..ds },
                    g: GlobalsV {
                        t_req_high: true,
                        wait_status: false,
                        tx_q: drop_front(g.tx_q),
                        ..g
                    },
                    out: SfOut::Fail(StErr::TxErrNoStatus),
                }
            } else if g.status_value.len() == 0 {
                SfStep { ds, g, out: SfOut::Block }
            } else {
                let status = g.status_value[0];
                if status & BUSY_MASK != 0 {
                    SfStep {
                        ds: DSenderV { sf_state: TxStatus::TxreqLow, ..ds },
                        g: GlobalsV {
                            status_value: g.status_value.skip(1),
                            t_req_high: true,
                            tx_q: drop_front(g.tx_q),
                            ..g
                        },
                        out: SfOut::Fail(StErr::TxErrBusy),
                    }
                } else {
                    SfStep {
                        ds: DSenderV { sf_state: TxStatus::WaitTxFrameDone, ..ds },
                        g: GlobalsV {
                            status_value: g.status_value.skip(1),
                            tx_active: true,
                            txe_listen: true,
                            ..g
                        },
                        out: SfOut::Block,
                    }
                }
            }
        },
        TxStatus::WaitTxFrameDone => {
            if g.local_frame_tx {
                SfStep {
                    ds: DSenderV {
                        ack_tmo: armed_at(ACK_TMO, now),
                        sf_state: TxStatus::WaitAck,
                        ..ds
                    },
                    g: GlobalsV { local_frame_tx: false, wait_ack: true, ..g },
                    out: SfOut::Block,
                }
            } else {
                SfStep { ds, g, out: SfOut::Block }
            }
        },
        TxStatus::WaitAck => {
            if ds.ack_tmo.expired_at(now) {
                SfStep {
                    ds: DSenderV { sf_state: TxStatus::TxreqLow, ..ds },
                    g: GlobalsV { wait_ack: false, ..g },
                    out: SfOut::Fail(StErr::TxErrAckTmo),
                }
            } else if g.ack_rx_value.len() == 0 {
                SfStep { ds, g, out: SfOut::Block }
            } else {
                let ack = g.ack_rx_value[0];
                if ack == ACK {
                    SfStep {
                        ds: DSenderV {
                            cmd_tmo: armed_at(CMD_TMO, now),
                            sf_state: TxStatus::WaitCnf,
                            ..ds
                        },
                        g: GlobalsV { ack_rx_value: g.ack_rx_value.skip(1), wait_ack: false, ..g },
                        out: SfOut::Block,
                    }
                } else {
                    SfStep {
                        ds: DSenderV { sf_state: TxStatus::TxreqLow, ..ds },
                        g: GlobalsV { ack_rx_value: g.ack_rx_value.skip(1), wait_ack: false, ..g },
                        out: SfOut::Fail(StErr::TxErrNak),
                    }
                }
            }
        },
        TxStatus::WaitCnf => {
            if ds.cmd_tmo.expired_at(now) {
                SfStep {
                    ds: DSenderV { cmd_tmo: disarmed(), sf_state: TxStatus::TxreqLow, ..ds },
                    g,
                    out: SfOut::Fail(StErr::ErrTimeout),
                }
            } else if g.cnf_q.len() == 0 {
                SfStep { ds, g, out: SfOut::Block }
            } else {
                SfStep {
                    ds: DSenderV { cmd_tmo: disarmed(), sf_state: TxStatus::TxreqLow, ..ds },
                    g: GlobalsV { cnf_q: g.cnf_q.skip(1), ..g },
                    out: SfOut::Done(g.cnf_q[0]),
                }
            }
        },
    }
}

/// The timeout ladder judges each waiting stage exactly: with its queue
/// silent, a stage fails with its own code precisely when its timeout
/// has expired and keeps waiting before that; a busy status and a nak
/// fail immediately, with no timeout involved.
pub proof fn lemma_timeout_ladder_is_exact(ds: DSenderV, g: GlobalsV, now: u32)
    ensures
        ds.sf_state is WaitStatusFrame && g.status_value.len() == 0 ==> send_frame_step(
            ds,
            g,
            now,
        ).out == (if ds.status_msg_tmo.expired_at(now) {
            SfOut::Fail(StErr::TxErrNoStatus)
        } else {
            SfOut::Block
        }),
        ds.sf_state is WaitAck && g.ack_rx_value.len() == 0 ==> send_frame_step(ds, g, now).out
            == (if ds.ack_tmo.expired_at(now) {
            SfOut::Fail(StErr::TxErrAckTmo)
        } else {
            SfOut::Block
        }),
        ds.sf_state is WaitCnf && g.cnf_q.len() == 0 ==> send_frame_step(ds, g, now).out == (
        if ds.cmd_tmo.expired_at(now) {
            SfOut::Fail(StErr::ErrTimeout)
        } else {
            SfOut::Block
        }),
        ds.sf_state is WaitStatusFrame && !ds.status_msg_tmo.expired_at(now)
            && g.status_value.len() > 0 && g.status_value[0] & BUSY_MASK != 0 ==> send_frame_step(
            ds,
            g,
            now,
        ).out == SfOut::Fail(StErr::TxErrBusy),
        ds.sf_state is WaitAck && !ds.ack_tmo.expired_at(now) && g.ack_rx_value.len() > 0
            && g.ack_rx_value[0] != ACK ==> send_frame_step(ds, g, now).out == SfOut::Fail(
            StErr::TxErrNak,
        ),
{
}

/// The error code carried by a modem error frame, or `ErrConfirm` when
/// the byte is absent or unknown.
pub open spec fn err_frame_code(f: FrameV) -> StErr {
    if f.data.len() > 0 {
        err_code_of(f.data[0])
    } else {
        StErr::ErrConfirm
    }
}

/// Decode a wire error byte, falling back to `ErrConfirm` for bytes no
/// code stands for.
pub open spec fn err_code_of(b: u8) -> StErr {
    if b == 0xFF {
        StErr::TxInProgress
    } else if b == 0xFE {
        StErr::ErrConfirm
    } else if b == 0xFD {
        StErr::ErrBufLen
    } else if b == 0xFC {
        StErr::ErrTimeout
    } else if b == 0xFB {
        StErr::ErrPing
    } else if b == 0xFA {
        StErr::ErrArgs
    } else if b == 0xF9 {
        StErr::UnexpectedFrame
    } else if b == 0xF8 {
        StErr::RcvBufTooSmall
    } else if b == 0xF6 {
        StErr::TxErrNak
    } else if b == 0xF5 {
        StErr::TxErrNoStatus
    } else if b == 0xF4 {
        StErr::TxErrAckTmo
    } else if b == 0xF3 {
        StErr::TxErrBusy
    } else {
        StErr::ErrConfirm
    }
}

/// Judgement of a confirmation frame for one command family: the error
/// command carries a code in its first payload byte, the confirmation
/// command means success, anything else breaks the protocol.
pub open spec fn family_outcome(f: FrameV, err_cmd: u8, cnf_cmd: u8) -> Result<(), StErr> {
    if f.command == err_cmd {
        Err(err_frame_code(f))
    } else if f.command == cnf_cmd {
        Ok(())
    } else {
        Err(StErr::ErrConfirm)
    }
}

/// Judgement of the confirmation frame for the request `tag` stands
/// for; a ping reply must echo the sent bytes exactly.
pub open spec fn confirm_outcome(tag: SenderTagV, f: FrameV) -> Result<(), StErr> {
    match tag {
        SenderTagV::Inactive => Err(StErr::ErrConfirm),
        SenderTagV::Reset => family_outcome(f, CMD_RESET_ERR, CMD_RESET_CNF),
        SenderTagV::MibWrite => family_outcome(f, CMD_MIB_WRITE_ERR, CMD_MIB_WRITE_CNF),
        SenderTagV::MibErase => family_outcome(f, CMD_MIB_ERASE_ERR, CMD_MIB_ERASE_CNF),
        SenderTagV::DlData => family_outcome(f, CMD_DL_DATA_ERR, CMD_DL_DATA_CNF),
        SenderTagV::PhyData => family_outcome(f, CMD_PHY_DATA_ERR, CMD_PHY_DATA_CNF),
        SenderTagV::Ping(buf) => {
            if f.command != CMD_PING_CNF {
                Err(err_frame_code(f))
            } else if f.data.len() >= buf.len() && f.data.take(buf.len() as int) == buf {
                Ok(())
            } else {
                Err(StErr::ErrPing)
            }
        },
    }
}

/// The half-duplex transmit sequencer.
pub struct DSender {
    pub sf_state: TxStatus,
    pub tag: SenderTag,
    pub ack_tmo: Timeout,
    pub cmd_tmo: Timeout,
    pub status_msg_tmo: Timeout,
}

impl View for DSender {
    type V = DSenderV;

    open spec fn view(&self) -> DSenderV {
        DSenderV {
            sf_state: self.sf_state,
            tag: self.tag@,
            ack_tmo: self.ack_tmo,
            cmd_tmo: self.cmd_tmo,
            status_msg_tmo: self.status_msg_tmo,
        }
    }
}

impl DSender {
    /// Idle: no request tagged and the handshake at its initial stage,
    /// the only state in which a new request may be enqueued.
    pub open spec fn is_idle(self) -> bool {
        self@.tag is Inactive && self@.sf_state is TxreqLow
    }

    pub fn new() -> (r: DSender)
        ensures
            r.is_idle(),
            !r@.ack_tmo.armed,
            !r@.cmd_tmo.armed,
            !r@.status_msg_tmo.armed,
    {
        DSender {
            sf_state: TxStatus::TxreqLow,
            tag: SenderTag::Inactive,
            ack_tmo: Timeout::default(),
            cmd_tmo: Timeout::default(),
            status_msg_tmo: Timeout::default(),
        }
    }

    /// Whether a request is outstanding.
    pub fn is_active(&self) -> (r: bool)
        ensures
            r == !(self@.tag is Inactive),
    {
        !matches!(self.tag, SenderTag::Inactive)
    }

    /// Hand a built request to the sequencer. Only legal while idle;
    /// refused with `TxInProgress` if the outgoing slot is somehow still
    /// occupied twice over.
    pub fn enqueue(&mut self, g: &mut Globals, tag: DSTag) -> (r: StResult<()>)
        requires
            old(self).is_idle(),
            old(g).inv(),
            tag.0@.data.len() == tag.0@.length,
        ensures
            final(g).inv(),
            (match r {
                Ok(()) => {
                    &&& old(g)@.tx_q.len() < 2
                    &&& final(g)@ == (GlobalsV { tx_q: old(g)@.tx_q.push(tag.0@), ..old(g)@ })
                    &&& final(self)@ == (DSenderV { tag: tag.1@, ..old(self)@ })
                },
                Err(e) => {
                    &&& old(g)@.tx_q.len() >= 2
                    &&& e == StErr::TxInProgress
                    &&& final(g)@ == old(g)@
                    &&& final(self)@ == old(self)@
                },
            }),
    {
        let DSTag(frame, t) = tag;
        let ghost fv = frame@;
        match g.tx_frame_queue.enqueue(frame) {
            Ok(()) => {
                self.tag = t;
                proof {
                    assert(g@.tx_q =~= old(g)@.tx_q.push(fv));
                    assert(g@ =~~= (GlobalsV { tx_q: old(g)@.tx_q.push(fv), ..old(g)@ }));
                    assert(tx_frames_wf(g@.tx_q)) by {
                        assert(forall|i: int|
                            0 <= i < old(g)@.tx_q.len() ==> g@.tx_q[i] == old(g)@.tx_q[i]);
                        assert(g@.tx_q[old(g)@.tx_q.len() as int] == fv);
                    }
                }
                Ok(())
            },
            Err(_) => {
                proof {
                    assert(g@ =~~= old(g)@);
                }
                Err(StErr::TxInProgress)
            },
        }
    }

    /// One poll of the handshake, exactly as `send_frame_step`
    /// describes.
    #[verifier::rlimit(100)]
    #[verifier::spinoff_prover]
    fn send_frame(&mut self, g: &mut Globals, now: u32) -> (r: NbStResult<Frame>)
        requires
            old(g).inv(),
        ensures
            final(g).inv(),
            ({
                let s = send_frame_step(old(self)@, old(g)@, now);
                &&& final(self)@ == s.ds
                &&& final(g)@ == s.g
                &&& (match r {
                    Ok(f) => s.out matches SfOut::Done(fv) && fv == f@,
                    Err(NbStErr::WouldBlock) => s.out is Block,
                    Err(NbStErr::Other(e)) => s.out == SfOut::Fail(e),
                })
            }),
    {
        let ghost s = send_frame_step(old(self)@, old(g)@, now);
        match self.sf_state {
            TxStatus::TxreqLow => {
                g.local_frame_tx.clear();
                let _ = g.status_value.dequeue();
                g.t_req_high = false;
                self.status_msg_tmo.set(STATUS_MSG_TMO, now);
                g.wait_status.set_signal();
                self.sf_state = TxStatus::WaitStatusFrame;
                proof {
                    assert(self@ =~~= s.ds);
                    assert(g@ =~~= s.g);
                }
                Err(NbStErr::WouldBlock)
            },
            TxStatus::WaitStatusFrame => {
                if self.status_msg_tmo.is_expired(now) {
                    g.t_req_high = true;
                    self.sf_state = TxStatus::TxreqLow;
                    g.wait_status.clear();
                    let _ = g.tx_frame_queue.dequeue();
                    proof {
                        assert(g@.tx_q =~= drop_front(old(g)@.tx_q));
                        assert(self@ =~~= s.ds);
                        assert(g@ =~~= s.g);
                    }
                    Err(NbStErr::Other(StErr::TxErrNoStatus))
                } else {
                    match g.status_value.dequeue() {
                        None => {
                            proof {
                                assert(self@ =~~= s.ds);
                                assert(g@ =~~= s.g);
                            }
                            Err(NbStErr::WouldBlock)
                        },
                        Some(status) => {
                            if status & BUSY_MASK != 0 {
                                g.t_req_high = true;
                                self.sf_state = TxStatus::TxreqLow;
                                let _ = g.tx_frame_queue.dequeue();
                                proof {
                                    assert(g@.tx_q =~= drop_front(old(g)@.tx_q));
                                    assert(self@ =~~= s.ds);
                                    assert(g@ =~~= s.g);
                                }
                                Err(NbStErr::Other(StErr::TxErrBusy))
                            } else {
                                self.sf_state = TxStatus::WaitTxFrameDone;
                                g.tx_active.set_signal();
                                g.txe_listen = true;
                                proof {
                                    assert(self@ =~~= s.ds);
                                    assert(g@ =~~= s.g);
                                }
                                Err(NbStErr::WouldBlock)
                            }
                        },
                    }
                }
            },
            TxStatus::WaitTxFrameDone => {
                if g.local_frame_tx.take_signal() {
                    self.ack_tmo.set(ACK_TMO, now);
                    g.wait_ack.set_signal();
                    self.sf_state = TxStatus::WaitAck;
                }
                proof {
                    assert(self@ =~~= s.ds);
                    assert(g@ =~~= s.g);
                }
                Err(NbStErr::WouldBlock)
            },
            TxStatus::WaitAck => {
                if self.ack_tmo.is_expired(now) {
                    self.sf_state = TxStatus::TxreqLow;
                    g.wait_ack.clear();
                    proof {
                        assert(self@ =~~= s.ds);
                        assert(g@ =~~= s.g);
                    }
                    Err(NbStErr::Other(StErr::TxErrAckTmo))
                } else {
                    match g.ack_rx_value.dequeue() {
                        None => {
                            proof {
                                assert(self@ =~~= s.ds);
                                assert(g@ =~~= s.g);
                            }
                            Err(NbStErr::WouldBlock)
                        },
                        Some(ack) => {
                            g.wait_ack.clear();
                            if ack == ACK {
                                self.cmd_tmo.set(CMD_TMO, now);
                                self.sf_state = TxStatus::WaitCnf;
                                proof {
                                    assert(self@ =~~= s.ds);
                                    assert(g@ =~~= s.g);
                                }
                                Err(NbStErr::WouldBlock)
                            } else {
                                self.sf_state = TxStatus::TxreqLow;
                                proof {
                                    assert(self@ =~~= s.ds);
                                    assert(g@ =~~= s.g);
                                }
                                Err(NbStErr::Other(StErr::TxErrNak))
                            }
                        },
                    }
                }
            },
            TxStatus::WaitCnf => {
                if self.cmd_tmo.is_expired(now) {
                    self.cmd_tmo.clear();
                    self.sf_state = TxStatus::TxreqLow;
                    proof {
                        assert(self@ =~~= s.ds);
                        assert(g@ =~~= s.g);
                    }
                    Err(NbStErr::Other(StErr::ErrTimeout))
                } else {
                    match g.cnf_frame_queue.dequeue() {
                        None => {
                            proof {
                                assert(self@ =~~= s.ds);
                                assert(g@ =~~= s.g);
                            }
                            Err(NbStErr::WouldBlock)
                        },
                        Some(f) => {
                            self.cmd_tmo.clear();
                            self.sf_state = TxStatus::TxreqLow;
                            proof {
                                assert(g@.cnf_q =~= old(g)@.cnf_q.skip(1));
                                assert(self@ =~~= s.ds);
                                assert(g@ =~~= s.g);
                            }
                            Ok(f)
                        },
                    }
                }
            },
        }
    }

    /// One poll of the whole exchange. While the handshake is under way
    /// the tag is kept; a terminal outcome — failure at any stage, or
    /// the confirmation frame judged by `confirm_outcome` against the
    /// tagged request — releases the sequencer back to idle.
    pub fn process(&mut self, g: &mut Globals, now: u32) -> (r: NbStResult<()>)
        requires
            !(old(self)@.tag is Inactive),
            old(g).inv(),
        ensures
            final(g).inv(),
            ({
                let s = send_frame_step(old(self)@, old(g)@, now);
                &&& final(g)@ == s.g
                &&& (match s.out {
                    SfOut::Block => r == Err::<(), NbStErr>(NbStErr::WouldBlock)
                        && final(self)@ == s.ds,
                    SfOut::Fail(e) => r == Err::<(), NbStErr>(NbStErr::Other(e))
                        && final(self)@ == (DSenderV { tag: SenderTagV::Inactive, ..s.ds }),
                    SfOut::Done(f) => final(self)@ == (DSenderV {
                        tag: SenderTagV::Inactive,
                        ..s.ds
                    }) && r == (match confirm_outcome(old(self)@.tag, f) {
                        Ok(()) => Ok::<(), NbStErr>(()),
                        Err(e) => Err::<(), NbStErr>(NbStErr::Other(e)),
                    }),
                })
            }),
    {
        let cnf_frame = match self.send_frame(g, now) {
            Ok(f) => f,
            Err(NbStErr::WouldBlock) => {
                return Err(NbStErr::WouldBlock);
            },
            Err(NbStErr::Other(e)) => {
                self.tag = SenderTag::Inactive;
                return Err(NbStErr::Other(e));
            },
        };
        let mut tag = SenderTag::Inactive;
        core::mem::swap(&mut self.tag, &mut tag);
        match tag {
            SenderTag::Inactive => {
                // Excluded by the precondition: a confirmation can only
                // complete for an outstanding request.
                proof {
                    assert(false);
                }
                Err(NbStErr::Other(StErr::ErrConfirm))
            },
            SenderTag::Reset => Self::family_case(&cnf_frame, CMD_RESET_ERR, CMD_RESET_CNF),
            SenderTag::MibWrite => Self::family_case(&cnf_frame, CMD_MIB_WRITE_ERR, CMD_MIB_WRITE_CNF),
            SenderTag::MibErase => Self::family_case(&cnf_frame, CMD_MIB_ERASE_ERR, CMD_MIB_ERASE_CNF),
            SenderTag::DlData => Self::family_case(&cnf_frame, CMD_DL_DATA_ERR, CMD_DL_DATA_CNF),
            SenderTag::PhyData => Self::family_case(&cnf_frame, CMD_PHY_DATA_ERR, CMD_PHY_DATA_CNF),
            SenderTag::Ping(buf) => {
                if cnf_frame.command != CMD_PING_CNF {
                    Err(NbStErr::Other(Self::decode_err_frame(&cnf_frame)))
                } else if Self::echo_matches(&cnf_frame, &buf) {
                    Ok(())
                } else {
                    Err(NbStErr::Other(StErr::ErrPing))
                }
            },
        }
    }

    /// Judge a confirmation frame of one command family.
    fn family_case(f: &Frame, err_cmd: u8, cnf_cmd: u8) -> (r: NbStResult<()>)
        ensures
            r == (match family_outcome(f@, err_cmd, cnf_cmd) {
                Ok(()) => Ok::<(), NbStErr>(()),
                Err(e) => Err::<(), NbStErr>(NbStErr::Other(e)),
            }),
    {
        if f.command == err_cmd {
            Err(NbStErr::Other(Self::decode_err_frame(f)))
        } else if f.command == cnf_cmd {
            Ok(())
        } else {
            Err(NbStErr::Other(StErr::ErrConfirm))
        }
    }

    /// The error code an error frame carries, `ErrConfirm` when absent
    /// or unknown.
    fn decode_err_frame(f: &Frame) -> (r: StErr)
        ensures
            r == err_frame_code(f@),
    {
        if f.data.len() == 0 {
            return StErr::ErrConfirm;
        }
        let b = f.data.byte_at(0);
        if b == 0xFF {
            StErr::TxInProgress
        } else if b == 0xFE {
            StErr::ErrConfirm
        } else if b == 0xFD {
            StErr::ErrBufLen
        } else if b == 0xFC {
            StErr::ErrTimeout
        } else if b == 0xFB {
            StErr::ErrPing
        } else if b == 0xFA {
            StErr::ErrArgs
        } else if b == 0xF9 {
            StErr::UnexpectedFrame
        } else if b == 0xF8 {
            StErr::RcvBufTooSmall
        } else if b == 0xF6 {
            StErr::TxErrNak
        } else if b == 0xF5 {
            StErr::TxErrNoStatus
        } else if b == 0xF4 {
            StErr::TxErrAckTmo
        } else if b == 0xF3 {
            StErr::TxErrBusy
        } else {
            StErr::ErrConfirm
        }
    }

    /// Whether the reply payload starts with exactly the sent bytes.
    fn echo_matches(f: &Frame, buf: &Payload) -> (r: bool)
        ensures
            r == (f@.data.len() >= buf@.len() && f@.data.take(buf@.len() as int) == buf@),
    {
        let n = buf.len();
        if f.data.len() < n {
            return false;
        }
        let mut i: usize = 0;
        while i < n
            invariant
                i <= n,
                n == buf@.len(),
                f@.data.len() >= n,
                forall|j: int| 0 <= j < i ==> f@.data[j] == buf@[j],
            decreases n - i,
        {
            if f.data.byte_at(i) != buf.byte_at(i) {
                assert(f@.data.take(n as int)[i as int] != buf@[i as int]);
                return false;
            }
            i = i + 1;
        }
        proof {
            assert(f@.data.take(n as int) =~= buf@);
        }
        true
    }
}

} // verus!
