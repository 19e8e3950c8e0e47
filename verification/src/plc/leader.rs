//! The Leader session: always the initiator on the link.
//!
//! On each poll it either sends queued host data, or — in two-way mode —
//! probes the Follower with a keepalive ping and waits briefly for the
//! reply, relaying any data the reply carries toward the host. A failed
//! send arms a short backoff before the next attempt.

use vstd::prelude::*;

use crate::driver::{
    armed_at, confirm_outcome, send_frame_step, DSender, DSenderV, Driver, SenderTagV, SfOut,
};
use crate::globals::{Globals, GlobalsV};
use crate::payload::Payload;
use crate::plc::{
    carries_header, dl_frame, stripped_payload, Channels, CHANNEL_CAP, DATA_OPT, DATA_START,
    HEADER_DATA, HEADER_IDLE, HEADER_IDX, HEADER_PING,
};
use crate::types::{NbStErr, StErr, StResult, Timeout};

verus! {

/// Leader session states.
#[derive(Debug, Clone, Copy, PartialEq, Eq, Structural)]
pub enum LeaderState {
    Dispatch,
    SendData,
    SendPing,
    WaitPing,
}

/// The payload byte sequences a queue holds.
pub open spec fn payload_views(s: Seq<Payload>) -> Seq<Seq<u8>> {
    s.map_values(|p: Payload| p@)
}

/// The Leader session machine. `TWO_WAY` enables the keepalive ping
/// that gives the Follower a slot to answer with its own data.
pub struct Leader<const TWO_WAY: bool> {
    pub state: LeaderState,
    pub driver: Driver,
    pub sender: DSender,
    pub channels: Channels,
    pub ping_timeout: Timeout,
    pub fail_timeout: Timeout,
}

impl<const TWO_WAY: bool> Leader<TWO_WAY> {
    /// The host-bound payloads queued so far.
    pub open spec fn in_view(self) -> Seq<Seq<u8>> {
        payload_views(self.channels.in_queue.contents())
    }

    /// The host payloads waiting to go out on the line.
    pub open spec fn out_view(self) -> Seq<Seq<u8>> {
        payload_views(self.channels.out_queue.contents())
    }

    /// Session invariant: the sequencer is idle exactly while no send is
    /// in flight, and the channel queues are well formed.
    pub open spec fn wf(self) -> bool {
        &&& ((self.state is Dispatch || self.state is WaitPing) ==> self.sender.is_idle())
        &&& ((self.state is SendData || self.state is SendPing) ==> !(self.sender@.tag
            is Inactive))
        &&& self.channels.wf()
    }

    /// A fresh Leader in `Dispatch`, with a one-tick backoff armed so
    /// the first poll after construction lets the modem settle.
    pub fn new(driver: Driver, sender: DSender, now: u32) -> (r: Leader<TWO_WAY>)
        requires
            sender.is_idle(),
        ensures
            r.wf(),
            r.state is Dispatch,
            r.sender == sender,
            r.in_view() == Seq::<Seq<u8>>::empty(),
            r.out_view() == Seq::<Seq<u8>>::empty(),
            r.fail_timeout == armed_at(1, now),
            !r.ping_timeout.armed,
    {
        let mut fail_timeout = Timeout::default();
        fail_timeout.set(1, now);
        let r = Leader {
            state: LeaderState::Dispatch,
            driver,
            sender,
            channels: Channels::new(),
            ping_timeout: Timeout::default(),
            fail_timeout,
        };
        proof {
            assert(r.in_view() =~= Seq::<Seq<u8>>::empty());
            assert(r.out_view() =~= Seq::<Seq<u8>>::empty());
        }
        r
    }

    /// Queue one host payload for transmission; reports false, dropping
    /// the payload, when the outbound queue is full.
    pub fn push_outbound(&mut self, p: Payload) -> (r: bool)
        requires
            old(self).wf(),
        ensures
            final(self).wf(),
            final(self).state == old(self).state,
            final(self).sender@ == old(self).sender@,
            final(self).in_view() == old(self).in_view(),
            old(self).out_view().len() < CHANNEL_CAP ==> r && final(self).out_view()
                == old(self).out_view().push(p@),
            old(self).out_view().len() >= CHANNEL_CAP ==> !r && final(self).out_view()
                == old(self).out_view(),
    {
        let r = match self.channels.out_queue.enqueue(p) {
            Ok(()) => true,
            Err(_) => false,
        };
        proof {
            if old(self).out_view().len() < CHANNEL_CAP {
                assert(self.out_view() =~= old(self).out_view().push(p@));
            } else {
                assert(self.out_view() =~= old(self).out_view());
            }
        }
        r
    }

    /// Take the next payload received from the far end, if any.
    pub fn pop_inbound(&mut self) -> (r: Option<Payload>)
        requires
            old(self).wf(),
        ensures
            final(self).wf(),
            final(self).state == old(self).state,
            final(self).sender@ == old(self).sender@,
            final(self).out_view() == old(self).out_view(),
            old(self).in_view().len() == 0 ==> r is None && final(self).in_view()
                == old(self).in_view(),
            old(self).in_view().len() > 0 ==> (r matches Some(p) && p@ == old(self).in_view()[0]
                && final(self).in_view() == old(self).in_view().skip(1)),
    {
        let r = self.channels.in_queue.dequeue();
        proof {
            if old(self).in_view().len() == 0 {
                assert(self.in_view() =~= old(self).in_view());
            } else {
                assert(self.in_view() =~= old(self).in_view().skip(1));
            }
        }
        r
    }

    /// One poll of the session.
    ///
    /// In `Dispatch`, once any backoff has elapsed: queued host data is
    /// prefixed with the `Data` header and handed to the sequencer; with
    /// nothing queued and two-way mode on, a `Ping` probe goes out
    /// instead. While a send is in flight the sequencer is polled:
    /// transport failures back off and retry, a finished ping arms the
    /// reply window. In `WaitPing`, a `Data` reply is stripped and
    /// relayed to the host queue (dropped when that queue is full), an
    /// `Idle` reply is discarded, and the window expiring counts as
    /// idle. Protocol violations — a `Ping` from the Follower, an
    /// unknown header, a broken confirmation — are returned as errors.
    pub fn process(&mut self, g: &mut Globals, now: u32) -> (r: StResult<()>)
        requires
            old(self).wf(),
            old(g).inv(),
        ensures
            final(self).wf(),
            final(g).inv(),
            ({
                let fail_exp = old(self).fail_timeout.expired_at(now);
                let ping_exp = old(self).ping_timeout.expired_at(now);
                &&& (old(self).state is Dispatch && !fail_exp ==> {
                    &&& r is Ok
                    &&& final(self).state is Dispatch
                    &&& final(self).sender@ == old(self).sender@
                    &&& final(self).in_view() == old(self).in_view()
                    &&& final(self).out_view() == old(self).out_view()
                    &&& final(g)@ == old(g)@
                })
                &&& (old(self).state is Dispatch && fail_exp && old(self).out_view().len() == 0
                    && !TWO_WAY ==> {
                    &&& r is Ok
                    &&& final(self).state is Dispatch
                    &&& final(self).sender@ == old(self).sender@
                    &&& final(self).in_view() == old(self).in_view()
                    &&& final(self).out_view() == old(self).out_view()
                    &&& final(g)@ == old(g)@
                })
                &&& (old(self).state is Dispatch && fail_exp && old(self).out_view().len() == 0
                    && TWO_WAY ==> {
                    &&& final(self).in_view() == old(self).in_view()
                    &&& final(self).out_view() == old(self).out_view()
                    &&& (if old(g)@.tx_q.len() < 2 {
                        &&& r is Ok
                        &&& final(self).state is SendPing
                        &&& final(self).sender@.tag is DlData
                        &&& final(g)@ == (GlobalsV {
                            tx_q: old(g)@.tx_q.push(dl_frame(seq![HEADER_PING])),
                            ..old(g)@
                        })
                    } else {
                        &&& r is Ok
                        &&& final(self).state is Dispatch
                        &&& final(self).fail_timeout == armed_at(100, now)
                        &&& final(g)@ == old(g)@
                    })
                })
                &&& (old(self).state is Dispatch && fail_exp && old(self).out_view().len() > 0
                    ==> {
                    &&& final(self).in_view() == old(self).in_view()
                    &&& final(self).out_view() == old(self).out_view().skip(1)
                    &&& ({
                        let head = old(self).out_view()[0];
                        if head.len() <= 241 && old(g)@.tx_q.len() < 2 {
                            &&& r is Ok
                            &&& final(self).state is SendData
                            &&& final(self).sender@.tag is DlData
                            &&& final(g)@ == (GlobalsV {
                                tx_q: old(g)@.tx_q.push(dl_frame(seq![HEADER_DATA] + head)),
                                ..old(g)@
                            })
                        } else {
                            &&& r is Ok
                            &&& final(self).state is Dispatch
                            &&& final(self).fail_timeout == armed_at(100, now)
                            &&& final(g)@ == old(g)@
                        }
                    })
                })
                &&& ((old(self).state is SendData || old(self).state is SendPing) ==> {
                    let s = send_frame_step(old(self).sender@, old(g)@, now);
                    &&& final(g)@ == s.g
                    &&& final(self).in_view() == old(self).in_view()
                    &&& final(self).out_view() == old(self).out_view()
                    &&& (match s.out {
                        SfOut::Block => {
                            &&& r is Ok
                            &&& final(self).state == old(self).state
                            &&& final(self).sender@ == s.ds
                        },
                        SfOut::Fail(e) => {
                            &&& final(self).state is Dispatch
                            &&& final(self).sender@ == (DSenderV { tag: SenderTagV::Inactive, ..s.ds })
                            &&& (if e is TxErrNoStatus || e is TxErrAckTmo || e is TxErrBusy
                                || e is TxErrNak {
                                r is Ok
                            } else {
                                r == Err::<(), StErr>(e)
                            })
                        },
                        SfOut::Done(f) => {
                            &&& final(self).sender@ == (DSenderV { tag: SenderTagV::Inactive, ..s.ds })
                            &&& (match confirm_outcome(old(self).sender@.tag, f) {
                                Ok(()) => {
                                    &&& r is Ok
                                    &&& (old(self).state is SendPing ==> final(self).state
                                        is WaitPing && final(self).ping_timeout == armed_at(
                                        500,
                                        now,
                                    ))
                                    &&& (old(self).state is SendData ==> final(self).state
                                        is Dispatch)
                                },
                                Err(e) => {
                                    &&& final(self).state is Dispatch
                                    &&& (if e is TxErrNoStatus || e is TxErrAckTmo
                                        || e is TxErrBusy || e is TxErrNak {
                                        r is Ok
                                    } else {
                                        r == Err::<(), StErr>(e)
                                    })
                                },
                            })
                        },
                    })
                })
                &&& (old(self).state is WaitPing && ping_exp ==> {
                    &&& r is Ok
                    &&& final(self).state is Dispatch
                    &&& final(self).sender@ == old(self).sender@
                    &&& final(self).in_view() == old(self).in_view()
                    &&& final(self).out_view() == old(self).out_view()
                    &&& final(g)@ == old(g)@
                })
                &&& (old(self).state is WaitPing && !ping_exp ==> {
                    &&& final(self).out_view() == old(self).out_view()
                    &&& final(self).sender@ == old(self).sender@
                    &&& (if old(g)@.ind_q.len() == 0 {
                        &&& r is Ok
                        &&& final(self).state is WaitPing
                        &&& final(self).in_view() == old(self).in_view()
                        &&& final(g)@ == old(g)@
                    } else {
                        let f = old(g)@.ind_q[0];
                        &&& final(g)@ == (GlobalsV { ind_q: old(g)@.ind_q.skip(1), ..old(g)@ })
                        &&& final(self).state is Dispatch
                        &&& (if !carries_header(f) {
                            r is Ok && final(self).in_view() == old(self).in_view()
                        } else if f.data[HEADER_IDX as int] == HEADER_DATA {
                            &&& r is Ok
                            &&& (if old(self).in_view().len() < CHANNEL_CAP {
                                final(self).in_view() == old(self).in_view().push(
                                    stripped_payload(f),
                                )
                            } else {
                                final(self).in_view() == old(self).in_view()
                            })
                        } else if f.data[HEADER_IDX as int] == HEADER_IDLE {
                            r is Ok && final(self).in_view() == old(self).in_view()
                        } else {
                            r == Err::<(), StErr>(StErr::UnexpectedFrame)
                                && final(self).in_view() == old(self).in_view()
                        })
                    })
                })
            }),
    {
        match self.state {
            LeaderState::Dispatch => {
                if !self.fail_timeout.is_expired(now) {
                    // Wait for the modem to get back before retrying.
                    return Ok(());
                }
                let send_buf = match self.channels.out_queue.dequeue() {
                    Some(b) => {
                        proof {
                            assert(self.out_view() =~= old(self).out_view().skip(1));
                            assert(b@ == old(self).out_view()[0]);
                        }
                        match b.with_prefix(HEADER_DATA) {
                            Some(p) => {
                                self.state = LeaderState::SendData;
                                p
                            },
                            None => {
                                // The payload cannot even take the header
                                // byte; drop it and back off as for any
                                // send error.
                                self.fail_timeout.set(100, now);
                                self.state = LeaderState::Dispatch;
                                return Ok(());
                            },
                        }
                    },
                    None => {
                        if TWO_WAY {
                            self.state = LeaderState::SendPing;
                            let mut p = Payload::new();
                            let ok = p.push(HEADER_PING);
                            assert(ok);
                            proof {
                                assert(p@ =~= seq![HEADER_PING]);
                                assert(self.out_view() =~= old(self).out_view());
                            }
                            p
                        } else {
                            proof {
                                assert(self.out_view() =~= old(self).out_view());
                            }
                            return Ok(());
                        }
                    },
                };
                if send_buf.len() > 241 + 1 {
                    // Too long for a DL data request even before the
                    // option byte; same backoff as a send error.
                    self.fail_timeout.set(100, now);
                    self.state = LeaderState::Dispatch;
                    return Ok(());
                }
                match self.driver.dl_data(DATA_OPT, send_buf) {
                    Ok(tag) => {
                        match self.sender.enqueue(g, tag) {
                            Ok(()) => Ok(()),
                            Err(_) => {
                                self.fail_timeout.set(100, now);
                                self.state = LeaderState::Dispatch;
                                Ok(())
                            },
                        }
                    },
                    Err(_) => {
                        self.fail_timeout.set(100, now);
                        self.state = LeaderState::Dispatch;
                        Ok(())
                    },
                }
            },
            LeaderState::SendData | LeaderState::SendPing => {
                match self.sender.process(g, now) {
                    Ok(()) => {
                        if matches!(self.state, LeaderState::SendPing) {
                            self.ping_timeout.set(500, now);
                            self.state = LeaderState::WaitPing;
                        } else {
                            self.state = LeaderState::Dispatch;
                        }
                        Ok(())
                    },
                    Err(NbStErr::WouldBlock) => Ok(()),
                    Err(NbStErr::Other(StErr::TxErrNoStatus)) => {
                        self.state = LeaderState::Dispatch;
                        Ok(())
                    },
                    Err(NbStErr::Other(StErr::TxErrAckTmo)) => {
                        self.state = LeaderState::Dispatch;
                        Ok(())
                    },
                    Err(NbStErr::Other(StErr::TxErrBusy)) => {
                        self.state = LeaderState::Dispatch;
                        Ok(())
                    },
                    Err(NbStErr::Other(StErr::TxErrNak)) => {
                        self.state = LeaderState::Dispatch;
                        Ok(())
                    },
                    Err(NbStErr::Other(e)) => {
                        // A broken confirmation or echo is a protocol
                        // violation; surface it instead of aborting.
                        self.state = LeaderState::Dispatch;
                        Err(e)
                    },
                }
            },
            LeaderState::WaitPing => {
                if self.ping_timeout.is_expired(now) {
                    self.state = LeaderState::Dispatch;
                    return Ok(());
                }
                let f = match self.driver.receive_frame(g) {
                    Some(f) => f,
                    None => {
                        return Ok(());
                    },
                };
                self.state = LeaderState::Dispatch;
                let len = f.data.len();
                if f.length as usize != len || len <= HEADER_IDX {
                    // Too short or inconsistent to carry a session
                    // header; discard defensively.
                    return Ok(());
                }
                let h = f.data.byte_at(HEADER_IDX);
                if h == HEADER_PING {
                    // The Follower never initiates.
                    return Err(StErr::UnexpectedFrame);
                } else if h == HEADER_DATA {
                    let stripped = f.data.drop_prefix(DATA_START);
                    match self.channels.in_queue.enqueue(stripped) {
                        Ok(()) => {
                            proof {
                                assert(self.in_view() =~= old(self).in_view().push(
                                    stripped_payload(f@),
                                ));
                            }
                        },
                        Err(_) => {
                            proof {
                                assert(self.in_view() =~= old(self).in_view());
                            }
                        },
                    }
                    Ok(())
                } else if h == HEADER_IDLE {
                    Ok(())
                } else {
                    Err(StErr::UnexpectedFrame)
                }
            },
        }
    }
}

} // verus!
