//! The Follower session: always the responder on the link.
//!
//! It waits for frames from the Leader: data frames are stripped and
//! relayed toward the host; a ping gives it one slot to answer, with
//! queued host data when it has any, with a bare `Idle` byte otherwise.

use vstd::prelude::*;

use crate::driver::{
    confirm_outcome, send_frame_step, DSender, DSenderV, Driver, SenderTagV, SfOut,
};
use crate::globals::{Globals, GlobalsV};
use crate::payload::Payload;
use crate::plc::{
    carries_header, dl_frame, stripped_payload, Channels, CHANNEL_CAP, DATA_OPT, DATA_START,
    HEADER_DATA, HEADER_IDLE, HEADER_IDX, HEADER_PING,
};
use crate::types::{NbStErr, StErr, StResult};
use crate::plc::leader::payload_views;

verus! {

/// Follower session states.
#[derive(Debug, Clone, Copy, PartialEq, Eq, Structural)]
pub enum FollowerState {
    Wait,
    Send,
}

/// The Follower session machine. In one-way mode it only ever relays
/// data and must never see a ping.
pub struct Follower<const TWO_WAY: bool> {
    pub state: FollowerState,
    pub driver: Driver,
    pub sender: DSender,
    pub channels: Channels,
}

impl<const TWO_WAY: bool> Follower<TWO_WAY> {
    /// The host-bound payloads queued so far.
    pub open spec fn in_view(self) -> Seq<Seq<u8>> {
        payload_views(self.channels.in_queue.contents())
    }

    /// The host payloads waiting for a ping slot to go out.
    pub open spec fn out_view(self) -> Seq<Seq<u8>> {
        payload_views(self.channels.out_queue.contents())
    }

    /// Session invariant: the sequencer is busy exactly while a reply is
    /// in flight, replies only happen in two-way mode, and the channel
    /// queues are well formed.
    pub open spec fn wf(self) -> bool {
        &&& (self.state is Wait ==> self.sender.is_idle())
        &&& (self.state is Send ==> !(self.sender@.tag is Inactive))
        &&& (!TWO_WAY ==> self.state is Wait)
        &&& self.channels.wf()
    }

    /// A fresh Follower in `Wait`.
    pub fn new(driver: Driver, sender: DSender) -> (r: Follower<TWO_WAY>)
        requires
            sender.is_idle(),
        ensures
            r.wf(),
            r.state is Wait,
            r.sender == sender,
            r.in_view() == Seq::<Seq<u8>>::empty(),
            r.out_view() == Seq::<Seq<u8>>::empty(),
    {
        let r = Follower { state: FollowerState::Wait, driver, sender, channels: Channels::new() };
        proof {
            assert(r.in_view() =~= Seq::<Seq<u8>>::empty());
            assert(r.out_view() =~= Seq::<Seq<u8>>::empty());
        }
        r
    }

    /// Queue one host payload to ride the next ping reply; reports
    /// false, dropping the payload, when the outbound queue is full.
    pub fn push_outbound(&mut self, p: Payload) -> (r: bool)
        requires
            old(self).wf(),
        ensures
            final(self).wf(),
            final(self).state == old(self).state,
            final(self).sender@ == old(self).sender@,
            final(self).in_view() == old(self).in_view(),
            old(self).out_view().len() < CHANNEL_CAP ==> r && final(self).out_view()
                == old(self).out_view().push(p@),
            old(self).out_view().len() >= CHANNEL_CAP ==> !r && final(self).out_view()
                == old(self).out_view(),
    {
        let r = match self.channels.out_queue.enqueue(p) {
            Ok(()) => true,
            Err(_) => false,
        };
        proof {
            if old(self).out_view().len() < CHANNEL_CAP {
                assert(self.out_view() =~= old(self).out_view().push(p@));
            } else {
                assert(self.out_view() =~= old(self).out_view());
            }
        }
        r
    }

    /// Take the next payload received from the Leader, if any.
    pub fn pop_inbound(&mut self) -> (r: Option<Payload>)
        requires
            old(self).wf(),
        ensures
            final(self).wf(),
            final(self).state == old(self).state,
            final(self).sender@ == old(self).sender@,
            final(self).out_view() == old(self).out_view(),
            old(self).in_view().len() == 0 ==> r is None && final(self).in_view()
                == old(self).in_view(),
            old(self).in_view().len() > 0 ==> (r matches Some(p) && p@ == old(self).in_view()[0]
                && final(self).in_view() == old(self).in_view().skip(1)),
    {
        let r = self.channels.in_queue.dequeue();
        proof {
            if old(self).in_view().len() == 0 {
                assert(self.in_view() =~= old(self).in_view());
            } else {
                assert(self.in_view() =~= old(self).in_view().skip(1));
            }
        }
        r
    }

    /// One poll of the session.
    ///
    /// In `Wait`: a data frame is stripped and relayed to the host
    /// queue (dropped when that queue is full); a ping — only legal in
    /// two-way mode — is answered with queued host data behind a `Data`
    /// header, or with a bare `Idle` byte, moving to `Send`; frames too
    /// short to carry a header are discarded. In `Send` the sequencer is
    /// polled: the status and ack timeouts log-and-retry, anything else
    /// broken is returned as an error.
    pub fn process(&mut self, g: &mut Globals, now: u32) -> (r: StResult<()>)
        requires
            old(self).wf(),
            old(g).inv(),
        ensures
            final(self).wf(),
            final(g).inv(),
            ({
                &&& (old(self).state is Wait && old(g)@.ind_q.len() == 0 ==> {
                    &&& r is Ok
                    &&& final(self).state is Wait
                    &&& final(self).sender@ == old(self).sender@
                    &&& final(self).in_view() == old(self).in_view()
                    &&& final(self).out_view() == old(self).out_view()
                    &&& final(g)@ == old(g)@
                })
                &&& (old(self).state is Wait && old(g)@.ind_q.len() > 0 ==> {
                    let f = old(g)@.ind_q[0];
                    let g1 = GlobalsV { ind_q: old(g)@.ind_q.skip(1), ..old(g)@ };
                    &&& (if !carries_header(f) {
                        &&& r is Ok
                        &&& final(self).state is Wait
                        &&& final(self).sender@ == old(self).sender@
                        &&& final(self).in_view() == old(self).in_view()
                        &&& final(self).out_view() == old(self).out_view()
                        &&& final(g)@ == g1
                    } else if f.data[HEADER_IDX as int] == HEADER_IDLE {
                        r == Err::<(), StErr>(StErr::UnexpectedFrame) && final(g)@ == g1
                    } else if f.data[HEADER_IDX as int] == HEADER_DATA {
                        &&& r is Ok
                        &&& final(self).state is Wait
                        &&& final(self).sender@ == old(self).sender@
                        &&& final(self).out_view() == old(self).out_view()
                        &&& final(g)@ == g1
                        &&& (if old(self).in_view().len() < CHANNEL_CAP {
                            final(self).in_view() == old(self).in_view().push(stripped_payload(f))
                        } else {
                            final(self).in_view() == old(self).in_view()
                        })
                    } else if f.data[HEADER_IDX as int] == HEADER_PING && !TWO_WAY {
                        r == Err::<(), StErr>(StErr::UnexpectedFrame) && final(g)@ == g1
                    } else if f.data[HEADER_IDX as int] == HEADER_PING {
                        &&& final(self).in_view() == old(self).in_view()
                        &&& ({
                            let reply = if old(self).out_view().len() > 0 {
                                seq![HEADER_DATA] + old(self).out_view()[0]
                            } else {
                                seq![HEADER_IDLE]
                            };
                            let popped = if old(self).out_view().len() > 0 {
                                old(self).out_view().skip(1)
                            } else {
                                old(self).out_view()
                            };
                            &&& final(self).out_view() == popped
                            &&& (if reply.len() <= 242 && g1.tx_q.len() < 2 {
                                &&& r is Ok
                                &&& final(self).state is Send
                                &&& final(self).sender@.tag is DlData
                                &&& final(g)@ == (GlobalsV {
                                    tx_q: g1.tx_q.push(dl_frame(reply)),
                                    ..g1
                                })
                            } else {
                                &&& r is Ok
                                &&& final(self).state is Wait
                                &&& final(g)@ == g1
                            })
                        })
                    } else {
                        r == Err::<(), StErr>(StErr::UnexpectedFrame) && final(g)@ == g1
                    })
                })
                &&& (old(self).state is Send ==> {
                    let s = send_frame_step(old(self).sender@, old(g)@, now);
                    &&& final(g)@ == s.g
                    &&& final(self).in_view() == old(self).in_view()
                    &&& final(self).out_view() == old(self).out_view()
                    &&& (match s.out {
                        SfOut::Block => {
                            &&& r is Ok
                            &&& final(self).state is Send
                            &&& final(self).sender@ == s.ds
                        },
                        SfOut::Fail(e) => {
                            &&& final(self).state is Wait
                            &&& final(self).sender@ == (DSenderV { tag: SenderTagV::Inactive, ..s.ds })
                            &&& (if e is TxErrNoStatus || e is TxErrAckTmo {
                                r is Ok
                            } else {
                                r == Err::<(), StErr>(e)
                            })
                        },
                        SfOut::Done(f) => {
                            &&& final(self).state is Wait
                            &&& final(self).sender@ == (DSenderV { tag: SenderTagV::Inactive, ..s.ds })
                            &&& (match confirm_outcome(old(self).sender@.tag, f) {
                                Ok(()) => r is Ok,
                                Err(e) => (if e is TxErrNoStatus || e is TxErrAckTmo {
                                    r is Ok
                                } else {
                                    r == Err::<(), StErr>(e)
                                }),
                            })
                        },
                    })
                })
            }),
    {
        match self.state {
            FollowerState::Wait => {
                let f = match self.driver.receive_frame(g) {
                    Some(f) => f,
                    None => {
                        return Ok(());
                    },
                };
                let len = f.data.len();
                if f.length as usize != len || len <= HEADER_IDX {
                    // Zero-length or inconsistent frames are discarded
                    // defensively.
                    return Ok(());
                }
                let h = f.data.byte_at(HEADER_IDX);
                if h == HEADER_IDLE {
                    // The Leader never sends a bare idle.
                    return Err(StErr::UnexpectedFrame);
                } else if h == HEADER_DATA {
                    let stripped = f.data.drop_prefix(DATA_START);
                    match self.channels.in_queue.enqueue(stripped) {
                        Ok(()) => {
                            proof {
                                assert(self.in_view() =~= old(self).in_view().push(
                                    stripped_payload(f@),
                                ));
                            }
                        },
                        Err(_) => {
                            proof {
                                assert(self.in_view() =~= old(self).in_view());
                            }
                        },
                    }
                    Ok(())
                } else if h == HEADER_PING {
                    if !TWO_WAY {
                        return Err(StErr::UnexpectedFrame);
                    }
                    let send_buf = match self.channels.out_queue.dequeue() {
                        Some(b) => {
                            proof {
                                assert(self.out_view() =~= old(self).out_view().skip(1));
                                assert(b@ == old(self).out_view()[0]);
                            }
                            match b.with_prefix(HEADER_DATA) {
                                Some(p) => p,
                                None => {
                                    // Cannot even take the header byte;
                                    // drop it and stay ready for the next
                                    // ping.
                                    return Ok(());
                                },
                            }
                        },
                        None => {
                            let mut p = Payload::new();
                            let ok = p.push(HEADER_IDLE);
                            assert(ok);
                            proof {
                                assert(p@ =~= seq![HEADER_IDLE]);
                                assert(self.out_view() =~= old(self).out_view());
                            }
                            p
                        },
                    };
                    if send_buf.len() > 242 {
                        // Too long for a DL data request; drop and stay
                        // ready.
                        return Ok(());
                    }
                    match self.driver.dl_data(DATA_OPT, send_buf) {
                        Ok(tag) => {
                            match self.sender.enqueue(g, tag) {
                                Ok(()) => {
                                    self.state = FollowerState::Send;
                                    Ok(())
                                },
                                Err(_) => Ok(()),
                            }
                        },
                        Err(_) => Ok(()),
                    }
                } else {
                    Err(StErr::UnexpectedFrame)
                }
            },
            FollowerState::Send => {
                match self.sender.process(g, now) {
                    Ok(()) => {
                        self.state = FollowerState::Wait;
                        Ok(())
                    },
                    Err(NbStErr::WouldBlock) => Ok(()),
                    Err(NbStErr::Other(StErr::TxErrNoStatus)) => {
                        self.state = FollowerState::Wait;
                        Ok(())
                    },
                    Err(NbStErr::Other(StErr::TxErrAckTmo)) => {
                        self.state = FollowerState::Wait;
                        Ok(())
                    },
                    Err(NbStErr::Other(e)) => {
                        self.state = FollowerState::Wait;
                        Err(e)
                    },
                }
            },
        }
    }
}

} // verus!
