//! The shared link context: signals, queues and the transmit-request
//! line state that the interrupt-level codec and the task-level
//! sequencer both touch.
//!
//! In the running firmware these are process-wide singletons owned by
//! exactly one interrupt handler and one sequencer; here they are one
//! explicit context struct handed to both, so every access is a
//! verified state transition.

use vstd::prelude::*;

use crate::fifo::Fifo;
use crate::frame::{Frame, FrameV};
use crate::signal::Signal;
use crate::slot::ByteSlot;

verus! {

/// Capacity of the indication frame queue.
pub const QUEUE_SIZE: usize = 8;

/// Ghost image of the shared link context.
#[verifier::ext_equal]
pub ghost struct GlobalsV {
    pub status_value: Seq<u8>,
    pub ack_rx_value: Seq<u8>,
    pub local_frame_tx: bool,
    pub wait_ack: bool,
    pub wait_status: bool,
    pub tx_active: bool,
    pub ready_to_receive: bool,
    pub ind_q: Seq<FrameV>,
    pub cnf_q: Seq<FrameV>,
    pub tx_q: Seq<FrameV>,
    pub t_req_high: bool,
    pub txe_listen: bool,
}

/// The shared link context.
pub struct Globals {
    /// Line-status byte handed from the codec to the sequencer.
    pub status_value: ByteSlot,
    /// Ack/nak byte handed from the codec to the sequencer.
    pub ack_rx_value: ByteSlot,
    /// Raised by the codec when the local outgoing frame is fully sent.
    pub local_frame_tx: Signal,
    /// Raised by the sequencer while it expects an ack/nak byte.
    pub wait_ack: Signal,
    /// Raised by the sequencer while it expects a status byte.
    pub wait_status: Signal,
    /// Raised to run the transmit machine on the next ready event.
    pub tx_active: Signal,
    /// Admission flag for non-reset indications, raised by the driver
    /// once the session layer is ready.
    pub ready_to_receive: bool,
    /// Decoded indication frames, codec to driver.
    pub ind_frame_queue: Fifo<Frame>,
    /// Decoded confirmation frames, codec to sequencer.
    pub cnf_frame_queue: Fifo<Frame>,
    /// Outgoing frames, sequencer to codec.
    pub tx_frame_queue: Fifo<Frame>,
    /// Level of the transmit-request line.
    pub t_req_high: bool,
    /// Whether the transmit-ready interrupt is enabled.
    pub txe_listen: bool,
}

impl View for Globals {
    type V = GlobalsV;

    open spec fn view(&self) -> GlobalsV {
        GlobalsV {
            status_value: self.status_value@,
            ack_rx_value: self.ack_rx_value@,
            local_frame_tx: self.local_frame_tx.raised,
            wait_ack: self.wait_ack.raised,
            wait_status: self.wait_status.raised,
            tx_active: self.tx_active.raised,
            ready_to_receive: self.ready_to_receive,
            ind_q: self.ind_frame_queue.contents().map_values(|f: Frame| f@),
            cnf_q: self.cnf_frame_queue.contents().map_values(|f: Frame| f@),
            tx_q: self.tx_frame_queue.contents().map_values(|f: Frame| f@),
            t_req_high: self.t_req_high,
            txe_listen: self.txe_listen,
        }
    }
}

/// Every queued outgoing frame announces its true payload length, as
/// the frame builders guarantee.
pub open spec fn tx_frames_wf(q: Seq<FrameV>) -> bool {
    forall|i: int| 0 <= i < q.len() ==> (#[trigger] q[i]).data.len() == q[i].length
}

impl Globals {
    /// Structural invariant: the queues are well formed with their fixed
    /// capacities, and every queued outgoing frame announces its true
    /// payload length.
    pub open spec fn inv(self) -> bool {
        &&& self.ind_frame_queue.wf()
        &&& self.ind_frame_queue.cap == QUEUE_SIZE
        &&& self.cnf_frame_queue.wf()
        &&& self.cnf_frame_queue.cap == 2
        &&& self.tx_frame_queue.wf()
        &&& self.tx_frame_queue.cap == 2
        &&& tx_frames_wf(self@.tx_q)
    }

    /// A fresh link context: signals lowered, queues empty, the
    /// transmit-request line released high and the transmit-ready
    /// interrupt off.
    pub fn new() -> (r: Globals)
        ensures
            r.inv(),
            r@ == (GlobalsV {
                status_value: Seq::<u8>::empty(),
                ack_rx_value: Seq::<u8>::empty(),
                local_frame_tx: false,
                wait_ack: false,
                wait_status: false,
                tx_active: false,
                ready_to_receive: false,
                ind_q: Seq::<FrameV>::empty(),
                cnf_q: Seq::<FrameV>::empty(),
                tx_q: Seq::<FrameV>::empty(),
                t_req_high: true,
                txe_listen: false,
            }),
    {
        let r = Globals {
            status_value: ByteSlot::new(),
            ack_rx_value: ByteSlot::new(),
            local_frame_tx: Signal::new(),
            wait_ack: Signal::new(),
            wait_status: Signal::new(),
            tx_active: Signal::new(),
            ready_to_receive: false,
            ind_frame_queue: Fifo::new(QUEUE_SIZE),
            cnf_frame_queue: Fifo::new(2),
            tx_frame_queue: Fifo::new(2),
            t_req_high: true,
            txe_listen: false,
        };
        proof {
            assert(r@.ind_q =~= Seq::<FrameV>::empty());
            assert(r@.cnf_q =~= Seq::<FrameV>::empty());
            assert(r@.tx_q =~= Seq::<FrameV>::empty());
            assert(r@ =~~= (GlobalsV {
                status_value: Seq::<u8>::empty(),
                ack_rx_value: Seq::<u8>::empty(),
                local_frame_tx: false,
                wait_ack: false,
                wait_status: false,
                tx_active: false,
                ready_to_receive: false,
                ind_q: Seq::<FrameV>::empty(),
                cnf_q: Seq::<FrameV>::empty(),
                tx_q: Seq::<FrameV>::empty(),
                t_req_high: true,
                txe_listen: false,
            }));
        }
        r
    }
}

} // verus!
