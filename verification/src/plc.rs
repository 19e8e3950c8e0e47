//! Leader/Follower session layer multiplexing user data and keepalive
//! pings over the single half-duplex link.
//!
//! Every exchanged payload starts, after the link-level prefix bytes,
//! with a one-byte header: `Idle` (nothing to send), `Data` (a user
//! payload follows) or `Ping` (a keepalive probe). The Leader always
//! initiates; the Follower always answers, carrying its own outbound
//! data inside the ping reply when it has any.

use vstd::prelude::*;

use crate::fifo::Fifo;
use crate::frame::{checksum_spec, FrameV};
use crate::payload::Payload;

pub mod follower;
pub mod leader;

verus! {

/// Index of the header byte inside a received data indication: the
/// modem prepends four link-metadata bytes to the user payload.
pub const HEADER_IDX: usize = 4;
/// First byte of user data inside a received data indication.
pub const DATA_START: usize = 5;

/// Option byte sent with every outgoing data request.
pub const DATA_OPT: u8 = 0b0_010_0_1_0_0;

/// Wire values of the session header byte.
pub const HEADER_IDLE: u8 = 0x00;
pub const HEADER_DATA: u8 = 0x01;
pub const HEADER_PING: u8 = 0x02;

/// The one-byte session header on every Leader/Follower exchange.
#[derive(Debug, Clone, Copy, PartialEq, Eq, Structural)]
pub enum Header {
    Idle,
    Data,
    Ping,
}

/// The wire byte of a header.
pub open spec fn header_byte(h: Header) -> u8 {
    match h {
        Header::Idle => HEADER_IDLE,
        Header::Data => HEADER_DATA,
        Header::Ping => HEADER_PING,
    }
}

impl Header {
    /// The wire byte of this header.
    pub fn to_byte(self) -> (r: u8)
        ensures
            r == header_byte(self),
    {
        match self {
            Header::Idle => HEADER_IDLE,
            Header::Data => HEADER_DATA,
            Header::Ping => HEADER_PING,
        }
    }

    /// Decode a wire byte; an unknown byte is handed back, never
    /// trusted.
    pub fn try_from_byte(v: u8) -> (r: Result<Header, u8>)
        ensures
            (match r {
                Ok(h) => header_byte(h) == v,
                Err(b) => b == v && v != HEADER_IDLE && v != HEADER_DATA && v != HEADER_PING,
            }),
    {
        if v == HEADER_IDLE {
            Ok(Header::Idle)
        } else if v == HEADER_DATA {
            Ok(Header::Data)
        } else if v == HEADER_PING {
            Ok(Header::Ping)
        } else {
            Err(v)
        }
    }
}

/// The session's two payload queues: `in_queue` carries received user
/// data toward the host, `out_queue` carries host data waiting to be
/// sent over the line.
pub struct Channels {
    pub in_queue: Fifo<Payload>,
    pub out_queue: Fifo<Payload>,
}

/// Capacity of each host-facing payload queue.
pub const CHANNEL_CAP: usize = 32;

impl Channels {
    pub open spec fn wf(self) -> bool {
        &&& self.in_queue.wf()
        &&& self.in_queue.cap == CHANNEL_CAP
        &&& self.out_queue.wf()
        &&& self.out_queue.cap == CHANNEL_CAP
    }

    /// Fresh, empty queues.
    pub fn new() -> (r: Channels)
        ensures
            r.wf(),
            r.in_queue.contents() == Seq::<Payload>::empty(),
            r.out_queue.contents() == Seq::<Payload>::empty(),
    {
        Channels { in_queue: Fifo::new(CHANNEL_CAP), out_queue: Fifo::new(CHANNEL_CAP) }
    }
}

/// The outgoing link frame that carries `payload` (already holding its
/// session header) as a DL data request.
pub open spec fn dl_frame(payload: Seq<u8>) -> FrameV {
    FrameV {
        stx: crate::constants::STX_02,
        length: (payload.len() + 1) as u8,
        command: crate::constants::CMD_DL_DATA_REQ,
        data: seq![DATA_OPT] + payload,
        checksum: checksum_spec(
            crate::constants::CMD_DL_DATA_REQ,
            (payload.len() + 1) as u8,
            seq![DATA_OPT] + payload,
        ),
    }
}

/// Whether a received indication frame is consistent enough to carry a
/// session header: its buffer matches its announced length and reaches
/// past the link-metadata prefix.
pub open spec fn carries_header(f: FrameV) -> bool {
    f.data.len() == f.length && f.data.len() > HEADER_IDX
}

/// The user payload inside a received data indication: everything past
/// the metadata prefix and the header byte.
pub open spec fn stripped_payload(f: FrameV) -> Seq<u8> {
    f.data.skip(DATA_START as int)
}

} // verus!
