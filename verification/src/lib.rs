//! Driver stack for an ST7580 power-line-communication modem bridge.
//!
//! The stack mediates between a host and a PLC modem speaking a framed
//! serial protocol: a byte-at-a-time frame codec driven by UART events,
//! a half-duplex request/ack/confirm transmit sequencer, and the
//! Leader/Follower session machines that multiplex user data and
//! keepalive pings over the single physical link.
//!
//! All hardware access (UART registers, GPIO pins, the monotonic clock)
//! is injected as plain values: the interrupt-level entry points take the
//! received byte and the current tick count as arguments and return the
//! byte to transmit, so the whole protocol logic is verifiable while an
//! embedding supplies the I/O.

pub mod codec;
pub mod constants;
pub mod driver;
pub mod eem;
pub mod fifo;
pub mod frame;
pub mod globals;
pub mod isr;
pub mod payload;
pub mod plc;
pub mod signal;
pub mod slot;
pub mod types;
pub mod util;

