//! CDC-EEM packet header decoding: the two-byte header that announces
//! either a data packet, with its length and CRC flag, or one of the
//! protocol's command packets.

use vstd::prelude::*;

verus! {

/// A decoded EEM header: a data packet, a command packet, or the
/// zero-length separator.
#[derive(Debug, Clone, Copy, PartialEq, Eq, Structural)]
pub enum PacketType {
    Data(DataHeader),
    Command(CommandHeader),
    ZeroLength,
}

/// The raw sixteen header bits.
#[derive(Debug, Clone, Copy, PartialEq, Eq, Structural)]
pub struct PacketHeader(pub u16);

impl PacketHeader {
    /// Classify the header: all-zero is the separator, a clear top bit
    /// is a data packet, a set top bit is a command packet.
    pub fn into_packet_type(self) -> (r: PacketType)
        ensures
            self.0 == 0 ==> r == PacketType::ZeroLength,
            self.0 != 0 && self.0 & 0x8000 == 0 ==> r == PacketType::Data(DataHeader(self.0)),
            self.0 & 0x8000 != 0 ==> r == PacketType::Command(CommandHeader(self.0)),
    {
        let bits = self.0;
        if bits == 0 {
            proof {
                assert(0u16 & 0x8000 == 0) by (bit_vector);
            }
            PacketType::ZeroLength
        } else if bits & 0x8000 == 0 {
            PacketType::Data(DataHeader(bits))
        } else {
            PacketType::Command(CommandHeader(bits))
        }
    }
}

/// Header of a data packet.
#[derive(Debug, Clone, Copy, PartialEq, Eq, Structural)]
pub struct DataHeader(pub u16);

impl DataHeader {
    /// Whether the sender calculated the frame's CRC.
    pub fn is_crc_calculated(&self) -> (r: bool)
        ensures
            r == (self.0 & 0x4000 != 0),
    {
        self.0 & 0x4000 != 0
    }

    /// The announced payload length: the low fourteen bits.
    pub fn length(&self) -> (r: u16)
        ensures
            r == self.0 & 0x3fff,
    {
        self.0 & 0x3fff
    }
}

/// The command packets the protocol defines.
#[derive(Debug, Clone, Copy, PartialEq, Eq, Structural)]
pub enum EemCmd {
    Echo(EchoCmdHeader),
    EchoResponse(EchoResponseCmdHeader),
    SuspendHint(SuspendHintCmdHeader),
    ResponseHint(ResponseHintCmdHeader),
    ResponseCompleteHint(ResponseCompleteHintCmdHeader),
    Tickle(TickleCmdHeader),
    Reserved6,
    Reserved7,
    ReservedTagged,
}

/// Header of a command packet.
#[derive(Debug, Clone, Copy, PartialEq, Eq, Structural)]
pub struct CommandHeader(pub u16);

impl CommandHeader {
    /// Decode the command: reserved when any tag bit is set, else by
    /// the three-bit opcode.
    pub fn eem_cmd(&self) -> (r: EemCmd)
        ensures
            self.0 & 0x7000 != 0 ==> r == EemCmd::ReservedTagged,
            self.0 & 0x7000 == 0 ==> r == (match (self.0 >> 11) & 0x07 {
                0u16 => EemCmd::Echo(EchoCmdHeader(self.0)),
                1u16 => EemCmd::EchoResponse(EchoResponseCmdHeader(self.0)),
                2u16 => EemCmd::SuspendHint(SuspendHintCmdHeader(self.0)),
                3u16 => EemCmd::ResponseHint(ResponseHintCmdHeader(self.0)),
                4u16 => EemCmd::ResponseCompleteHint(ResponseCompleteHintCmdHeader(self.0)),
                5u16 => EemCmd::Tickle(TickleCmdHeader(self.0)),
                6u16 => EemCmd::Reserved6,
                _ => EemCmd::Reserved7,
            }),
    {
        let bits = self.0;
        if bits & 0x7000 != 0 {
            return EemCmd::ReservedTagged;
        }
        let op = (bits >> 11) & 0x07;
        if op == 0 {
            EemCmd::Echo(EchoCmdHeader(bits))
        } else if op == 1 {
            EemCmd::EchoResponse(EchoResponseCmdHeader(bits))
        } else if op == 2 {
            EemCmd::SuspendHint(SuspendHintCmdHeader(bits))
        } else if op == 3 {
            EemCmd::ResponseHint(ResponseHintCmdHeader(bits))
        } else if op == 4 {
            EemCmd::ResponseCompleteHint(ResponseCompleteHintCmdHeader(bits))
        } else if op == 5 {
            EemCmd::Tickle(TickleCmdHeader(bits))
        } else if op == 6 {
            EemCmd::Reserved6
        } else {
            proof {
                assert((bits >> 11) & 0x07 == 7) by (bit_vector)
                    requires
                        (bits >> 11) & 0x07 != 0 && (bits >> 11) & 0x07 != 1 && (bits >> 11)
                            & 0x07 != 2 && (bits >> 11) & 0x07 != 3 && (bits >> 11) & 0x07 != 4
                            && (bits >> 11) & 0x07 != 5 && (bits >> 11) & 0x07 != 6,
                ;
            }
            EemCmd::Reserved7
        }
    }
}

/// Echo command header.
#[derive(Debug, Clone, Copy, PartialEq, Eq, Structural)]
pub struct EchoCmdHeader(pub u16);

/// Echo-response command header.
#[derive(Debug, Clone, Copy, PartialEq, Eq, Structural)]
pub struct EchoResponseCmdHeader(pub u16);

/// Suspend-hint command header.
#[derive(Debug, Clone, Copy, PartialEq, Eq, Structural)]
pub struct SuspendHintCmdHeader(pub u16);

/// Response-hint command header.
#[derive(Debug, Clone, Copy, PartialEq, Eq, Structural)]
pub struct ResponseHintCmdHeader(pub u16);

/// Response-complete-hint command header.
#[derive(Debug, Clone, Copy, PartialEq, Eq, Structural)]
pub struct ResponseCompleteHintCmdHeader(pub u16);

/// Tickle command header.
#[derive(Debug, Clone, Copy, PartialEq, Eq, Structural)]
pub struct TickleCmdHeader(pub u16);

} // verus!
