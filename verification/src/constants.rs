//! Protocol constants: command codes, start bytes, timeouts and payload
//! limits of the modem's framed serial protocol.

use vstd::prelude::*;

verus! {

/// PHY configuration parameter fitting written at link start-up.
pub const PHY_CONFIG: [u8; 14] = [
    0x01, 0xC9, 0x08, 0x01, 0x8E, 0x70, 0x0E, 0x15, 0x00, 0x00, 0x02, 0x35, 0x9B, 0x58,
];

/// Modem configuration fitting written at link start-up: DL data mode.
pub const MODEM_CONFIG: [u8; 1] = [0x00];

/// Modem configuration parameter indices.
pub const MIB_MODEM_CONF: u8 = 0x00;
pub const MIB_PHY_CONF: u8 = 0x01;
pub const MIB_SS_KEY: u8 = 0x02;
pub const MIB_LAST_DATA_IND: u8 = 0x04;
pub const MIB_LAST_TX_CNF: u8 = 0x05;
pub const MIB_PHY_DATA: u8 = 0x06;
pub const MIB_DL_DATA: u8 = 0x07;
pub const MIB_SS_DATA: u8 = 0x08;
pub const MIB_HOST_IF_TOUT: u8 = 0x09;
pub const MIB_FW_VERSION: u8 = 0x0A;

/// Acknowledgement codes.
pub const ACK: u8 = 0x06;
pub const NAK: u8 = 0x15;
/// Bits of a status byte that report the line busy.
pub const BUSY_MASK: u8 = 0x06;

/// Start-of-frame codes: request, indication, and the marker that
/// announces a single line-status byte.
pub const STX_02: u8 = 0x02;
pub const STX_03: u8 = 0x03;
pub const STX_STATUS: u8 = 0x3F;

/// Largest user payload of a PHY data request.
pub const PHY_DATALEN_MAX: usize = 250;
/// Largest user payload of a DL data request.
pub const DL_DATALEN_MAX: usize = 242;
pub const SS_DATALEN_MAX: usize = 226;

/// Inter-character timeout, msec.
pub const IC_TMO: u32 = 10;
/// Ack timeout, msec.
pub const ACK_TMO: u32 = 40;
/// Status message timeout, msec.
pub const STATUS_MSG_TMO: u32 = 200;
/// Command confirmation timeout, msec.
pub const CMD_TMO: u32 = 4000;

/// Command codes, one family per operation, each with request,
/// confirmation, indication and error variants at fixed offsets.
pub const CMD_RESET_REQ: u8 = 0x3C;
pub const CMD_RESET_CNF: u8 = 0x3D;
pub const CMD_RESET_IND: u8 = 0x3E;
pub const CMD_RESET_ERR: u8 = 0x3F;

pub const CMD_MIB_WRITE_REQ: u8 = 0x08;
pub const CMD_MIB_WRITE_CNF: u8 = 0x09;
pub const CMD_MIB_WRITE_ERR: u8 = 0x0B;

pub const CMD_MIB_READ_REQ: u8 = 0x0C;
pub const CMD_MIB_READ_CNF: u8 = 0x0D;
pub const CMD_MIB_READ_ERR: u8 = 0x0F;

pub const CMD_MIB_ERASE_REQ: u8 = 0x10;
pub const CMD_MIB_ERASE_CNF: u8 = 0x11;
pub const CMD_MIB_ERASE_ERR: u8 = 0x13;

pub const CMD_PING_REQ: u8 = 0x2C;
pub const CMD_PING_CNF: u8 = 0x2D;

pub const CMD_PHY_DATA_REQ: u8 = 0x24;
pub const CMD_PHY_DATA_CNF: u8 = 0x25;
pub const CMD_PHY_DATA_IND: u8 = 0x26;
pub const CMD_PHY_DATA_ERR: u8 = 0x27;

pub const CMD_DL_DATA_REQ: u8 = 0x50;
pub const CMD_DL_DATA_CNF: u8 = 0x51;
pub const CMD_DL_DATA_IND: u8 = 0x52;
pub const CMD_DL_DATA_ERR: u8 = 0x53;
pub const CMD_DL_SNIFFER_IND: u8 = 0x5A;

pub const CMD_SS_DATA_REQ: u8 = 0x54;
pub const CMD_SS_DATA_CNF: u8 = 0x55;
pub const CMD_SS_DATA_IND: u8 = 0x56;
pub const CMD_SS_DATA_ERR: u8 = 0x57;
pub const CMD_SS_SNIFFER_IND: u8 = 0x5E;

/// Whether a command code is an unsolicited modem-to-host indication.
pub open spec fn is_indication_spec(c: u8) -> bool {
    c == CMD_RESET_IND || c == CMD_PHY_DATA_IND || c == CMD_DL_DATA_IND
        || c == CMD_DL_SNIFFER_IND || c == CMD_SS_DATA_IND || c == CMD_SS_SNIFFER_IND
}

/// Classification of a received command code: indication or
/// confirmation.
pub trait IndicationValue {
    fn is_indication(&self) -> bool;
}

impl IndicationValue for u8 {
    /// Whether this command code is an indication.
    fn is_indication(&self) -> (r: bool)
        ensures
            r == is_indication_spec(*self),
    {
        *self == CMD_RESET_IND || *self == CMD_PHY_DATA_IND || *self == CMD_DL_DATA_IND
            || *self == CMD_DL_SNIFFER_IND || *self == CMD_SS_DATA_IND
            || *self == CMD_SS_SNIFFER_IND
    }
}

/// The ack byte that reports a checksum judgement.
pub open spec fn ack_byte_spec(good: bool) -> u8 {
    if good {
        ACK
    } else {
        NAK
    }
}

/// The wire byte for a checksum judgement: ack for valid, nak for invalid.
pub trait AckValue {
    fn to_ack(self) -> u8;
}

impl AckValue for bool {
    fn to_ack(self) -> (r: u8)
        ensures
            r == ack_byte_spec(self),
    {
        if self {
            ACK
        } else {
            NAK
        }
    }
}

} // verus!
