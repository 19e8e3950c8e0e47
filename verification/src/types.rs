//! Error codes, state-machine states and the deadline tracker shared by
//! the driver stack.

use vstd::prelude::*;

verus! {

/// Error codes of the modem protocol, as the wire and the API report them.
#[derive(Debug, Clone, Copy, PartialEq, Eq, Structural)]
pub enum StErr {
    TxInProgress,
    ErrConfirm,
    ErrBufLen,
    ErrTimeout,
    ErrPing,
    ErrArgs,
    UnexpectedFrame,
    RcvBufTooSmall,
    TxErrNak,
    TxErrNoStatus,
    TxErrAckTmo,
    TxErrBusy,
}

/// The wire byte that stands for an error code, as the modem's error
/// frames carry it (the two's complement of a small negative code).
pub open spec fn st_err_code(e: StErr) -> u8 {
    match e {
        StErr::TxInProgress => 0xFF,
        StErr::ErrConfirm => 0xFE,
        StErr::ErrBufLen => 0xFD,
        StErr::ErrTimeout => 0xFC,
        StErr::ErrPing => 0xFB,
        StErr::ErrArgs => 0xFA,
        StErr::UnexpectedFrame => 0xF9,
        StErr::RcvBufTooSmall => 0xF8,
        StErr::TxErrNak => 0xF6,
        StErr::TxErrNoStatus => 0xF5,
        StErr::TxErrAckTmo => 0xF4,
        StErr::TxErrBusy => 0xF3,
    }
}

impl StErr {
    /// The wire byte for this error code.
    pub fn code(self) -> (r: u8)
        ensures
            r == st_err_code(self),
    {
        match self {
            StErr::TxInProgress => 0xFF,
            StErr::ErrConfirm => 0xFE,
            StErr::ErrBufLen => 0xFD,
            StErr::ErrTimeout => 0xFC,
            StErr::ErrPing => 0xFB,
            StErr::ErrArgs => 0xFA,
            StErr::UnexpectedFrame => 0xF9,
            StErr::RcvBufTooSmall => 0xF8,
            StErr::TxErrNak => 0xF6,
            StErr::TxErrNoStatus => 0xF5,
            StErr::TxErrAckTmo => 0xF4,
            StErr::TxErrBusy => 0xF3,
        }
    }

    /// Decode a wire byte into an error code; unknown bytes are handed
    /// back, never trusted.
    pub fn from_code(v: u8) -> (r: Result<StErr, u8>)
        ensures
            match r {
                Ok(e) => st_err_code(e) == v,
                Err(b) => b == v && forall|e: StErr| st_err_code(e) != v,
            },
    {
        if v == 0xFF {
            Ok(StErr::TxInProgress)
        } else if v == 0xFE {
            Ok(StErr::ErrConfirm)
        } else if v == 0xFD {
            Ok(StErr::ErrBufLen)
        } else if v == 0xFC {
            Ok(StErr::ErrTimeout)
        } else if v == 0xFB {
            Ok(StErr::ErrPing)
        } else if v == 0xFA {
            Ok(StErr::ErrArgs)
        } else if v == 0xF9 {
            Ok(StErr::UnexpectedFrame)
        } else if v == 0xF8 {
            Ok(StErr::RcvBufTooSmall)
        } else if v == 0xF6 {
            Ok(StErr::TxErrNak)
        } else if v == 0xF5 {
            Ok(StErr::TxErrNoStatus)
        } else if v == 0xF4 {
            Ok(StErr::TxErrAckTmo)
        } else if v == 0xF3 {
            Ok(StErr::TxErrBusy)
        } else {
            assert(forall|e: StErr| st_err_code(e) != v) by {
                assert(st_err_code(StErr::TxInProgress) == 0xFF);
            }
            Err(v)
        }
    }
}

pub type StResult<T> = Result<T, StErr>;

/// Outcome of a non-blocking poll: not done yet, or failed with a code.
#[derive(Debug, Clone, Copy, PartialEq, Eq, Structural)]
pub enum NbStErr {
    WouldBlock,
    Other(StErr),
}

pub type NbStResult<T> = Result<T, NbStErr>;

/// Frame tx high-level (task-side) state machine states.
#[derive(Debug, Clone, Copy, PartialEq, Eq, Structural)]
pub enum TxStatus {
    TxreqLow,
    WaitStatusFrame,
    WaitTxFrameDone,
    WaitAck,
    WaitCnf,
}

/// Frame tx interrupt-level state machine states.
#[derive(Debug, Clone, Copy, PartialEq, Eq, Structural)]
pub enum TxIrqStatus {
    SendStx,
    SendLength,
    SendCommand,
    SendData,
    SendChecksumLsb,
    SendChecksumMsb,
    TxDone,
}

/// Rx frame state machine states.
#[derive(Debug, Clone, Copy, PartialEq, Eq, Structural)]
pub enum RxIrqStatus {
    FirstByte,
    StatusValue,
    Length,
    Command,
    Data,
    ChecksumLsb,
    ChecksumMsb,
}

/// Ticks elapsed from `start` to `now` on a monotonic counter that may
/// have wrapped once in between.
pub open spec fn elapsed_ticks(now: u32, start: u32) -> int {
    if now >= start {
        now - start
    } else {
        now - start + 0x1_0000_0000
    }
}

/// Deadline tracker over a monotonic `u32` tick counter. A tracker is
/// explicitly armed by `set` with a nonzero duration and disarmed by
/// `clear`; expiry compares the wraparound-safe elapsed tick count
/// against the duration.
#[derive(Debug, Clone, Copy)]
pub struct Timeout {
    pub armed: bool,
    pub tmo: u32,
    pub tmo_start_time: u32,
}

impl Timeout {
    /// Whether this tracker is armed.
    pub open spec fn is_armed(self) -> bool {
        self.armed
    }

    /// The duration this tracker was armed with.
    pub open spec fn duration(self) -> u32 {
        self.tmo
    }

    /// The tick count at which this tracker was armed.
    pub open spec fn start_time(self) -> u32 {
        self.tmo_start_time
    }

    /// Whether the tracker has expired at tick `now`: armed, and the
    /// elapsed ticks since arming (tolerating one counter wrap) have
    /// reached the duration.
    pub open spec fn expired_at(self, now: u32) -> bool {
        self.armed && elapsed_ticks(now, self.tmo_start_time) >= self.tmo
    }

    pub fn is_expired(&self, now: u32) -> (r: bool)
        ensures
            r == self.expired_at(now),
    {
        if !self.armed {
            return false;
        }
        let elapse: u32 = if now >= self.tmo_start_time {
            now - self.tmo_start_time
        } else {
            now + (u32::MAX - self.tmo_start_time) + 1
        };
        elapse >= self.tmo
    }

    /// Arm the tracker for `tmo` ticks from `now`; a zero duration
    /// disarms it instead, so "never expires" is always explicit.
    pub fn set(&mut self, tmo: u32, now: u32)
        ensures
            final(self).armed == (tmo > 0),
            final(self).tmo == tmo,
            final(self).tmo_start_time == now,
    {
        *self = Timeout { armed: tmo > 0, tmo, tmo_start_time: now };
    }

    /// Disarm the tracker.
    pub fn clear(&mut self)
        ensures
            !final(self).armed,
            final(self).tmo == 0,
            final(self).tmo_start_time == 0,
    {
        *self = Timeout { armed: false, tmo: 0, tmo_start_time: 0 };
    }
}

impl Default for Timeout {
    /// A fresh tracker is disarmed.
    fn default() -> (r: Self)
        ensures
            !r.armed,
            r.tmo == 0,
            r.tmo_start_time == 0,
    {
        Timeout { armed: false, tmo: 0, tmo_start_time: 0 }
    }
}

} // verus!
