//! [`Remote`] control events, from identifier `0x1c0`.

use vstd::prelude::*;

use super::{checked, outcome, Decoded, ParseError};
use crate::frame::{Frame, FrameView};
use crate::text::{detail_hex, with_hex};

verus! {

/// The identifier remote-control frames come from.
pub const REMOTE_ID: u32 = 0x1c0;

/// The payload length of a remote-control frame.
pub const REMOTE_LEN: usize = 6;

/// Detail of the error for a first byte that names no remote action.
pub const UNKNOWN_REMOTE: &'static str = "byte at index 0 is not a known remote action";

/// Source of a [`Remote`] event.
#[derive(Debug, Clone, Copy, PartialEq, Eq, Structural)]
pub enum RemoteSource {
    /// From the UConnect app.
    App,
    /// From the key fob.
    KeyFob,
}

/// A remote-control event.
#[derive(Debug, Clone, Copy, PartialEq, Eq, Structural)]
pub enum Remote {
    /// Idle; the vehicle is awake.
    Idle,
    /// Lock request.
    LockFrom(RemoteSource),
    /// Unlock request.
    UnlockFrom(RemoteSource),
    /// Two unlock presses in a row on the key fob.
    DoubleUnlock,
    /// Keyless entry into the vehicle.
    KeylessEntry,
    /// Request to start the vehicle.
    StartFrom(RemoteSource),
    /// Remote start was cancelled.
    CancelStart,
    /// Panic request.
    PanicFrom(RemoteSource),
}

impl Remote {
    /// The remote action that a first payload byte names, if any.
    pub open spec fn from_code(b: u8) -> Option<Remote> {
        match b {
            0x00 => Some(Remote::Idle),
            0x21 => Some(Remote::LockFrom(RemoteSource::KeyFob)),
            0x23 => Some(Remote::UnlockFrom(RemoteSource::KeyFob)),
            0x24 => Some(Remote::DoubleUnlock),
            0x2E => Some(Remote::PanicFrom(RemoteSource::KeyFob)),
            0x43 => Some(Remote::KeylessEntry),
            0x69 => Some(Remote::StartFrom(RemoteSource::KeyFob)),
            0x81 => Some(Remote::LockFrom(RemoteSource::App)),
            0x83 => Some(Remote::UnlockFrom(RemoteSource::App)),
            0x6A => Some(Remote::CancelStart),
            _ => None,
        }
    }

    /// What a frame decodes to as a remote-control event.
    pub open spec fn decode(f: FrameView) -> Decoded<Remote> {
        checked(
            f,
            REMOTE_ID,
            REMOTE_LEN,
            match Self::from_code(f.payload[0]) {
                Some(v) => Decoded::Value(v),
                None => Decoded::Invalid(with_hex(UNKNOWN_REMOTE@, f.payload[0] as nat)),
            },
        )
    }

    /// Decodes a remote-control frame.
    pub fn try_from(frame: Frame) -> (r: Result<Remote, ParseError>)
        ensures
            outcome(r, frame, Self::decode(frame@)),
    {
        if frame.id() != REMOTE_ID {
            return Err(ParseError::Id { frame });
        }
        let data = frame.data();
        if data.len() != REMOTE_LEN {
            return Err(ParseError::Len { frame, expected: REMOTE_LEN });
        }
        match data[0] {
            0x00 => Ok(Remote::Idle),
            0x21 => Ok(Remote::LockFrom(RemoteSource::KeyFob)),
            0x23 => Ok(Remote::UnlockFrom(RemoteSource::KeyFob)),
            0x24 => Ok(Remote::DoubleUnlock),
            0x2E => Ok(Remote::PanicFrom(RemoteSource::KeyFob)),
            0x43 => Ok(Remote::KeylessEntry),
            0x69 => Ok(Remote::StartFrom(RemoteSource::KeyFob)),
            0x81 => Ok(Remote::LockFrom(RemoteSource::App)),
            0x83 => Ok(Remote::UnlockFrom(RemoteSource::App)),
            0x6A => Ok(Remote::CancelStart),
            _ => Err(ParseError::Data { frame, detail: detail_hex(UNKNOWN_REMOTE, data[0] as u64) }),
        }
    }
}

} // verus!
