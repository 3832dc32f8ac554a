//! [`Bus`] status events, from identifier `0x401`.

use vstd::prelude::*;

use super::{checked, outcome, Decoded, ParseError};
use crate::frame::{Frame, FrameView};
use crate::text::{detail_bytes, with_bytes};

verus! {

/// The identifier bus status frames come from.
pub const BUS_ID: u32 = 0x401;

/// The payload length of a bus status frame.
pub const BUS_LEN: usize = 8;

/// Detail of the error for bytes 4 and 5 that name no wake cause.
pub const UNKNOWN_WAKE: &'static str = "unrecognized `Bus` data at index 4";

/// Cause of a [`Bus::Wake`].
#[derive(Debug, Clone, Copy, PartialEq, Eq, Structural)]
pub enum Wake {
    HoodOpen,
    HoodClose,
    Unplug,
    Plug,
}

/// A bus status event.
#[derive(Debug, Clone, Copy, PartialEq, Eq, Structural)]
pub enum Bus {
    /// The bus woke up; usually the first thing sent on it.
    Wake(Wake),
}

impl Bus {
    /// The wake cause that payload bytes 4 and 5 name, if any.
    pub open spec fn from_pair(b4: u8, b5: u8) -> Option<Wake> {
        if b4 == 0x01 && b5 == 0x03 {
            Some(Wake::Plug)
        } else if b4 == 0x01 && b5 == 0x04 {
            Some(Wake::Unplug)
        } else if b4 == 0x0c && b5 == 0x06 {
            Some(Wake::HoodOpen)
        } else if b4 == 0x0c && b5 == 0x07 {
            Some(Wake::HoodClose)
        } else {
            None
        }
    }

    /// What a frame decodes to as a bus status event.
    pub open spec fn decode(f: FrameView) -> Decoded<Bus> {
        checked(
            f,
            BUS_ID,
            BUS_LEN,
            match Self::from_pair(f.payload[4], f.payload[5]) {
                Some(w) => Decoded::Value(Bus::Wake(w)),
                None => Decoded::Invalid(with_bytes(UNKNOWN_WAKE@, f.payload)),
            },
        )
    }

    /// Decodes a bus status frame.
    pub fn try_from(frame: Frame) -> (r: Result<Bus, ParseError>)
        ensures
            outcome(r, frame, Self::decode(frame@)),
    {
        if frame.id() != BUS_ID {
            return Err(ParseError::Id { frame });
        }
        let data = frame.data();
        if data.len() != BUS_LEN {
            return Err(ParseError::Len { frame, expected: BUS_LEN });
        }
        match (data[4], data[5]) {
            (0x01, 0x03) => Ok(Bus::Wake(Wake::Plug)),
            (0x01, 0x04) => Ok(Bus::Wake(Wake::Unplug)),
            (0x0c, 0x06) => Ok(Bus::Wake(Wake::HoodOpen)),
            (0x0c, 0x07) => Ok(Bus::Wake(Wake::HoodClose)),
            _ => Err(ParseError::Data { frame, detail: detail_bytes(UNKNOWN_WAKE, data) }),
        }
    }
}

} // verus!
