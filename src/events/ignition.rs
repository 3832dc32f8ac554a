//! [`Ignition`] events, from identifier `0x122`.

use vstd::prelude::*;

use super::{checked, outcome, Decoded, ParseError};
use crate::bytes::{be4, read_be_u32};
use crate::frame::{Frame, FrameView};
use crate::text::{detail_hex, with_hex};

verus! {

/// The identifier ignition frames come from.
pub const IGNITION_ID: u32 = 0x122;

/// The payload length of an ignition frame.
pub const IGNITION_LEN: usize = 4;

/// Detail of the error for a payload that names no ignition state.
pub const UNKNOWN_IGNITION: &'static str = "unrecognized `Ignition` value";

/// The state of the ignition switch.
#[derive(Debug, Clone, Copy, PartialEq, Eq, Structural)]
pub enum Ignition {
    Off,
    Kill,
    Acc,
    Run,
    StartReceived,
    Cranking,
}

impl Ignition {
    /// The ignition state that the whole payload, read as a big-endian
    /// `u32`, names. Several values share a state; remote run alone is
    /// reported as running.
    pub open spec fn from_value(v: int) -> Option<Ignition> {
        if v == 0x0000_0000 || v == 0x0001_0000 {
            Some(Ignition::Off)
        } else if v == 0x0301_0000 || v == 0x0302_0000 {
            Some(Ignition::Kill)
        } else if v == 0x0502_0000 || v == 0x1502_0000 {
            Some(Ignition::Acc)
        } else if v == 0x4401_0000 {
            Some(Ignition::Run)
        } else if v == 0x4402_0000 || v == 0x4501_0000 || v == 0x5d01_0000 {
            Some(Ignition::Off)
        } else {
            None
        }
    }

    /// What a frame decodes to as an ignition event.
    pub open spec fn decode(f: FrameView) -> Decoded<Ignition> {
        checked(
            f,
            IGNITION_ID,
            IGNITION_LEN,
            match Self::from_value(be4(f.payload)) {
                Some(i) => Decoded::Value(i),
                None => Decoded::Invalid(with_hex(UNKNOWN_IGNITION@, be4(f.payload) as nat)),
            },
        )
    }

    /// Decodes an ignition frame.
    pub fn try_from(frame: Frame) -> (r: Result<Ignition, ParseError>)
        ensures
            outcome(r, frame, Self::decode(frame@)),
    {
        if frame.id() != IGNITION_ID {
            return Err(ParseError::Id { frame });
        }
        let data = frame.data();
        if data.len() != IGNITION_LEN {
            return Err(ParseError::Len { frame, expected: IGNITION_LEN });
        }
        let value = read_be_u32(data);
        match value {
            0x0000_0000 => Ok(Ignition::Off),
            0x0001_0000 => Ok(Ignition::Off),
            0x0301_0000 => Ok(Ignition::Kill),
            0x0302_0000 => Ok(Ignition::Kill),
            0x0502_0000 => Ok(Ignition::Acc),
            0x1502_0000 => Ok(Ignition::Acc),
            0x4401_0000 => Ok(Ignition::Run),
            0x4402_0000 => Ok(Ignition::Off),
            0x4501_0000 => Ok(Ignition::Off),
            0x5d01_0000 => Ok(Ignition::Off),
            _ => Err(ParseError::Data { frame, detail: detail_hex(UNKNOWN_IGNITION, value as u64) }),
        }
    }
}

} // verus!
