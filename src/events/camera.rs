//! [`Camera`] events, from identifier `0x302`.

use vstd::prelude::*;

use super::{checked, outcome, Decoded, ParseError};
use crate::frame::{Frame, FrameView};
use crate::text::{detail_decimal, with_decimal};

verus! {

/// The identifier camera frames come from.
pub const CAMERA_ID: u32 = 0x302;

/// The payload length of a camera frame.
pub const CAMERA_LEN: usize = 8;

/// Detail of the error for a first byte that names no camera view.
pub const UNKNOWN_CAMERA: &'static str = "unrecognized `Camera` byte at index 0";

/// A camera view.
#[derive(Debug, Clone, Copy, PartialEq, Eq, Structural)]
pub enum Camera {
    Off,
    Initializing,
    Reverse,
    Cargo,
}

impl Camera {
    /// The camera view that a first payload byte names, if any. The byte
    /// values are those the vehicle was seen to send; which view each stands
    /// for is kept as first recorded.
    pub open spec fn from_code(b: u8) -> Option<Camera> {
        match b {
            0x00 => Some(Camera::Off),
            0x02 => Some(Camera::Reverse),
            0x07 => Some(Camera::Cargo),
            0x09 => Some(Camera::Initializing),
            _ => None,
        }
    }

    /// What a frame decodes to as a camera event.
    pub open spec fn decode(f: FrameView) -> Decoded<Camera> {
        checked(
            f,
            CAMERA_ID,
            CAMERA_LEN,
            match Self::from_code(f.payload[0]) {
                Some(c) => Decoded::Value(c),
                None => Decoded::Invalid(with_decimal(UNKNOWN_CAMERA@, f.payload[0] as nat)),
            },
        )
    }

    /// Decodes a camera frame.
    pub fn try_from(frame: Frame) -> (r: Result<Camera, ParseError>)
        ensures
            outcome(r, frame, Self::decode(frame@)),
    {
        if frame.id() != CAMERA_ID {
            return Err(ParseError::Id { frame });
        }
        let data = frame.data();
        if data.len() != CAMERA_LEN {
            return Err(ParseError::Len { frame, expected: CAMERA_LEN });
        }
        match data[0] {
            0x00 => Ok(Camera::Off),
            0x02 => Ok(Camera::Reverse),
            0x07 => Ok(Camera::Cargo),
            0x09 => Ok(Camera::Initializing),
            _ => Err(
                ParseError::Data { frame, detail: detail_decimal(UNKNOWN_CAMERA, data[0] as usize) },
            ),
        }
    }
}

} // verus!
