//! [`HVAC`] events, from identifier `0x33a`.

use vstd::prelude::*;

use super::{checked, outcome, Decoded, ParseError};
use crate::bytes::{be2, read_be_u16};
use crate::frame::{Frame, FrameView};

verus! {

/// The identifier cabin temperature frames come from.
pub const CABIN_ID: u32 = 0x33a;

/// The payload length of a cabin temperature frame.
pub const CABIN_LEN: usize = 8;

/// A temperature in hundredths of a degree Celsius above -40 °C.
#[derive(Debug, Clone, Copy, PartialEq, Eq, Structural)]
pub struct Temperature(pub(crate) u16);

impl View for Temperature {
    type V = u16;

    open spec fn view(&self) -> u16 {
        self.spec_raw()
    }
}

impl Temperature {
    /// The raw reading.
    pub open(crate) spec fn spec_raw(self) -> u16 {
        self.0
    }

    /// The value whose view is `raw`.
    pub open(crate) spec fn spec_new(raw: u16) -> Temperature {
        Temperature(raw)
    }

    /// The raw reading: Celsius is `raw / 100 - 40`.
    pub fn raw(self) -> (r: u16)
        ensures
            r == self@,
    {
        self.0
    }
}

/// An HVAC event.
#[derive(Debug, Clone, Copy, PartialEq, Eq, Structural)]
pub enum HVAC {
    /// Cabin temperature.
    Cabin(Temperature),
}

impl HVAC {
    /// What a frame decodes to as an HVAC event: payload bytes 0 and 1 as a
    /// big-endian `u16`.
    pub open spec fn decode(f: FrameView) -> Decoded<HVAC> {
        checked(
            f,
            CABIN_ID,
            CABIN_LEN,
            Decoded::Value(HVAC::Cabin(Temperature::spec_new(be2(f.payload.subrange(0, 2)) as u16))),
        )
    }

    /// Decodes a cabin temperature frame.
    pub fn try_from(frame: Frame) -> (r: Result<HVAC, ParseError>)
        ensures
            outcome(r, frame, Self::decode(frame@)),
    {
        if frame.id() != CABIN_ID {
            return Err(ParseError::Id { frame });
        }
        let data = frame.data();
        if data.len() != CABIN_LEN {
            return Err(ParseError::Len { frame, expected: CABIN_LEN });
        }
        Ok(HVAC::Cabin(Temperature(read_be_u16(data, 0))))
    }
}


/// [`Temperature::spec_new`] makes a value with the view it was given.
pub broadcast proof fn lemma_temperature_view(raw: u16)
    ensures
        #[trigger] Temperature::spec_new(raw)@ == raw,
{
}

} // verus!
