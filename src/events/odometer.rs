//! [`Odometer`] readings, from identifier `0x3d2`.

use vstd::prelude::*;

use super::{checked, outcome, Decoded, ParseError};
use crate::bytes::{be4, read_be_u32};
use crate::frame::{Frame, FrameView};

verus! {

/// The identifier odometer frames come from.
pub const ODOMETER_ID: u32 = 0x3d2;

/// The payload length of an odometer frame.
pub const ODOMETER_LEN: usize = 4;

/// The odometer, in hundredths of a kilometer.
#[derive(Debug, Clone, Copy, PartialEq, Eq, Structural)]
pub struct Odometer(pub(crate) u32);

impl View for Odometer {
    type V = u32;

    open spec fn view(&self) -> u32 {
        self.spec_raw()
    }
}

impl Odometer {
    /// The raw reading.
    pub open(crate) spec fn spec_raw(self) -> u32 {
        self.0
    }

    /// The value whose view is `raw`.
    pub open(crate) spec fn spec_new(raw: u32) -> Odometer {
        Odometer(raw)
    }

    /// The reading in hundredths of a kilometer.
    pub fn raw(self) -> (r: u32)
        ensures
            r == self@,
    {
        self.0
    }

    /// What a frame decodes to as an odometer reading: the whole payload as
    /// a big-endian `u32`.
    pub open spec fn decode(f: FrameView) -> Decoded<Odometer> {
        checked(f, ODOMETER_ID, ODOMETER_LEN, Decoded::Value(Odometer::spec_new(be4(f.payload) as u32)))
    }

    /// Decodes an odometer frame.
    pub fn try_from(frame: Frame) -> (r: Result<Odometer, ParseError>)
        ensures
            outcome(r, frame, Self::decode(frame@)),
    {
        if frame.id() != ODOMETER_ID {
            return Err(ParseError::Id { frame });
        }
        let data = frame.data();
        if data.len() != ODOMETER_LEN {
            return Err(ParseError::Len { frame, expected: ODOMETER_LEN });
        }
        Ok(Odometer(read_be_u32(data)))
    }
}


/// [`Odometer::spec_new`] makes a value with the view it was given.
pub broadcast proof fn lemma_odometer_view(raw: u32)
    ensures
        #[trigger] Odometer::spec_new(raw)@ == raw,
{
}

} // verus!
