//! [`Force`] events from the axle sensors, front from `0x24e` and rear
//! from `0x252`.

use vstd::prelude::*;

use super::{lift, outcome, Decoded, FrontOrRear, ParseError};
use crate::frame::{Frame, FrameView};

verus! {

/// The identifier front axle frames come from.
pub const FRONT_ID: u32 = 0x24e;

/// The identifier rear axle frames come from.
pub const REAR_ID: u32 = 0x252;

/// The payload length of an axle sensor frame.
pub const FORCE_LEN: usize = 8;

/// Road feedback from an axle sensor: the eight payload bytes, kept as they
/// came.
#[derive(Debug, Clone, Copy, PartialEq, Eq)]
pub struct RoadFeedback(pub(crate) [u8; 8]);

impl View for RoadFeedback {
    type V = Seq<u8>;

    open spec fn view(&self) -> Seq<u8> {
        self.spec_raw()
    }
}

impl RoadFeedback {
    /// The payload bytes.
    pub open(crate) spec fn spec_raw(self) -> Seq<u8> {
        self.0@
    }

    /// The road feedback an eight-byte payload holds.
    pub open(crate) spec fn of(p: Seq<u8>) -> RoadFeedback {
        RoadFeedback([p[0], p[1], p[2], p[3], p[4], p[5], p[6], p[7]])
    }
}

impl FrontOrRear<RoadFeedback> {
    /// What a frame decodes to as road feedback: the identifier is checked
    /// first (front or rear), then the length.
    pub open spec fn decode(f: FrameView) -> Decoded<FrontOrRear<RoadFeedback>> {
        if f.id() != FRONT_ID && f.id() != REAR_ID {
            Decoded::UnknownId
        } else if f.payload.len() != FORCE_LEN {
            Decoded::BadLen(FORCE_LEN)
        } else if f.id() == FRONT_ID {
            Decoded::Value(FrontOrRear::Front(RoadFeedback::of(f.payload)))
        } else {
            Decoded::Value(FrontOrRear::Rear(RoadFeedback::of(f.payload)))
        }
    }

    /// Decodes a front or rear axle frame.
    pub fn try_from(frame: Frame) -> (r: Result<FrontOrRear<RoadFeedback>, ParseError>)
        ensures
            outcome(r, frame, Self::decode(frame@)),
    {
        let id = frame.id();
        if id != FRONT_ID && id != REAR_ID {
            return Err(ParseError::Id { frame });
        }
        let data = frame.data();
        if data.len() != FORCE_LEN {
            return Err(ParseError::Len { frame, expected: FORCE_LEN });
        }
        let feedback = RoadFeedback(
            [data[0], data[1], data[2], data[3], data[4], data[5], data[6], data[7]],
        );
        if id == FRONT_ID {
            Ok(FrontOrRear::Front(feedback))
        } else {
            Ok(FrontOrRear::Rear(feedback))
        }
    }
}

/// A force event.
#[derive(Debug, Clone, Copy, PartialEq, Eq)]
pub enum Force {
    /// Road feedback from the front or rear axle.
    RoadFeedback(FrontOrRear<RoadFeedback>),
}

impl Force {
    /// What a frame decodes to as a force event.
    pub open spec fn decode(f: FrameView) -> Decoded<Force> {
        if f.id() == FRONT_ID || f.id() == REAR_ID {
            lift(
                FrontOrRear::<RoadFeedback>::decode(f),
                |v: FrontOrRear<RoadFeedback>| Force::RoadFeedback(v),
            )
        } else {
            Decoded::UnknownId
        }
    }

    /// Decodes an axle sensor frame.
    pub fn try_from(frame: Frame) -> (r: Result<Force, ParseError>)
        ensures
            outcome(r, frame, Self::decode(frame@)),
    {
        let id = frame.id();
        if id == FRONT_ID || id == REAR_ID {
            match FrontOrRear::<RoadFeedback>::try_from(frame) {
                Ok(v) => Ok(Force::RoadFeedback(v)),
                Err(e) => Err(e),
            }
        } else {
            Err(ParseError::Id { frame })
        }
    }
}


/// [`RoadFeedback::of`] keeps eight bytes as they are.
pub broadcast proof fn lemma_road_feedback_view(p: Seq<u8>)
    requires
        p.len() == 8,
    ensures
        #[trigger] RoadFeedback::of(p)@ == p,
{
    assert(RoadFeedback::of(p)@ =~= p);
}

} // verus!
