//! [`Lights`] events. Parking lights and the dimmer come in frames from
//! `0x2fa`, beside doors and locks.

use vstd::prelude::*;

use super::{checked, outcome, Decoded, ParseError};
use crate::frame::{Frame, FrameView};
use crate::text::{detail_decimal, with_decimal};

verus! {

/// The identifier of the frame that carries doors, lights and locks.
pub const BODY_ID: u32 = 0x2fa;

/// The payload length of that frame.
pub const BODY_LEN: usize = 8;

/// Detail of the error for a parking-lights byte other than 0 or 1.
pub const BAD_PARKING_LIGHTS: &'static str = "`ParkingLights` value at index 1 was neither 0 nor 1";

/// Whether the parking lights are on: 1 for on, 0 for off.
#[derive(Debug, Clone, Copy, PartialEq, Eq, Structural)]
pub struct ParkingLights(pub(crate) u8);

impl View for ParkingLights {
    type V = u8;

    open spec fn view(&self) -> u8 {
        self.spec_raw()
    }
}

impl ParkingLights {
    #[verifier::type_invariant]
    spec fn on_or_off(self) -> bool {
        self.0 == 0 || self.0 == 1
    }

    /// The raw state.
    pub open(crate) spec fn spec_raw(self) -> u8 {
        self.0
    }

    /// The value whose view is `raw`.
    pub open(crate) spec fn spec_new(raw: u8) -> ParkingLights {
        ParkingLights(raw)
    }

    /// Whether the parking lights are on.
    pub fn are_on(self) -> (r: bool)
        ensures
            r == (self@ == 1),
    {
        self.0 == 1
    }

    /// Whether the parking lights are off.
    pub fn are_off(self) -> (r: bool)
        ensures
            r == (self@ != 1),
    {
        !self.are_on()
    }

    /// What a frame decodes to as the parking-lights state: payload byte 1,
    /// which must be 0 or 1.
    pub open spec fn decode(f: FrameView) -> Decoded<ParkingLights> {
        let b = f.payload[1];
        checked(
            f,
            BODY_ID,
            BODY_LEN,
            if b == 0 || b == 1 {
                Decoded::Value(ParkingLights::spec_new(b))
            } else {
                Decoded::Invalid(with_decimal(BAD_PARKING_LIGHTS@, b as nat))
            },
        )
    }

    /// Decodes the parking-lights state from a `0x2fa` frame.
    pub fn try_from(frame: Frame) -> (r: Result<ParkingLights, ParseError>)
        ensures
            outcome(r, frame, Self::decode(frame@)),
    {
        if frame.id() != BODY_ID {
            return Err(ParseError::Id { frame });
        }
        let data = frame.data();
        if data.len() != BODY_LEN {
            return Err(ParseError::Len { frame, expected: BODY_LEN });
        }
        if data[1] == 0 || data[1] == 1 {
            Ok(ParkingLights(data[1]))
        } else {
            Err(
                ParseError::Data {
                    frame,
                    detail: detail_decimal(BAD_PARKING_LIGHTS, data[1] as usize),
                },
            )
        }
    }
}

/// The interior dimmer, over the whole range of a byte.
#[derive(Debug, Clone, Copy, PartialEq, Eq, Structural)]
pub struct Dimmer(pub(crate) u8);

impl View for Dimmer {
    type V = u8;

    open spec fn view(&self) -> u8 {
        self.spec_raw()
    }
}

impl Dimmer {
    /// The lowest setting.
    pub const MIN: u8 = 0;

    /// The highest setting.
    pub const MAX: u8 = 255;

    /// The raw setting.
    pub open(crate) spec fn spec_raw(self) -> u8 {
        self.0
    }

    /// The value whose view is `raw`.
    pub open(crate) spec fn spec_new(raw: u8) -> Dimmer {
        Dimmer(raw)
    }

    /// The raw setting, from [`Dimmer::MIN`] to [`Dimmer::MAX`].
    pub fn raw(self) -> (r: u8)
        ensures
            r == self@,
    {
        self.0
    }

    /// Whether the dimmer is at its lowest.
    pub fn is_min(self) -> (r: bool)
        ensures
            r == (self@ == Self::MIN),
    {
        self.0 == Self::MIN
    }

    /// Whether the dimmer is at its highest.
    pub fn is_max(self) -> (r: bool)
        ensures
            r == (self@ == Self::MAX),
    {
        self.0 == Self::MAX
    }

    /// What a frame decodes to as the dimmer setting: payload byte 2, any
    /// value of which is a setting.
    pub open spec fn decode(f: FrameView) -> Decoded<Dimmer> {
        checked(f, BODY_ID, BODY_LEN, Decoded::Value(Dimmer::spec_new(f.payload[2])))
    }

    /// Decodes the dimmer setting from a `0x2fa` frame.
    pub fn try_from(frame: Frame) -> (r: Result<Dimmer, ParseError>)
        ensures
            outcome(r, frame, Self::decode(frame@)),
    {
        if frame.id() != BODY_ID {
            return Err(ParseError::Id { frame });
        }
        let data = frame.data();
        if data.len() != BODY_LEN {
            return Err(ParseError::Len { frame, expected: BODY_LEN });
        }
        Ok(Dimmer(data[2]))
    }
}

/// A lights event.
#[derive(Debug, Clone, Copy, PartialEq, Eq, Structural)]
pub enum Lights {
    /// Hazard lights switched.
    HazardsOnOff,
    /// Parking lights state.
    ParkingLights(ParkingLights),
    /// Dimmer setting.
    Dimmer(Dimmer),
}


/// [`ParkingLights::spec_new`] makes a value with the view it was given.
pub broadcast proof fn lemma_parking_lights_view(raw: u8)
    ensures
        #[trigger] ParkingLights::spec_new(raw)@ == raw,
{
}

/// [`Dimmer::spec_new`] makes a value with the view it was given.
pub broadcast proof fn lemma_dimmer_view(raw: u8)
    ensures
        #[trigger] Dimmer::spec_new(raw)@ == raw,
{
}

} // verus!
