//! [`Engine`] events: RPMs and approximate speed from `0x322`, GPS-corrected
//! speed from `0x340`.

use vstd::prelude::*;

use super::{checked, fan_result, lift, outcome, Decoded, Event, Fan, OneOrMany, ParseError};
use crate::bytes::{be2, read_be_u16};
use crate::frame::{Frame, FrameView};

verus! {

/// The identifier of frames with RPMs and approximate speed.
pub const RPMS_ID: u32 = 0x322;

/// The identifier of frames with GPS-corrected speed.
pub const MPH_ID: u32 = 0x340;

/// The payload length of every engine frame.
pub const ENGINE_LEN: usize = 8;

/// A speed in miles per hour, stored as 200 times the speed, which a
/// metric speed can be had from by multiplication alone.
#[derive(Debug, Clone, Copy, PartialEq, Eq, Structural)]
pub struct MPH(pub(crate) u16);

impl View for MPH {
    type V = u16;

    open spec fn view(&self) -> u16 {
        self.spec_raw()
    }
}

impl MPH {
    /// The raw value.
    pub open(crate) spec fn spec_raw(self) -> u16 {
        self.0
    }

    /// The speed of a whole number of miles per hour.
    pub open(crate) spec fn whole(mph: u8) -> MPH {
        MPH((mph * 200) as u16)
    }

    /// The value whose view is `raw`.
    pub open(crate) spec fn spec_new(raw: u16) -> MPH {
        MPH(raw)
    }

    /// The raw value: 200 times the speed in miles per hour.
    pub fn raw(self) -> (r: u16)
        ensures
            r == self@,
    {
        self.0
    }

    /// What a frame decodes to as a GPS-corrected speed: payload byte 7, a
    /// whole number of miles per hour.
    pub open spec fn decode(f: FrameView) -> Decoded<MPH> {
        checked(f, MPH_ID, ENGINE_LEN, Decoded::Value(MPH::whole(f.payload[7])))
    }

    /// Decodes a GPS-corrected speed frame.
    pub fn try_from(frame: Frame) -> (r: Result<MPH, ParseError>)
        ensures
            outcome(r, frame, Self::decode(frame@)),
    {
        if frame.id() != MPH_ID {
            return Err(ParseError::Id { frame });
        }
        let data = frame.data();
        if data.len() != ENGINE_LEN {
            return Err(ParseError::Len { frame, expected: ENGINE_LEN });
        }
        Ok(MPH::from(data[7]))
    }
}

impl From<u8> for MPH {
    /// The speed of a whole number (0 to 255) of miles per hour.
    fn from(mph: u8) -> (r: MPH)
        ensures
            r == MPH::whole(mph),
    {
        MPH(mph as u16 * 200)
    }
}

impl vstd::std_specs::convert::FromSpecImpl<u8> for MPH {
    open spec fn obeys_from_spec() -> bool {
        true
    }

    open spec fn from_spec(mph: u8) -> MPH {
        MPH::whole(mph)
    }
}

/// A speed for metric units, converted from [`MPH`] without loss.
#[derive(Debug, Clone, Copy, PartialEq, Eq, Structural)]
pub struct KPH(pub(crate) MPH);

impl View for KPH {
    type V = u16;

    open spec fn view(&self) -> u16 {
        self.spec_mph()@
    }
}

impl KPH {
    /// The speed in miles per hour it was made from.
    pub open(crate) spec fn spec_mph(self) -> MPH {
        self.0
    }

    /// The raw value: 200 times the speed in **miles** per hour.
    pub fn raw(self) -> (r: u16)
        ensures
            r == self@,
    {
        self.0.raw()
    }
}

impl From<MPH> for KPH {
    fn from(mph: MPH) -> (r: KPH)
        ensures
            r == KPH::of(mph),
    {
        KPH(mph)
    }
}

impl KPH {
    /// The metric speed of `mph`.
    pub open(crate) spec fn of(mph: MPH) -> KPH {
        KPH(mph)
    }
}

impl vstd::std_specs::convert::FromSpecImpl<MPH> for KPH {
    open spec fn obeys_from_spec() -> bool {
        true
    }

    open spec fn from_spec(mph: MPH) -> KPH {
        KPH::of(mph)
    }
}

/// Engine revolutions per minute; `0xFFFF` means the engine is off.
#[derive(Debug, Clone, Copy, PartialEq, Eq, Structural)]
pub struct RPMs(pub(crate) u16);

impl View for RPMs {
    type V = u16;

    open spec fn view(&self) -> u16 {
        self.spec_raw()
    }
}

impl RPMs {
    /// The value that means the engine is off.
    pub const ENGINE_OFF: u16 = 0xFFFF;

    /// The raw value.
    pub open(crate) spec fn spec_raw(self) -> u16 {
        self.0
    }

    /// The value whose view is `raw`.
    pub open(crate) spec fn spec_new(raw: u16) -> RPMs {
        RPMs(raw)
    }

    /// The raw value, [`RPMs::ENGINE_OFF`] when the engine is off.
    pub fn raw(self) -> (r: u16)
        ensures
            r == self@,
    {
        self.0
    }

    /// Whether the engine is on.
    pub fn engine_is_on(self) -> (r: bool)
        ensures
            r == (self@ != Self::ENGINE_OFF),
    {
        self.0 != Self::ENGINE_OFF
    }

    /// Whether the engine is off.
    pub fn engine_is_off(self) -> (r: bool)
        ensures
            r == (self@ == Self::ENGINE_OFF),
    {
        !self.engine_is_on()
    }

    /// The RPMs if the engine is on, `None` if it is off.
    pub fn get(self) -> (r: Option<u16>)
        ensures
            r == (if self@ != Self::ENGINE_OFF {
                Some(self@)
            } else {
                None
            }),
    {
        if self.engine_is_on() {
            Some(self.0)
        } else {
            None
        }
    }
}

/// An engine event.
#[derive(Debug, Clone, Copy, PartialEq, Eq, Structural)]
pub enum Engine {
    /// Engine RPMs.
    RPMs(RPMs),
    /// Current speed, not GPS corrected.
    ApproxMPH(MPH),
    /// Current speed, GPS corrected.
    MPH(MPH),
}

impl Engine {
    /// What a frame decodes to as engine events: from `0x340` the corrected
    /// speed alone; from `0x322` both the RPMs (bytes 0 and 1) and the
    /// approximate speed (bytes 2 and 3, already 200 times the speed), in
    /// that order.
    pub open spec fn decode(f: FrameView) -> Decoded<Fan<Engine>> {
        if f.id() == MPH_ID {
            lift(MPH::decode(f), |m: MPH| Fan::Single(Engine::MPH(m)))
        } else if f.id() == RPMS_ID {
            if f.payload.len() != ENGINE_LEN {
                Decoded::BadLen(ENGINE_LEN)
            } else {
                Decoded::Value(
                    Fan::Several(
                        seq![
                            Engine::RPMs(RPMs::spec_new(be2(f.payload.subrange(0, 2)) as u16)),
                            Engine::ApproxMPH(MPH::spec_new(be2(f.payload.subrange(2, 4)) as u16)),
                        ],
                    ),
                )
            }
        } else {
            Decoded::UnknownId
        }
    }

    /// Decodes an engine frame into one or two events.
    pub fn try_from(frame: Frame) -> (r: Result<OneOrMany<Engine>, ParseError>)
        ensures
            outcome(fan_result(r), frame, Self::decode(frame@)),
    {
        let id = frame.id();
        if id == MPH_ID {
            match MPH::try_from(frame) {
                Ok(m) => Ok(OneOrMany::One(Engine::MPH(m))),
                Err(e) => Err(e),
            }
        } else if id == RPMS_ID {
            let data = frame.data();
            if data.len() != ENGINE_LEN {
                return Err(ParseError::Len { frame, expected: ENGINE_LEN });
            }
            let mut engines: Vec<Engine> = Vec::new();
            engines.push(Engine::RPMs(RPMs(read_be_u16(data, 0))));
            engines.push(Engine::ApproxMPH(MPH(read_be_u16(data, 2))));
            assert(engines@ =~= seq![
                Engine::RPMs(RPMs(be2(frame@.payload.subrange(0, 2)) as u16)),
                Engine::ApproxMPH(MPH(be2(frame@.payload.subrange(2, 4)) as u16)),
            ]);
            Ok(OneOrMany::Many(engines))
        } else {
            Err(ParseError::Id { frame })
        }
    }
}

impl OneOrMany<Engine> {
    /// The same engine events, each as an [`Event`].
    pub fn into_events(self) -> (r: OneOrMany<Event>)
        ensures
            r@ == self@.map(|e: Engine| Event::Engine(e)),
    {
        match self {
            OneOrMany::One(engine) => OneOrMany::One(Event::Engine(engine)),
            OneOrMany::Many(engines) => {
                let mut events: Vec<Event> = Vec::new();
                let mut i: usize = 0;
                while i < engines.len()
                    invariant
                        i <= engines@.len(),
                        events@ =~= engines@.subrange(0, i as int).map_values(
                            |e: Engine| Event::Engine(e),
                        ),
                    decreases engines@.len() - i,
                {
                    events.push(Event::Engine(engines[i]));
                    i += 1;
                }
                assert(engines@.subrange(0, i as int) =~= engines@);
                OneOrMany::Many(events)
            },
        }
    }
}


/// A whole number of miles per hour is stored as 200 times itself.
pub broadcast proof fn lemma_whole_mph_view(mph: u8)
    ensures
        #[trigger] MPH::whole(mph)@ == mph * 200,
{
}

/// [`MPH::spec_new`] makes a value with the view it was given.
pub broadcast proof fn lemma_mph_view(raw: u16)
    ensures
        #[trigger] MPH::spec_new(raw)@ == raw,
{
}

/// [`RPMs::spec_new`] makes a value with the view it was given.
pub broadcast proof fn lemma_rpms_view(raw: u16)
    ensures
        #[trigger] RPMs::spec_new(raw)@ == raw,
{
}


/// [`KPH::of`] keeps the raw value of the speed it is made from.
pub broadcast proof fn lemma_kph_view(mph: MPH)
    ensures
        #[trigger] KPH::of(mph)@ == mph@,
{
}

} // verus!
