//! Events are frames from the CAN bus that decoded. The top level [`Event`]
//! holds one category each, such as [`remote::Remote`], some of which hold
//! sub-events of their own.
//!
//! Every decoder follows one protocol: the identifier must be the one (or one
//! of the few) it knows, else [`ParseError::Id`]; the payload must have the
//! length fixed for that identifier, else [`ParseError::Len`]; then the bytes
//! are read at fixed offsets, and a value with no meaning gives
//! [`ParseError::Data`]. What each decoder returns is stated over the
//! frame's view as a [`Decoded`] value, and [`outcome`] ties the two.

use vstd::prelude::*;

use crate::frame::{Frame, FrameView, LenTooBig, DATA_MAX_LEN};

mod parse_error;
pub use parse_error::ParseError;
use crate::text::append;

use battery::{Battery, AUX_ID};
use bus::{Bus, BUS_ID};
use camera::{Camera, CAMERA_ID};
use control_panel::{ControlPanel, BUTTONS_ID, KNOBS_ID, WARMERS_ID};
use datetime::{DateTime, DATETIME_ID};
use doors::Doors;
use engine::{Engine, MPH_ID, RPMS_ID};
use force::{Force, FRONT_ID, REAR_ID};
use hvac::{CABIN_ID, HVAC};
use ignition::{Ignition, IGNITION_ID};
use lights::{Dimmer, Lights, ParkingLights, BODY_ID, BODY_LEN};
use locks::Locks;
use odometer::{Odometer, ODOMETER_ID};
use remote::{Remote, REMOTE_ID};
use steering_wheel::STEERING_WHEEL_ID;

pub mod battery;
pub mod bus;
pub mod camera;
pub mod control_panel;
pub mod datetime;
pub mod doors;
pub mod engine;
pub mod force;
pub mod hvac;
pub mod ignition;
pub mod lights;
pub mod locks;
pub mod odometer;
pub mod remote;
pub mod steering_wheel;

verus! {

/// What decoding a frame comes to, as a plain value: a
/// value, or one of the three kinds of failure with what it carries besides
/// the frame.
pub ghost enum Decoded<T> {
    Value(T),
    UnknownId,
    BadLen(usize),
    Invalid(Seq<char>),
}

/// The protocol shared by the decoders: the identifier is checked first, the
/// length second, and only then is `body` what the frame decodes to.
pub open spec fn checked<T>(f: FrameView, id: u32, len: usize, body: Decoded<T>) -> Decoded<T> {
    if f.id() != id {
        Decoded::UnknownId
    } else if f.payload.len() != len {
        Decoded::BadLen(len)
    } else {
        body
    }
}

/// Maps the value of a decoding, keeping a failure as it is.
pub open spec fn lift<T, U>(d: Decoded<T>, g: spec_fn(T) -> U) -> Decoded<U> {
    match d {
        Decoded::Value(v) => Decoded::Value(g(v)),
        Decoded::UnknownId => Decoded::UnknownId,
        Decoded::BadLen(n) => Decoded::BadLen(n),
        Decoded::Invalid(text) => Decoded::Invalid(text),
    }
}

/// `r` is what decoding `frame` to `d` returns: the value itself, or the
/// error of that kind that carries `frame` back.
pub open spec fn outcome<T>(r: Result<T, ParseError>, frame: Frame, d: Decoded<T>) -> bool {
    match d {
        Decoded::Value(v) => r == Ok::<T, ParseError>(v),
        Decoded::UnknownId => r == Err::<T, ParseError>(ParseError::Id { frame }),
        Decoded::BadLen(n) => r == Err::<T, ParseError>(ParseError::Len { frame, expected: n }),
        Decoded::Invalid(text) => match r {
            Err(ParseError::Data { frame: f, detail }) => f == frame && detail@ == text,
            _ => false,
        },
    }
}

/// Detail of the error for a `0x2fa` frame of which some part did not
/// decode; the reason of each failure follows it.
pub const BODY_ERRORS: &'static str = "there were error(s) decoding a frame from `0x2fa`:";

/// What a failed decoding says of itself, as [`ParseError::reason`] does.
pub open spec fn failure_reason<T>(d: Decoded<T>) -> Seq<char> {
    match d {
        Decoded::Value(_) => Seq::empty(),
        Decoded::UnknownId => parse_error::UNRECOGNIZED_ID@,
        Decoded::BadLen(_) => parse_error::UNEXPECTED_LEN@,
        Decoded::Invalid(text) => text,
    }
}

/// The note a part adds to the detail of an aggregate failure: nothing if
/// it decoded, else a space and its reason.
pub open spec fn failure_note<T>(d: Decoded<T>) -> Seq<char> {
    match d {
        Decoded::Value(_) => Seq::empty(),
        _ => " "@ + failure_reason(d),
    }
}

/// One event or several, as a frame yields them.
#[derive(Debug, Clone, PartialEq, Eq)]
pub enum OneOrMany<T> {
    /// One `T`.
    One(T),
    /// Many `T`s.
    Many(Vec<T>),
}

/// What a [`OneOrMany`] holds: one item, or a sequence of them.
pub ghost enum Fan<T> {
    Single(T),
    Several(Seq<T>),
}

impl<T> Fan<T> {
    /// The items, in the order they are stored.
    pub open spec fn items(self) -> Seq<T> {
        match self {
            Fan::Single(v) => seq![v],
            Fan::Several(s) => s,
        }
    }

    /// The same shape with `g` applied to each item.
    pub open spec fn map<U>(self, g: spec_fn(T) -> U) -> Fan<U> {
        match self {
            Fan::Single(v) => Fan::Single(g(v)),
            Fan::Several(s) => Fan::Several(s.map_values(g)),
        }
    }
}

impl<T> View for OneOrMany<T> {
    type V = Fan<T>;

    open spec fn view(&self) -> Fan<T> {
        match self {
            OneOrMany::One(v) => Fan::Single(*v),
            OneOrMany::Many(v) => Fan::Several(v@),
        }
    }
}

/// A decoding result with its events seen through [`Fan`].
pub open spec fn fan_result<T>(r: Result<OneOrMany<T>, ParseError>) -> Result<Fan<T>, ParseError> {
    match r {
        Ok(m) => Ok(m@),
        Err(e) => Err(e),
    }
}

/// Hands out the items of a [`OneOrMany`], each once, and then nothing. The
/// order is not part of the contract of [`OneOrMany`]: items come from the
/// end of a `Many`.
pub struct IntoIter<T>(pub(crate) Option<OneOrMany<T>>);

impl<T> View for IntoIter<T> {
    type V = Seq<T>;

    open spec fn view(&self) -> Seq<T> {
        self.remaining()
    }
}

impl<T> IntoIter<T> {
    /// The items not yet handed out.
    pub open(crate) spec fn remaining(self) -> Seq<T> {
        match self.0 {
            Some(m) => m@.items(),
            None => Seq::empty(),
        }
    }

    /// The next item: the last of those remaining, which is the first of
    /// [`drained`]. Once none remain, `None` on every call.
    pub fn next(&mut self) -> (r: Option<T>)
        ensures
            old(self)@.len() == 0 ==> r is None && final(self)@.len() == 0,
            old(self)@.len() > 0 ==> r == Some(old(self)@.last()) && final(self)@
                == old(self)@.drop_last(),
            old(self)@.len() > 0 ==> drained(old(self)@) == seq![r->0] + drained(final(self)@),
    {
        match self.0.take() {
            Some(OneOrMany::One(elem)) => {
                assert(seq![elem].drop_last() =~= Seq::<T>::empty());
                Some(elem)
            },
            Some(OneOrMany::Many(mut vec)) => {
                let elem = vec.pop();
                self.0 = Some(OneOrMany::Many(vec));
                elem
            },
            None => None,
        }
    }
}

/// What successive calls of [`IntoIter::next`] hand out, up to the first
/// `None`, from an iterator whose remaining items are `s`: the last first.
pub open spec fn drained<T>(s: Seq<T>) -> Seq<T>
    decreases s.len(),
{
    if s.len() == 0 {
        Seq::empty()
    } else {
        seq![s.last()] + drained(s.drop_last())
    }
}

proof fn lemma_drained_is_reverse<T>(s: Seq<T>)
    ensures
        drained(s) == s.reverse(),
    decreases s.len(),
{
    if s.len() > 0 {
        lemma_drained_is_reverse(s.drop_last());
        assert(drained(s) =~= s.reverse());
    } else {
        assert(drained(s) =~= s.reverse());
    }
}

/// Iterating a [`OneOrMany`] to the end hands out each of its items exactly
/// once, whatever the order: `[v]` for `One(v)`, the multiset of `s` for
/// `Many(s)`. Each call of [`IntoIter::next`] hands out the first item of
/// [`drained`] and leaves the rest, and once none remain every call gives
/// `None`.
pub proof fn lemma_iteration_yields_each_once<T>(m: OneOrMany<T>)
    ensures
        drained(m@.items()).len() == m@.items().len(),
        drained(m@.items()).to_multiset() == m@.items().to_multiset(),
        m@ matches Fan::Single(v) ==> drained(m@.items()) == seq![v],
{
    lemma_drained_is_reverse(m@.items());
    m@.items().lemma_reverse_to_multiset();
    if let Fan::Single(v) = m@ {
        assert(drained(seq![v]) =~= seq![v]);
    }
}

impl<T> OneOrMany<T> {
    /// An iterator over the items.
    pub fn into_iter(self) -> (r: IntoIter<T>)
        ensures
            r@ == self@.items(),
    {
        IntoIter(Some(self))
    }

    /// Every item, by draining [`OneOrMany::into_iter`]: each item exactly
    /// once, `[v]` for `One(v)`.
    pub fn into_vec(self) -> (r: Vec<T>)
        ensures
            r@.to_multiset() == self@.items().to_multiset(),
            r@ == self@.items().reverse(),
            r@ == drained(self@.items()),
    {
        let ghost all = self@.items();
        let mut it = self.into_iter();
        let mut out: Vec<T> = Vec::new();
        loop
            invariant
                it@.len() + out@.len() == all.len(),
                it@ == all.subrange(0, it@.len() as int),
                out@ == all.reverse().subrange(0, out@.len() as int),
            ensures
                out@ == all.reverse(),
            decreases it@.len(),
        {
            let ghost before = it@;
            match it.next() {
                Some(v) => {
                    assert(before == it@.push(v));
                    assert(all.reverse()[out@.len() as int] == v);
                    out.push(v);
                    assert(out@ =~= all.reverse().subrange(0, out@.len() as int));
                    assert(it@ =~= all.subrange(0, it@.len() as int));
                },
                None => {
                    assert(out@ =~= all.reverse());
                    break ;
                },
            }
        }
        proof {
            all.lemma_reverse_to_multiset();
            lemma_drained_is_reverse(all);
        }
        out
    }
}

/// Everything that can go wrong going from a raw frame to events.
#[derive(Debug, Clone)]
pub enum CanFrameError {
    /// The declared length was over eight, so no frame was made.
    BadLen(LenTooBig),
    /// A frame was made but did not decode.
    ParseError(ParseError),
}

/// A front or rear thing.
#[derive(Debug, Clone, Copy, PartialEq, Eq)]
pub enum FrontOrRear<T> {
    Front(T),
    Rear(T),
}

/// A decoded event, by category.
#[derive(Debug, Clone, Copy, PartialEq, Eq)]
pub enum Event {
    /// Battery readings.
    Battery(Battery),
    /// Remote control (key fob, app).
    Remote(Remote),
    /// The ignition switch.
    Ignition(Ignition),
    /// Steering-wheel buttons pressed.
    SteeringWheel(steering_wheel::Buttons),
    /// Control-panel buttons, warmers or knobs.
    ControlPanel(ControlPanel),
    /// Lights (hazards, parking lights, dimmer).
    Lights(Lights),
    /// The state of the doors.
    Doors(Doors),
    /// The state of the locks.
    Locks(Locks),
    /// Axle sensors.
    Force(Force),
    /// The camera.
    Camera(Camera),
    /// Speed and RPMs.
    Engine(Engine),
    /// Cabin temperature.
    HVAC(HVAC),
    /// The vehicle's date and time.
    DateTime(DateTime),
    /// The odometer.
    Odometer(Odometer),
    /// Bus status.
    Bus(Bus),
}

/// A single event from a category decoder's result.
pub open spec fn single<T>(d: Decoded<T>, g: spec_fn(T) -> Event) -> Decoded<Fan<Event>> {
    lift(d, |v: T| Fan::Single(g(v)))
}

impl Event {
    /// Whether the dispatcher knows identifier `id`.
    pub open spec fn is_known_id(id: u32) -> bool {
        id == AUX_ID || id == REMOTE_ID || id == IGNITION_ID || id == STEERING_WHEEL_ID
            || id == BUTTONS_ID || id == WARMERS_ID || id == KNOBS_ID || id == BODY_ID
            || id == FRONT_ID || id == REAR_ID || id == CAMERA_ID || id == RPMS_ID
            || id == MPH_ID || id == CABIN_ID || id == DATETIME_ID || id == ODOMETER_ID
            || id == BUS_ID
    }

    /// What a `0x2fa` frame decodes to: doors (byte 0), parking lights (byte
    /// 1), dimmer (byte 2) and locks (byte 3), in that order, if every part
    /// decodes; else one error whose detail gives the reason of each part
    /// that failed.
    pub open spec fn decode_body(f: FrameView) -> Decoded<Fan<Event>> {
        if f.payload.len() != BODY_LEN {
            Decoded::BadLen(BODY_LEN)
        } else {
            let parking = ParkingLights::decode(f);
            let dimmer = Dimmer::decode(f);
            match (parking, dimmer) {
                (Decoded::Value(p), Decoded::Value(d)) => Decoded::Value(
                    Fan::Several(
                        seq![
                            Event::Doors(Doors::spec_new(f.payload[0])),
                            Event::Lights(Lights::ParkingLights(p)),
                            Event::Lights(Lights::Dimmer(d)),
                            Event::Locks(Locks::spec_new(f.payload[3])),
                        ],
                    ),
                ),
                _ => Decoded::Invalid(
                    BODY_ERRORS@ + failure_note(parking) + failure_note(dimmer),
                ),
            }
        }
    }

    /// What a frame decodes to: routed by identifier to the decoder of its
    /// category; any other identifier is unrecognized.
    pub open spec fn decode(f: FrameView) -> Decoded<Fan<Event>> {
        let id = f.id();
        if id == AUX_ID {
            single(Battery::decode(f), |v: Battery| Event::Battery(v))
        } else if id == REMOTE_ID {
            single(Remote::decode(f), |v: Remote| Event::Remote(v))
        } else if id == IGNITION_ID {
            single(Ignition::decode(f), |v: Ignition| Event::Ignition(v))
        } else if id == STEERING_WHEEL_ID {
            single(
                steering_wheel::Buttons::decode(f),
                |v: steering_wheel::Buttons| Event::SteeringWheel(v),
            )
        } else if id == BUTTONS_ID || id == WARMERS_ID || id == KNOBS_ID {
            single(ControlPanel::decode(f), |v: ControlPanel| Event::ControlPanel(v))
        } else if id == BODY_ID {
            Self::decode_body(f)
        } else if id == FRONT_ID || id == REAR_ID {
            single(Force::decode(f), |v: Force| Event::Force(v))
        } else if id == CAMERA_ID {
            single(Camera::decode(f), |v: Camera| Event::Camera(v))
        } else if id == RPMS_ID || id == MPH_ID {
            lift(Engine::decode(f), |m: Fan<Engine>| m.map(|e: Engine| Event::Engine(e)))
        } else if id == CABIN_ID {
            single(HVAC::decode(f), |v: HVAC| Event::HVAC(v))
        } else if id == DATETIME_ID {
            single(DateTime::decode(f), |v: DateTime| Event::DateTime(v))
        } else if id == ODOMETER_ID {
            single(Odometer::decode(f), |v: Odometer| Event::Odometer(v))
        } else if id == BUS_ID {
            single(Bus::decode(f), |v: Bus| Event::Bus(v))
        } else {
            Decoded::UnknownId
        }
    }

    /// Decodes a frame into one event or several.
    pub fn parse(frame: Frame) -> (r: Result<OneOrMany<Event>, ParseError>)
        ensures
            outcome(fan_result(r), frame, Self::decode(frame@)),
    {
        OneOrMany::<Event>::try_from(frame)
    }
}

/// Dispatch covers exactly the known identifiers: a frame fails as
/// unrecognized if and only if its identifier is none of them. (What each
/// known identifier routes to is [`Event::decode`].)
pub proof fn lemma_dispatch_coverage(f: FrameView)
    ensures
        Event::decode(f) is UnknownId <==> !Event::is_known_id(f.id()),
{
}

/// A `0x2fa` frame of the right length decodes exactly when its
/// parking-lights byte is 0 or 1: the doors, dimmer and locks bytes never
/// fail. It then yields four events, the doors of byte 0 first and the locks
/// of byte 3 last.
pub proof fn lemma_body_flags_decode(f: FrameView)
    requires
        f.id() == BODY_ID,
        f.payload.len() == BODY_LEN,
    ensures
        Event::decode(f) is Value <==> (f.payload[1] == 0 || f.payload[1] == 1),
        Event::decode(f) matches Decoded::Value(m) ==> m.items().len() == 4,
        Event::decode(f) matches Decoded::Value(m) ==> (m.items()[0] matches Event::Doors(d)
            && d@ == f.payload[0]),
        Event::decode(f) matches Decoded::Value(m) ==> (m.items()[3] matches Event::Locks(l)
            && l@ == f.payload[3]),
{
}

/// Decodes a `0x2fa` frame: all four parts, or one error for all that
/// failed.
fn decode_body(frame: Frame) -> (r: Result<OneOrMany<Event>, ParseError>)
    requires
        frame@.id() == BODY_ID,
    ensures
        outcome(fan_result(r), frame, Event::decode_body(frame@)),
{
    let data = frame.data();
    if data.len() != BODY_LEN {
        return Err(ParseError::Len { frame, expected: BODY_LEN });
    }
    let ghost parking_d = ParkingLights::decode(frame@);
    let ghost dimmer_d = Dimmer::decode(frame@);
    let mut events: Vec<Event> = Vec::new();
    let mut detail = BODY_ERRORS.to_owned();
    let mut failed = false;
    let doors = Doors::from_bits(data[0]).unwrap();
    events.push(Event::Doors(doors));
    match ParkingLights::try_from(frame) {
        Ok(parking) => events.push(Event::Lights(Lights::ParkingLights(parking))),
        Err(e) => {
            append(&mut detail, " ");
            append(&mut detail, e.reason());
            failed = true;
        },
    }
    assert(failed == !(parking_d is Value));
    assert(detail@ =~= BODY_ERRORS@ + failure_note(parking_d));
    match Dimmer::try_from(frame) {
        Ok(dimmer) => events.push(Event::Lights(Lights::Dimmer(dimmer))),
        Err(e) => {
            append(&mut detail, " ");
            append(&mut detail, e.reason());
            failed = true;
        },
    }
    assert(detail@ =~= BODY_ERRORS@ + failure_note(parking_d) + failure_note(dimmer_d));
    let locks = Locks::from_bits(data[3]).unwrap();
    events.push(Event::Locks(locks));
    if !failed {
        assert(events@ =~= seq![
            Event::Doors(Doors { bits: frame@.payload[0] }),
            Event::Lights(Lights::ParkingLights(ParkingLights(frame@.payload[1]))),
            Event::Lights(Lights::Dimmer(Dimmer(frame@.payload[2]))),
            Event::Locks(Locks { bits: frame@.payload[3] }),
        ]);
        Ok(OneOrMany::Many(events))
    } else {
        Err(ParseError::Data { frame, detail })
    }
}

impl OneOrMany<Event> {
    /// Decodes a frame into one event or several: routed by identifier, with
    /// the decoder's failure passed on as it is.
    pub fn try_from(frame: Frame) -> (r: Result<OneOrMany<Event>, ParseError>)
        ensures
            outcome(fan_result(r), frame, Event::decode(frame@)),
    {
        let id = frame.id();
        if id == AUX_ID {
            match Battery::try_from(frame) {
                Ok(v) => Ok(OneOrMany::One(Event::Battery(v))),
                Err(e) => Err(e),
            }
        } else if id == REMOTE_ID {
            match Remote::try_from(frame) {
                Ok(v) => Ok(OneOrMany::One(Event::Remote(v))),
                Err(e) => Err(e),
            }
        } else if id == IGNITION_ID {
            match Ignition::try_from(frame) {
                Ok(v) => Ok(OneOrMany::One(Event::Ignition(v))),
                Err(e) => Err(e),
            }
        } else if id == STEERING_WHEEL_ID {
            match steering_wheel::Buttons::try_from(frame) {
                Ok(v) => Ok(OneOrMany::One(Event::SteeringWheel(v))),
                Err(e) => Err(e),
            }
        } else if id == BUTTONS_ID || id == WARMERS_ID || id == KNOBS_ID {
            match ControlPanel::try_from(frame) {
                Ok(v) => Ok(OneOrMany::One(Event::ControlPanel(v))),
                Err(e) => Err(e),
            }
        } else if id == BODY_ID {
            decode_body(frame)
        } else if id == FRONT_ID || id == REAR_ID {
            match Force::try_from(frame) {
                Ok(v) => Ok(OneOrMany::One(Event::Force(v))),
                Err(e) => Err(e),
            }
        } else if id == CAMERA_ID {
            match Camera::try_from(frame) {
                Ok(v) => Ok(OneOrMany::One(Event::Camera(v))),
                Err(e) => Err(e),
            }
        } else if id == RPMS_ID || id == MPH_ID {
            match Engine::try_from(frame) {
                Ok(engines) => Ok(engines.into_events()),
                Err(e) => Err(e),
            }
        } else if id == CABIN_ID {
            match HVAC::try_from(frame) {
                Ok(v) => Ok(OneOrMany::One(Event::HVAC(v))),
                Err(e) => Err(e),
            }
        } else if id == DATETIME_ID {
            match DateTime::try_from(frame) {
                Ok(v) => Ok(OneOrMany::One(Event::DateTime(v))),
                Err(e) => Err(e),
            }
        } else if id == ODOMETER_ID {
            match Odometer::try_from(frame) {
                Ok(v) => Ok(OneOrMany::One(Event::Odometer(v))),
                Err(e) => Err(e),
            }
        } else if id == BUS_ID {
            match Bus::try_from(frame) {
                Ok(v) => Ok(OneOrMany::One(Event::Bus(v))),
                Err(e) => Err(e),
            }
        } else {
            Err(ParseError::Id { frame })
        }
    }

    /// Decodes a frame as a transport hands it over: a raw identifier, an
    /// eight-byte buffer and a declared length. A length over eight makes
    /// no frame; otherwise the frame decodes as [`OneOrMany::try_from`] does.
    pub fn try_from_raw(id_flags: u32, data: [u8; 8], len: u8) -> (r: Result<
        OneOrMany<Event>,
        CanFrameError,
    >)
        ensures
            len > DATA_MAX_LEN ==> r matches Err(CanFrameError::BadLen(_)),
            len <= DATA_MAX_LEN ==> match r {
                Ok(m) => outcome(
                    Ok::<Fan<Event>, ParseError>(m@),
                    Frame::made(id_flags, data, len),
                    Event::decode(FrameView::of(id_flags, data@, len)),
                ),
                Err(CanFrameError::ParseError(e)) => outcome(
                    Err::<Fan<Event>, ParseError>(e),
                    Frame::made(id_flags, data, len),
                    Event::decode(FrameView::of(id_flags, data@, len)),
                ),
                Err(CanFrameError::BadLen(_)) => false,
            },
    {
        match Frame::from_id_data_len(id_flags, data, len) {
            Ok(frame) => match Self::try_from(frame) {
                Ok(events) => Ok(events),
                Err(e) => Err(CanFrameError::ParseError(e)),
            },
            Err(e) => Err(CanFrameError::BadLen(e)),
        }
    }
}

/// The views of the values the decode functions build, for callers that
/// reason about [`Event::decode`] and the decoders' own `decode`.
pub broadcast group group_decoded_views {
    crate::frame::lemma_made_view,
    battery::lemma_aux_view,
    control_panel::lemma_buttons_view,
    control_panel::lemma_warmers_view,
    datetime::lemma_datetime_view,
    doors::lemma_doors_view,
    engine::lemma_whole_mph_view,
    engine::lemma_mph_view,
    engine::lemma_rpms_view,
    engine::lemma_kph_view,
    force::lemma_road_feedback_view,
    hvac::lemma_temperature_view,
    lights::lemma_parking_lights_view,
    lights::lemma_dimmer_view,
    locks::lemma_locks_view,
    odometer::lemma_odometer_view,
    steering_wheel::lemma_buttons_view,
}

} // verus!
