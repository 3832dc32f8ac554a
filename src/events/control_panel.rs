//! Events from the [`ControlPanel`] below the head unit: [`Buttons`] from
//! `0x2d3`, [`Warmers`] from `0x2d4` and [`Knobs`] from `0x273`.

use vstd::prelude::*;

use super::{checked, lift, outcome, Decoded, ParseError};
use crate::bytes::{be2, be8, read_be_u16, read_be_u64};
use crate::frame::{Frame, FrameView};
use crate::text::{detail_bytes, detail_hex, with_bytes, with_hex};

verus! {

/// The identifier control-panel button frames come from.
pub const BUTTONS_ID: u32 = 0x2d3;

/// The identifier seat and steering-wheel warmer frames come from.
pub const WARMERS_ID: u32 = 0x2d4;

/// The identifier control-panel knob frames come from.
pub const KNOBS_ID: u32 = 0x273;

/// The payload length of every control-panel frame.
pub const CONTROL_PANEL_LEN: usize = 8;

/// Detail of the error for a button bit that no flag has.
pub const UNKNOWN_BUTTON: &'static str =
    "a bit was set for `Buttons` that doesn't correspond to a flag";

/// Detail of the error for a warmer bit that no flag has.
pub const UNKNOWN_WARMER: &'static str =
    "a bit was set for `Warmers` that doesn't correspond to a flag";

/// Detail of the error for a knob payload with no known meaning.
pub const UNKNOWN_KNOB: &'static str = "unrecognized value for `Knobs`";

/// An event from the control panel.
#[derive(Debug, Clone, Copy, PartialEq, Eq)]
pub enum ControlPanel {
    /// Buttons pressed, from `0x2d3`.
    Buttons(Buttons),
    /// Warmer buttons pressed, from `0x2d4`.
    Warmers(Warmers),
    /// A knob turned, from `0x273`.
    Knobs(Knobs),
}

impl ControlPanel {
    /// What a frame decodes to as a control-panel event: by identifier, as
    /// buttons, warmers or knobs.
    pub open spec fn decode(f: FrameView) -> Decoded<ControlPanel> {
        if f.id() == BUTTONS_ID {
            lift(Buttons::decode(f), |b: Buttons| ControlPanel::Buttons(b))
        } else if f.id() == WARMERS_ID {
            lift(Warmers::decode(f), |w: Warmers| ControlPanel::Warmers(w))
        } else if f.id() == KNOBS_ID {
            lift(Knobs::decode(f), |k: Knobs| ControlPanel::Knobs(k))
        } else {
            Decoded::UnknownId
        }
    }

    /// Decodes a control-panel frame.
    pub fn try_from(frame: Frame) -> (r: Result<ControlPanel, ParseError>)
        ensures
            outcome(r, frame, Self::decode(frame@)),
    {
        let id = frame.id();
        if id == BUTTONS_ID {
            match Buttons::try_from(frame) {
                Ok(b) => Ok(ControlPanel::Buttons(b)),
                Err(e) => Err(e),
            }
        } else if id == WARMERS_ID {
            match Warmers::try_from(frame) {
                Ok(w) => Ok(ControlPanel::Warmers(w)),
                Err(e) => Err(e),
            }
        } else if id == KNOBS_ID {
            match Knobs::try_from(frame) {
                Ok(k) => Ok(ControlPanel::Knobs(k)),
                Err(e) => Err(e),
            }
        } else {
            Err(ParseError::Id { frame })
        }
    }
}

/// Control-panel buttons pressed, a set of flags over a `u64`. Only the bits
/// of the named flags can be set.
#[derive(Debug, Clone, Copy, PartialEq, Eq, Hash)]
pub struct Buttons {
    pub(crate) bits: u64,
}

impl View for Buttons {
    type V = u64;

    open spec fn view(&self) -> u64 {
        self.spec_bits()
    }
}

impl Buttons {
    /// Traction control on/off.
    pub const TRACTION_CONTROL: u64 = 0x0700_0000_0000_0001;
    /// Radio on/off.
    pub const RADIO_POWER: u64 = 0x0700_0000_0000_0040;
    /// A/C on/off.
    pub const AC: u64 = 0x0700_0000_0000_0100;
    /// Air recirculation on/off.
    pub const RECIRCULATION: u64 = 0x0700_0000_0000_0200;
    /// HVAC vent mode.
    pub const VENT_MODE: u64 = 0x0700_0000_0000_0800;
    /// HVAC on/off.
    pub const HVAC_POWER: u64 = 0x0700_0000_0001_0000;
    /// Automatic HVAC control.
    pub const AUTO: u64 = 0x0700_0000_0002_0000;
    /// Driver temperature up.
    pub const DRIVER_TEMP_UP: u64 = 0x0700_0000_0004_0000;
    /// Driver temperature down.
    pub const DRIVER_TEMP_DOWN: u64 = 0x0700_0000_0008_0000;
    /// Passenger temperature up.
    pub const PASSENGER_TEMP_UP: u64 = 0x0700_0000_0010_0000;
    /// Passenger temperature down.
    pub const PASSENGER_TEMP_DOWN: u64 = 0x0700_0000_0020_0000;
    /// Rear defroster.
    pub const REAR_DEFROSTER: u64 = 0x0700_0000_0040_0000;
    /// Front defroster.
    pub const FRONT_DEFROSTER: u64 = 0x0700_0000_0080_0000;
    /// UConnect mute on/off.
    pub const MUTE: u64 = 0x0700_0100_0000_0000;
    /// UConnect screen on/off.
    pub const SCREEN: u64 = 0x0700_2000_0000_0000;
    /// ESS / max regen on/off.
    pub const ESS_MAX_REGEN: u64 = 0x0724_0000_0000_0000;
    /// Every bit that some flag has.
    pub const ALL: u64 = 0x0724_2100_00FF_0B41;

    #[verifier::type_invariant]
    spec fn known_bits(self) -> bool {
        self.bits & !Self::ALL == 0
    }

    /// The flags set.
    pub open(crate) spec fn spec_bits(self) -> u64 {
        self.bits
    }

    /// The value whose view is `bits`.
    pub open(crate) spec fn spec_new(bits: u64) -> Buttons {
        Buttons { bits }
    }

    /// The buttons that `bits` names, if every set bit belongs to a flag.
    pub fn from_bits(bits: u64) -> (r: Option<Buttons>)
        ensures
            r is Some <==> bits & !Self::ALL == 0,
            r matches Some(b) ==> b@ == bits,
    {
        if bits & !Self::ALL == 0 {
            Some(Buttons { bits })
        } else {
            None
        }
    }

    /// The flags set, as bits.
    pub fn bits(&self) -> (r: u64)
        ensures
            r == self@,
    {
        self.bits
    }

    /// Whether every bit of `flags` is set.
    pub fn contains(&self, flags: u64) -> (r: bool)
        ensures
            r == (self@ & flags == flags),
    {
        self.bits & flags == flags
    }

    /// What a frame decodes to as control-panel buttons: the eight payload
    /// bytes as a big-endian `u64`, every set bit a flag.
    pub open spec fn decode(f: FrameView) -> Decoded<Buttons> {
        let bits = be8(f.payload) as u64;
        checked(
            f,
            BUTTONS_ID,
            CONTROL_PANEL_LEN,
            if bits & !Self::ALL == 0 {
                Decoded::Value(Buttons::spec_new(bits))
            } else {
                Decoded::Invalid(with_bytes(UNKNOWN_BUTTON@, f.payload))
            },
        )
    }

    /// Decodes a control-panel button frame.
    pub fn try_from(frame: Frame) -> (r: Result<Buttons, ParseError>)
        ensures
            outcome(r, frame, Self::decode(frame@)),
    {
        if frame.id() != BUTTONS_ID {
            return Err(ParseError::Id { frame });
        }
        let data = frame.data();
        if data.len() != CONTROL_PANEL_LEN {
            return Err(ParseError::Len { frame, expected: CONTROL_PANEL_LEN });
        }
        match Self::from_bits(read_be_u64(data)) {
            Some(flags) => Ok(flags),
            None => Err(ParseError::Data { frame, detail: detail_bytes(UNKNOWN_BUTTON, data) }),
        }
    }
}

/// Seat and steering-wheel warmer buttons pressed, a set of flags over a
/// `u16`. Only the bits of the named flags can be set.
#[derive(Debug, Clone, Copy, PartialEq, Eq, Hash)]
pub struct Warmers {
    pub(crate) bits: u16,
}

impl View for Warmers {
    type V = u16;

    open spec fn view(&self) -> u16 {
        self.spec_bits()
    }
}

impl Warmers {
    /// Driver seat heater.
    pub const DRIVER_BUTT: u16 = 0x0001;
    /// Passenger seat heater.
    pub const PASSENGER_BUTT: u16 = 0x0010;
    /// Steering wheel heater.
    pub const STEERING_WHEEL: u16 = 0x4000;
    /// Every bit that some flag has.
    pub const ALL: u16 = 0x4011;

    #[verifier::type_invariant]
    spec fn known_bits(self) -> bool {
        self.bits & !Self::ALL == 0
    }

    /// The flags set.
    pub open(crate) spec fn spec_bits(self) -> u16 {
        self.bits
    }

    /// The value whose view is `bits`.
    pub open(crate) spec fn spec_new(bits: u16) -> Warmers {
        Warmers { bits }
    }

    /// The warmers that `bits` names, if every set bit belongs to a flag.
    pub fn from_bits(bits: u16) -> (r: Option<Warmers>)
        ensures
            r is Some <==> bits & !Self::ALL == 0,
            r matches Some(w) ==> w@ == bits,
    {
        if bits & !Self::ALL == 0 {
            Some(Warmers { bits })
        } else {
            None
        }
    }

    /// The flags set, as bits.
    pub fn bits(&self) -> (r: u16)
        ensures
            r == self@,
    {
        self.bits
    }

    /// Whether every bit of `flags` is set.
    pub fn contains(&self, flags: u16) -> (r: bool)
        ensures
            r == (self@ & flags == flags),
    {
        self.bits & flags == flags
    }

    /// What a frame decodes to as warmer buttons: payload bytes 1 and 2 as a
    /// big-endian `u16`, every set bit a flag.
    pub open spec fn decode(f: FrameView) -> Decoded<Warmers> {
        let bits = be2(f.payload.subrange(1, 3)) as u16;
        checked(
            f,
            WARMERS_ID,
            CONTROL_PANEL_LEN,
            if bits & !Self::ALL == 0 {
                Decoded::Value(Warmers::spec_new(bits))
            } else {
                Decoded::Invalid(with_bytes(UNKNOWN_WARMER@, f.payload))
            },
        )
    }

    /// Decodes a warmer frame.
    pub fn try_from(frame: Frame) -> (r: Result<Warmers, ParseError>)
        ensures
            outcome(r, frame, Self::decode(frame@)),
    {
        if frame.id() != WARMERS_ID {
            return Err(ParseError::Id { frame });
        }
        let data = frame.data();
        if data.len() != CONTROL_PANEL_LEN {
            return Err(ParseError::Len { frame, expected: CONTROL_PANEL_LEN });
        }
        match Self::from_bits(read_be_u16(data, 1)) {
            Some(flags) => Ok(flags),
            None => Err(ParseError::Data { frame, detail: detail_bytes(UNKNOWN_WARMER, data) }),
        }
    }
}

/// A control-panel knob turned.
#[derive(Debug, Clone, Copy, PartialEq, Eq, Structural)]
pub enum Knobs {
    FanDown,
    FanUp,
}

impl Knobs {
    /// The knob event that a whole payload, read as a big-endian `u64`,
    /// names. Two payloads both mean the fan went up.
    pub open spec fn from_value(v: int) -> Option<Knobs> {
        if v == 0x0000_0A00_0000_0000 {
            Some(Knobs::FanDown)
        } else if v == 0x0000_0500_0000_0000 || v == 0x0000_0900_0000_0000 {
            Some(Knobs::FanUp)
        } else {
            None
        }
    }

    /// What a frame decodes to as a knob event.
    pub open spec fn decode(f: FrameView) -> Decoded<Knobs> {
        checked(
            f,
            KNOBS_ID,
            CONTROL_PANEL_LEN,
            match Self::from_value(be8(f.payload)) {
                Some(k) => Decoded::Value(k),
                None => Decoded::Invalid(with_hex(UNKNOWN_KNOB@, be8(f.payload) as nat)),
            },
        )
    }

    /// Decodes a knob frame.
    pub fn try_from(frame: Frame) -> (r: Result<Knobs, ParseError>)
        ensures
            outcome(r, frame, Self::decode(frame@)),
    {
        if frame.id() != KNOBS_ID {
            return Err(ParseError::Id { frame });
        }
        let data = frame.data();
        if data.len() != CONTROL_PANEL_LEN {
            return Err(ParseError::Len { frame, expected: CONTROL_PANEL_LEN });
        }
        let value = read_be_u64(data);
        match value {
            0x0000_0A00_0000_0000 => Ok(Knobs::FanDown),
            0x0000_0500_0000_0000 => Ok(Knobs::FanUp),
            0x0000_0900_0000_0000 => Ok(Knobs::FanUp),
            _ => Err(ParseError::Data { frame, detail: detail_hex(UNKNOWN_KNOB, value) }),
        }
    }
}


/// [`Buttons::spec_new`] makes a value with the view it was given.
pub broadcast proof fn lemma_buttons_view(bits: u64)
    ensures
        #[trigger] Buttons::spec_new(bits)@ == bits,
{
}

/// [`Warmers::spec_new`] makes a value with the view it was given.
pub broadcast proof fn lemma_warmers_view(bits: u16)
    ensures
        #[trigger] Warmers::spec_new(bits)@ == bits,
{
}

} // verus!
