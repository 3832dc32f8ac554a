//! Steering-wheel [`Buttons`], from identifier `0x318`.

use vstd::prelude::*;

use super::{checked, outcome, Decoded, ParseError};
use crate::bytes::{be2, read_be_u16};
use crate::frame::{Frame, FrameView};

verus! {

/// The identifier steering-wheel button frames come from.
pub const STEERING_WHEEL_ID: u32 = 0x318;

/// The payload length of a steering-wheel button frame.
pub const STEERING_WHEEL_LEN: usize = 8;

/// Steering-wheel buttons pressed (cruise control aside), a set of flags
/// over a `u16`. All sixteen bits of payload bytes 3 and 4 have a flag, so
/// every pattern is a set of buttons.
#[derive(Debug, Clone, Copy, PartialEq, Eq, Structural, Hash)]
pub struct Buttons {
    pub(crate) bits: u16,
}

impl View for Buttons {
    type V = u16;

    open spec fn view(&self) -> u16 {
        self.spec_bits()
    }
}

impl Buttons {
    /// (Left) d-pad left arrow.
    pub const DPAD_LEFT: u16 = 0b0000_0000_0000_0001;
    /// Custom button 0.
    pub const MYSTERY_BTN_0: u16 = 0b0000_0000_0000_0010;
    /// (Left) d-pad down arrow.
    pub const DPAD_DOWN: u16 = 0b0000_0000_0000_0100;
    /// Custom button 1.
    pub const MYSTERY_BTN_1: u16 = 0b0000_0000_0000_1000;
    /// (Left) d-pad up arrow.
    pub const DPAD_UP: u16 = 0b0000_0000_0001_0000;
    /// Custom button 2.
    pub const MYSTERY_BTN_2: u16 = 0b0000_0000_0010_0000;
    /// (Left) d-pad right arrow.
    pub const DPAD_RIGHT: u16 = 0b0000_0000_0100_0000;
    /// Custom button 3.
    pub const MYSTERY_BTN_3: u16 = 0b0000_0000_1000_0000;
    /// (Rear) input select.
    pub const BACK_INPUT_BUTTON: u16 = 0b0000_0001_0000_0000;
    /// Custom button 4.
    pub const MYSTERY_BTN_4: u16 = 0b0000_0010_0000_0000;
    /// (Rear) volume up.
    pub const BACK_VOL_UP: u16 = 0b0000_0100_0000_0000;
    /// (Rear) volume down.
    pub const BACK_VOL_DOWN: u16 = 0b0000_1000_0000_0000;
    /// (Rear) next track.
    pub const BACK_TRACK_SKIP: u16 = 0b0001_0000_0000_0000;
    /// (Rear) previous track.
    pub const BACK_TRACK_REWIND: u16 = 0b0010_0000_0000_0000;
    /// (Rear) seek.
    pub const BACK_SEEK_BUTTON: u16 = 0b0100_0000_0000_0000;
    /// Custom button 5.
    pub const MYSTERY_BTN_5: u16 = 0b1000_0000_0000_0000;
    /// The buttons a stock Wrangler wheel has (no custom ones).
    pub const STOCK_BUTTONS: u16 = 0b0111_1101_0101_0101;

    /// The flags set.
    pub open(crate) spec fn spec_bits(self) -> u16 {
        self.bits
    }

    /// The value whose view is `bits`.
    pub open(crate) spec fn spec_new(bits: u16) -> Buttons {
        Buttons { bits }
    }

    /// The buttons that `bits` names; there is a set for every pattern.
    pub fn from_bits(bits: u16) -> (r: Option<Buttons>)
        ensures
            r is Some,
            r matches Some(b) ==> b@ == bits,
    {
        Some(Buttons { bits })
    }

    /// Every button.
    pub fn all() -> (r: Buttons)
        ensures
            r@ == 0xFFFF,
    {
        Buttons { bits: 0xFFFF }
    }

    /// The buttons pressed, as bits.
    pub fn bits(&self) -> (r: u16)
        ensures
            r == self@,
    {
        self.bits
    }

    /// Whether every bit of `flags` is set.
    pub fn contains(&self, flags: u16) -> (r: bool)
        ensures
            r == (self@ & flags == flags),
    {
        self.bits & flags == flags
    }

    /// The stock buttons pressed, custom ones masked out.
    pub fn stock_buttons_pressed(self) -> (r: Buttons)
        ensures
            r@ == self@ & Self::STOCK_BUTTONS,
    {
        Buttons { bits: self.bits & Self::STOCK_BUTTONS }
    }

    /// What a frame decodes to as steering-wheel buttons: payload bytes 3 and
    /// 4 as a big-endian `u16`. No pattern is invalid.
    pub open spec fn decode(f: FrameView) -> Decoded<Buttons> {
        checked(
            f,
            STEERING_WHEEL_ID,
            STEERING_WHEEL_LEN,
            Decoded::Value(Buttons::spec_new(be2(f.payload.subrange(3, 5)) as u16)),
        )
    }

    /// Decodes a steering-wheel button frame.
    pub fn try_from(frame: Frame) -> (r: Result<Buttons, ParseError>)
        ensures
            outcome(r, frame, Self::decode(frame@)),
    {
        if frame.id() != STEERING_WHEEL_ID {
            return Err(ParseError::Id { frame });
        }
        let data = frame.data();
        if data.len() != STEERING_WHEEL_LEN {
            return Err(ParseError::Len { frame, expected: STEERING_WHEEL_LEN });
        }
        Ok(Buttons { bits: read_be_u16(data, 3) })
    }
}

/// Every bit pattern of a steering-wheel frame decodes: with the right
/// identifier and length the result is always the buttons of bytes 3 and 4,
/// never an error.
pub proof fn lemma_every_pattern_decodes(f: FrameView)
    requires
        f.id() == STEERING_WHEEL_ID,
        f.payload.len() == STEERING_WHEEL_LEN,
    ensures
        Buttons::decode(f) matches Decoded::Value(b) && b@ == be2(f.payload.subrange(3, 5)) as u16,
{
}


/// [`Buttons::spec_new`] makes a value with the view it was given.
pub broadcast proof fn lemma_buttons_view(bits: u16)
    ensures
        #[trigger] Buttons::spec_new(bits)@ == bits,
{
}

} // verus!
