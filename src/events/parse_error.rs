//! [`ParseError`]: why a frame did not decode, with the frame itself.

use vstd::prelude::*;

use crate::frame::Frame;
use crate::text::{append, decimal, hex, pretty_bytes, push_decimal, push_hex, push_pretty_bytes};

verus! {

/// When an [`Event`](super::Event) fails to decode from a [`Frame`]. The frame
/// is kept by value and can be had back with [`ParseError::into_frame`].
#[derive(Debug, Clone)]
pub enum ParseError {
    /// The frame's identifier is not one this decoder knows.
    Id {
        /// The frame with the unrecognized identifier.
        frame: Frame,
    },
    /// The payload length is not the one expected for the identifier.
    Len {
        /// The frame that failed to decode.
        frame: Frame,
        /// The expected length for this identifier.
        expected: usize,
    },
    /// The payload holds a value the decoder has no meaning for.
    Data {
        /// The frame that failed to decode.
        frame: Frame,
        /// Why the frame failed to decode.
        detail: String,
    },
}

/// What [`ParseError::reason`] says of an unrecognized identifier.
pub const UNRECOGNIZED_ID: &'static str = "unrecognized identifier";

/// What [`ParseError::reason`] says of an unexpected length.
pub const UNEXPECTED_LEN: &'static str = "unexpected length";

impl ParseError {
    /// A short account of the failure: the detail of a data error, or the
    /// kind of the failure otherwise.
    pub open spec fn spec_reason(self) -> Seq<char> {
        match self {
            ParseError::Id { .. } => UNRECOGNIZED_ID@,
            ParseError::Len { .. } => UNEXPECTED_LEN@,
            ParseError::Data { detail, .. } => detail@,
        }
    }

    /// A short account of the failure.
    pub fn reason(&self) -> (r: &str)
        ensures
            r@ == self.spec_reason(),
    {
        match self {
            ParseError::Id { .. } => UNRECOGNIZED_ID,
            ParseError::Len { .. } => UNEXPECTED_LEN,
            ParseError::Data { detail, .. } => detail.as_str(),
        }
    }

    /// The frame that failed to decode, whatever the kind of failure.
    pub open spec fn spec_frame(self) -> Frame {
        match self {
            ParseError::Id { frame } => frame,
            ParseError::Len { frame, .. } => frame,
            ParseError::Data { frame, .. } => frame,
        }
    }

    /// Gives back the frame that failed to decode.
    pub fn into_frame(self) -> (r: Frame)
        ensures
            r == self.spec_frame(),
    {
        match self {
            ParseError::Id { frame } => frame,
            ParseError::Len { frame, .. } => frame,
            ParseError::Data { frame, .. } => frame,
        }
    }
}

impl ParseError {
    /// The message for a person: the kind of failure, the identifier in
    /// hexadecimal, and the payload bytes (as a pretty-printed list), the
    /// lengths or the detail.
    pub open spec fn spec_message(self) -> Seq<char> {
        match self {
            ParseError::Id { frame } => "Frame id `0x"@ + hex(frame@.id() as nat)
                + "` not recognized (data: `"@ + pretty_bytes(frame@.payload) + "`)."@,
            ParseError::Len { frame, expected } => "Frame's length ("@ + decimal(
                frame@.payload.len(),
            ) + "); unexpected from source `0x"@ + hex(frame@.id() as nat) + "` (expected: "@
                + decimal(expected as nat) + ")."@,
            ParseError::Data { frame, detail } => "Frame from source id `0x"@ + hex(
                frame@.id() as nat,
            ) + "` with data `"@ + pretty_bytes(frame@.payload)
                + "` failed validation because: "@ + detail@,
        }
    }

    /// The message for a person, as [`ParseError::spec_message`] gives it.
    pub fn message(&self) -> (r: String)
        ensures
            r@ == self.spec_message(),
    {
        let mut s = String::new();
        match self {
            ParseError::Id { frame } => {
                append(&mut s, "Frame id `0x");
                push_hex(&mut s, frame.id() as u64);
                append(&mut s, "` not recognized (data: `");
                push_pretty_bytes(&mut s, frame.data());
                append(&mut s, "`).");
            },
            ParseError::Len { frame, expected } => {
                append(&mut s, "Frame's length (");
                push_decimal(&mut s, frame.dlc());
                append(&mut s, "); unexpected from source `0x");
                push_hex(&mut s, frame.id() as u64);
                append(&mut s, "` (expected: ");
                push_decimal(&mut s, *expected);
                append(&mut s, ").");
            },
            ParseError::Data { frame, detail } => {
                append(&mut s, "Frame from source id `0x");
                push_hex(&mut s, frame.id() as u64);
                append(&mut s, "` with data `");
                push_pretty_bytes(&mut s, frame.data());
                append(&mut s, "` failed validation because: ");
                append(&mut s, detail.as_str());
            },
        }
        assert(s@ =~= self.spec_message());
        s
    }
}

impl From<ParseError> for Frame {
    fn from(e: ParseError) -> (r: Frame)
        ensures
            r == e.spec_frame(),
    {
        e.into_frame()
    }
}

impl vstd::std_specs::convert::FromSpecImpl<ParseError> for Frame {
    open spec fn obeys_from_spec() -> bool {
        true
    }

    open spec fn from_spec(e: ParseError) -> Frame {
        e.spec_frame()
    }
}

} // verus!
