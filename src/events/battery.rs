//! [`Battery`] events, from identifier `0x2c2`.

use vstd::prelude::*;

use super::{checked, lift, outcome, Decoded, ParseError};
use crate::frame::{Frame, FrameView};

verus! {

/// The identifier auxiliary battery frames come from.
pub const AUX_ID: u32 = 0x2c2;

/// The payload length of an auxiliary battery frame.
pub const AUX_LEN: usize = 4;

/// The 12 V (starter) battery under the hood, which powers the auxiliary
/// equipment: the four payload bytes as they came.
#[derive(Debug, Clone, Copy, PartialEq, Eq)]
pub struct Aux(pub(crate) [u8; 4]);

impl View for Aux {
    type V = Seq<u8>;

    open spec fn view(&self) -> Seq<u8> {
        self.spec_raw()
    }
}

impl Aux {
    /// The four payload bytes.
    pub open(crate) spec fn spec_raw(self) -> Seq<u8> {
        self.0@
    }

    /// The reading whose four bytes are the first four of `p`.
    pub open(crate) spec fn spec_new(p: Seq<u8>) -> Aux {
        Aux([p[0], p[1], p[2], p[3]])
    }

    /// The payload bytes; the first two have no known meaning yet.
    pub fn raw(self) -> (r: [u8; 4])
        ensures
            r@ == self@,
    {
        self.0
    }

    /// The byte holding the voltage, in hundredths of a volt.
    pub fn raw_volts(self) -> (r: u8)
        ensures
            r == self@[2],
    {
        self.0[2]
    }

    /// What a frame decodes to as an auxiliary battery reading.
    pub open spec fn decode(f: FrameView) -> Decoded<Aux> {
        checked(f, AUX_ID, AUX_LEN, Decoded::Value(Aux::spec_new(f.payload)))
    }

    /// Decodes an auxiliary battery frame.
    pub fn try_from(frame: Frame) -> (r: Result<Aux, ParseError>)
        ensures
            outcome(r, frame, Self::decode(frame@)),
    {
        if frame.id() != AUX_ID {
            return Err(ParseError::Id { frame });
        }
        let data = frame.data();
        if data.len() != AUX_LEN {
            return Err(ParseError::Len { frame, expected: AUX_LEN });
        }
        Ok(Aux([data[0], data[1], data[2], data[3]]))
    }
}

/// A battery event.
#[derive(Debug, Clone, Copy, PartialEq, Eq)]
pub enum Battery {
    /// The auxiliary (starter) battery.
    Aux(Aux),
}

impl Battery {
    /// What a frame decodes to as a battery event.
    pub open spec fn decode(f: FrameView) -> Decoded<Battery> {
        if f.id() == AUX_ID {
            lift(Aux::decode(f), |a: Aux| Battery::Aux(a))
        } else {
            Decoded::UnknownId
        }
    }

    /// Decodes a battery frame.
    pub fn try_from(frame: Frame) -> (r: Result<Battery, ParseError>)
        ensures
            outcome(r, frame, Self::decode(frame@)),
    {
        if frame.id() == AUX_ID {
            match Aux::try_from(frame) {
                Ok(a) => Ok(Battery::Aux(a)),
                Err(e) => Err(e),
            }
        } else {
            Err(ParseError::Id { frame })
        }
    }
}


/// [`Aux::spec_new`] keeps four bytes as they are.
pub broadcast proof fn lemma_aux_view(p: Seq<u8>)
    requires
        p.len() == 4,
    ensures
        #[trigger] Aux::spec_new(p)@ == p,
{
    assert(Aux::spec_new(p)@ =~= p);
}

} // verus!
