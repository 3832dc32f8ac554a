//! [`Doors`]: the state of the doors, byte 0 of a `0x2fa` frame.

use vstd::prelude::*;

verus! {

/// The state of the doors, a set of flags over a `u8`. Every bit has a
/// flag, so every byte is a state.
#[derive(Debug, Clone, Copy, PartialEq, Eq, Structural, Hash)]
pub struct Doors {
    pub(crate) bits: u8,
}

impl View for Doors {
    type V = u8;

    open spec fn view(&self) -> u8 {
        self.spec_bits()
    }
}

impl Doors {
    /// Driver's door.
    pub const DRIVER: u8 = 0b0000_0001;
    /// Passenger's door.
    pub const PASSENGER: u8 = 0b0000_0010;
    /// Rear driver's side door.
    pub const REAR_DRIVER: u8 = 0b0000_0100;
    /// Rear passenger's side door.
    pub const REAR_PASSENGER: u8 = 0b0000_1000;
    /// Unused on the Wrangler; may be a door on other models.
    pub const MYSTERY_DOOR_0: u8 = 0b0001_0000;
    /// The rear swing gate.
    pub const SWING_GATE: u8 = 0b0010_0000;
    /// Of unknown meaning.
    pub const MYSTERY_BIT: u8 = 0b0100_0000;
    /// Unused on the Wrangler; may be a door on other models.
    pub const MYSTERY_DOOR_2: u8 = 0b1000_0000;
    /// The doors a Jeep Wrangler has.
    pub const ALL_JEEP_DOORS: u8 = 0b0010_1111;

    /// The flags set.
    pub open(crate) spec fn spec_bits(self) -> u8 {
        self.bits
    }

    /// The value whose view is `bits`.
    pub open(crate) spec fn spec_new(bits: u8) -> Doors {
        Doors { bits }
    }

    /// The state that `bits` names; there is one for every byte.
    pub fn from_bits(bits: u8) -> (r: Option<Doors>)
        ensures
            r is Some,
            r matches Some(v) ==> v@ == bits,
    {
        Some(Doors { bits })
    }

    /// The flags set, as bits.
    pub fn bits(&self) -> (r: u8)
        ensures
            r == self@,
    {
        self.bits
    }

    /// Whether every bit of `flags` is set.
    pub fn contains(&self, flags: u8) -> (r: bool)
        ensures
            r == (self@ & flags == flags),
    {
        self.bits & flags == flags
    }

    /// Whether every Jeep door is closed.
    pub fn all_closed(self) -> (r: bool)
        ensures
            r == (self@ & Self::ALL_JEEP_DOORS == 0),
    {
        self.bits & Self::ALL_JEEP_DOORS == 0
    }

    /// Whether some Jeep door is open.
    pub fn any_open(self) -> (r: bool)
        ensures
            r == (self@ & Self::ALL_JEEP_DOORS != 0),
    {
        !self.all_closed()
    }
}


/// [`Doors::spec_new`] makes a value with the view it was given.
pub broadcast proof fn lemma_doors_view(bits: u8)
    ensures
        #[trigger] Doors::spec_new(bits)@ == bits,
{
}

} // verus!
