//! The CAN [`Frame`]: an identifier and a payload of at most eight bytes.

use vstd::prelude::*;

use crate::text::{append, bytes_text, hex, push_bytes, push_hex};

verus! {

/// The largest payload a classic CAN frame can carry.
pub const DATA_MAX_LEN: u8 = 8;

/// The bits of the raw identifier that hold the 11-bit standard identifier.
/// The rest of the raw field may carry transport flags.
pub const ID_MASK: u32 = 0x7FF;

/// What a [`Frame`] means: the raw identifier as stored, and the payload
/// bytes up to the declared length. Bytes past the declared length are not
/// part of it.
pub ghost struct FrameView {
    pub raw_id: u32,
    pub payload: Seq<u8>,
}

impl FrameView {
    /// The 11-bit identifier, with the flag bits masked off.
    pub open spec fn id(self) -> u32 {
        self.raw_id & ID_MASK
    }

    /// How the frame is written: the identifier in hexadecimal, right
    /// aligned to three places, a `#`, and the payload bytes in hexadecimal,
    /// as in `2D3#[7, 0, 1]`.
    pub open spec fn text(self) -> Seq<char> {
        let id = self.id();
        let pad = if id < 0x10 {
            "  "@
        } else if id < 0x100 {
            " "@
        } else {
            Seq::empty()
        };
        pad + hex(id as nat) + "#"@ + bytes_text(self.payload)
    }

    /// What a frame made from a raw identifier, an eight-byte buffer and a
    /// declared length holds.
    pub open spec fn of(id_flags: u32, data: Seq<u8>, len: u8) -> FrameView {
        FrameView { raw_id: id_flags, payload: data.subrange(0, len as int) }
    }
}

/// A frame made from a raw identifier, a buffer and a declared length of at
/// most eight gives back that identifier (masked by [`Frame::id`]), that
/// length and the first `len` bytes, whatever the rest of the buffer holds:
/// two buffers that agree on those bytes make frames that are equal and are
/// written the same.
pub proof fn lemma_round_trip(id_flags: u32, a: [u8; 8], b: [u8; 8], len: u8)
    requires
        len <= DATA_MAX_LEN,
        a@.subrange(0, len as int) == b@.subrange(0, len as int),
    ensures
        FrameView::of(id_flags, a@, len).raw_id == id_flags,
        FrameView::of(id_flags, a@, len).id() == id_flags & ID_MASK,
        FrameView::of(id_flags, a@, len).payload.len() == len,
        forall|i: int|
            0 <= i < len ==> #[trigger] FrameView::of(id_flags, a@, len).payload[i] == a@[i],
        FrameView::of(id_flags, a@, len) == FrameView::of(id_flags, b@, len),
        FrameView::of(id_flags, a@, len).text() == FrameView::of(id_flags, b@, len).text(),
{
}

/// The declared length exceeded [`DATA_MAX_LEN`], so no frame was made.
#[derive(Debug, Clone, Copy, PartialEq, Eq, Structural)]
pub struct LenTooBig;

/// A validated CAN frame: an identifier (which may still carry flag bits)
/// and a payload whose declared length never exceeds eight bytes.
///
/// The eight-byte buffer is zero padded by the constructors; the padding
/// takes part in nothing: not in [`Frame::data`], not in equality.
#[derive(Debug, Clone, Copy)]
pub struct Frame {
    pub(crate) can_id: u32,
    pub(crate) can_dlc: u8,
    pub(crate) data: [u8; 8],
}

impl View for Frame {
    type V = FrameView;

    closed spec fn view(&self) -> FrameView {
        FrameView { raw_id: self.can_id, payload: self.data@.subrange(0, self.can_dlc as int) }
    }
}

impl Frame {
    /// A frame never declares more bytes than its buffer holds.
    #[verifier::type_invariant]
    spec fn len_fits(self) -> bool {
        self.can_dlc <= DATA_MAX_LEN
    }

    /// The frame [`Frame::from_id_data_len`] makes.
    pub open(crate) spec fn made(id_flags: u32, data: [u8; 8], len: u8) -> Frame {
        Frame { can_id: id_flags, can_dlc: len, data }
    }

    /// Makes a frame from a raw identifier (flag bits included), a full
    /// eight-byte buffer and the declared length. Fails when the declared
    /// length is over eight.
    pub fn from_id_data_len(id_flags: u32, data: [u8; 8], len: u8) -> (r: Result<Frame, LenTooBig>)
        ensures
            r is Ok <==> len <= DATA_MAX_LEN,
            r matches Ok(f) ==> f == Frame::made(id_flags, data, len),
            r matches Ok(f) ==> f@ == FrameView::of(id_flags, data@, len),
    {
        if len <= DATA_MAX_LEN {
            Ok(Frame { can_id: id_flags, can_dlc: len, data })
        } else {
            Err(LenTooBig)
        }
    }

    /// Makes a frame from a raw identifier and the payload bytes themselves,
    /// zero padded to eight. Fails when the slice is longer than eight.
    pub fn from_id_slice(id_flags: u32, slice: &[u8]) -> (r: Result<Frame, LenTooBig>)
        ensures
            r is Ok <==> slice@.len() <= 8,
            r matches Ok(f) ==> f@ == (FrameView { raw_id: id_flags, payload: slice@ }),
    {
        if slice.len() > 8 {
            return Err(LenTooBig);
        }
        let mut data = [0u8; 8];
        let mut i: usize = 0;
        while i < slice.len()
            invariant
                slice@.len() <= 8,
                0 <= i <= slice@.len(),
                forall|k: int| 0 <= k < i ==> data@[k] == slice@[k],
            decreases slice@.len() - i,
        {
            data[i] = slice[i];
            i += 1;
        }
        assert(data@.subrange(0, slice@.len() as int) =~= slice@);
        Self::from_id_data_len(id_flags, data, slice.len() as u8)
    }

    /// The 11-bit identifier the frame was sent from. The mask is applied on
    /// every read, whatever the raw field holds.
    pub fn id(&self) -> (r: u32)
        ensures
            r == self@.id(),
            r <= ID_MASK,
    {
        let raw = self.can_id;
        assert(raw & 0x7FF <= 0x7FF) by (bit_vector);
        raw & ID_MASK
    }

    /// The identifier field as stored, flag bits included.
    pub fn raw_id(&self) -> (r: u32)
        ensures
            r == self@.raw_id,
    {
        self.can_id
    }

    /// The declared length of the payload.
    pub fn dlc(&self) -> (r: usize)
        ensures
            r == self@.payload.len(),
            r <= 8,
    {
        proof {
            use_type_invariant(self);
        }
        self.can_dlc as usize
    }

    /// The payload: exactly the declared number of bytes, never the padding.
    pub fn data(&self) -> (r: &[u8])
        ensures
            r@ == self@.payload,
            r@.len() <= 8,
    {
        proof {
            use_type_invariant(self);
        }
        vstd::slice::slice_subrange(self.data.as_slice(), 0, self.can_dlc as usize)
    }

    /// The frame written as its identifier and payload in hexadecimal.
    pub fn to_string(&self) -> (r: String)
        ensures
            r@ == self@.text(),
    {
        let id = self.id();
        let mut s = String::new();
        if id < 0x10 {
            append(&mut s, "  ");
        } else if id < 0x100 {
            append(&mut s, " ");
        }
        push_hex(&mut s, id as u64);
        append(&mut s, "#");
        push_bytes(&mut s, self.data());
        assert(s@ =~= self@.text());
        s
    }
}

impl PartialEq for Frame {
    /// Frames are equal when their raw identifiers and payloads are; the
    /// padding past the declared length takes no part.
    fn eq(&self, other: &Frame) -> (r: bool)
        ensures
            r == (self@ == other@),
    {
        proof {
            use_type_invariant(self);
            use_type_invariant(other);
        }
        if self.can_id != other.can_id {
            assert(self@.raw_id != other@.raw_id);
            return false;
        }
        if self.can_dlc != other.can_dlc {
            assert(self@.payload.len() != other@.payload.len());
            return false;
        }
        let a = self.data();
        let b = other.data();
        let mut i: usize = 0;
        while i < a.len()
            invariant
                a@ == self@.payload,
                b@ == other@.payload,
                a@.len() == b@.len(),
                i <= a@.len(),
                forall|k: int| 0 <= k < i ==> a@[k] == b@[k],
            decreases a@.len() - i,
        {
            if a[i] != b[i] {
                return false;
            }
            i += 1;
        }
        assert(a@ =~= b@);
        true
    }
}

impl vstd::std_specs::cmp::PartialEqSpecImpl for Frame {
    open spec fn obeys_eq_spec() -> bool {
        true
    }

    open spec fn eq_spec(&self, other: &Frame) -> bool {
        self@ == other@
    }
}

impl Eq for Frame {
}

impl core::hash::Hash for Frame {
    /// Hashes what equality compares: the raw identifier, the declared
    /// length and the payload, never the padding. Relies on std's `Hash`
    /// for `u32`, `u8` and `[u8]`; nothing is claimed of the hash.
    #[verifier::external_body]
    fn hash<H: core::hash::Hasher>(&self, state: &mut H) {
        self.can_id.hash(state);
        self.can_dlc.hash(state);
        self.data().hash(state);
    }
}


/// [`Frame::made`] with a declared length of at most eight holds what
/// [`FrameView::of`] says.
pub broadcast proof fn lemma_made_view(id_flags: u32, data: [u8; 8], len: u8)
    requires
        len <= DATA_MAX_LEN,
    ensures
        #[trigger] Frame::made(id_flags, data, len)@ == FrameView::of(id_flags, data@, len),
{
}

} // verus!
