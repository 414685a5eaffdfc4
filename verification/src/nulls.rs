//! Which elements of an array are SQL NULL.
//!
//! An array that may hold NULLs carries a validity bitmap beside its data: one bit per element,
//! the least significant bit of each byte first, one where the element is present and zero
//! where it is NULL. The bits are read through the `bitvec` crate.

use bitvec::order::Lsb0;
use bitvec::slice::BitSlice;
use vstd::prelude::*;

verus! {

/// Bit `k` of `byte`, counted from the least significant.
pub open spec fn bit(byte: u8, k: int) -> bool {
    (byte >> (k as u8)) & 1 == 1
}

/// The first `len` bits of `bytes`, each byte from its least significant bit on.
pub open spec fn bits(bytes: Seq<u8>, len: nat) -> Seq<bool> {
    Seq::new(len, |i: int| bit(bytes[i / 8], i % 8))
}

/// Whether `bytes` hold `len` bits and a bit slice can span all of them: the `bitvec` crate
/// keeps three bits of a slice's length word for other uses.
pub open spec fn spans(bytes: Seq<u8>, len: nat) -> bool {
    len <= 8 * bytes.len() <= usize::MAX / 8
}

/// Calls `BitSlice::get` with a position, on the first `len` bits of `bytes` in `Lsb0` order,
/// which `BitSlice::from_slice` and indexing by a range lay out: the bit at that position, or
/// `None` where the position is not among those bits.
#[verifier::external_body]
fn bit_at(bytes: &[u8], len: usize, index: usize) -> (found: Option<bool>)
    requires
        spans(bytes@, len as nat),
    ensures
        found == if index < len {
            Some(bits(bytes@, len as nat)[index as int])
        } else {
            None
        },
{
    BitSlice::<u8, Lsb0>::from_slice(bytes)[..len].get(index).map(|bit| *bit)
}

/// Calls `BitSlice::all` on the first `len` bits of `bytes` in `Lsb0` order, which
/// `BitSlice::from_slice` and indexing by a range lay out: whether each of those bits is one,
/// as it is where there are no bits.
#[verifier::external_body]
fn all_bits(bytes: &[u8], len: usize) -> (all: bool)
    requires
        spans(bytes@, len as nat),
    ensures
        all == (forall|i: int| 0 <= i < len ==> #[trigger] bits(bytes@, len as nat)[i]),
{
    BitSlice::<u8, Lsb0>::from_slice(bytes)[..len].all()
}

/// A validity bitmap: the first `len` bits of `bytes`.
#[derive(Clone, Copy)]
pub struct NullBitmap<'a> {
    bytes: &'a [u8],
    len: usize,
}

impl<'a> View for NullBitmap<'a> {
    type V = Seq<bool>;

    /// The bits, in element order: `true` where the element is present.
    closed spec fn view(&self) -> Seq<bool> {
        bits(self.bytes@, self.len as nat)
    }
}

impl<'a> NullBitmap<'a> {
    #[verifier::type_invariant]
    closed spec fn in_span(self) -> bool {
        spans(self.bytes@, self.len as nat)
    }

    /// The bitmap made of the first `len` bits of `bytes`; `None` where `bytes` hold fewer
    /// bits than that, or more than a bit slice can span.
    pub fn new(bytes: &'a [u8], len: usize) -> (bitmap: Option<NullBitmap<'a>>)
        ensures
            bitmap is Some <==> spans(bytes@, len as nat),
            bitmap matches Some(b) ==> b@ == bits(bytes@, len as nat),
    {
        if bytes.len() <= usize::MAX / 8 / 8 && len <= 8 * bytes.len() {
            Some(NullBitmap { bytes, len })
        } else {
            None
        }
    }

    /// Bit `index`, or `None` from the bitmap's end on.
    pub fn get(&self, index: usize) -> (found: Option<bool>)
        ensures
            found == if index < self@.len() {
                Some(self@[index as int])
            } else {
                None
            },
            self@.len() <= usize::MAX,
    {
        proof {
            use_type_invariant(self);
        }
        bit_at(self.bytes, self.len, index)
    }

    /// Whether every bit is one.
    pub fn all(&self) -> (all: bool)
        ensures
            all == (forall|i: int| 0 <= i < self@.len() ==> #[trigger] self@[i]),
            self@.len() <= usize::MAX,
    {
        proof {
            use_type_invariant(self);
            assert(self@ == bits(self.bytes@, self.len as nat));
        }
        all_bits(self.bytes, self.len)
    }
}

/// How an array tells which of its elements are NULL.
#[derive(Clone, Copy)]
pub enum NullKind<'a> {
    /// By a validity bitmap.
    Bits(NullBitmap<'a>),
    /// None of this many elements is NULL.
    Strict(usize),
}

impl<'a> NullKind<'a> {
    /// What is known of position `index`: whether it is NULL, or `None` where there is nothing
    /// to know. A strict array answers for its end position too.
    pub open spec fn null_at(self, index: int) -> Option<bool> {
        match self {
            NullKind::Bits(bitmap) => if 0 <= index < bitmap@.len() {
                Some(!bitmap@[index])
            } else {
                None
            },
            NullKind::Strict(len) => if 0 <= index <= len {
                Some(false)
            } else {
                None
            },
        }
    }

    /// Whether some position is NULL.
    pub open spec fn has_null(self) -> bool {
        exists|index: int| #[trigger] self.null_at(index) == Some(true)
    }

    /// The number of positions before `index` that are known to be present.
    pub open spec fn present_before(self, index: int) -> nat
        decreases index,
    {
        if index <= 0 {
            0
        } else if self.null_at(index - 1) == Some(false) {
            self.present_before(index - 1) + 1
        } else {
            self.present_before(index - 1)
        }
    }

    /// Whether position `index` is NULL; `None` past the positions that are known of.
    pub fn get(&self, index: usize) -> (is_null: Option<bool>)
        ensures
            is_null == self.null_at(index as int),
            is_null == match self {
                NullKind::Bits(bitmap) => if index < bitmap@.len() {
                    Some(!bitmap@[index as int])
                } else {
                    None
                },
                NullKind::Strict(len) => if index <= *len {
                    Some(false)
                } else {
                    None
                },
            },
    {
        match self {
            NullKind::Bits(bitmap) => match bitmap.get(index) {
                Some(present) => Some(!present),
                None => None,
            },
            NullKind::Strict(len) => if index <= *len {
                Some(false)
            } else {
                None
            },
        }
    }

    /// Whether some position is NULL.
    pub fn any(&self) -> (any: bool)
        ensures
            any == self.has_null(),
            any == (exists|index: usize| #[trigger] self.null_at(index as int) == Some(true)),
            any == match self {
                NullKind::Bits(bitmap) => bitmap@.contains(false),
                NullKind::Strict(_) => false,
            },
    {
        match self {
            NullKind::Bits(bitmap) => {
                let all = bitmap.all();
                proof {
                    if bitmap@.contains(false) {
                        let i = choose|i: int| 0 <= i < bitmap@.len() && bitmap@[i] == false;
                        assert(!bitmap@[i]);
                    }
                    if !all {
                        let i = choose|i: int| 0 <= i < bitmap@.len() && !#[trigger] bitmap@[i];
                        assert(self.null_at(i) == Some(true));
                        assert(self.null_at((i as usize) as int) == Some(true));
                    }
                }
                !all
            },
            NullKind::Strict(_) => false,
        }
    }

    /// The slot of position `index` among the slots of an array that keeps one for each
    /// present element and none for a NULL: the number of present positions before it.
    pub fn slot_of(&self, index: usize) -> (slot: usize)
        ensures
            slot == self.present_before(index as int),
            slot <= index,
    {
        match self {
            NullKind::Bits(_) => {
                let mut slot: usize = 0;
                let mut i: usize = 0;
                while i < index
                    invariant
                        i <= index,
                        slot == self.present_before(i as int),
                        slot <= i,
                    decreases index - i,
                {
                    if let Some(false) = self.get(i) {
                        slot += 1;
                    }
                    i += 1;
                }
                slot
            },
            NullKind::Strict(len) => {
                proof {
                    lemma_strict_slots(*len, index as int);
                }
                if index <= *len {
                    index
                } else {
                    *len + 1
                }
            },
        }
    }
}

proof fn lemma_strict_slots(len: usize, index: int)
    requires
        0 <= index,
    ensures
        NullKind::Strict(len).present_before(index) == if index <= len {
            index
        } else {
            len + 1
        },
    decreases index,
{
    if index > 0 {
        lemma_strict_slots(len, index - 1);
    }
}

/// A present position has a slot of its own: the slots before a later position, or before the
/// position behind it, include it.
pub proof fn present_position_has_a_slot<'a>(nulls: NullKind<'a>, index: int, end: int)
    requires
        0 <= index < end,
        nulls.null_at(index) == Some(false),
    ensures
        nulls.present_before(index) < nulls.present_before(end),
    decreases end,
{
    if index < end - 1 {
        present_position_has_a_slot(nulls, index, end - 1);
    }
}

/// Where no position before `index` is NULL or unknown, slots and positions are the same.
pub proof fn slots_are_positions_without_nulls<'a>(nulls: NullKind<'a>, index: int)
    requires
        0 <= index,
        forall|j: int| 0 <= j < index ==> #[trigger] nulls.null_at(j) == Some(false),
    ensures
        nulls.present_before(index) == index,
    decreases index,
{
    if index > 0 {
        slots_are_positions_without_nulls(nulls, index - 1);
        assert(nulls.null_at(index - 1) == Some(false));
    }
}

} // verus!
