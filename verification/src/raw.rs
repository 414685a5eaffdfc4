//! An array as it lies in the server's memory.

use crate::datum::Datum;
use crate::layout::{alignment, Layout, PassBy};
use crate::nulls::{NullBitmap, NullKind};
use vstd::layout::{align_of, size_of};
use vstd::prelude::*;

verus! {

/// What the server's array header says, and where the header's array keeps its data.
pub struct RawArray<'a, T> {
    /// The address of the array.
    pub ptr: usize,
    /// The element type.
    pub oid: u32,
    /// The number of elements, NULLs among them.
    pub len: usize,
    /// The validity bitmap, where the array has one.
    pub nulls: Option<NullBitmap<'a>>,
    /// The data area, seen as slots of `T`: one for each element that is not NULL, in element
    /// order. Of no meaning where the layouts of the element type and of `T` differ.
    pub data: &'a [T],
}

impl<'a, T> Clone for RawArray<'a, T> {
    fn clone(&self) -> (copy: Self)
        ensures
            copy == *self,
    {
        *self
    }
}

impl<'a, T> Copy for RawArray<'a, T> {

}

impl<'a, T> RawArray<'a, T> {
    /// A properly constructed array: the bitmap, where there is one, has a bit per element.
    pub open spec fn well_formed(self) -> bool {
        self.nulls matches Some(bitmap) ==> bitmap@.len() == self.len
    }

    /// How the array tells which elements are NULL.
    pub open spec fn null_kind(self) -> NullKind<'a> {
        match self.nulls {
            Some(bitmap) => NullKind::Bits(bitmap),
            None => NullKind::Strict(self.len),
        }
    }

    /// How the array tells which elements are NULL: by its bitmap where it has one, and
    /// otherwise none of them is.
    pub fn nulls(&self) -> (nulls: NullKind<'a>)
        ensures
            nulls == self.null_kind(),
    {
        match self.nulls {
            Some(bitmap) => NullKind::Bits(bitmap),
            None => NullKind::Strict(self.len),
        }
    }

    /// Whether some element is NULL.
    pub fn any_nulls(&self) -> (any: bool)
        ensures
            any == self.null_kind().has_null(),
    {
        self.nulls().any()
    }
}

/// The arguments of the server's `deconstruct_array`.
#[derive(Clone, Copy, Debug, PartialEq, Eq, Structural)]
pub struct DeconstructCall {
    /// The address of the array to take apart.
    pub array: usize,
    /// Its element type.
    pub elmtype: u32,
    /// The size of an element, as the catalog gives it.
    pub elmlen: i32,
    /// Whether elements are passed by value.
    pub elmbyval: bool,
    /// The letter of the elements' alignment.
    pub elmalign: char,
}

/// What the server's `deconstruct_array` gave back.
pub struct Deconstructed<'a, R> {
    /// The address of the allocation that holds the datums.
    pub elements: usize,
    /// The datums, one per element.
    pub datums: &'a [Datum<'a, R>],
    /// Whether each element is NULL.
    pub nulls: &'a [bool],
}

impl<'a, R> Clone for Deconstructed<'a, R> {
    fn clone(&self) -> (copy: Self)
        ensures
            copy == *self,
    {
        *self
    }
}

impl<'a, R> Copy for Deconstructed<'a, R> {

}

impl<'a, T> RawArray<'a, T> {
    /// The request by which the server takes the array apart; `None` where that is not needed
    /// because the array is read as slots.
    pub fn deconstruct_call(&self, elem_layout: Layout) -> (call: Option<DeconstructCall>)
        ensures
            call == if elem_layout.in_slots::<T>() {
                None
            } else {
                Some(
                    DeconstructCall {
                        array: self.ptr,
                        elmtype: self.oid,
                        elmlen: elem_layout.typlen as i32,
                        elmbyval: elem_layout.pass == PassBy::Value,
                        elmalign: elem_layout.typalign,
                    },
                )
            },
            elem_layout.typlen == size_of::<T>() && (size_of::<T>() == 1 || size_of::<T>() == 2
                || size_of::<T>() == 4) && alignment(elem_layout.typalign) == Some(align_of::<T>())
                && elem_layout.pass == PassBy::Value <==> call is None,
    {
        if elem_layout.slots::<T>() {
            None
        } else {
            Some(
                DeconstructCall {
                    array: self.ptr,
                    elmtype: self.oid,
                    elmlen: elem_layout.typlen as i32,
                    elmbyval: elem_layout.pass == PassBy::Value,
                    elmalign: elem_layout.typalign,
                },
            )
        }
    }

    /// Whether what the server made of the array agrees with its header: as many elements,
    /// and the same ones NULL.
    pub open spec fn agrees_with<R>(self, parts: Deconstructed<'a, R>) -> bool {
        &&& parts.datums@.len() == self.len
        &&& parts.nulls@.len() == self.len
        &&& forall|i: int|
            0 <= i < self.len ==> self.null_kind().null_at(i) == Some(#[trigger] parts.nulls@[i])
    }

    /// Whether what the server made of the array agrees with its header.
    pub fn confirms<R>(&self, parts: &Deconstructed<'a, R>) -> (agrees: bool)
        ensures
            agrees == self.agrees_with(*parts),
    {
        if parts.datums.len() != self.len || parts.nulls.len() != self.len {
            return false;
        }
        let nulls = self.nulls();
        let mut i: usize = 0;
        while i < self.len
            invariant
                i <= self.len,
                parts.nulls@.len() == self.len,
                nulls == self.null_kind(),
                forall|j: int|
                    0 <= j < i ==> self.null_kind().null_at(j) == Some(#[trigger] parts.nulls@[j]),
            decreases self.len - i,
        {
            match nulls.get(i) {
                Some(is_null) if is_null == parts.nulls[i] => {
                    i += 1;
                },
                _ => {
                    assert(self.null_kind().null_at(i as int) != Some(parts.nulls@[i as int]));
                    return false;
                },
            }
        }
        true
    }
}

} // verus!
