//! The array: its elements, its slice and what it owns.

use crate::datum::{Datum, FromDatum};
use crate::iter::{ArrayIntoIterator, ArrayIterator, ArrayTypedIterator};
use crate::layout::Layout;
use crate::nulls::NullKind;
use crate::raw::{Deconstructed, RawArray};
use vstd::prelude::*;

verus! {

/// An array of the server, whose elements are read as values of `T`.
pub struct Array<'a, T: FromDatum<'a>> {
    ptr: usize,
    raw: Option<RawArray<'a, T>>,
    nelems: usize,
    datum_palloc: Option<usize>,
    datum_slice: Option<&'a [Datum<'a, T::Referent>]>,
    elems: Option<&'a [T]>,
    null_slice: NullKind<'a>,
    elem_layout: Layout,
}

/// An array, as contracts speak of it.
pub struct ArrayView<'a, T: FromDatum<'a>> {
    /// The address that the array came in by.
    pub ptr: usize,
    /// The array in the server's memory, which may be a copy of the one at `ptr`.
    pub raw: Option<RawArray<'a, T>>,
    /// The number of elements.
    pub nelems: nat,
    /// The address of the allocation that holds the datums, where the array owns one.
    pub datum_palloc: Option<usize>,
    /// The datums of the elements, where the server has taken the array apart.
    pub datums: Option<Seq<Datum<'a, T::Referent>>>,
    /// The slots of the elements that are not NULL, where the array is read as such.
    pub slots: Option<Seq<T>>,
    /// Which elements are NULL.
    pub nulls: NullKind<'a>,
    /// How the server lays out the elements.
    pub layout: Layout,
}

impl<'a, T: FromDatum<'a>> View for Array<'a, T> {
    type V = ArrayView<'a, T>;

    closed spec fn view(&self) -> ArrayView<'a, T> {
        ArrayView {
            ptr: self.ptr,
            raw: self.raw,
            nelems: self.nelems as nat,
            datum_palloc: self.datum_palloc,
            datums: match self.datum_slice {
                Some(datums) => Some(datums@),
                None => None,
            },
            slots: match self.elems {
                Some(elems) => Some(elems@),
                None => None,
            },
            nulls: self.null_slice,
            layout: self.elem_layout,
        }
    }
}

/// Whether an array can be made of these parts: one that is not read as slots needs a datum
/// for each element.
pub open spec fn makes_array<'a, T: FromDatum<'a>>(
    raw: RawArray<'a, T>,
    elem_layout: Layout,
    parts: Option<Deconstructed<'a, T::Referent>>,
) -> bool {
    elem_layout.in_slots::<T>() || (parts matches Some(p) && p.datums@.len() == raw.len)
}

/// The array that is made of these parts.
pub open spec fn made_array<'a, T: FromDatum<'a>>(
    ptr: usize,
    raw: RawArray<'a, T>,
    elem_layout: Layout,
    parts: Option<Deconstructed<'a, T::Referent>>,
) -> ArrayView<'a, T> {
    let slots = elem_layout.in_slots::<T>();
    ArrayView {
        ptr,
        raw: Some(raw),
        nelems: raw.len as nat,
        datum_palloc: if !slots && parts.unwrap().elements != 0 {
            Some(parts.unwrap().elements)
        } else {
            None
        },
        datums: if slots {
            None
        } else {
            Some(parts.unwrap().datums@)
        },
        slots: if slots {
            Some(raw.data@)
        } else {
            None
        },
        nulls: raw.null_kind(),
        layout: elem_layout,
    }
}

impl<'a, T: FromDatum<'a>> ArrayView<'a, T> {
    /// What every array made of a properly constructed raw array keeps to: it has that many
    /// elements, knows of each whether it is NULL, and holds either datums for all of them or
    /// the raw array's slots.
    pub open spec fn well_formed(self) -> bool {
        &&& self.raw matches Some(raw) && raw.well_formed() && self.nelems == raw.len
            && self.nulls == raw.null_kind() && match (self.datums, self.slots) {
            (Some(datums), None) => datums.len() == raw.len && !self.layout.in_slots::<T>(),
            (None, Some(slots)) => slots == raw.data@ && self.layout.in_slots::<T>(),
            _ => false,
        }
        &&& self.slots is Some ==> self.datum_palloc is None
    }

    /// Whether what stands at position `i` can be found: nothing is known of the position, or
    /// it has its datum, or it is NULL or has its slot. A NULL takes no slot, so the slot of an
    /// element is found by counting the present ones before it.
    pub open spec fn locates(self, i: int) -> bool {
        match self.nulls.null_at(i) {
            None => true,
            Some(is_null) => match (self.datums, self.slots) {
                (Some(datums), _) => i < datums.len(),
                (None, Some(slots)) => is_null || self.nulls.present_before(i) < slots.len(),
                (None, None) => false,
            },
        }
    }

    /// Whether position `i` can be read: what stands there can be found, and a datum there is
    /// one that `T` converts, a slot one that `T` is copied out of.
    pub open spec fn reads(self, i: int) -> bool {
        &&& self.locates(i)
        &&& match (self.nulls.null_at(i), self.datums, self.raw) {
            (Some(is_null), Some(datums), Some(raw)) => T::accepts(datums[i], is_null, raw.oid),
            (Some(false), None, _) => T::slotted(),
            _ => true,
        }
    }

    /// Whether reading position `i` may give `value`: nothing where nothing is known of the
    /// position, else what `T` makes of the datum or what the slot holds, and no value where
    /// the slot is NULL.
    pub open spec fn gives(self, i: int, value: Option<Option<T>>) -> bool {
        match self.nulls.null_at(i) {
            None => value is None,
            Some(is_null) => match (self.datums, self.raw) {
                (Some(datums), Some(raw)) => value matches Some(v) && T::converts(
                    datums[i],
                    is_null,
                    raw.oid,
                    v,
                ),
                (Some(datums), None) => value == Some(None::<T>),
                (None, _) => if is_null {
                    value == Some(None::<T>)
                } else {
                    self.slots matches Some(slots) && value == Some(
                        Some(slots[self.nulls.present_before(i) as int]),
                    )
                },
            },
        }
    }

    /// Whether an array that is read as slots has one for each element that is not NULL.
    pub open spec fn has_all_slots(self) -> bool {
        self.slots matches Some(slots) ==> self.nulls.present_before(self.nelems as int)
            <= slots.len()
    }

    /// Whether `T` converts the datum of each element, where the array has datums, and is
    /// copied out of slots, where it has those.
    pub open spec fn converts_all(self) -> bool {
        &&& self.datums matches Some(datums) ==> forall|i: int|
            0 <= i < self.nelems ==> T::accepts(
                #[trigger] datums[i],
                self.nulls.null_at(i) == Some(true),
                self.raw.unwrap().oid,
            )
        &&& self.slots is Some ==> T::slotted()
    }

    /// Whether element `i` is read for sure, whatever comes of it.
    pub open spec fn element_reads(self, i: int) -> bool {
        self.nulls.null_at(i) is Some && self.reads(i)
    }

    /// Whether reading position `i` may give a value.
    pub open spec fn may_give_value(self, i: int) -> bool {
        exists|value: T| #[trigger] self.gives(i, Some(Some(value)))
    }

    /// Whether element `i` is read for sure and cannot turn out to be without a value.
    pub open spec fn element_has_value(self, i: int) -> bool {
        &&& self.element_reads(i)
        &&& forall|value: Option<T>| #[trigger] self.gives(i, Some(value)) ==> value is Some
    }

    /// Why the elements may not be seen as a slice, if they may not: some are NULL, or there
    /// is no slice of their size.
    pub open spec fn slice_denial(self) -> Option<SliceDenial> {
        if self.nulls.has_null() {
            Some(SliceDenial::NullDetected)
        } else if !self.layout.in_slice::<T>() || self.raw is None {
            Some(SliceDenial::NoSuchSlice)
        } else {
            None
        }
    }

    /// The elements as a slice: the first slots of the raw array's data area, as many as it has
    /// elements.
    pub open spec fn slice(self) -> Seq<T> {
        self.raw.unwrap().data@.subrange(0, self.raw.unwrap().len as int)
    }

    /// Why the elements may not be walked as values, if they may not: some are NULL, or the
    /// array has gone.
    pub open spec fn walk_denial(self) -> Option<WalkDenial> {
        match self.raw {
            Some(raw) => if raw.null_kind().has_null() {
                Some(WalkDenial::ContainsNull)
            } else {
                None
            },
            None => Some(WalkDenial::ArrayIsNull),
        }
    }

    /// The allocations that end with the array, in the order in which they are freed: only
    /// an array that holds datums of its own has any, those first, then the raw array where it
    /// is a copy of the one that came in.
    pub open spec fn owned(self) -> Seq<usize> {
        match (self.datum_palloc, self.raw) {
            (None, _) => seq![],
            (Some(data), None) => seq![data],
            (Some(data), Some(raw)) => if raw.ptr != self.ptr {
                seq![data, raw.ptr]
            } else {
                seq![data]
            },
        }
    }

    /// The array once it has ended: nothing is its own any more, and the raw array is gone
    /// where the array held datums of its own.
    pub open spec fn released(self) -> ArrayView<'a, T> {
        ArrayView {
            datum_palloc: None,
            raw: if self.datum_palloc is Some {
                None
            } else {
                self.raw
            },
            ..self
        }
    }
}

/// Why an array is not seen as a slice.
#[derive(Clone, Copy, Debug, PartialEq, Eq, Structural)]
pub enum SliceDenial {
    /// A slot may hold anything at all where its element is NULL.
    NullDetected,
    /// The layouts of the element type and the Rust type do not allow it.
    NoSuchSlice,
}

/// Why an array is not walked as values.
#[derive(Clone, Copy, Debug, PartialEq, Eq, Structural)]
pub enum WalkDenial {
    /// An element is NULL.
    ContainsNull,
    /// There is no array.
    ArrayIsNull,
}

impl<'a, T: FromDatum<'a>> Array<'a, T> {
    /// Makes an array of the raw array that came in by the address `ptr`: of its slots where
    /// the element layout allows that, else of the datums in `parts`, which the server made of
    /// it on request.
    pub fn deconstruct_from(
        ptr: usize,
        raw: RawArray<'a, T>,
        elem_layout: Layout,
        parts: Option<Deconstructed<'a, T::Referent>>,
    ) -> (array: Array<'a, T>)
        requires
            makes_array(raw, elem_layout, parts),
        ensures
            array@ == made_array(ptr, raw, elem_layout, parts),
            raw.well_formed() ==> array@.well_formed(),
    {
        let null_slice = raw.nulls();
        if elem_layout.slots::<T>() {
            Array {
                ptr,
                raw: Some(raw),
                nelems: raw.len,
                datum_palloc: None,
                datum_slice: None,
                elems: Some(raw.data),
                null_slice,
                elem_layout,
            }
        } else {
            let parts = parts.unwrap();
            Array {
                ptr,
                raw: Some(raw),
                nelems: parts.datums.len(),
                datum_palloc: if parts.elements != 0 {
                    Some(parts.elements)
                } else {
                    None
                },
                datum_slice: Some(parts.datums),
                elems: None,
                null_slice,
                elem_layout,
            }
        }
    }

    /// Gives up the array for the address of the raw array, zero where it has none. Nothing is
    /// freed.
    pub fn into_array_type(self) -> (ptr: usize)
        ensures
            ptr == match self@.raw {
                Some(raw) => raw.ptr,
                None => 0,
            },
    {
        match self.raw {
            Some(raw) => raw.ptr,
            None => 0,
        }
    }

    /// The allocations to free as the array ends, in order. They are handed out once. An array
    /// that held datums of its own is left without its raw array.
    pub fn release(&mut self) -> (freed: Vec<usize>)
        ensures
            freed@ == old(self)@.owned(),
            final(self)@ == old(self)@.released(),
    {
        let mut freed: Vec<usize> = Vec::new();
        if let Some(data) = self.datum_palloc.take() {
            freed.push(data);
            let raw = self.raw.take();
            if let Some(raw) = raw {
                if raw.ptr != self.ptr {
                    freed.push(raw.ptr);
                }
            }
        }
        freed
    }

    /// Why `as_slice` may not be asked, if it may not.
    pub fn slice_denial(&self) -> (denial: Option<SliceDenial>)
        ensures
            denial == self@.slice_denial(),
    {
        if self.null_slice.any() {
            return Some(SliceDenial::NullDetected);
        }
        match (self.elem_layout.sliceable::<T>(), &self.raw) {
            (true, Some(_)) => None,
            (_, _) => Some(SliceDenial::NoSuchSlice),
        }
    }

    /// Whether the raw array's data area has a slot for each element.
    pub fn slice_fits(&self) -> (fits: bool)
        ensures
            fits == (self@.raw matches Some(raw) && raw.len <= raw.data@.len()),
    {
        match &self.raw {
            Some(raw) => raw.len <= raw.data.len(),
            None => false,
        }
    }

    /// The elements as a slice: the first slots of the raw array's data area, as many as it
    /// has elements.
    pub fn as_slice(&self) -> (slice: &[T])
        requires
            self@.slice_denial() is None,
            self@.raw.unwrap().len <= self@.raw.unwrap().data@.len(),
        ensures
            slice@ == self@.slice(),
    {
        let raw = self.raw.unwrap();
        vstd::slice::slice_subrange(raw.data, 0, raw.len)
    }

    /// A walk over the elements, NULLs among them.
    pub fn iter(&self) -> (iter: ArrayIterator<'_, 'a, T>)
        ensures
            iter@.array == self@,
            iter@.curr == 0,
    {
        ArrayIterator::new(self)
    }

    /// Why `iter_deny_null` may not be asked, if it may not.
    pub fn walk_denial(&self) -> (denial: Option<WalkDenial>)
        ensures
            denial == self@.walk_denial(),
    {
        match &self.raw {
            Some(at) => if at.any_nulls() {
                Some(WalkDenial::ContainsNull)
            } else {
                None
            },
            None => Some(WalkDenial::ArrayIsNull),
        }
    }

    /// A walk over the values of an array that holds no NULL.
    pub fn iter_deny_null(&self) -> (iter: ArrayTypedIterator<'_, 'a, T>)
        requires
            self@.walk_denial() is None,
        ensures
            iter@.array == self@,
            iter@.curr == 0,
    {
        ArrayTypedIterator::new(self)
    }

    /// The number of elements.
    pub fn len(&self) -> (len: usize)
        ensures
            len == self@.nelems,
    {
        self.nelems
    }

    /// Whether there are no elements.
    pub fn is_empty(&self) -> (empty: bool)
        ensures
            empty == (self@.nelems == 0),
    {
        self.nelems == 0
    }

    /// Whether what stands at position `i` can be found.
    pub fn has(&self, i: usize) -> (found: bool)
        ensures
            found == self@.locates(i as int),
    {
        match self.null_slice.get(i) {
            None => true,
            Some(is_null) => if let Some(datums) = self.datum_slice {
                i < datums.len()
            } else if let Some(elems) = self.elems {
                is_null || self.null_slice.slot_of(i) < elems.len()
            } else {
                false
            },
        }
    }

    /// Whether the array knows of position `i` and can find what stands there.
    pub(crate) fn holds(&self, i: usize) -> (held: bool)
        ensures
            held == (self@.nulls.null_at(i as int) is Some && self@.locates(i as int)),
    {
        self.null_slice.get(i).is_some() && self.has(i)
    }

    /// Element `i`: `None` where the array knows of no such element, `Some(None)` where it is
    /// NULL. Any array can be read by index, also one whose elements the server passes by
    /// value; left out are only arrays that hold neither datums nor slots, and positions whose
    /// datum or slot is missing.
    pub fn get(&self, i: usize) -> (value: Option<Option<T>>)
        requires
            self@.reads(i as int),
        ensures
            self@.gives(i as int, value),
    {
        let is_null = match self.null_slice.get(i) {
            Some(is_null) => is_null,
            None => return None,
        };
        if let Some(datums) = self.datum_slice {
            match &self.raw {
                Some(raw) => Some(T::from_polymorphic_datum(datums[i], is_null, raw.oid)),
                None => Some(None),
            }
        } else {
            let elems = self.elems.unwrap();
            if is_null {
                Some(None)
            } else {
                Some(T::read_slot(&elems[self.null_slice.slot_of(i)]))
            }
        }
    }

    /// Gives up the array for a walk over its elements.
    pub fn into_iter(self) -> (iter: ArrayIntoIterator<'a, T>)
        ensures
            iter@.array == self@,
            iter@.curr == 0,
    {
        ArrayIntoIterator::new(self)
    }
}

} // verus!
