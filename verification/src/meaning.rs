//! What the operations come to, told by what goes in and what comes out: the bytes of a bitmap,
//! the size and alignment of a type, the slots and datums of an array, the words of its
//! elements and the characters of its name.

use crate::array::{made_array, makes_array, Array, ArrayView, SliceDenial, WalkDenial};
use crate::builder::{BuildStep, BuilderView, Element};
use crate::convert::{array_at, refers, stands, ArrayReferent};
use crate::datum::{Datum, FromDatum, IntoDatum};
use crate::iter::WalkView;
use crate::layout::Layout;
use crate::nulls::{bits, present_position_has_a_slot, spans, NullBitmap, NullKind};
use crate::raw::{Deconstructed, RawArray};
use crate::sql::{
    array_argument, array_return, ArgumentError, Returns, ReturnsError, SqlMapping,
    SqlTranslatable,
};
use crate::variadic::VariadicArray;
use vstd::layout::{align_of, size_of};
use vstd::prelude::*;

verus! {

/// A bitmap has as many bits as it was made for, and bit `i` is one exactly where byte `i / 8`
/// has its bit `i % 8` set.
pub proof fn bitmap_bits_are_those_of_its_bytes(bytes: Seq<u8>, len: nat, i: int)
    ensures
        bits(bytes, len).len() == len,
        0 <= i < len ==> (bits(bytes, len)[i] <==> bytes[i / 8] & (1u8 << ((i % 8) as u8)) != 0),
{
    if 0 <= i < len {
        let byte: u8 = bytes[i / 8];
        let k: u8 = (i % 8) as u8;
        assert((byte >> k) & 1 == 1 <==> byte & (1u8 << k) != 0) by (bit_vector)
            requires
                k < 8,
        ;
    }
}

/// A bitmap can be made of bytes that have a bit for each element, as long as the bits of the
/// bytes, counted eightfold, fit in a word.
pub proof fn bitmap_is_made_of_enough_bytes(bytes: Seq<u8>, len: nat)
    ensures
        spans(bytes, len) <==> len <= 8 * bytes.len() && 64 * bytes.len() <= usize::MAX,
{
}

/// An element is NULL exactly where its bit is zero, and of positions without a bit nothing is
/// known. Some element is NULL exactly where some bit is zero.
pub proof fn nulls_are_the_zero_bits<'a>(bytes: Seq<u8>, bitmap: NullBitmap<'a>, i: int)
    requires
        bitmap@ == bits(bytes, bitmap@.len()),
    ensures
        NullKind::Bits(bitmap).null_at(i) == if 0 <= i < bitmap@.len() {
            Some(!bitmap@[i])
        } else {
            None
        },
        0 <= i < bitmap@.len() ==> NullKind::Bits(bitmap).null_at(i) == Some(
            bytes[i / 8] & (1u8 << ((i % 8) as u8)) == 0,
        ),
        NullKind::Bits(bitmap).has_null() <==> bitmap@.contains(false),
{
    bitmap_bits_are_those_of_its_bytes(bytes, bitmap@.len(), i);
    zero_bit_is_a_null(bitmap);
}

/// Some element is NULL exactly where the bitmap holds a zero.
pub proof fn zero_bit_is_a_null<'a>(bitmap: NullBitmap<'a>)
    ensures
        NullKind::Bits(bitmap).has_null() <==> bitmap@.contains(false),
{
    let nulls = NullKind::Bits(bitmap);
    if bitmap@.contains(false) {
        let j = choose|j: int| 0 <= j < bitmap@.len() && bitmap@[j] == false;
        assert(nulls.null_at(j) == Some(true));
    }
    if nulls.has_null() {
        let j = choose|j: int| #[trigger] nulls.null_at(j) == Some(true);
        assert(bitmap@[j] == false);
    }
}

/// Without a bitmap no element is NULL: each position up to the end is known to be present,
/// and nothing is known of the others.
pub proof fn strict_array_holds_no_null<'a>(len: usize, i: int)
    ensures
        NullKind::<'a>::Strict(len).null_at(i) == if 0 <= i <= len {
            Some(false)
        } else {
            None
        },
        !NullKind::<'a>::Strict(len).has_null(),
{
}

/// An element's slot is the number of ones among the bits before its own.
pub proof fn slots_are_counted_by_ones<'a>(bitmap: NullBitmap<'a>, i: int)
    requires
        0 <= i <= bitmap@.len(),
    ensures
        NullKind::Bits(bitmap).present_before(i) == bitmap@.take(i).to_multiset().count(true),
    decreases i,
{
    broadcast use vstd::seq_lib::group_to_multiset_ensures;

    if i == 0 {
        assert(bitmap@.take(0).to_multiset().count(true) == 0) by {
            assert(!bitmap@.take(0).contains(true));
        }
    } else {
        slots_are_counted_by_ones(bitmap, i - 1);
        assert(bitmap@.take(i) =~= bitmap@.take(i - 1).push(bitmap@[i - 1]));
    }
}

/// Without a bitmap an element's slot is its position.
pub proof fn strict_slots_are_positions<'a>(len: usize, i: int)
    requires
        0 <= i <= len,
    ensures
        NullKind::<'a>::Strict(len).present_before(i) == i,
    decreases i,
{
    if i > 0 {
        strict_slots_are_positions(len, i - 1);
    }
}

/// A raw array tells its NULLs by its bitmap where it has one; where it has none, none of its
/// elements is NULL. It is properly constructed where the bitmap has a bit per element.
pub proof fn raw_array_tells_its_nulls<'a, T>(raw: RawArray<'a, T>, i: int)
    ensures
        match raw.nulls {
            Some(bitmap) => {
                &&& raw.null_kind() == NullKind::Bits(bitmap)
                &&& 0 <= i < bitmap@.len() ==> raw.null_kind().null_at(i) == Some(!bitmap@[i])
                &&& raw.null_kind().has_null() <==> bitmap@.contains(false)
                &&& raw.well_formed() <==> bitmap@.len() == raw.len
            },
            None => {
                &&& raw.null_kind() == NullKind::Strict(raw.len)
                &&& 0 <= i < raw.len ==> raw.null_kind().null_at(i) == Some(false)
                &&& !raw.null_kind().has_null()
                &&& raw.well_formed()
            },
        },
{
    if let Some(bitmap) = raw.nulls {
        zero_bit_is_a_null(bitmap);
    }
}

/// What the server made of an array agrees with its header exactly where there is a datum and
/// a flag per element and each flag is the opposite of the element's bit, or unset where the
/// array has no bitmap.
pub proof fn parts_agree_with_the_bitmap<'a, T, R>(
    raw: RawArray<'a, T>,
    parts: Deconstructed<'a, R>,
)
    ensures
        raw.agrees_with(parts) <==> {
            &&& parts.datums@.len() == raw.len
            &&& parts.nulls@.len() == raw.len
            &&& match raw.nulls {
                Some(bitmap) => raw.len <= bitmap@.len() && forall|i: int|
                    0 <= i < raw.len ==> #[trigger] parts.nulls@[i] == !bitmap@[i],
                None => forall|i: int| 0 <= i < raw.len ==> !#[trigger] parts.nulls@[i],
            }
        },
{
    if raw.agrees_with(parts) {
        if let Some(bitmap) = raw.nulls {
            if raw.len > 0 {
                assert(raw.null_kind().null_at(raw.len - 1) == Some(parts.nulls@[raw.len - 1]));
            }
            assert forall|i: int| 0 <= i < raw.len implies #[trigger] parts.nulls@[i]
                == !bitmap@[i] by {
                assert(raw.null_kind().null_at(i) == Some(parts.nulls@[i]));
            }
        }
    }
}

/// The layouts agree exactly where the sizes are equal and the letter stands for the
/// alignment. Arrays are then read as slots where a value of one, two or four bytes is passed
/// in the datum, and seen as slices where the size is one of these or that of a datum.
pub proof fn layouts_agree_on_size_and_alignment<T>(layout: Layout)
    ensures
        layout.agrees::<T>() <==> {
            &&& layout.typlen == size_of::<T>()
            &&& {
                ||| layout.typalign == 'c' && align_of::<T>() == 1
                ||| layout.typalign == 's' && align_of::<T>() == 2
                ||| layout.typalign == 'i' && align_of::<T>() == 4
                ||| layout.typalign == 'd' && align_of::<T>() == 8
            }
        },
        layout.in_slots::<T>() <==> {
            &&& layout.agrees::<T>()
            &&& layout.pass is Value
            &&& set![1nat, 2nat, 4nat].contains(size_of::<T>())
        },
        layout.in_slice::<T>() <==> {
            &&& layout.agrees::<T>()
            &&& set![1nat, 2nat, 4nat, size_of::<usize>()].contains(size_of::<T>())
        },
        layout.in_slots::<T>() ==> layout.in_slice::<T>(),
{
}

/// An array of small values passed in the datum is made without the server taking it apart,
/// and is read from its data area: it holds the raw array's slots, no datums, and nothing to
/// free. Its length, NULLs and address are the raw array's and the ones given.
pub proof fn array_of_small_values_holds_slots<'a, T: FromDatum<'a>>(
    ptr: usize,
    raw: RawArray<'a, T>,
    layout: Layout,
    parts: Option<Deconstructed<'a, T::Referent>>,
)
    requires
        layout.typlen == size_of::<T>(),
        layout.typlen == 1 || layout.typlen == 2 || layout.typlen == 4,
        layout.typalign == 'c' && align_of::<T>() == 1 || layout.typalign == 's' && align_of::<T>()
            == 2 || layout.typalign == 'i' && align_of::<T>() == 4 || layout.typalign == 'd'
            && align_of::<T>() == 8,
        layout.pass is Value,
    ensures
        makes_array(raw, layout, parts),
        ({
            let array = made_array(ptr, raw, layout, parts);
            &&& array.slots == Some(raw.data@)
            &&& array.datums is None
            &&& array.datum_palloc is None
            &&& array.raw == Some(raw)
            &&& array.nelems == raw.len
            &&& array.ptr == ptr
            &&& array.layout == layout
            &&& raw.nulls matches Some(bitmap) ==> array.nulls == NullKind::Bits(bitmap)
            &&& raw.nulls is None ==> array.nulls == NullKind::<'a>::Strict(raw.len)
        }),
{
}

/// Any other array is made of the datums that the server gave, one per element, and holds
/// those and their allocation, where it has one, and no slots. Its length, NULLs and address
/// are the raw array's and the ones given.
pub proof fn array_of_other_values_holds_datums<'a, T: FromDatum<'a>>(
    ptr: usize,
    raw: RawArray<'a, T>,
    layout: Layout,
    parts: Deconstructed<'a, T::Referent>,
)
    requires
        layout.typlen != size_of::<T>() || !(layout.typlen == 1 || layout.typlen == 2
            || layout.typlen == 4) || layout.pass is Ref || !(layout.typalign == 'c' && align_of::<
            T,
        >() == 1 || layout.typalign == 's' && align_of::<T>() == 2 || layout.typalign == 'i'
            && align_of::<T>() == 4 || layout.typalign == 'd' && align_of::<T>() == 8),
    ensures
        !makes_array(raw, layout, None::<Deconstructed<'a, T::Referent>>),
        makes_array(raw, layout, Some(parts)) <==> parts.datums@.len() == raw.len,
        ({
            let array = made_array(ptr, raw, layout, Some(parts));
            &&& array.datums == Some(parts.datums@)
            &&& array.slots is None
            &&& array.datum_palloc == if parts.elements == 0 {
                None
            } else {
                Some(parts.elements)
            }
            &&& array.raw == Some(raw)
            &&& array.nelems == raw.len
            &&& array.ptr == ptr
            &&& array.layout == layout
            &&& raw.nulls matches Some(bitmap) ==> array.nulls == NullKind::Bits(bitmap)
            &&& raw.nulls is None ==> array.nulls == NullKind::<'a>::Strict(raw.len)
        }),
{
}

/// An array that is made of a properly constructed raw array is well formed, and a well-formed
/// array has its raw array's length and bitmap, and slots or datums for it, never both.
pub proof fn well_formed_array_mirrors_its_raw_array<'a, T: FromDatum<'a>>(
    array: ArrayView<'a, T>,
)
    requires
        array.well_formed(),
    ensures
        array.raw matches Some(raw) && {
            &&& array.nelems == raw.len
            &&& raw.nulls matches Some(bitmap) ==> {
                &&& array.nulls == NullKind::Bits(bitmap)
                &&& bitmap@.len() == raw.len
            }
            &&& raw.nulls is None ==> array.nulls == NullKind::<'a>::Strict(raw.len)
            &&& array.slots is Some <==> array.datums is None
            &&& array.slots matches Some(slots) ==> slots == raw.data@ && array.datum_palloc is None
            &&& array.datums matches Some(datums) ==> datums.len() == raw.len
        },
{
}

/// Reading an array of slots that has a bitmap: nothing where there is no bit, no value where
/// the bit is zero, and where it is one the slot whose number is that of the ones before it.
/// The array can be read there exactly where it has that slot and `T` is copied out of slots.
pub proof fn slots_are_read_by_the_bitmap<'a, T: FromDatum<'a>>(
    array: ArrayView<'a, T>,
    bitmap: NullBitmap<'a>,
    slots: Seq<T>,
    i: int,
    value: Option<Option<T>>,
)
    requires
        array.nulls == NullKind::Bits(bitmap),
        array.datums is None,
        array.slots == Some(slots),
    ensures
        !(0 <= i < bitmap@.len()) ==> {
            &&& array.locates(i)
            &&& array.reads(i)
            &&& array.gives(i, value) <==> value is None
        },
        0 <= i < bitmap@.len() && !bitmap@[i] ==> {
            &&& array.locates(i)
            &&& array.reads(i)
            &&& array.element_reads(i)
            &&& array.gives(i, value) <==> value == Some(None::<T>)
        },
        0 <= i < bitmap@.len() && bitmap@[i] ==> {
            let slot = bitmap@.take(i).to_multiset().count(true);
            &&& array.locates(i) <==> slot < slots.len()
            &&& array.reads(i) <==> slot < slots.len() && T::slotted()
            &&& array.element_reads(i) <==> slot < slots.len() && T::slotted()
            &&& array.gives(i, value) <==> value == Some(Some(slots[slot as int]))
        },
{
    if 0 <= i < bitmap@.len() {
        slots_are_counted_by_ones(bitmap, i);
    }
}

/// Reading an array of slots that has no bitmap: the slot at the position, which is never
/// NULL, and nothing past the end.
pub proof fn slots_are_read_by_position<'a, T: FromDatum<'a>>(
    array: ArrayView<'a, T>,
    len: usize,
    slots: Seq<T>,
    i: int,
    value: Option<Option<T>>,
)
    requires
        array.nulls == NullKind::<'a>::Strict(len),
        array.datums is None,
        array.slots == Some(slots),
    ensures
        !(0 <= i <= len) ==> {
            &&& array.locates(i)
            &&& array.reads(i)
            &&& array.gives(i, value) <==> value is None
        },
        0 <= i <= len ==> {
            &&& array.locates(i) <==> i < slots.len()
            &&& array.reads(i) <==> i < slots.len() && T::slotted()
            &&& array.element_reads(i) <==> i < slots.len() && T::slotted()
            &&& array.gives(i, value) <==> value == Some(Some(slots[i]))
        },
{
    if 0 <= i <= len {
        strict_slots_are_positions(len, i);
    }
}

/// Reading an array of datums that has a bitmap: what `T` makes of the datum at the position,
/// taken for a NULL exactly where the bit is zero, with the raw array's element type; and
/// nothing where there is no bit.
pub proof fn datums_are_read_by_the_bitmap<'a, T: FromDatum<'a>>(
    array: ArrayView<'a, T>,
    raw: RawArray<'a, T>,
    bitmap: NullBitmap<'a>,
    datums: Seq<Datum<'a, T::Referent>>,
    i: int,
    value: Option<T>,
)
    requires
        array.nulls == NullKind::Bits(bitmap),
        array.datums == Some(datums),
        array.raw == Some(raw),
    ensures
        !(0 <= i < bitmap@.len()) ==> {
            &&& array.locates(i)
            &&& array.reads(i)
            &&& array.gives(i, None)
            &&& !array.gives(i, Some(value))
        },
        0 <= i < bitmap@.len() ==> {
            &&& array.locates(i) <==> i < datums.len()
            &&& array.reads(i) <==> i < datums.len() && T::accepts(datums[i], !bitmap@[i], raw.oid)
            &&& array.element_reads(i) <==> array.reads(i)
            &&& !array.gives(i, None)
            &&& array.gives(i, Some(value)) <==> T::converts(
                datums[i],
                !bitmap@[i],
                raw.oid,
                value,
            )
        },
{
}

/// Reading an array of datums that has no bitmap: what `T` makes of the datum at the position,
/// never taken for a NULL, with the raw array's element type; and nothing past the end.
pub proof fn datums_are_read_by_position<'a, T: FromDatum<'a>>(
    array: ArrayView<'a, T>,
    raw: RawArray<'a, T>,
    len: usize,
    datums: Seq<Datum<'a, T::Referent>>,
    i: int,
    value: Option<T>,
)
    requires
        array.nulls == NullKind::<'a>::Strict(len),
        array.datums == Some(datums),
        array.raw == Some(raw),
    ensures
        !(0 <= i <= len) ==> {
            &&& array.locates(i)
            &&& array.reads(i)
            &&& array.gives(i, None)
            &&& !array.gives(i, Some(value))
        },
        0 <= i <= len ==> {
            &&& array.locates(i) <==> i < datums.len()
            &&& array.reads(i) <==> i < datums.len() && T::accepts(datums[i], false, raw.oid)
            &&& array.element_reads(i) <==> array.reads(i)
            &&& !array.gives(i, None)
            &&& array.gives(i, Some(value)) <==> T::converts(datums[i], false, raw.oid, value)
        },
{
}

/// An array of datums that has lost its raw array gives no value for any element: nothing is
/// left to tell the element type by. It still tells positions without an element from others.
pub proof fn datums_without_a_raw_array_give_no_value<'a, T: FromDatum<'a>>(
    array: ArrayView<'a, T>,
    datums: Seq<Datum<'a, T::Referent>>,
    i: int,
    value: Option<Option<T>>,
)
    requires
        array.datums == Some(datums),
        array.raw is None,
    ensures
        match array.nulls {
            NullKind::Bits(bitmap) => array.gives(i, value) <==> value == if 0 <= i
                < bitmap@.len() {
                Some(None::<T>)
            } else {
                None
            },
            NullKind::Strict(len) => array.gives(i, value) <==> value == if 0 <= i <= len {
                Some(None::<T>)
            } else {
                None
            },
        },
        0 <= i < datums.len() ==> array.locates(i) && array.reads(i),
{
}

/// An element has a value for sure where it can be read and no reading of it comes to nothing;
/// it may have one where some reading gives a value.
pub proof fn element_has_a_value_where_reading_gives_one<'a, T: FromDatum<'a>>(
    array: ArrayView<'a, T>,
    i: int,
)
    ensures
        array.element_has_value(i) <==> array.element_reads(i) && !array.gives(i, Some(None)),
        array.may_give_value(i) <==> exists|value: T| #[trigger] array.gives(i, Some(Some(value))),
{
    if array.element_reads(i) && !array.gives(i, Some(None)) {
        assert forall|value: Option<T>| #[trigger]
            array.gives(i, Some(value)) implies value is Some by {
            if value is None {
                assert(value == None::<T>);
            }
        }
    }
}

/// An array without NULLs, whose elements have the size and alignment of `T`, is seen as a
/// slice where the size is one, two, four, or that of a datum. The slice is as long as the
/// array and holds the slots of its data area in order.
pub proof fn slice_is_granted_by_size_and_alignment<'a, T: FromDatum<'a>>(
    array: ArrayView<'a, T>,
    raw: RawArray<'a, T>,
    i: int,
)
    requires
        array.raw == Some(raw),
        array.nulls matches NullKind::Bits(bitmap) ==> !bitmap@.contains(false),
        array.layout.typlen == size_of::<T>(),
        array.layout.typalign == 'c' && align_of::<T>() == 1 || array.layout.typalign == 's'
            && align_of::<T>() == 2 || array.layout.typalign == 'i' && align_of::<T>() == 4
            || array.layout.typalign == 'd' && align_of::<T>() == 8,
        size_of::<T>() == 1 || size_of::<T>() == 2 || size_of::<T>() == 4 || size_of::<T>()
            == size_of::<usize>(),
    ensures
        array.slice_denial() is None,
        raw.len <= raw.data@.len() ==> array.slice().len() == raw.len,
        0 <= i < raw.len <= raw.data@.len() ==> array.slice()[i] == raw.data@[i],
{
    if let NullKind::Bits(bitmap) = array.nulls {
        zero_bit_is_a_null(bitmap);
    }
}

/// An array is denied as a slice because of its NULLs exactly where a bit of its bitmap is
/// zero. Of the others it is denied where it has lost its raw array or where size or alignment
/// differ from those of `T` or no slices of that size are given.
pub proof fn slice_is_denied_for_nulls_and_layout<'a, T: FromDatum<'a>>(array: ArrayView<'a, T>)
    ensures
        array.slice_denial() == Some(SliceDenial::NullDetected) <==> (array.nulls matches
            NullKind::Bits(bitmap) && bitmap@.contains(false)),
        array.raw is None || array.layout.typlen != size_of::<T>() || !(size_of::<T>() == 1
            || size_of::<T>() == 2 || size_of::<T>() == 4 || size_of::<T>() == size_of::<usize>())
            || !(array.layout.typalign == 'c' && align_of::<T>() == 1 || array.layout.typalign
            == 's' && align_of::<T>() == 2 || array.layout.typalign == 'i' && align_of::<T>() == 4
            || array.layout.typalign == 'd' && align_of::<T>() == 8) ==> array.slice_denial()
            is Some,
{
    if let NullKind::Bits(bitmap) = array.nulls {
        zero_bit_is_a_null(bitmap);
    }
}

/// A walk over values is denied exactly where the array has lost its raw array or that has a
/// zero in its bitmap, and each with its own reason.
pub proof fn walk_is_denied_for_nulls<'a, T: FromDatum<'a>>(array: ArrayView<'a, T>)
    ensures
        match array.raw {
            None => array.walk_denial() == Some(WalkDenial::ArrayIsNull),
            Some(raw) => if raw.nulls matches Some(bitmap) && bitmap@.contains(false) {
                array.walk_denial() == Some(WalkDenial::ContainsNull)
            } else {
                array.walk_denial() is None
            },
        },
{
    if let Some(raw) = array.raw {
        raw_array_tells_its_nulls(raw, 0);
    }
}

/// What an array frees: nothing without datums of its own; with them their allocation first,
/// and behind it the raw array exactly where that lies at another address than the one the
/// array came in by. Afterwards it has neither the allocation nor, if it had one, the raw
/// array, and all else is as before.
pub proof fn array_frees_its_datums_and_its_copy<'a, T: FromDatum<'a>>(array: ArrayView<'a, T>)
    ensures
        array.datum_palloc is None ==> array.owned().len() == 0 && array.released() == array,
        array.datum_palloc matches Some(data) ==> {
            &&& array.owned().len() == if array.raw matches Some(raw) && raw.ptr != array.ptr {
                2nat
            } else {
                1nat
            }
            &&& array.owned()[0] == data
            &&& array.raw matches Some(raw) ==> (raw.ptr != array.ptr ==> array.owned()[1]
                == raw.ptr)
            &&& array.released().raw is None
        },
        array.released().datum_palloc is None,
        array.released().ptr == array.ptr,
        array.released().nelems == array.nelems,
        array.released().datums == array.datums,
        array.released().slots == array.slots,
        array.released().nulls == array.nulls,
        array.released().layout == array.layout,
        array.released().owned().len() == 0,
{
}

/// A walk from an array's start comes to the array's elements one by one: its step number `k`
/// gives what reading position `k` gives, and from the array's end on it gives nothing and
/// stays there.
pub proof fn walk_meets_each_position_once<'a, T: FromDatum<'a>>(
    walks: Seq<WalkView<'a, T>>,
    k: int,
    item: Option<Option<T>>,
)
    requires
        0 <= k < walks.len(),
        walks[0].curr == 0,
        forall|j: int| 0 <= j < walks.len() - 1 ==> walks[j + 1] == #[trigger] walks[j].stepped(),
    ensures
        walks[k].array == walks[0].array,
        k < walks[0].array.nelems ==> {
            &&& !walks[k].done()
            &&& walks[k].curr == k
            &&& walks[k].steps_to(item) <==> item is Some && walks[0].array.gives(k, item)
            &&& walks[k].finds() <==> walks[0].array.nulls.null_at(k) is Some
                && walks[0].array.locates(k)
        },
        k >= walks[0].array.nelems ==> {
            &&& walks[k].done()
            &&& walks[k].curr == walks[0].array.nelems
            &&& walks[k].steps_to(item) <==> item is None
            &&& walks[k].finds()
            &&& walks[k].stepped() == walks[k]
        },
    decreases k,
{
    if k > 0 {
        walk_meets_each_position_once(walks, k - 1, item);
        assert(walks[k - 1 + 1] == walks[k - 1].stepped());
    }
}

/// A datum stands for an array exactly where it is no NULL and not the null address; it refers
/// to one that can be made where what it refers to has an address and is read as slots or comes
/// with a datum per element. The array is made of just these parts, with the datum's word as
/// the address that it came in by.
pub proof fn array_datum_refers_to_its_parts<'a, T: FromDatum<'a>>(
    datum: Datum<'a, ArrayReferent<'a, T>>,
    is_null: bool,
    at: ArrayReferent<'a, T>,
)
    requires
        datum.referent == Some(&at),
    ensures
        stands(datum, is_null) <==> !is_null && datum.word != 0,
        refers(datum) <==> at.raw.ptr != 0 && (at.elem_layout.in_slots::<T>() || (at.parts matches
            Some(parts) && parts.datums@.len() == at.raw.len)),
        array_at(datum) == made_array(datum.word, at.raw, at.elem_layout, at.parts),
{
}

/// The datum of an array always converts to it, both as an array and as a variadic one: the
/// array has the raw array's length, its NULLs are those of the bitmap, and it holds the slots
/// of the data area or the datums that the server gave.
pub proof fn array_datum_converts_to_its_array<'a, T: FromDatum<'a>>(
    datum: Datum<'a, ArrayReferent<'a, T>>,
    typoid: u32,
    at: ArrayReferent<'a, T>,
    value: Option<Array<'a, T>>,
    variadic: Option<VariadicArray<'a, T>>,
)
    requires
        datum.word != 0,
        datum.referent == Some(&at),
        at.raw.ptr != 0,
        at.elem_layout.in_slots::<T>() || (at.parts matches Some(parts) && parts.datums@.len()
            == at.raw.len),
    ensures
        Array::<'a, T>::accepts(datum, false, typoid),
        VariadicArray::<'a, T>::accepts(datum, false, typoid),
        Array::<'a, T>::converts(datum, false, typoid, value) ==> (value matches Some(array) && {
            &&& array@.ptr == datum.word
            &&& array@.raw == Some(at.raw)
            &&& array@.nelems == at.raw.len
            &&& array@.layout == at.elem_layout
            &&& array@.nulls == match at.raw.nulls {
                Some(bitmap) => NullKind::Bits(bitmap),
                None => NullKind::<'a>::Strict(at.raw.len),
            }
            &&& at.elem_layout.in_slots::<T>() ==> {
                &&& array@.slots == Some(at.raw.data@)
                &&& array@.datums is None
                &&& array@.datum_palloc is None
            }
            &&& !at.elem_layout.in_slots::<T>() ==> {
                &&& array@.slots is None
                &&& array@.datums == Some(at.parts.unwrap().datums@)
                &&& at.parts.unwrap().elements == 0 ==> array@.datum_palloc is None
                &&& at.parts.unwrap().elements != 0 ==> array@.datum_palloc == Some(
                    at.parts.unwrap().elements,
                )
            }
        }),
        VariadicArray::<'a, T>::converts(datum, false, typoid, variadic) ==> (variadic matches
            Some(array) && {
            &&& array@.ptr == datum.word
            &&& array@.raw == Some(at.raw)
            &&& array@.nelems == at.raw.len
            &&& array@.layout == at.elem_layout
            &&& array@.nulls == match at.raw.nulls {
                Some(bitmap) => NullKind::Bits(bitmap),
                None => NullKind::<'a>::Strict(at.raw.len),
            }
            &&& at.elem_layout.in_slots::<T>() ==> {
                &&& array@.slots == Some(at.raw.data@)
                &&& array@.datums is None
                &&& array@.datum_palloc is None
            }
            &&& !at.elem_layout.in_slots::<T>() ==> {
                &&& array@.slots is None
                &&& array@.datums == Some(at.parts.unwrap().datums@)
                &&& at.parts.unwrap().elements == 0 ==> array@.datum_palloc is None
                &&& at.parts.unwrap().elements != 0 ==> array@.datum_palloc == Some(
                    at.parts.unwrap().elements,
                )
            }
        }),
{
}

/// A NULL converts to nothing, whatever is asked for. So does the null address, except that it
/// may not be converted to a vector of plain values.
pub proof fn absent_array_converts_to_nothing<'a, T: FromDatum<'a>>(
    datum: Datum<'a, ArrayReferent<'a, T>>,
    is_null: bool,
    typoid: u32,
    value: Option<Array<'a, T>>,
    variadic: Option<VariadicArray<'a, T>>,
    elements: Option<Vec<Option<T>>>,
    vector: Option<Vec<T>>,
)
    requires
        is_null || datum.word == 0,
    ensures
        Array::<'a, T>::accepts(datum, is_null, typoid),
        VariadicArray::<'a, T>::accepts(datum, is_null, typoid),
        Vec::<Option<T>>::accepts(datum, is_null, typoid),
        Vec::<T>::accepts(datum, is_null, typoid) <==> is_null,
        Array::<'a, T>::converts(datum, is_null, typoid, value) <==> value is None,
        VariadicArray::<'a, T>::converts(datum, is_null, typoid, variadic) <==> variadic is None,
        Vec::<Option<T>>::converts(datum, is_null, typoid, elements) <==> elements is None,
        is_null ==> (Vec::<T>::converts(datum, is_null, typoid, vector) <==> vector is None),
{
}

/// The datum of an array of slots without a bitmap converts to a vector of exactly its slots,
/// as plain values and as elements of which none is NULL.
pub proof fn slots_convert_to_a_vector<'a, T: FromDatum<'a>>(
    datum: Datum<'a, ArrayReferent<'a, T>>,
    typoid: u32,
    at: ArrayReferent<'a, T>,
    vector: Option<Vec<T>>,
    elements: Option<Vec<Option<T>>>,
    i: int,
)
    requires
        datum.word != 0,
        datum.referent == Some(&at),
        at.raw.ptr != 0,
        at.elem_layout.in_slots::<T>(),
        T::slotted(),
        at.raw.nulls is None,
        at.raw.len <= at.raw.data@.len(),
    ensures
        Vec::<T>::accepts(datum, false, typoid),
        Vec::<Option<T>>::accepts(datum, false, typoid),
        Vec::<T>::converts(datum, false, typoid, vector) ==> (vector matches Some(values)
            && values@ == at.raw.data@.take(at.raw.len as int)),
        Vec::<Option<T>>::converts(datum, false, typoid, elements) ==> (elements matches Some(
            values,
        ) && {
            &&& values@.len() == at.raw.len
            &&& 0 <= i < at.raw.len ==> values@[i] == Some(at.raw.data@[i])
        }),
{
    let array = array_at(datum);
    assert forall|j: int| 0 <= j < array.nelems implies #[trigger] array.element_has_value(j) by {
        slots_are_read_by_position(array, at.raw.len, at.raw.data@, j, Some(None));
        element_has_a_value_where_reading_gives_one(array, j);
    }
    assert forall|j: int| 0 <= j < array.nelems implies #[trigger] array.element_reads(j) by {
        assert(array.element_has_value(j));
    }
    if let Some(values) = vector {
        if Vec::<T>::converts(datum, false, typoid, vector) {
            assert forall|j: int| 0 <= j < values@.len() implies values@[j] == at.raw.data@[j] by {
                assert(array.gives(j, Some(Some(values@[j]))));
                slots_are_read_by_position(
                    array,
                    at.raw.len,
                    at.raw.data@,
                    j,
                    Some(Some(values@[j])),
                );
            }
            assert(values@ =~= at.raw.data@.take(at.raw.len as int));
        }
    }
    if let Some(values) = elements {
        if Vec::<Option<T>>::converts(datum, false, typoid, elements) && 0 <= i < at.raw.len {
            assert(array.gives(i, Some(values@[i])));
            slots_are_read_by_position(array, at.raw.len, at.raw.data@, i, Some(values@[i]));
        }
    }
}

/// The datum of an array of slots with a bitmap converts to a vector of its elements: no value
/// for a zero, and for a one the slot whose number is that of the ones before it. It takes a
/// slot per one. To a vector of plain values it may be converted exactly where no bit is zero.
pub proof fn slots_and_nulls_convert_to_a_vector<'a, T: FromDatum<'a>>(
    datum: Datum<'a, ArrayReferent<'a, T>>,
    typoid: u32,
    at: ArrayReferent<'a, T>,
    bitmap: NullBitmap<'a>,
    vector: Option<Vec<T>>,
    elements: Option<Vec<Option<T>>>,
    i: int,
)
    requires
        datum.word != 0,
        datum.referent == Some(&at),
        at.raw.ptr != 0,
        at.elem_layout.in_slots::<T>(),
        T::slotted(),
        at.raw.nulls == Some(bitmap),
        bitmap@.len() == at.raw.len,
        bitmap@.to_multiset().count(true) <= at.raw.data@.len(),
    ensures
        Vec::<Option<T>>::accepts(datum, false, typoid),
        Vec::<T>::accepts(datum, false, typoid) <==> !bitmap@.contains(false),
        Vec::<Option<T>>::converts(datum, false, typoid, elements) ==> (elements matches Some(
            values,
        ) && {
            &&& values@.len() == at.raw.len
            &&& 0 <= i < at.raw.len ==> values@[i] == if bitmap@[i] {
                Some(at.raw.data@[bitmap@.take(i).to_multiset().count(true) as int])
            } else {
                None
            }
        }),
        Vec::<T>::converts(datum, false, typoid, vector) ==> (vector matches Some(values) && {
            &&& values@.len() == at.raw.len
            &&& 0 <= i < at.raw.len ==> {
                &&& bitmap@[i]
                &&& values@[i]
                    == at.raw.data@[bitmap@.take(i).to_multiset().count(true) as int]
            }
        }),
{
    let array = array_at(datum);
    let slots = at.raw.data@;
    assert(bitmap@.take(bitmap@.len() as int) =~= bitmap@);
    slots_are_counted_by_ones(bitmap, bitmap@.len() as int);
    assert forall|j: int| 0 <= j < array.nelems implies #[trigger] array.element_reads(j) by {
        slots_are_read_by_the_bitmap(array, bitmap, slots, j, None);
        if bitmap@[j] {
            present_position_has_a_slot(array.nulls, j, bitmap@.len() as int);
            slots_are_counted_by_ones(bitmap, j);
        }
    }
    if !bitmap@.contains(false) {
        assert forall|j: int|
            0 <= j < array.nelems implies #[trigger] array.element_has_value(j) by {
            assert(bitmap@[j]) by {
                if !bitmap@[j] {
                    assert(bitmap@.contains(false));
                }
            }
            assert(array.element_reads(j));
            slots_are_read_by_the_bitmap(array, bitmap, slots, j, Some(None));
            element_has_a_value_where_reading_gives_one(array, j);
        }
    } else if Vec::<T>::accepts(datum, false, typoid) {
        let j = choose|j: int| 0 <= j < bitmap@.len() && bitmap@[j] == false;
        assert(array.element_has_value(j));
        slots_are_read_by_the_bitmap(array, bitmap, slots, j, Some(None));
    }
    if let Some(values) = elements {
        if Vec::<Option<T>>::converts(datum, false, typoid, elements) && 0 <= i < at.raw.len {
            assert(array.gives(i, Some(values@[i])));
            slots_are_read_by_the_bitmap(array, bitmap, slots, i, Some(values@[i]));
        }
    }
    if let Some(values) = vector {
        if Vec::<T>::converts(datum, false, typoid, vector) && 0 <= i < at.raw.len {
            assert(array.gives(i, Some(Some(values@[i]))));
            slots_are_read_by_the_bitmap(array, bitmap, slots, i, Some(Some(values@[i])));
        }
    }
}

/// The datum of an array of datums converts to a vector with an element for each: what `T`
/// makes of the datum, taken for a NULL exactly where the array has a bitmap and the bit in it
/// is zero. It may be converted where `T` takes each datum so, and to plain values where none
/// of them can come to nothing.
pub proof fn datums_convert_to_a_vector<'a, T: FromDatum<'a>>(
    datum: Datum<'a, ArrayReferent<'a, T>>,
    typoid: u32,
    at: ArrayReferent<'a, T>,
    parts: Deconstructed<'a, T::Referent>,
    flags: Seq<bool>,
    vector: Option<Vec<T>>,
    elements: Option<Vec<Option<T>>>,
    i: int,
)
    requires
        datum.word != 0,
        datum.referent == Some(&at),
        at.raw.ptr != 0,
        !at.elem_layout.in_slots::<T>(),
        at.parts == Some(parts),
        parts.datums@.len() == at.raw.len,
        flags.len() == at.raw.len,
        at.raw.nulls matches Some(bitmap) ==> bitmap@.len() == at.raw.len && forall|j: int|
            0 <= j < flags.len() ==> #[trigger] flags[j] == !bitmap@[j],
        at.raw.nulls is None ==> forall|j: int| 0 <= j < flags.len() ==> !#[trigger] flags[j],
        forall|j: int|
            0 <= j < flags.len() ==> T::accepts(
                parts.datums@[j],
                #[trigger] flags[j],
                at.raw.oid,
            ),
    ensures
        Vec::<Option<T>>::accepts(datum, false, typoid),
        (forall|j: int|
            0 <= j < flags.len() ==> !T::converts(
                parts.datums@[j],
                #[trigger] flags[j],
                at.raw.oid,
                None,
            )) ==> Vec::<T>::accepts(datum, false, typoid),
        Vec::<Option<T>>::converts(datum, false, typoid, elements) ==> (elements matches Some(
            values,
        ) && {
            &&& values@.len() == at.raw.len
            &&& 0 <= i < at.raw.len ==> T::converts(
                parts.datums@[i],
                flags[i],
                at.raw.oid,
                values@[i],
            )
        }),
        Vec::<T>::converts(datum, false, typoid, vector) ==> (vector matches Some(values) && {
            &&& values@.len() == at.raw.len
            &&& 0 <= i < at.raw.len ==> T::converts(
                parts.datums@[i],
                flags[i],
                at.raw.oid,
                Some(values@[i]),
            )
        }),
{
    let array = array_at(datum);
    assert forall|j: int| 0 <= j < array.nelems implies #[trigger] array.element_reads(j) by {
        assert(T::accepts(parts.datums@[j], flags[j], at.raw.oid));
    }
    if forall|j: int|
        0 <= j < flags.len() ==> !T::converts(
            parts.datums@[j],
            #[trigger] flags[j],
            at.raw.oid,
            None,
        ) {
        assert forall|j: int|
            0 <= j < array.nelems implies #[trigger] array.element_has_value(j) by {
            assert(array.element_reads(j));
            assert(!T::converts(parts.datums@[j], flags[j], at.raw.oid, None));
            element_has_a_value_where_reading_gives_one(array, j);
        }
    }
    if let Some(values) = elements {
        if Vec::<Option<T>>::converts(datum, false, typoid, elements) && 0 <= i < at.raw.len {
            assert(array.gives(i, Some(values@[i])));
            assert(flags[i] == (array.nulls.null_at(i) == Some(true)));
        }
    }
    if let Some(values) = vector {
        if Vec::<T>::converts(datum, false, typoid, vector) && 0 <= i < at.raw.len {
            assert(array.gives(i, Some(Some(values@[i]))));
            assert(flags[i] == (array.nulls.null_at(i) == Some(true)));
        }
    }
}

/// A builder that starts with some values asks the server to add each of them, in order, from
/// the first on: turn number `k` adds what the conversion of value `k` gives, a zero word
/// flagged as NULL where it gives none, with the state at hand and the element type. From then
/// on it asks for the array, or gives up where there is no state.
pub proof fn builder_adds_each_value_in_order<T: IntoDatum>(
    element_type: u32,
    values: Seq<T>,
    turns: Seq<BuilderView>,
    k: int,
    state: usize,
)
    requires
        0 <= k < turns.len(),
        turns[0].starts(element_type, values),
        forall|j: int| 0 <= j < turns.len() - 1 ==> turns[j + 1] == #[trigger] turns[j].stepped(),
    ensures
        turns[0].added == 0,
        turns[0].elements.len() == values.len(),
        turns[k].element_type == element_type,
        k < values.len() ==> exists|word: Option<usize>| #[trigger]
            values[k].produces(word) && turns[k].step(state) == (BuildStep::Accumulate {
                state,
                element: Element {
                    word: match word {
                        Some(w) => w,
                        None => 0,
                    },
                    is_null: word is None,
                },
                element_type,
            }),
        k >= values.len() ==> turns[k].step(state) == if state == 0 {
            BuildStep::GiveUp
        } else {
            BuildStep::Make { state }
        },
{
    lemma_turns(turns, k);
    if k < values.len() {
        let value = values[k];
        assert(crate::builder::becomes(value, turns[0].elements[k]));
        let word = choose|word: Option<usize>| #[trigger]
            value.produces(word) && turns[0].elements[k] == crate::builder::element_of(word);
        assert(values[k].produces(word));
    }
}

proof fn lemma_turns(turns: Seq<BuilderView>, k: int)
    requires
        0 <= k < turns.len(),
        turns[0].added == 0,
        forall|j: int| 0 <= j < turns.len() - 1 ==> turns[j + 1] == #[trigger] turns[j].stepped(),
    ensures
        turns[k].elements == turns[0].elements,
        turns[k].element_type == turns[0].element_type,
        turns[k].added == if k < turns[0].elements.len() {
            k
        } else {
            turns[0].elements.len() as int
        },
    decreases k,
{
    if k > 0 {
        lemma_turns(turns, k - 1);
        assert(turns[k - 1 + 1] == turns[k - 1].stepped());
    }
}

/// An array over a type written as some text is written as that text, letter for letter, with
/// an opening and a closing bracket behind it.
pub proof fn array_text_is_the_element_text_and_brackets(
    sql: String,
    argument: Result<SqlMapping, ArgumentError>,
    returned: Result<Returns, ReturnsError>,
    i: int,
)
    ensures
        array_argument(Ok(SqlMapping::As(sql)), argument) ==> (argument matches Ok(
            SqlMapping::As(text),
        ) && {
            &&& text@.len() == sql@.len() + 2
            &&& 0 <= i < sql@.len() ==> text@[i] == sql@[i]
            &&& text@[sql@.len() as int] == '['
            &&& text@.last() == ']'
        }),
        array_return(Ok(Returns::One(SqlMapping::As(sql))), returned) ==> (returned matches Ok(
            Returns::One(SqlMapping::As(text)),
        ) && {
            &&& text@.len() == sql@.len() + 2
            &&& 0 <= i < sql@.len() ==> text@[i] == sql@[i]
            &&& text@[sql@.len() as int] == '['
            &&& text@.last() == ']'
        }),
{
    reveal_strlit("[]");
}

/// An array over a type whose text is given elsewhere is of the same kind with its mark for
/// brackets set; over a type that is not written, over a set and over a table there is no
/// array, each for its own reason; and a reason that the element type gives is handed on.
pub proof fn array_without_text_is_marked_or_refused(
    array_brackets: bool,
    error: ArgumentError,
    fault: ReturnsError,
    mapping: SqlMapping,
    columns: Vec<SqlMapping>,
    argument: Result<SqlMapping, ArgumentError>,
    returned: Result<Returns, ReturnsError>,
)
    ensures
        array_argument(Ok(SqlMapping::Composite { array_brackets }), argument) <==> argument == Ok::<
            _,
            ArgumentError,
        >(SqlMapping::Composite { array_brackets: true }),
        array_argument(Ok(SqlMapping::Source { array_brackets }), argument) <==> argument == Ok::<
            _,
            ArgumentError,
        >(SqlMapping::Source { array_brackets: true }),
        array_argument(Ok(SqlMapping::Skip), argument) <==> argument == Err::<SqlMapping, _>(
            ArgumentError::SkipInArray,
        ),
        array_argument(Err(error), argument) <==> argument == Err::<SqlMapping, _>(error),
        array_return(Ok(Returns::One(SqlMapping::Composite { array_brackets })), returned)
            <==> returned == Ok::<_, ReturnsError>(
            Returns::One(SqlMapping::Composite { array_brackets: true }),
        ),
        array_return(Ok(Returns::One(SqlMapping::Source { array_brackets })), returned)
            <==> returned == Ok::<_, ReturnsError>(
            Returns::One(SqlMapping::Source { array_brackets: true }),
        ),
        array_return(Ok(Returns::One(SqlMapping::Skip)), returned) <==> returned == Err::<
            Returns,
            _,
        >(ReturnsError::SkipInArray),
        array_return(Ok(Returns::SetOf(mapping)), returned) <==> returned == Err::<Returns, _>(
            ReturnsError::SetOfInArray,
        ),
        array_return(Ok(Returns::Table(columns)), returned) <==> returned == Err::<Returns, _>(
            ReturnsError::TableInArray,
        ),
        array_return(Err(fault), returned) <==> returned == Err::<Returns, _>(fault),
{
}

/// An array type, variadic or not, is written over what its element type answers: where that
/// has but one answer, the array's answer is the one that belongs to it.
pub proof fn array_type_is_written_over_its_element_type<
    'a,
    T: SqlTranslatable + FromDatum<'a>,
>(
    element: Result<SqlMapping, ArgumentError>,
    argument: Result<SqlMapping, ArgumentError>,
    result: Result<Returns, ReturnsError>,
    returned: Result<Returns, ReturnsError>,
)
    requires
        forall|answer: Result<SqlMapping, ArgumentError>| #[trigger]
            T::argument(answer) ==> answer == element,
        forall|answer: Result<Returns, ReturnsError>| #[trigger]
            T::returned(answer) ==> answer == result,
    ensures
        Array::<'a, T>::argument(argument) ==> T::argument(element) && array_argument(
            element,
            argument,
        ),
        VariadicArray::<'a, T>::argument(argument) ==> T::argument(element) && array_argument(
            element,
            argument,
        ),
        Array::<'a, T>::returned(returned) ==> T::returned(result) && array_return(
            result,
            returned,
        ),
        VariadicArray::<'a, T>::returned(returned) ==> T::returned(result) && array_return(
            result,
            returned,
        ),
{
}

} // verus!
