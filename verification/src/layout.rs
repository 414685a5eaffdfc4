//! How the server lays out the values of a type.

use vstd::prelude::*;

verus! {

/// How the server passes a value of a type.
#[derive(Clone, Copy, Debug, PartialEq, Eq, Structural)]
pub enum PassBy {
    /// By its address.
    Ref,
    /// In the datum itself.
    Value,
}

/// What the server's catalog says of the layout of a type's values.
#[derive(Clone, Copy, Debug, PartialEq, Eq, Structural)]
pub struct Layout {
    /// The size in bytes, or a negative number where it varies from value to value.
    pub typlen: i16,
    /// The letter that stands for the alignment.
    pub typalign: char,
    /// How a value is passed.
    pub pass: PassBy,
}

/// The alignment in bytes that a letter of the catalog stands for.
pub open spec fn alignment(typalign: char) -> Option<nat> {
    if typalign == 'c' {
        Some(1)
    } else if typalign == 's' {
        Some(2)
    } else if typalign == 'i' {
        Some(4)
    } else if typalign == 'd' {
        Some(8)
    } else {
        None
    }
}

impl Layout {
    /// Whether the server's values and those of the Rust type `T` have one size and one
    /// alignment.
    pub open spec fn agrees<T>(self) -> bool {
        &&& self.typlen == vstd::layout::size_of::<T>()
        &&& alignment(self.typalign) == Some(vstd::layout::align_of::<T>())
    }

    /// Whether arrays of this element type are read as slots of `T`: the layouts agree on a
    /// size of one, two or four bytes, and values are passed in the datum.
    pub open spec fn in_slots<T>(self) -> bool {
        &&& self.agrees::<T>()
        &&& (self.typlen == 1 || self.typlen == 2 || self.typlen == 4)
        &&& self.pass == PassBy::Value
    }

    /// Whether the data of an array of this element type can be seen as a slice of `T`: the
    /// layouts agree on a size of one, two or four bytes, or that of a datum.
    pub open spec fn in_slice<T>(self) -> bool {
        &&& self.agrees::<T>()
        &&& (self.typlen == 1 || self.typlen == 2 || self.typlen == 4 || self.typlen
            == vstd::layout::size_of::<usize>())
    }

    /// The size that the server's layout and that of `T` agree on, if they agree.
    pub fn matches<T>(&self) -> (size: Option<usize>)
        ensures
            size is Some <==> self.agrees::<T>(),
            size matches Some(n) ==> n == self.typlen && n == vstd::layout::size_of::<T>(),
    {
        let size: usize = core::mem::size_of::<T>();
        let align: usize = core::mem::align_of::<T>();
        let expected: usize = match self.typalign {
            'c' => 1,
            's' => 2,
            'i' => 4,
            'd' => 8,
            _ => return None,
        };
        if self.typlen >= 0 && self.typlen as usize == size && align == expected {
            Some(size)
        } else {
            None
        }
    }

    /// Whether arrays of this element type are read as slots of `T`.
    pub fn slots<T>(&self) -> (slots: bool)
        ensures
            slots == self.in_slots::<T>(),
    {
        match (self.matches::<T>(), self.pass) {
            (Some(1 | 2 | 4), PassBy::Value) => true,
            (_, _) => false,
        }
    }

    /// Whether the data of an array of this element type can be seen as a slice of `T`.
    pub fn sliceable<T>(&self) -> (sliceable: bool)
        ensures
            sliceable == self.in_slice::<T>(),
    {
        match self.matches::<T>() {
            Some(size) => size == 1 || size == 2 || size == 4 || size == core::mem::size_of::<
                usize,
            >(),
            None => false,
        }
    }
}

} // verus!
