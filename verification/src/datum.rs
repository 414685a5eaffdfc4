//! Datums, the words by which the server passes values around, and the conversions between
//! them and Rust values.

use vstd::prelude::*;

verus! {

/// A value as the server passes it: a machine word that is either the value itself or the
/// address of one.
pub struct Datum<'a, R> {
    /// The word.
    pub word: usize,
    /// What the word is the address of, where it is one.
    pub referent: Option<&'a R>,
}

impl<'a, R> Clone for Datum<'a, R> {
    fn clone(&self) -> (copy: Self)
        ensures
            copy == *self,
    {
        *self
    }
}

impl<'a, R> Copy for Datum<'a, R> {

}

impl<'a, R> Datum<'a, R> {
    /// Whether the word is the null address.
    pub fn is_null(&self) -> (null: bool)
        ensures
            null == (self.word == 0),
    {
        self.word == 0
    }
}

/// A type that values of the server convert to.
pub trait FromDatum<'a>: Sized + 'a {
    /// What a datum of this type refers to, as far as the conversion reads it.
    type Referent: 'a;

    /// Whether the conversion can be asked for this datum: for any, unless the type says less.
    open spec fn accepts(datum: Datum<'a, Self::Referent>, is_null: bool, typoid: u32) -> bool {
        true
    }

    /// Whether the conversion of this datum may give `value`: anything, unless the type says
    /// more.
    open spec fn converts(
        datum: Datum<'a, Self::Referent>,
        is_null: bool,
        typoid: u32,
        value: Option<Self>,
    ) -> bool {
        true
    }

    /// Whether values of the type are copied out of the slots of an array: of no type, unless
    /// it says so.
    open spec fn slotted() -> bool {
        false
    }

    /// The very value that lies in a slot of an array; `None` for a type whose values never do.
    fn read_slot(slot: &Self) -> (value: Option<Self>)
        ensures
            value matches Some(copy) ==> copy == *slot,
            Self::slotted() ==> value is Some,
    ;

    /// Converts `datum`, a NULL of type `typoid` where `is_null`, a value of it otherwise.
    fn from_polymorphic_datum(
        datum: Datum<'a, Self::Referent>,
        is_null: bool,
        typoid: u32,
    ) -> (value: Option<Self>)
        requires
            Self::accepts(datum, is_null, typoid),
        ensures
            Self::converts(datum, is_null, typoid, value),
    ;
}

/// A type whose values convert to values of the server.
pub trait IntoDatum: Sized {
    /// Whether the conversion of this value may give `word`: any word, unless the type says
    /// more.
    open spec fn produces(self, word: Option<usize>) -> bool {
        true
    }

    /// The word that the server takes for this value; `None` for a NULL.
    fn into_datum(self) -> (word: Option<usize>)
        ensures
            self.produces(word),
    ;
}

} // verus!
