//! Postgres arrays as Rust values.
//!
//! The server keeps an array in one of two forms that this crate reads: packed slots of a
//! fixed size, or, once the server has taken the array apart, one datum per element. Either
//! way the array knows which of its elements are NULL, and hands out each of the others
//! converted to a Rust type.
//!
//! The crate holds what decides and computes. Whatever reaches into the server's memory or
//! calls into the server goes on outside it: values come in as plain words, slices and
//! records, and requests to the server go out as records of the arguments to pass.
pub mod array;
pub mod builder;
pub mod convert;
pub mod datum;
pub mod iter;
pub mod laws;
pub mod layout;
pub mod meaning;
pub mod nulls;
pub mod raw;
pub mod sql;
pub mod variadic;
