//! What array types are called in SQL.

use crate::array::Array;
use crate::datum::FromDatum;
use crate::variadic::VariadicArray;
use vstd::prelude::*;
use vstd::string::StringExecFns;

verus! {

/// How a Rust type is written in SQL.
#[derive(Debug, PartialEq, Eq)]
pub enum SqlMapping {
    /// As this text.
    As(String),
    /// As the name of a composite type, which is given elsewhere.
    Composite { array_brackets: bool },
    /// As the source says.
    Source { array_brackets: bool },
    /// Not at all.
    Skip,
}

/// Why a type cannot be that of an argument.
#[derive(Debug, PartialEq, Eq)]
pub enum ArgumentError {
    /// A type that is not written in SQL cannot be that of an array's elements.
    SkipInArray,
    /// Any other reason that the element type gives.
    Other(String),
}

/// What a function of some Rust type returns in SQL.
#[derive(Debug, PartialEq, Eq)]
pub enum Returns {
    /// One value.
    One(SqlMapping),
    /// A set of values.
    SetOf(SqlMapping),
    /// A table of columns.
    Table(Vec<SqlMapping>),
}

/// Why a type cannot be returned.
#[derive(Debug, PartialEq, Eq)]
pub enum ReturnsError {
    /// A type that is not written in SQL cannot be that of an array's elements.
    SkipInArray,
    /// A set cannot be an array's element.
    SetOfInArray,
    /// A table cannot be an array's element.
    TableInArray,
    /// Any other reason that the element type gives.
    Other(String),
}

/// Whether `array` writes the array type over the element type that `element` writes: the
/// text with brackets behind it, or the mark to put them there.
pub open spec fn brackets(element: SqlMapping, array: SqlMapping) -> bool {
    match element {
        SqlMapping::As(sql) => array matches SqlMapping::As(text) && text@ == sql@ + "[]"@,
        SqlMapping::Composite { .. } => array == (SqlMapping::Composite { array_brackets: true }),
        SqlMapping::Source { .. } => array == (SqlMapping::Source { array_brackets: true }),
        SqlMapping::Skip => false,
    }
}

/// Whether an array type answers `array` as an argument where its element type answers
/// `element`.
pub open spec fn array_argument(
    element: Result<SqlMapping, ArgumentError>,
    array: Result<SqlMapping, ArgumentError>,
) -> bool {
    match element {
        Ok(SqlMapping::Skip) => array == Err::<SqlMapping, _>(ArgumentError::SkipInArray),
        Ok(mapping) => array matches Ok(bracketed) && brackets(mapping, bracketed),
        Err(error) => array == Err::<SqlMapping, _>(error),
    }
}

/// Whether an array type answers `array` as a return type where its element type answers
/// `element`.
pub open spec fn array_return(
    element: Result<Returns, ReturnsError>,
    array: Result<Returns, ReturnsError>,
) -> bool {
    match element {
        Ok(Returns::One(SqlMapping::Skip)) => array == Err::<Returns, _>(
            ReturnsError::SkipInArray,
        ),
        Ok(Returns::One(mapping)) => array matches Ok(Returns::One(bracketed)) && brackets(
            mapping,
            bracketed,
        ),
        Ok(Returns::SetOf(_)) => array == Err::<Returns, _>(ReturnsError::SetOfInArray),
        Ok(Returns::Table(_)) => array == Err::<Returns, _>(ReturnsError::TableInArray),
        Err(error) => array == Err::<Returns, _>(error),
    }
}

/// How an array is written as an argument, given how its elements are.
pub fn array_argument_sql(element: Result<SqlMapping, ArgumentError>) -> (array: Result<
    SqlMapping,
    ArgumentError,
>)
    ensures
        array_argument(element, array),
{
    match element {
        Err(error) => Err(error),
        Ok(SqlMapping::As(sql)) => Ok(SqlMapping::As(sql.concat("[]"))),
        Ok(SqlMapping::Skip) => Err(ArgumentError::SkipInArray),
        Ok(SqlMapping::Composite { .. }) => Ok(SqlMapping::Composite { array_brackets: true }),
        Ok(SqlMapping::Source { .. }) => Ok(SqlMapping::Source { array_brackets: true }),
    }
}

/// How an array is written as a return type, given how its elements are.
pub fn array_return_sql(element: Result<Returns, ReturnsError>) -> (array: Result<
    Returns,
    ReturnsError,
>)
    ensures
        array_return(element, array),
{
    match element {
        Err(error) => Err(error),
        Ok(Returns::One(SqlMapping::As(sql))) => Ok(
            Returns::One(SqlMapping::As(sql.concat("[]"))),
        ),
        Ok(Returns::One(SqlMapping::Composite { array_brackets: _ })) => Ok(
            Returns::One(SqlMapping::Composite { array_brackets: true }),
        ),
        Ok(Returns::One(SqlMapping::Source { array_brackets: _ })) => Ok(
            Returns::One(SqlMapping::Source { array_brackets: true }),
        ),
        Ok(Returns::One(SqlMapping::Skip)) => Err(ReturnsError::SkipInArray),
        Ok(Returns::SetOf(_)) => Err(ReturnsError::SetOfInArray),
        Ok(Returns::Table(_)) => Err(ReturnsError::TableInArray),
    }
}

/// A Rust type that can be written in SQL.
pub trait SqlTranslatable {
    /// Whether the type may answer `answer` as an argument: anything, unless it says more.
    open spec fn argument(answer: Result<SqlMapping, ArgumentError>) -> bool {
        true
    }

    /// Whether the type may answer `answer` as a return type: anything, unless it says more.
    open spec fn returned(answer: Result<Returns, ReturnsError>) -> bool {
        true
    }

    /// How the type is written as an argument.
    fn argument_sql() -> (answer: Result<SqlMapping, ArgumentError>)
        ensures
            Self::argument(answer),
    ;

    /// How the type is written as a return type.
    fn return_sql() -> (answer: Result<Returns, ReturnsError>)
        ensures
            Self::returned(answer),
    ;

    /// Whether an argument of the type takes all arguments that are left.
    fn variadic() -> (variadic: bool)
        default_ensures
            !variadic,
    {
        false
    }
}

impl<'a, T: SqlTranslatable + FromDatum<'a>> SqlTranslatable for Array<'a, T> {
    open spec fn argument(answer: Result<SqlMapping, ArgumentError>) -> bool {
        exists|element: Result<SqlMapping, ArgumentError>| #[trigger]
            T::argument(element) && array_argument(element, answer)
    }

    open spec fn returned(answer: Result<Returns, ReturnsError>) -> bool {
        exists|element: Result<Returns, ReturnsError>| #[trigger]
            T::returned(element) && array_return(element, answer)
    }

    fn argument_sql() -> (answer: Result<SqlMapping, ArgumentError>) {
        array_argument_sql(T::argument_sql())
    }

    fn return_sql() -> (answer: Result<Returns, ReturnsError>) {
        array_return_sql(T::return_sql())
    }
}

impl<'a, T: SqlTranslatable + FromDatum<'a>> SqlTranslatable for VariadicArray<'a, T> {
    open spec fn argument(answer: Result<SqlMapping, ArgumentError>) -> bool {
        exists|element: Result<SqlMapping, ArgumentError>| #[trigger]
            T::argument(element) && array_argument(element, answer)
    }

    open spec fn returned(answer: Result<Returns, ReturnsError>) -> bool {
        exists|element: Result<Returns, ReturnsError>| #[trigger]
            T::returned(element) && array_return(element, answer)
    }

    fn argument_sql() -> (answer: Result<SqlMapping, ArgumentError>) {
        array_argument_sql(T::argument_sql())
    }

    fn return_sql() -> (answer: Result<Returns, ReturnsError>) {
        array_return_sql(T::return_sql())
    }

    fn variadic() -> (variadic: bool)
        ensures
            variadic,
    {
        true
    }
}

} // verus!
