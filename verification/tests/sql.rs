use pgx_array::array::Array;
use pgx_array::datum::{Datum, FromDatum};
use pgx_array::sql::{
    array_argument_sql, array_return_sql, ArgumentError, Returns, ReturnsError, SqlMapping,
    SqlTranslatable,
};
use pgx_array::variadic::VariadicArray;

struct Int4;

impl<'a> FromDatum<'a> for Int4 {
    type Referent = ();

    fn read_slot(_: &Self) -> Option<Self> {
        None
    }

    fn from_polymorphic_datum(_: Datum<'a, ()>, _: bool, _: u32) -> Option<Self> {
        None
    }
}

impl SqlTranslatable for Int4 {
    fn argument_sql() -> Result<SqlMapping, ArgumentError> {
        Ok(text("int4"))
    }

    fn return_sql() -> Result<Returns, ReturnsError> {
        Ok(Returns::One(text("int4")))
    }
}

fn text(sql: &str) -> SqlMapping {
    SqlMapping::As(sql.to_string())
}

#[test]
fn arguments_get_brackets() {
    assert_eq!(array_argument_sql(Ok(text("TEXT"))), Ok(text("TEXT[]")));
    assert_eq!(
        array_argument_sql(Ok(SqlMapping::Composite { array_brackets: false })),
        Ok(SqlMapping::Composite { array_brackets: true })
    );
    assert_eq!(
        array_argument_sql(Ok(SqlMapping::Source { array_brackets: false })),
        Ok(SqlMapping::Source { array_brackets: true })
    );
}

#[test]
fn arguments_are_refused() {
    assert_eq!(array_argument_sql(Ok(SqlMapping::Skip)), Err(ArgumentError::SkipInArray));
    let other = || ArgumentError::Other("bare u8".to_string());
    assert_eq!(array_argument_sql(Err(other())), Err(other()));
}

#[test]
fn return_types_get_brackets() {
    assert_eq!(
        array_return_sql(Ok(Returns::One(text("TEXT")))),
        Ok(Returns::One(text("TEXT[]")))
    );
    assert_eq!(
        array_return_sql(Ok(Returns::One(SqlMapping::Composite { array_brackets: false }))),
        Ok(Returns::One(SqlMapping::Composite { array_brackets: true }))
    );
    assert_eq!(
        array_return_sql(Ok(Returns::One(SqlMapping::Source { array_brackets: true }))),
        Ok(Returns::One(SqlMapping::Source { array_brackets: true }))
    );
}

#[test]
fn return_types_are_refused() {
    assert_eq!(
        array_return_sql(Ok(Returns::One(SqlMapping::Skip))),
        Err(ReturnsError::SkipInArray)
    );
    assert_eq!(
        array_return_sql(Ok(Returns::SetOf(text("int4")))),
        Err(ReturnsError::SetOfInArray)
    );
    assert_eq!(
        array_return_sql(Ok(Returns::Table(vec![text("int4")]))),
        Err(ReturnsError::TableInArray)
    );
    let other = || ReturnsError::Other("datum".to_string());
    assert_eq!(array_return_sql(Err(other())), Err(other()));
}

#[test]
fn arrays_of_a_type_are_written_with_its_name() {
    assert_eq!(<Array<'_, Int4>>::argument_sql(), Ok(text("int4[]")));
    assert_eq!(<Array<'_, Int4>>::return_sql(), Ok(Returns::One(text("int4[]"))));
    assert!(!<Array<'_, Int4>>::variadic());
    assert_eq!(<VariadicArray<'_, Int4>>::argument_sql(), Ok(text("int4[]")));
    assert_eq!(<VariadicArray<'_, Int4>>::return_sql(), Ok(Returns::One(text("int4[]"))));
    assert!(<VariadicArray<'_, Int4>>::variadic());
}
