//! SQL values of the Postgres resource: parameters built from values whose
//! dates and times carry their own format, the rows a query returns as JSON
//! text, and the count an `exec` reports.

use vstd::prelude::*;
use crate::sql::{naive_datetime_of, DateParts, TimeParts};
use crate::text::decimal_string;

verus! {

/// A text value with the `chrono` format it is written in.
#[derive(Clone, Debug, PartialEq, Eq)]
pub struct FormattedValue {
    pub value: String,
    pub format: String,
}

/// A SQL value of the resource's interface. Floating-point values are
/// carried by their IEEE-754 bit patterns.
#[derive(Clone, Debug, PartialEq, Eq)]
pub enum SqlValue {
    Int32(i32),
    Int64(i64),
    Uint32(u32),
    Uint64(u64),
    Float(u32),
    Double(u64),
    Str(String),
    Boolean(bool),
    Date(Option<FormattedValue>),
    Time(Option<FormattedValue>),
    Timestamp(Option<FormattedValue>),
    Binary(Vec<u8>),
}

/// A Postgres parameter of the resource.
#[derive(Clone, Debug, PartialEq, Eq)]
pub enum SqlParam {
    Int32(i32),
    Int64(i64),
    Oid(u32),
    Real(u32),
    DoublePrecision(u64),
    Text(String),
    Bool(bool),
    Date(Option<DateParts>),
    Time(Option<TimeParts>),
    Timestamp(Option<(DateParts, TimeParts)>),
    Bytea(Vec<u8>),
}

/// Why a value could not become a parameter.
#[derive(Clone, Copy, Debug, PartialEq, Eq)]
pub enum SqlValueError {
    /// Postgres has no unsigned 64-bit type.
    NoUint64Equivalent,
    /// The date does not read in its format.
    InvalidDate,
    /// The time does not read in its format.
    InvalidTime,
    /// The timestamp does not read in its format.
    InvalidTimestamp,
}

/// What `chrono::NaiveDate::parse_from_str(s, fmt)` reads, as year, month and day.
pub uninterp spec fn naive_date_in(s: Seq<char>, fmt: Seq<char>) -> Option<DateParts>;

/// What `chrono::NaiveTime::parse_from_str(s, fmt)` reads, as hour, minute,
/// second and nanosecond.
pub uninterp spec fn naive_time_in(s: Seq<char>, fmt: Seq<char>) -> Option<TimeParts>;

/// `chrono::NaiveDate::parse_from_str`, as year, month and day.
#[verifier::external_body]
fn chrono_date_in(s: &str, fmt: &str) -> (r: Option<DateParts>)
    ensures
        r == naive_date_in(s@, fmt@),
{
    chrono::NaiveDate::parse_from_str(s, fmt).ok().map(|d| (chrono::Datelike::year(&d), chrono::Datelike::month(&d), chrono::Datelike::day(&d)))
}

/// `chrono::NaiveTime::parse_from_str`, as hour, minute, second and nanosecond.
#[verifier::external_body]
fn chrono_time_in(s: &str, fmt: &str) -> (r: Option<TimeParts>)
    ensures
        r == naive_time_in(s@, fmt@),
{
    chrono::NaiveTime::parse_from_str(s, fmt).ok().map(|t| (chrono::Timelike::hour(&t), chrono::Timelike::minute(&t), chrono::Timelike::second(&t), chrono::Timelike::nanosecond(&t)))
}

/// `chrono::NaiveDateTime::parse_from_str`, as date and time parts.
#[verifier::external_body]
fn chrono_datetime_in(s: &str, fmt: &str) -> (r: Option<(DateParts, TimeParts)>)
    ensures
        r == naive_datetime_of(s@, fmt@),
{
    chrono::NaiveDateTime::parse_from_str(s, fmt).ok().map(|dt| {
        (
            (chrono::Datelike::year(&dt), chrono::Datelike::month(&dt), chrono::Datelike::day(&dt)),
            (chrono::Timelike::hour(&dt), chrono::Timelike::minute(&dt), chrono::Timelike::second(&dt), chrono::Timelike::nanosecond(&dt)),
        )
    })
}

/// A parameter by views.
pub enum SqlParamView {
    Int32(i32),
    Int64(i64),
    Oid(u32),
    Real(u32),
    DoublePrecision(u64),
    Text(Seq<char>),
    Bool(bool),
    Date(Option<DateParts>),
    Time(Option<TimeParts>),
    Timestamp(Option<(DateParts, TimeParts)>),
    Bytea(Seq<u8>),
}

impl View for SqlParam {
    type V = SqlParamView;

    open spec fn view(&self) -> SqlParamView {
        match *self {
            SqlParam::Int32(v) => SqlParamView::Int32(v),
            SqlParam::Int64(v) => SqlParamView::Int64(v),
            SqlParam::Oid(v) => SqlParamView::Oid(v),
            SqlParam::Real(v) => SqlParamView::Real(v),
            SqlParam::DoublePrecision(v) => SqlParamView::DoublePrecision(v),
            SqlParam::Text(v) => SqlParamView::Text(v@),
            SqlParam::Bool(v) => SqlParamView::Bool(v),
            SqlParam::Date(v) => SqlParamView::Date(v),
            SqlParam::Time(v) => SqlParamView::Time(v),
            SqlParam::Timestamp(v) => SqlParamView::Timestamp(v),
            SqlParam::Bytea(v) => SqlParamView::Bytea(v@),
        }
    }
}

/// The parameter a value becomes.
pub open spec fn sql_param_of(value: SqlValue) -> Result<SqlParamView, SqlValueError> {
    match value {
        SqlValue::Int32(v) => Ok(SqlParamView::Int32(v)),
        SqlValue::Int64(v) => Ok(SqlParamView::Int64(v)),
        SqlValue::Uint32(v) => Ok(SqlParamView::Oid(v)),
        SqlValue::Uint64(_) => Err(SqlValueError::NoUint64Equivalent),
        SqlValue::Float(v) => Ok(SqlParamView::Real(v)),
        SqlValue::Double(v) => Ok(SqlParamView::DoublePrecision(v)),
        SqlValue::Str(v) => Ok(SqlParamView::Text(v@)),
        SqlValue::Boolean(v) => Ok(SqlParamView::Bool(v)),
        SqlValue::Date(fv) => match fv {
            None => Ok(SqlParamView::Date(None)),
            Some(f) => match naive_date_in(f.value@, f.format@) {
                Some(d) => Ok(SqlParamView::Date(Some(d))),
                None => Err(SqlValueError::InvalidDate),
            },
        },
        SqlValue::Time(fv) => match fv {
            None => Ok(SqlParamView::Time(None)),
            Some(f) => match naive_time_in(f.value@, f.format@) {
                Some(t) => Ok(SqlParamView::Time(Some(t))),
                None => Err(SqlValueError::InvalidTime),
            },
        },
        SqlValue::Timestamp(fv) => match fv {
            None => Ok(SqlParamView::Timestamp(None)),
            Some(f) => match naive_datetime_of(f.value@, f.format@) {
                Some(t) => Ok(SqlParamView::Timestamp(Some(t))),
                None => Err(SqlValueError::InvalidTimestamp),
            },
        },
        SqlValue::Binary(v) => Ok(SqlParamView::Bytea(v@)),
    }
}

/// Turns a value into a Postgres parameter.
pub fn into_param(value: &SqlValue) -> (r: Result<SqlParam, SqlValueError>)
    ensures
        match r {
            Ok(p) => sql_param_of(*value) == Ok::<SqlParamView, SqlValueError>(p@),
            Err(e) => sql_param_of(*value) == Err::<SqlParamView, SqlValueError>(e),
        },
{
    match value {
        SqlValue::Int32(v) => Ok(SqlParam::Int32(*v)),
        SqlValue::Int64(v) => Ok(SqlParam::Int64(*v)),
        SqlValue::Uint32(v) => Ok(SqlParam::Oid(*v)),
        SqlValue::Uint64(_) => Err(SqlValueError::NoUint64Equivalent),
        SqlValue::Float(v) => Ok(SqlParam::Real(*v)),
        SqlValue::Double(v) => Ok(SqlParam::DoublePrecision(*v)),
        SqlValue::Str(v) => Ok(SqlParam::Text(v.clone())),
        SqlValue::Boolean(v) => Ok(SqlParam::Bool(*v)),
        SqlValue::Date(fv) => match fv {
            None => Ok(SqlParam::Date(None)),
            Some(f) => match chrono_date_in(f.value.as_str(), f.format.as_str()) {
                Some(d) => Ok(SqlParam::Date(Some(d))),
                None => Err(SqlValueError::InvalidDate),
            },
        },
        SqlValue::Time(fv) => match fv {
            None => Ok(SqlParam::Time(None)),
            Some(f) => match chrono_time_in(f.value.as_str(), f.format.as_str()) {
                Some(t) => Ok(SqlParam::Time(Some(t))),
                None => Err(SqlValueError::InvalidTime),
            },
        },
        SqlValue::Timestamp(fv) => match fv {
            None => Ok(SqlParam::Timestamp(None)),
            Some(f) => match chrono_datetime_in(f.value.as_str(), f.format.as_str()) {
                Some(t) => Ok(SqlParam::Timestamp(Some(t))),
                None => Err(SqlValueError::InvalidTimestamp),
            },
        },
        SqlValue::Binary(v) => Ok(SqlParam::Bytea(v.clone())),
    }
}

/// The parameters of a statement: every value converted, in order, or the
/// error of the first value that fails.
pub open spec fn params_of(values: Seq<SqlValue>) -> Result<Seq<SqlParamView>, SqlValueError>
    decreases values.len(),
{
    if values.len() == 0 {
        Ok(Seq::empty())
    } else {
        match params_of(values.drop_last()) {
            Err(e) => Err(e),
            Ok(ps) => match sql_param_of(values.last()) {
                Ok(p) => Ok(ps.push(p)),
                Err(e) => Err(e),
            },
        }
    }
}

/// A value that needs no parsing becomes the parameter of the matching
/// Postgres type holding the same value: a 32-bit integer an `INTEGER`, a
/// 64-bit integer a `BIGINT`, an unsigned 32-bit integer an `OID`, the
/// floating-point bit patterns `REAL` and `DOUBLE PRECISION`, and text,
/// booleans and bytes as themselves; an unsigned 64-bit value is refused; a
/// date, a time and a timestamp hold what chrono reads from their text in
/// their own format, and fail exactly when it reads nothing.
pub proof fn lemma_param_keeps_value(value: SqlValue)
    ensures
        value matches SqlValue::Int32(v) ==> (sql_param_of(value) matches Ok(SqlParamView::Int32(w)) && w == v),
        value matches SqlValue::Int64(v) ==> (sql_param_of(value) matches Ok(SqlParamView::Int64(w)) && w == v),
        value matches SqlValue::Uint32(v) ==> (sql_param_of(value) matches Ok(SqlParamView::Oid(w)) && w == v),
        value matches SqlValue::Float(v) ==> (sql_param_of(value) matches Ok(SqlParamView::Real(w)) && w == v),
        value matches SqlValue::Double(v) ==> (sql_param_of(value) matches Ok(SqlParamView::DoublePrecision(w)) && w == v),
        value matches SqlValue::Boolean(v) ==> (sql_param_of(value) matches Ok(SqlParamView::Bool(w)) && w == v),
        value matches SqlValue::Str(v) ==> (sql_param_of(value) matches Ok(SqlParamView::Text(w)) && w == v@),
        value matches SqlValue::Binary(v) ==> (sql_param_of(value) matches Ok(SqlParamView::Bytea(w)) && w == v@),
        value is Uint64 ==> sql_param_of(value) == Err::<SqlParamView, SqlValueError>(SqlValueError::NoUint64Equivalent),
        value matches SqlValue::Date(Some(f)) ==> match naive_date_in(f.value@, f.format@) {
            Some(d) => sql_param_of(value) matches Ok(SqlParamView::Date(Some(x))) && x == d,
            None => sql_param_of(value) == Err::<SqlParamView, SqlValueError>(SqlValueError::InvalidDate),
        },
        value matches SqlValue::Time(Some(f)) ==> match naive_time_in(f.value@, f.format@) {
            Some(d) => sql_param_of(value) matches Ok(SqlParamView::Time(Some(x))) && x == d,
            None => sql_param_of(value) == Err::<SqlParamView, SqlValueError>(SqlValueError::InvalidTime),
        },
        value matches SqlValue::Timestamp(Some(f)) ==> match naive_datetime_of(f.value@, f.format@) {
            Some(d) => sql_param_of(value) matches Ok(SqlParamView::Timestamp(Some(x))) && x == d,
            None => sql_param_of(value) == Err::<SqlParamView, SqlValueError>(SqlValueError::InvalidTimestamp),
        },
        value == SqlValue::Date(None) ==> sql_param_of(value) == Ok::<SqlParamView, SqlValueError>(SqlParamView::Date(None)),
        value == SqlValue::Time(None) ==> sql_param_of(value) == Ok::<SqlParamView, SqlValueError>(SqlParamView::Time(None)),
        value == SqlValue::Timestamp(None) ==> sql_param_of(value) == Ok::<SqlParamView, SqlValueError>(SqlParamView::Timestamp(None)),
{
}

/// Converting a statement's values converts each value on its own: when all
/// convert, there is one parameter per value, in order, and each is the one
/// its value gives.
pub proof fn lemma_params_elementwise(values: Seq<SqlValue>)
    ensures
        params_of(values) matches Ok(ps) ==> ps.len() == values.len()
            && forall|i: int| 0 <= i < values.len() ==> sql_param_of(#[trigger] values[i]) == Ok::<SqlParamView, SqlValueError>(ps[i]),
    decreases values.len(),
{
    if values.len() > 0 {
        lemma_params_elementwise(values.drop_last());
        if let Ok(ps) = params_of(values) {
            let init = values.drop_last();
            assert forall|i: int| 0 <= i < values.len() implies sql_param_of(#[trigger] values[i]) == Ok::<SqlParamView, SqlValueError>(ps[i]) by {
                if i < values.len() - 1 {
                    assert(values[i] == init[i]);
                }
            }
        }
    }
}

/// Converts the values of a statement into its parameters.
pub fn into_params(values: &Vec<SqlValue>) -> (r: Result<Vec<SqlParam>, SqlValueError>)
    ensures
        match r {
            Ok(ps) => params_of(values@) == Ok::<Seq<SqlParamView>, SqlValueError>(ps@.map_values(|p: SqlParam| p@)),
            Err(e) => params_of(values@) == Err::<Seq<SqlParamView>, SqlValueError>(e),
        },
{
    let mut ps: Vec<SqlParam> = Vec::new();
    let mut i: usize = 0;
    assert(values@.take(0) =~= Seq::<SqlValue>::empty());
    assert(ps@.map_values(|p: SqlParam| p@) =~= Seq::<SqlParamView>::empty());
    while i < values.len()
        invariant
            i <= values@.len(),
            params_of(values@.take(i as int)) == Ok::<Seq<SqlParamView>, SqlValueError>(ps@.map_values(|p: SqlParam| p@)),
        decreases values@.len() - i,
    {
        assert(values@.take(i + 1).drop_last() =~= values@.take(i as int));
        assert(values@.take(i + 1).last() == values@[i as int]);
        match into_param(&values[i]) {
            Ok(p) => {
                let ghost before = ps@;
                ps.push(p);
                assert(ps@.map_values(|q: SqlParam| q@) =~= before.map_values(|q: SqlParam| q@).push(p@));
            },
            Err(e) => {
                proof {
                    lemma_params_first_error(values@, i as int, e);
                }
                return Err(e);
            },
        }
        i = i + 1;
    }
    assert(values@.take(values@.len() as int) =~= values@);
    Ok(ps)
}

/// A failure at position `i`, with all before it converted, is the failure
/// of the whole list.
proof fn lemma_params_first_error(values: Seq<SqlValue>, i: int, e: SqlValueError)
    requires
        0 <= i < values.len(),
        params_of(values.take(i)) is Ok,
        sql_param_of(values[i]) == Err::<SqlParamView, SqlValueError>(e),
    ensures
        params_of(values) == Err::<Seq<SqlParamView>, SqlValueError>(e),
    decreases values.len(),
{
    if values.len() == i + 1 {
        assert(values.drop_last() =~= values.take(i));
    } else {
        assert(values.drop_last().take(i) =~= values.take(i));
        lemma_params_first_error(values.drop_last(), i, e);
    }
}

/// The count an `exec` reports: the number of affected rows, truncated to
/// 32 bits.
pub fn affected_rows(count: u64) -> (n: u32)
    ensures
        n == count as u32,
{
    count as u32
}

/// The JSON object text serde_json makes of a row's columns: each name with
/// its text value, or `null` (`serde_json::to_string` of a `Map`).
pub uninterp spec fn json_row_text(columns: Seq<(Seq<char>, Option<Seq<char>>)>) -> Seq<char>;

/// The JSON object text of a row's columns.
#[verifier::external_body]
fn json_row(columns: &Vec<(String, Option<String>)>) -> (s: String)
    ensures
        s@ == json_row_text(columns@.map_values(|c: (String, Option<String>)| (c.0@, match c.1 {
            Some(v) => Some(v@),
            None => None,
        }))),
{
    let mut map = serde_json::Map::new();
    for (name, value) in columns {
        map.insert(name.clone(), value.clone().map_or(serde_json::Value::Null, serde_json::Value::String));
    }
    serde_json::to_string(&map).unwrap_or_else(|_| "{}".to_string())
}

/// A row as the resource returns it: its position, in decimal, and its
/// columns as one JSON object text.
#[derive(Clone, Debug, PartialEq, Eq)]
pub struct JsonRow {
    pub field_name: String,
    pub value: String,
}

/// The row at position `idx` of a result, with its columns' names and text
/// values (`None` for a value that does not read as text).
pub fn into_json_row(idx: usize, columns: &Vec<(String, Option<String>)>) -> (r: JsonRow)
    ensures
        r.field_name@ == crate::text::decimal(idx as nat),
        r.value@ == json_row_text(columns@.map_values(|c: (String, Option<String>)| (c.0@, match c.1 {
            Some(v) => Some(v@),
            None => None,
        }))),
{
    JsonRow { field_name: decimal_string(idx as u64), value: json_row(columns) }
}

} // verus!
