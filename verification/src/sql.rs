//! Conversions between the SQL interface's values and Postgres parameters and
//! rows.

use vstd::prelude::*;
use crate::res_kafka::registry::{json_text_error, json_text_valid};
use crate::text::{decimal, decimal_string, str_eq};

verus! {

/// A value of the SQL interface. Floating-point values are carried by their
/// IEEE-754 bit patterns (`f32::to_bits`, `f64::to_bits`).
#[derive(Clone, Debug, PartialEq, Eq)]
pub enum DataType {
    Int32(Option<i32>),
    Int64(Option<i64>),
    Uint32(Option<u32>),
    Uint64(Option<u64>),
    Float(Option<u32>),
    Double(Option<u64>),
    Str(Option<String>),
    Boolean(Option<bool>),
    Date(Option<String>),
    Time(Option<String>),
    Timestamp(Option<String>),
    Binary(Option<Vec<u8>>),
}

/// A calendar date: year, month (1-12), day of month.
pub type DateParts = (i32, u32, u32);

/// A time of day: hour, minute, second, nanosecond.
pub type TimeParts = (u32, u32, u32, u32);

/// A UTC instant: seconds since the Unix epoch and the nanosecond within the second.
pub type InstantParts = (i64, u32);

/// A Postgres parameter built from a SQL value. Floating-point values are
/// carried by their IEEE-754 bit patterns.
#[derive(Clone, Debug, PartialEq, Eq)]
pub enum PgType {
    Int32(Option<i32>),
    Int64(Option<i64>),
    Uint32(Option<u32>),
    Float(Option<u32>),
    Double(Option<u64>),
    Text(Option<String>),
    Bool(Option<bool>),
    Date(Option<DateParts>),
    Time(Option<TimeParts>),
    Timestamp(Option<(DateParts, TimeParts)>),
    TimestampTz(Option<InstantParts>),
    Binary(Option<Vec<u8>>),
}

/// A Postgres parameter with its text and bytes taken by their views.
pub enum PgTypeView {
    Int32(Option<i32>),
    Int64(Option<i64>),
    Uint32(Option<u32>),
    Float(Option<u32>),
    Double(Option<u64>),
    Text(Option<Seq<char>>),
    Bool(Option<bool>),
    Date(Option<DateParts>),
    Time(Option<TimeParts>),
    Timestamp(Option<(DateParts, TimeParts)>),
    TimestampTz(Option<InstantParts>),
    Binary(Option<Seq<u8>>),
}

impl View for PgType {
    type V = PgTypeView;

    open spec fn view(&self) -> PgTypeView {
        match *self {
            PgType::Int32(v) => PgTypeView::Int32(v),
            PgType::Int64(v) => PgTypeView::Int64(v),
            PgType::Uint32(v) => PgTypeView::Uint32(v),
            PgType::Float(v) => PgTypeView::Float(v),
            PgType::Double(v) => PgTypeView::Double(v),
            PgType::Text(v) => PgTypeView::Text(opt_view(v)),
            PgType::Bool(v) => PgTypeView::Bool(v),
            PgType::Date(v) => PgTypeView::Date(v),
            PgType::Time(v) => PgTypeView::Time(v),
            PgType::Timestamp(v) => PgTypeView::Timestamp(v),
            PgType::TimestampTz(v) => PgTypeView::TimestampTz(v),
            PgType::Binary(v) => PgTypeView::Binary(opt_bytes_view(v)),
        }
    }
}

/// The view of optional bytes.
pub open spec fn opt_bytes_view(o: Option<Vec<u8>>) -> Option<Seq<u8>> {
    match o {
        Some(b) => Some(b@),
        None => None,
    }
}

/// Why a SQL value could not become a Postgres parameter.
#[derive(Clone, Debug, PartialEq, Eq)]
pub enum ParamError {
    /// An unsigned 64-bit value above `i64::MAX`.
    Uint64TooLarge(u64),
    /// A date that is not `YYYY-MM-DD`.
    InvalidDate,
    /// A time that is not `HH:MM:SS[.fraction]`.
    InvalidTime,
    /// A timestamp that is not RFC 3339.
    InvalidRfc3339,
    /// A timestamp that is not `YYYY-MM-DD HH:MM:SS[.fraction]`.
    InvalidNaiveTimestamp,
}

/// What `chrono::NaiveDate::from_str` reads from `s`, as year, month and day.
pub uninterp spec fn naive_date_of(s: Seq<char>) -> Option<DateParts>;

/// What `chrono::NaiveTime::from_str` reads from `s`, as hour, minute, second
/// and nanosecond.
pub uninterp spec fn naive_time_of(s: Seq<char>) -> Option<TimeParts>;

/// What `chrono::DateTime::parse_from_rfc3339` reads from `s`, converted to
/// UTC, as Unix seconds and nanoseconds.
pub uninterp spec fn rfc3339_instant_of(s: Seq<char>) -> Option<InstantParts>;

/// What `chrono::NaiveDateTime::parse_from_str(s, fmt)` reads, as date and time parts.
pub uninterp spec fn naive_datetime_of(s: Seq<char>, fmt: Seq<char>) -> Option<(DateParts, TimeParts)>;

/// `chrono::NaiveDate::from_str`, as year, month and day.
#[verifier::external_body]
fn chrono_date(s: &str) -> (r: Option<DateParts>)
    ensures
        r == naive_date_of(s@),
{
    s.parse::<chrono::NaiveDate>().ok().map(|d| (chrono::Datelike::year(&d), chrono::Datelike::month(&d), chrono::Datelike::day(&d)))
}

/// `chrono::NaiveTime::from_str`, as hour, minute, second and nanosecond.
#[verifier::external_body]
fn chrono_time(s: &str) -> (r: Option<TimeParts>)
    ensures
        r == naive_time_of(s@),
{
    s.parse::<chrono::NaiveTime>().ok().map(|t| (chrono::Timelike::hour(&t), chrono::Timelike::minute(&t), chrono::Timelike::second(&t), chrono::Timelike::nanosecond(&t)))
}

/// `chrono::DateTime::parse_from_rfc3339`, converted to UTC, as Unix seconds
/// and nanoseconds.
#[verifier::external_body]
fn chrono_rfc3339(s: &str) -> (r: Option<InstantParts>)
    ensures
        r == rfc3339_instant_of(s@),
{
    chrono::DateTime::parse_from_rfc3339(s).ok().map(|ts| {
        let utc = ts.with_timezone(&chrono::Utc);
        (utc.timestamp(), utc.timestamp_subsec_nanos())
    })
}

/// `chrono::NaiveDateTime::parse_from_str`, as date and time parts.
#[verifier::external_body]
fn chrono_naive_datetime(s: &str, fmt: &str) -> (r: Option<(DateParts, TimeParts)>)
    ensures
        r == naive_datetime_of(s@, fmt@),
{
    chrono::NaiveDateTime::parse_from_str(s, fmt).ok().map(|dt| {
        (
            (chrono::Datelike::year(&dt), chrono::Datelike::month(&dt), chrono::Datelike::day(&dt)),
            (chrono::Timelike::hour(&dt), chrono::Timelike::minute(&dt), chrono::Timelike::second(&dt), chrono::Timelike::nanosecond(&dt)),
        )
    })
}

/// The format of naive timestamps.
pub const NAIVE_TIMESTAMP_FORMAT: &'static str = "%Y-%m-%d %H:%M:%S%.f";

/// Reads an optional date.
pub fn parse_date(source: Option<&str>) -> (r: Result<Option<DateParts>, ParamError>)
    ensures
        match source {
            None => r == Ok::<Option<DateParts>, ParamError>(None),
            Some(s) => match naive_date_of(s@) {
                Some(d) => r == Ok::<Option<DateParts>, ParamError>(Some(d)),
                None => r == Err::<Option<DateParts>, ParamError>(ParamError::InvalidDate),
            },
        },
{
    match source {
        None => Ok(None),
        Some(s) => match chrono_date(s) {
            Some(d) => Ok(Some(d)),
            None => Err(ParamError::InvalidDate),
        },
    }
}

/// Reads an optional time of day.
pub fn parse_time(source: Option<&str>) -> (r: Result<Option<TimeParts>, ParamError>)
    ensures
        match source {
            None => r == Ok::<Option<TimeParts>, ParamError>(None),
            Some(s) => match naive_time_of(s@) {
                Some(t) => r == Ok::<Option<TimeParts>, ParamError>(Some(t)),
                None => r == Err::<Option<TimeParts>, ParamError>(ParamError::InvalidTime),
            },
        },
{
    match source {
        None => Ok(None),
        Some(s) => match chrono_time(s) {
            Some(t) => Ok(Some(t)),
            None => Err(ParamError::InvalidTime),
        },
    }
}

/// Reads an optional RFC 3339 timestamp as a UTC instant.
pub fn parse_timestamp_tz(source: Option<&str>) -> (r: Result<Option<InstantParts>, ParamError>)
    ensures
        match source {
            None => r == Ok::<Option<InstantParts>, ParamError>(None),
            Some(s) => match rfc3339_instant_of(s@) {
                Some(t) => r == Ok::<Option<InstantParts>, ParamError>(Some(t)),
                None => r == Err::<Option<InstantParts>, ParamError>(ParamError::InvalidRfc3339),
            },
        },
{
    match source {
        None => Ok(None),
        Some(s) => match chrono_rfc3339(s) {
            Some(t) => Ok(Some(t)),
            None => Err(ParamError::InvalidRfc3339),
        },
    }
}

/// Reads an optional naive timestamp `YYYY-MM-DD HH:MM:SS[.fraction]`.
pub fn parse_timestamp_naive(source: Option<&str>) -> (r: Result<Option<(DateParts, TimeParts)>, ParamError>)
    ensures
        match source {
            None => r == Ok::<Option<(DateParts, TimeParts)>, ParamError>(None),
            Some(s) => match naive_datetime_of(s@, NAIVE_TIMESTAMP_FORMAT@) {
                Some(t) => r == Ok::<Option<(DateParts, TimeParts)>, ParamError>(Some(t)),
                None => r == Err::<Option<(DateParts, TimeParts)>, ParamError>(
                    ParamError::InvalidNaiveTimestamp,
                ),
            },
        },
{
    match source {
        None => Ok(None),
        Some(s) => match chrono_naive_datetime(s, NAIVE_TIMESTAMP_FORMAT) {
            Some(t) => Ok(Some(t)),
            None => Err(ParamError::InvalidNaiveTimestamp),
        },
    }
}

/// The view of an optional string.
pub open spec fn opt_view(o: Option<String>) -> Option<Seq<char>> {
    match o {
        Some(s) => Some(s@),
        None => None,
    }
}

/// The parameter a SQL value becomes, by the value's view: `None` where it is
/// refused. Unsigned 64-bit values must fit in `i64`; dates, times and
/// timestamps must parse; a timestamp is read as RFC 3339 only.
pub open spec fn param_of(value: DataType) -> Result<PgTypeView, ParamError> {
    match value {
        DataType::Int32(v) => Ok(PgTypeView::Int32(v)),
        DataType::Int64(v) => Ok(PgTypeView::Int64(v)),
        DataType::Uint32(v) => Ok(PgTypeView::Uint32(v)),
        DataType::Uint64(v) => match v {
            Some(raw) => if raw <= i64::MAX {
                Ok(PgTypeView::Int64(Some(raw as i64)))
            } else {
                Err(ParamError::Uint64TooLarge(raw))
            },
            None => Ok(PgTypeView::Int64(None)),
        },
        DataType::Float(v) => Ok(PgTypeView::Float(v)),
        DataType::Double(v) => Ok(PgTypeView::Double(v)),
        DataType::Str(v) => Ok(PgTypeView::Text(opt_view(v))),
        DataType::Boolean(v) => Ok(PgTypeView::Bool(v)),
        DataType::Date(v) => match v {
            None => Ok(PgTypeView::Date(None)),
            Some(s) => match naive_date_of(s@) {
                Some(d) => Ok(PgTypeView::Date(Some(d))),
                None => Err(ParamError::InvalidDate),
            },
        },
        DataType::Time(v) => match v {
            None => Ok(PgTypeView::Time(None)),
            Some(s) => match naive_time_of(s@) {
                Some(t) => Ok(PgTypeView::Time(Some(t))),
                None => Err(ParamError::InvalidTime),
            },
        },
        DataType::Timestamp(v) => match v {
            None => Ok(PgTypeView::Timestamp(None)),
            Some(s) => match rfc3339_instant_of(s@) {
                Some(t) => Ok(PgTypeView::TimestampTz(Some(t))),
                None => Err(ParamError::InvalidRfc3339),
            },
        },
        DataType::Binary(v) => Ok(PgTypeView::Binary(opt_bytes_view(v))),
    }
}

/// Turns a SQL value into a Postgres parameter. A timestamp is read as
/// RFC 3339 and becomes a UTC timestamp; an absent timestamp stays a naive one.
pub fn into_param(value: &DataType) -> (r: Result<PgType, ParamError>)
    ensures
        match r {
            Ok(p) => param_of(*value) == Ok::<PgTypeView, ParamError>(p@),
            Err(e) => param_of(*value) == Err::<PgTypeView, ParamError>(e),
        },
{
    match value {
        DataType::Int32(v) => Ok(PgType::Int32(*v)),
        DataType::Int64(v) => Ok(PgType::Int64(*v)),
        DataType::Uint32(v) => Ok(PgType::Uint32(*v)),
        DataType::Uint64(v) => {
            let converted = match v {
                Some(raw) => {
                    if *raw <= i64::MAX as u64 {
                        Some(*raw as i64)
                    } else {
                        return Err(ParamError::Uint64TooLarge(*raw));
                    }
                },
                None => None,
            };
            Ok(PgType::Int64(converted))
        },
        DataType::Float(v) => Ok(PgType::Float(*v)),
        DataType::Double(v) => Ok(PgType::Double(*v)),
        DataType::Str(v) => Ok(PgType::Text(v.clone())),
        DataType::Boolean(v) => Ok(PgType::Bool(*v)),
        DataType::Date(v) => {
            let d = match v {
                Some(s) => parse_date(Some(s.as_str())),
                None => parse_date(None),
            };
            match d {
                Ok(d) => Ok(PgType::Date(d)),
                Err(e) => Err(e),
            }
        },
        DataType::Time(v) => {
            let t = match v {
                Some(s) => parse_time(Some(s.as_str())),
                None => parse_time(None),
            };
            match t {
                Ok(t) => Ok(PgType::Time(t)),
                Err(e) => Err(e),
            }
        },
        DataType::Timestamp(v) => {
            let source = match v {
                Some(s) => Some(s.as_str()),
                None => None,
            };
            match parse_timestamp_tz(source) {
                Err(e) => Err(e),
                Ok(Some(ts)) => Ok(PgType::TimestampTz(Some(ts))),
                Ok(None) => match parse_timestamp_naive(source) {
                    Ok(t) => Ok(PgType::Timestamp(t)),
                    Err(e) => Err(e),
                },
            }
        },
        DataType::Binary(v) => Ok(PgType::Binary(v.clone())),
    }
}

/// The parameters of a statement: every value converted, in order, or the
/// error of the first value that fails.
pub open spec fn params_of(values: Seq<DataType>) -> Result<Seq<PgTypeView>, ParamError>
    decreases values.len(),
{
    if values.len() == 0 {
        Ok(Seq::empty())
    } else {
        match params_of(values.drop_last()) {
            Err(e) => Err(e),
            Ok(ps) => match param_of(values.last()) {
                Ok(p) => Ok(ps.push(p)),
                Err(e) => Err(e),
            },
        }
    }
}

/// A failure at position `i`, with all before it converted, is the failure
/// of the whole list.
proof fn lemma_params_first_error(values: Seq<DataType>, i: int, e: ParamError)
    requires
        0 <= i < values.len(),
        params_of(values.take(i)) is Ok,
        param_of(values[i]) == Err::<PgTypeView, ParamError>(e),
    ensures
        params_of(values) == Err::<Seq<PgTypeView>, ParamError>(e),
    decreases values.len(),
{
    if values.len() == i + 1 {
        assert(values.drop_last() =~= values.take(i));
    } else {
        assert(values.drop_last().take(i) =~= values.take(i));
        lemma_params_first_error(values.drop_last(), i, e);
    }
}

/// A SQL value becomes the parameter of the matching Postgres type holding
/// the same value: integers, floating-point bit patterns, booleans, text and
/// bytes are carried over unchanged (an absent value stays absent); an
/// unsigned 64-bit value becomes the `BIGINT` of the same number when it
/// fits and is refused when it does not; a date, a time and a timestamp hold
/// what chrono reads from their text (a timestamp as an RFC 3339 instant),
/// and fail exactly when it reads nothing.
pub proof fn lemma_param_keeps_value(value: DataType)
    ensures
        value matches DataType::Int32(v) ==> (param_of(value) matches Ok(PgTypeView::Int32(w)) && w == v),
        value matches DataType::Int64(v) ==> (param_of(value) matches Ok(PgTypeView::Int64(w)) && w == v),
        value matches DataType::Uint32(v) ==> (param_of(value) matches Ok(PgTypeView::Uint32(w)) && w == v),
        value matches DataType::Float(v) ==> (param_of(value) matches Ok(PgTypeView::Float(w)) && w == v),
        value matches DataType::Double(v) ==> (param_of(value) matches Ok(PgTypeView::Double(w)) && w == v),
        value matches DataType::Boolean(v) ==> (param_of(value) matches Ok(PgTypeView::Bool(w)) && w == v),
        value matches DataType::Str(v) ==> (param_of(value) matches Ok(PgTypeView::Text(w)) && w == opt_view(v)),
        value matches DataType::Binary(v) ==> (param_of(value) matches Ok(PgTypeView::Binary(w)) && w == opt_bytes_view(v)),
        value matches DataType::Uint64(Some(raw)) ==> (
            if raw <= i64::MAX {
                param_of(value) matches Ok(PgTypeView::Int64(Some(w))) && w as int == raw as int
            } else {
                param_of(value) matches Err(ParamError::Uint64TooLarge(x)) && x == raw
            }),
        value matches DataType::Uint64(None) ==> (param_of(value) matches Ok(PgTypeView::Int64(w)) && w is None),
        value matches DataType::Date(Some(t)) ==> match naive_date_of(t@) {
            Some(d) => param_of(value) matches Ok(PgTypeView::Date(Some(x))) && x == d,
            None => param_of(value) == Err::<PgTypeView, ParamError>(ParamError::InvalidDate),
        },
        value matches DataType::Time(Some(t)) ==> match naive_time_of(t@) {
            Some(d) => param_of(value) matches Ok(PgTypeView::Time(Some(x))) && x == d,
            None => param_of(value) == Err::<PgTypeView, ParamError>(ParamError::InvalidTime),
        },
        value matches DataType::Timestamp(Some(t)) ==> match rfc3339_instant_of(t@) {
            Some(d) => param_of(value) matches Ok(PgTypeView::TimestampTz(Some(x))) && x == d,
            None => param_of(value) == Err::<PgTypeView, ParamError>(ParamError::InvalidRfc3339),
        },
        value == DataType::Date(None) ==> param_of(value) == Ok::<PgTypeView, ParamError>(PgTypeView::Date(None)),
        value == DataType::Time(None) ==> param_of(value) == Ok::<PgTypeView, ParamError>(PgTypeView::Time(None)),
        value == DataType::Timestamp(None) ==> param_of(value) == Ok::<PgTypeView, ParamError>(PgTypeView::Timestamp(None)),
{
}

/// Converting a statement's values converts each value on its own: when all
/// convert, there is one parameter per value, in order, and each is the one
/// its value gives.
pub proof fn lemma_params_elementwise(values: Seq<DataType>)
    ensures
        params_of(values) matches Ok(ps) ==> ps.len() == values.len()
            && forall|i: int| 0 <= i < values.len() ==> param_of(#[trigger] values[i]) == Ok::<PgTypeView, ParamError>(ps[i]),
    decreases values.len(),
{
    if values.len() > 0 {
        lemma_params_elementwise(values.drop_last());
        if let Ok(ps) = params_of(values) {
            let init = values.drop_last();
            assert forall|i: int| 0 <= i < values.len() implies param_of(#[trigger] values[i]) == Ok::<PgTypeView, ParamError>(ps[i]) by {
                if i < values.len() - 1 {
                    assert(values[i] == init[i]);
                }
            }
        }
    }
}

/// Converts the values of a statement into its parameters.
pub fn into_params(values: &Vec<DataType>) -> (r: Result<Vec<PgType>, ParamError>)
    ensures
        match r {
            Ok(ps) => params_of(values@) == Ok::<Seq<PgTypeView>, ParamError>(ps@.map_values(|p: PgType| p@)),
            Err(e) => params_of(values@) == Err::<Seq<PgTypeView>, ParamError>(e),
        },
{
    let mut ps: Vec<PgType> = Vec::new();
    let mut i: usize = 0;
    assert(values@.take(0) =~= Seq::<DataType>::empty());
    assert(ps@.map_values(|p: PgType| p@) =~= Seq::<PgTypeView>::empty());
    while i < values.len()
        invariant
            i <= values@.len(),
            params_of(values@.take(i as int)) == Ok::<Seq<PgTypeView>, ParamError>(ps@.map_values(|p: PgType| p@)),
        decreases values@.len() - i,
    {
        assert(values@.take(i + 1).drop_last() =~= values@.take(i as int));
        assert(values@.take(i + 1).last() == values@[i as int]);
        match into_param(&values[i]) {
            Ok(p) => {
                let ghost before = ps@;
                ps.push(p);
                assert(ps@.map_values(|q: PgType| q@) =~= before.map_values(|q: PgType| q@).push(p@));
            },
            Err(e) => {
                proof {
                    lemma_params_first_error(values@, i as int, e);
                }
                return Err(e);
            },
        }
        i = i + 1;
    }
    assert(values@.take(values@.len() as int) =~= values@);
    Ok(ps)
}

/// The Postgres column types the SQL interface reads.
#[derive(Clone, Copy, Debug, PartialEq, Eq)]
pub enum ColumnKind {
    Int4,
    Int8,
    Oid,
    Float4,
    Float8,
    Text,
    Bool,
    Date,
    Time,
    Timestamp,
    TimestampTz,
    Json,
    Bytea,
}

/// The kind of a column by its Postgres type name; `None` for types the SQL
/// interface does not read.
pub open spec fn column_kind_of(name: Seq<char>) -> Option<ColumnKind> {
    if name == "int4"@ {
        Some(ColumnKind::Int4)
    } else if name == "int8"@ {
        Some(ColumnKind::Int8)
    } else if name == "oid"@ {
        Some(ColumnKind::Oid)
    } else if name == "float4"@ {
        Some(ColumnKind::Float4)
    } else if name == "float8"@ {
        Some(ColumnKind::Float8)
    } else if name == "text"@ || name == "varchar"@ || name == "name"@ || name == "_char"@ {
        Some(ColumnKind::Text)
    } else if name == "bool"@ {
        Some(ColumnKind::Bool)
    } else if name == "date"@ {
        Some(ColumnKind::Date)
    } else if name == "time"@ {
        Some(ColumnKind::Time)
    } else if name == "timestamp"@ {
        Some(ColumnKind::Timestamp)
    } else if name == "timestamptz"@ {
        Some(ColumnKind::TimestampTz)
    } else if name == "json"@ || name == "jsonb"@ {
        Some(ColumnKind::Json)
    } else if name == "bytea"@ {
        Some(ColumnKind::Bytea)
    } else {
        None
    }
}

/// Why a row could not be read.
#[derive(Clone, Debug, PartialEq, Eq)]
pub enum RowError {
    /// A column whose Postgres type the SQL interface does not read.
    UnsupportedColumnType(String),
    /// A column whose value could not be read as its type, described.
    ReadFailed(String),
}

/// The kind of the column whose Postgres type is named `pg_type`.
pub fn column_kind(pg_type: &str) -> (r: Result<ColumnKind, RowError>)
    ensures
        match r {
            Ok(k) => column_kind_of(pg_type@) == Some(k),
            Err(RowError::UnsupportedColumnType(n)) => column_kind_of(pg_type@) is None
                && n@ == pg_type@,
            Err(RowError::ReadFailed(_)) => false,
        },
{
    if str_eq(pg_type, "int4") {
        Ok(ColumnKind::Int4)
    } else if str_eq(pg_type, "int8") {
        Ok(ColumnKind::Int8)
    } else if str_eq(pg_type, "oid") {
        Ok(ColumnKind::Oid)
    } else if str_eq(pg_type, "float4") {
        Ok(ColumnKind::Float4)
    } else if str_eq(pg_type, "float8") {
        Ok(ColumnKind::Float8)
    } else if str_eq(pg_type, "text") || str_eq(pg_type, "varchar") || str_eq(pg_type, "name")
        || str_eq(pg_type, "_char") {
        Ok(ColumnKind::Text)
    } else if str_eq(pg_type, "bool") {
        Ok(ColumnKind::Bool)
    } else if str_eq(pg_type, "date") {
        Ok(ColumnKind::Date)
    } else if str_eq(pg_type, "time") {
        Ok(ColumnKind::Time)
    } else if str_eq(pg_type, "timestamp") {
        Ok(ColumnKind::Timestamp)
    } else if str_eq(pg_type, "timestamptz") {
        Ok(ColumnKind::TimestampTz)
    } else if str_eq(pg_type, "json") || str_eq(pg_type, "jsonb") {
        Ok(ColumnKind::Json)
    } else if str_eq(pg_type, "bytea") {
        Ok(ColumnKind::Bytea)
    } else {
        Err(RowError::UnsupportedColumnType(pg_type.to_owned()))
    }
}

/// A value read from a column, by the column's kind. Dates, times and
/// timestamps come as their text forms (a UTC timestamp as RFC 3339), JSON as
/// its serialized text, and floating-point values by their bit patterns.
#[derive(Clone, Debug, PartialEq, Eq)]
pub enum ColumnValue {
    Int4(Option<i32>),
    Int8(Option<i64>),
    Oid(Option<u32>),
    Float4(Option<u32>),
    Float8(Option<u64>),
    Text(Option<String>),
    Bool(Option<bool>),
    Date(Option<String>),
    Time(Option<String>),
    Timestamp(Option<String>),
    TimestampTz(Option<String>),
    Json(Option<String>),
    Bytea(Option<Vec<u8>>),
}

/// The SQL value of a column value: JSON becomes text, and both kinds of
/// timestamp become the interface's timestamp.
pub open spec fn data_type_of(v: ColumnValue) -> DataType {
    match v {
        ColumnValue::Int4(x) => DataType::Int32(x),
        ColumnValue::Int8(x) => DataType::Int64(x),
        ColumnValue::Oid(x) => DataType::Uint32(x),
        ColumnValue::Float4(x) => DataType::Float(x),
        ColumnValue::Float8(x) => DataType::Double(x),
        ColumnValue::Text(x) => DataType::Str(x),
        ColumnValue::Bool(x) => DataType::Boolean(x),
        ColumnValue::Date(x) => DataType::Date(x),
        ColumnValue::Time(x) => DataType::Time(x),
        ColumnValue::Timestamp(x) => DataType::Timestamp(x),
        ColumnValue::TimestampTz(x) => DataType::Timestamp(x),
        ColumnValue::Json(x) => DataType::Str(x),
        ColumnValue::Bytea(x) => DataType::Binary(x),
    }
}

/// Turns a column value into the SQL interface's value.
pub fn into_data_type(v: ColumnValue) -> (d: DataType)
    ensures
        d == data_type_of(v),
{
    match v {
        ColumnValue::Int4(x) => DataType::Int32(x),
        ColumnValue::Int8(x) => DataType::Int64(x),
        ColumnValue::Oid(x) => DataType::Uint32(x),
        ColumnValue::Float4(x) => DataType::Float(x),
        ColumnValue::Float8(x) => DataType::Double(x),
        ColumnValue::Text(x) => DataType::Str(x),
        ColumnValue::Bool(x) => DataType::Boolean(x),
        ColumnValue::Date(x) => DataType::Date(x),
        ColumnValue::Time(x) => DataType::Time(x),
        ColumnValue::Timestamp(x) => DataType::Timestamp(x),
        ColumnValue::TimestampTz(x) => DataType::Timestamp(x),
        ColumnValue::Json(x) => DataType::Str(x),
        ColumnValue::Bytea(x) => DataType::Binary(x),
    }
}

/// A named value of a row.
#[derive(Clone, Debug, PartialEq, Eq)]
pub struct Field {
    pub name: String,
    pub value: DataType,
}

/// A result row: its position in the result, in decimal, and its fields.
#[derive(Clone, Debug, PartialEq, Eq)]
pub struct Row {
    pub index: String,
    pub fields: Vec<Field>,
}

/// The row at position `idx` of a result, with its fields in column order.
pub fn make_row(idx: usize, fields: Vec<Field>) -> (r: Row)
    ensures
        r.index@ == decimal(idx as nat),
        r.fields == fields,
{
    Row { index: decimal_string(idx as u64), fields }
}

/// A column of a result row as read: its name, its Postgres type's name,
/// and the value read from it by that type (or why it could not be read).
/// The value of a column whose type the SQL interface does not read is not
/// looked at.
#[derive(Debug)]
pub struct ColumnRead {
    pub name: String,
    pub pg_type: String,
    pub value: Result<ColumnValue, String>,
}

/// The fields of a row whose columns were read as `cols`, in column order:
/// each column's name with its value as the interface's value. The first
/// column whose type is not read, or whose value could not be read, fails
/// the row.
pub open spec fn row_fields_of(cols: Seq<ColumnRead>) -> Result<Seq<Field>, RowError>
    decreases cols.len(),
{
    if cols.len() == 0 {
        Ok(Seq::empty())
    } else {
        match row_fields_of(cols.drop_last()) {
            Err(e) => Err(e),
            Ok(fields) => {
                let c = cols.last();
                match column_kind_of(c.pg_type@) {
                    None => Err(RowError::UnsupportedColumnType(c.pg_type)),
                    Some(_) => match c.value {
                        Err(m) => Err(RowError::ReadFailed(m)),
                        Ok(v) => Ok(fields.push(Field { name: c.name, value: data_type_of(v) })),
                    },
                }
            },
        }
    }
}

/// A failure in `cols` stays the row's failure whatever columns follow.
proof fn lemma_row_fields_first_error(cols: Seq<ColumnRead>, i: int, e: RowError)
    requires
        0 <= i < cols.len(),
        row_fields_of(cols.take(i + 1)) == Err::<Seq<Field>, RowError>(e),
    ensures
        row_fields_of(cols) == Err::<Seq<Field>, RowError>(e),
    decreases cols.len() - i,
{
    if i + 1 < cols.len() {
        assert(cols.take(i + 2).drop_last() =~= cols.take(i + 1));
        lemma_row_fields_first_error(cols, i + 1, e);
    } else {
        assert(cols.take(i + 1) =~= cols);
    }
}

/// The row at position `idx` of a result whose columns were read as
/// `columns`: one field per column, named as the column, in column order;
/// the first column whose type is not read or whose value could not be read
/// fails the row.
pub fn into_row(idx: usize, columns: Vec<ColumnRead>) -> (r: Result<Row, RowError>)
    ensures
        match r {
            Ok(row) => row.index@ == decimal(idx as nat)
                && row_fields_of(columns@) == Ok::<Seq<Field>, RowError>(row.fields@),
            Err(e) => row_fields_of(columns@) == Err::<Seq<Field>, RowError>(e),
        },
{
    let ghost all = columns@;
    let mut rest = columns;
    let mut fields: Vec<Field> = Vec::new();
    let mut i: usize = 0;
    let total: usize = rest.len();
    assert(all.take(0) =~= Seq::<ColumnRead>::empty());
    while rest.len() > 0
        invariant
            all == columns@,
            total == all.len(),
            i + rest@.len() == all.len(),
            rest@ == all.subrange(i as int, all.len() as int),
            row_fields_of(all.take(i as int)) == Ok::<Seq<Field>, RowError>(fields@),
        decreases rest@.len(),
    {
        let c = rest.remove(0);
        assert(c == all[i as int]);
        assert(all.take(i + 1).drop_last() =~= all.take(i as int));
        assert(all.take(i + 1).last() == all[i as int]);
        match column_kind(c.pg_type.as_str()) {
            Err(_) => {
                proof {
                    lemma_row_fields_first_error(all, i as int, RowError::UnsupportedColumnType(c.pg_type));
                }
                return Err(RowError::UnsupportedColumnType(c.pg_type));
            },
            Ok(_) => {},
        }
        match c.value {
            Err(m) => {
                proof {
                    lemma_row_fields_first_error(all, i as int, RowError::ReadFailed(m));
                }
                return Err(RowError::ReadFailed(m));
            },
            Ok(v) => {
                fields.push(Field { name: c.name, value: into_data_type(v) });
            },
        }
        assert(rest@ =~= all.subrange(i + 1, all.len() as int));
        i = i + 1;
    }
    assert(all.take(i as int) =~= all);
    Ok(make_row(idx, fields))
}

/// How a parameter is written for a column: as SQL `NULL`, as a JSON
/// document parsed from its text, or as its own value.
#[derive(Clone, Copy, Debug, PartialEq, Eq)]
pub enum ParamEncoding {
    Null,
    Json,
    Native,
}

/// Why a parameter could not be written.
#[derive(Clone, Copy, Debug, PartialEq, Eq)]
pub enum ParamEncodeError {
    /// Text for a JSON column that is not JSON.
    InvalidJson,
}

/// Whether a parameter holds no value.
pub open spec fn param_is_null(p: PgTypeView) -> bool {
    match p {
        PgTypeView::Int32(v) => v is None,
        PgTypeView::Int64(v) => v is None,
        PgTypeView::Uint32(v) => v is None,
        PgTypeView::Float(v) => v is None,
        PgTypeView::Double(v) => v is None,
        PgTypeView::Text(v) => v is None,
        PgTypeView::Bool(v) => v is None,
        PgTypeView::Date(v) => v is None,
        PgTypeView::Time(v) => v is None,
        PgTypeView::Timestamp(v) => v is None,
        PgTypeView::TimestampTz(v) => v is None,
        PgTypeView::Binary(v) => v is None,
    }
}

/// How `param` is written for a column whose type is JSON or JSONB
/// (`json_column`) or another type: a parameter without a value is `NULL`;
/// text for a JSON column is written as the JSON document it parses to, and
/// fails when it is not JSON; any other value is written as itself.
pub open spec fn param_encoding_spec(param: PgTypeView, json_column: bool) -> Result<ParamEncoding, ParamEncodeError> {
    if param_is_null(param) {
        Ok(ParamEncoding::Null)
    } else {
        match param {
            PgTypeView::Text(Some(raw)) => if !json_column {
                Ok(ParamEncoding::Native)
            } else if json_text_valid(raw) {
                Ok(ParamEncoding::Json)
            } else {
                Err(ParamEncodeError::InvalidJson)
            },
            _ => Ok(ParamEncoding::Native),
        }
    }
}

/// Decides how `param` is written for a column of JSON type (`json_column`)
/// or another type.
pub fn param_encoding(param: &PgType, json_column: bool) -> (r: Result<ParamEncoding, ParamEncodeError>)
    ensures
        r == param_encoding_spec(param@, json_column),
{
    match param {
        PgType::Int32(v) => if v.is_none() { Ok(ParamEncoding::Null) } else { Ok(ParamEncoding::Native) },
        PgType::Int64(v) => if v.is_none() { Ok(ParamEncoding::Null) } else { Ok(ParamEncoding::Native) },
        PgType::Uint32(v) => if v.is_none() { Ok(ParamEncoding::Null) } else { Ok(ParamEncoding::Native) },
        PgType::Float(v) => if v.is_none() { Ok(ParamEncoding::Null) } else { Ok(ParamEncoding::Native) },
        PgType::Double(v) => if v.is_none() { Ok(ParamEncoding::Null) } else { Ok(ParamEncoding::Native) },
        PgType::Bool(v) => if v.is_none() { Ok(ParamEncoding::Null) } else { Ok(ParamEncoding::Native) },
        PgType::Date(v) => if v.is_none() { Ok(ParamEncoding::Null) } else { Ok(ParamEncoding::Native) },
        PgType::Time(v) => if v.is_none() { Ok(ParamEncoding::Null) } else { Ok(ParamEncoding::Native) },
        PgType::Timestamp(v) => if v.is_none() { Ok(ParamEncoding::Null) } else { Ok(ParamEncoding::Native) },
        PgType::TimestampTz(v) => if v.is_none() { Ok(ParamEncoding::Null) } else { Ok(ParamEncoding::Native) },
        PgType::Binary(v) => if v.is_none() { Ok(ParamEncoding::Null) } else { Ok(ParamEncoding::Native) },
        PgType::Text(v) => match v {
            None => Ok(ParamEncoding::Null),
            Some(raw) => if !json_column {
                Ok(ParamEncoding::Native)
            } else if json_text_error(raw.as_str()).is_none() {
                Ok(ParamEncoding::Json)
            } else {
                Err(ParamEncodeError::InvalidJson)
            },
        },
    }
}

/// Reading a column keeps its value: each kind of column value becomes the
/// interface's value of the same content (integers, bit patterns, booleans,
/// texts and bytes unchanged; JSON as its text; either kind of timestamp as
/// the interface's timestamp text).
pub proof fn lemma_column_value_kept(v: ColumnValue)
    ensures
        v matches ColumnValue::Int4(x) ==> (data_type_of(v) matches DataType::Int32(y) && y == x),
        v matches ColumnValue::Int8(x) ==> (data_type_of(v) matches DataType::Int64(y) && y == x),
        v matches ColumnValue::Oid(x) ==> (data_type_of(v) matches DataType::Uint32(y) && y == x),
        v matches ColumnValue::Float4(x) ==> (data_type_of(v) matches DataType::Float(y) && y == x),
        v matches ColumnValue::Float8(x) ==> (data_type_of(v) matches DataType::Double(y) && y == x),
        v matches ColumnValue::Bool(x) ==> (data_type_of(v) matches DataType::Boolean(y) && y == x),
        v matches ColumnValue::Text(x) ==> (data_type_of(v) matches DataType::Str(y) && y == x),
        v matches ColumnValue::Date(x) ==> (data_type_of(v) matches DataType::Date(y) && y == x),
        v matches ColumnValue::Time(x) ==> (data_type_of(v) matches DataType::Time(y) && y == x),
        v matches ColumnValue::Timestamp(x) ==> (data_type_of(v) matches DataType::Timestamp(y) && y == x),
        v matches ColumnValue::TimestampTz(x) ==> (data_type_of(v) matches DataType::Timestamp(y) && y == x),
        v matches ColumnValue::Json(x) ==> (data_type_of(v) matches DataType::Str(y) && y == x),
        v matches ColumnValue::Bytea(x) ==> (data_type_of(v) matches DataType::Binary(y) && y == x),
{
}

/// A row that reads has one field per column, in column order: the field
/// has the column's name, the column's type is one the interface reads, and
/// the field holds the column's value read.
pub proof fn lemma_row_fields_elementwise(cols: Seq<ColumnRead>)
    ensures
        row_fields_of(cols) matches Ok(fields) ==> fields.len() == cols.len()
            && forall|i: int| 0 <= i < cols.len() ==> {
                &&& (#[trigger] fields[i]).name == cols[i].name
                &&& column_kind_of(cols[i].pg_type@) is Some
                &&& cols[i].value matches Ok(v) && fields[i].value == data_type_of(v)
            },
    decreases cols.len(),
{
    if cols.len() > 0 {
        lemma_row_fields_elementwise(cols.drop_last());
        if let Ok(fields) = row_fields_of(cols) {
            let init = cols.drop_last();
            assert forall|i: int| 0 <= i < cols.len() implies {
                &&& (#[trigger] fields[i]).name == cols[i].name
                &&& column_kind_of(cols[i].pg_type@) is Some
                &&& cols[i].value matches Ok(v) && fields[i].value == data_type_of(v)
            } by {
                if i < cols.len() - 1 {
                    assert(cols[i] == init[i]);
                }
            }
        }
    }
}

} // verus!
