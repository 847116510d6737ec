use realtime::sql::{param_encoding, ParamEncodeError, ParamEncoding};
use realtime::sql::{
    column_kind, into_data_type, into_param, make_row, parse_date, parse_time, parse_timestamp_naive,
    parse_timestamp_tz, ColumnKind, ColumnValue, DataType, Field, ParamError, PgType, RowError,
    into_row, ColumnRead,
};

#[test]
fn column_kinds() {
    assert_eq!(column_kind("int4"), Ok(ColumnKind::Int4));
    assert_eq!(column_kind("varchar"), Ok(ColumnKind::Text));
    assert_eq!(column_kind("jsonb"), Ok(ColumnKind::Json));
    assert_eq!(column_kind("uuid"), Err(RowError::UnsupportedColumnType("uuid".into())));
}

#[test]
fn column_values_become_sql_values() {
    assert_eq!(into_data_type(ColumnValue::Oid(Some(3))), DataType::Uint32(Some(3)));
    assert_eq!(into_data_type(ColumnValue::TimestampTz(Some("t".into()))), DataType::Timestamp(Some("t".into())));
    assert_eq!(into_data_type(ColumnValue::Json(None)), DataType::Str(None));
}

#[test]
fn rows_are_numbered() {
    let row = make_row(12, vec![Field { name: "a".into(), value: DataType::Boolean(Some(true)) }]);
    assert_eq!(row.index, "12");
    assert_eq!(row.fields.len(), 1);
}

#[test]
fn dates_times_and_timestamps() {
    assert_eq!(parse_date(Some("2024-03-01")), Ok(Some((2024, 3, 1))));
    assert_eq!(parse_date(Some("03/01/2024")), Err(ParamError::InvalidDate));
    assert_eq!(parse_date(None), Ok(None));
    assert_eq!(parse_time(Some("10:20:30.5")), Ok(Some((10, 20, 30, 500_000_000))));
    assert_eq!(parse_time(Some("noon")), Err(ParamError::InvalidTime));
    assert_eq!(parse_timestamp_tz(Some("1970-01-01T00:00:10Z")), Ok(Some((10, 0))));
    assert_eq!(parse_timestamp_tz(Some("1970-01-01 00:00:10")), Err(ParamError::InvalidRfc3339));
    assert_eq!(parse_timestamp_naive(Some("2024-01-02 03:04:05")), Ok(Some(((2024, 1, 2), (3, 4, 5, 0)))));
    assert_eq!(parse_timestamp_naive(Some("2024-01-02")), Err(ParamError::InvalidNaiveTimestamp));
}

#[test]
fn params() {
    assert_eq!(into_param(&DataType::Uint64(Some(1 << 63))), Err(ParamError::Uint64TooLarge(1 << 63)));
    assert_eq!(into_param(&DataType::Uint64(None)), Ok(PgType::Int64(None)));
    assert_eq!(into_param(&DataType::Str(Some("s".into()))), Ok(PgType::Text(Some("s".into()))));
    assert_eq!(into_param(&DataType::Date(Some("2024-02-30".into()))), Err(ParamError::InvalidDate));
    assert_eq!(into_param(&DataType::Double(Some(2.5f64.to_bits()))), Ok(PgType::Double(Some(2.5f64.to_bits()))));
}

fn col(name: &str, pg_type: &str, value: Result<ColumnValue, String>) -> ColumnRead {
    ColumnRead { name: name.into(), pg_type: pg_type.into(), value }
}

#[test]
fn a_row_has_one_named_field_per_column() {
    let row = into_row(
        3,
        vec![
            col("id", "int8", Ok(ColumnValue::Int8(Some(7)))),
            col("doc", "jsonb", Ok(ColumnValue::Json(Some("{}".into())))),
            col("at", "timestamptz", Ok(ColumnValue::TimestampTz(None))),
        ],
    )
    .unwrap();
    assert_eq!(row.index, "3");
    assert_eq!(
        row.fields,
        vec![
            Field { name: "id".into(), value: DataType::Int64(Some(7)) },
            Field { name: "doc".into(), value: DataType::Str(Some("{}".into())) },
            Field { name: "at".into(), value: DataType::Timestamp(None) },
        ]
    );
}

#[test]
fn a_row_fails_on_its_first_bad_column() {
    let r = into_row(
        0,
        vec![
            col("a", "int4", Ok(ColumnValue::Int4(Some(1)))),
            col("b", "int4", Err("bad int".into())),
            col("c", "uuid", Err("unused".into())),
        ],
    );
    assert_eq!(r, Err(RowError::ReadFailed("bad int".into())));
    let r = into_row(0, vec![col("c", "uuid", Err("unused".into())), col("b", "int4", Err("bad int".into()))]);
    assert_eq!(r, Err(RowError::UnsupportedColumnType("uuid".into())));
    assert_eq!(into_row(5, vec![]).unwrap().fields, vec![]);
}

#[test]
fn parameter_encodings() {
    assert_eq!(param_encoding(&PgType::Int32(None), false), Ok(ParamEncoding::Null));
    assert_eq!(param_encoding(&PgType::Text(None), true), Ok(ParamEncoding::Null));
    assert_eq!(param_encoding(&PgType::Int64(Some(1)), true), Ok(ParamEncoding::Native));
    assert_eq!(param_encoding(&PgType::Text(Some("x".into())), false), Ok(ParamEncoding::Native));
    assert_eq!(param_encoding(&PgType::Text(Some(r#"{"a": 1}"#.into())), true), Ok(ParamEncoding::Json));
    assert_eq!(param_encoding(&PgType::Text(Some("{oops".into())), true), Err(ParamEncodeError::InvalidJson));
}
