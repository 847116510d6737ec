use realtime::postgres::{ConnectOptions, PoolConfigError, PoolEntry};
use realtime::res_sql::{affected_rows, into_json_row, into_params, FormattedValue, SqlParam, SqlValue, SqlValueError};
use realtime::sql::{self, DataType, ParamError, PgType};

fn fv(value: &str, format: &str) -> Option<FormattedValue> {
    Some(FormattedValue { value: value.to_string(), format: format.to_string() })
}

#[test]
fn resource_params() {
    let ps = into_params(&vec![
        SqlValue::Int32(-1),
        SqlValue::Uint32(7),
        SqlValue::Str("t".into()),
        SqlValue::Date(fv("2024-02-29", "%Y-%m-%d")),
        SqlValue::Time(fv("13:05", "%H:%M")),
        SqlValue::Timestamp(fv("2024/01/02 03:04:05", "%Y/%m/%d %H:%M:%S")),
        SqlValue::Date(None),
    ])
    .unwrap();
    assert_eq!(ps[0], SqlParam::Int32(-1));
    assert_eq!(ps[1], SqlParam::Oid(7));
    assert_eq!(ps[2], SqlParam::Text("t".into()));
    assert_eq!(ps[3], SqlParam::Date(Some((2024, 2, 29))));
    assert_eq!(ps[4], SqlParam::Time(Some((13, 5, 0, 0))));
    assert_eq!(ps[5], SqlParam::Timestamp(Some(((2024, 1, 2), (3, 4, 5, 0)))));
    assert_eq!(ps[6], SqlParam::Date(None));
}

#[test]
fn resource_param_errors_report_the_first() {
    assert_eq!(
        into_params(&vec![SqlValue::Int32(1), SqlValue::Uint64(1), SqlValue::Date(fv("x", "%Y"))]),
        Err(SqlValueError::NoUint64Equivalent)
    );
    assert_eq!(into_params(&vec![SqlValue::Date(fv("2023-02-29", "%Y-%m-%d"))]), Err(SqlValueError::InvalidDate));
    assert_eq!(into_params(&vec![SqlValue::Time(fv("25:00", "%H:%M"))]), Err(SqlValueError::InvalidTime));
    assert_eq!(into_params(&vec![SqlValue::Timestamp(fv("2024", "%Y"))]), Err(SqlValueError::InvalidTimestamp));
    assert_eq!(into_params(&vec![]), Ok(vec![]));
}

#[test]
fn exec_counts_are_truncated() {
    assert_eq!(affected_rows(5), 5);
    assert_eq!(affected_rows(u64::from(u32::MAX) + 2), 1);
}

#[test]
fn json_rows() {
    let row = into_json_row(3, &vec![("b".into(), Some("x".into())), ("a".into(), None)]);
    assert_eq!(row.field_name, "3");
    let v: serde_json::Value = serde_json::from_str(&row.value).unwrap();
    assert_eq!(v["b"], "x");
    assert!(v["a"].is_null());
}

#[test]
fn backend_params() {
    let ps = sql::into_params(&vec![
        DataType::Uint64(Some(5)),
        DataType::Timestamp(Some("2024-01-02T03:04:05+01:00".into())),
        DataType::Timestamp(None),
    ])
    .unwrap();
    assert_eq!(ps[0], PgType::Int64(Some(5)));
    assert_eq!(ps[1], PgType::TimestampTz(Some((1704161045, 0))));
    assert_eq!(ps[2], PgType::Timestamp(None));
    assert_eq!(
        sql::into_params(&vec![DataType::Uint64(Some(u64::MAX)), DataType::Date(Some("bad".into()))]),
        Err(ParamError::Uint64TooLarge(u64::MAX))
    );
    assert_eq!(sql::into_params(&vec![DataType::Timestamp(Some("2024-01-02 03:04:05".into()))]), Err(ParamError::InvalidRfc3339));
}

#[test]
fn connection_names_select_pools() {
    let options = ConnectOptions {
        default_pool: PoolEntry { name: "DEFAULT".into(), uri: "d".into(), pool_size: 10 },
        additional_pools: vec![
            PoolEntry { name: "EVENTS".into(), uri: "e1".into(), pool_size: 1 },
            PoolEntry { name: "EVENTS".into(), uri: "e2".into(), pool_size: 2 },
        ],
    };
    assert_eq!(options.pool_for("default").unwrap().uri, "d");
    assert_eq!(options.pool_for("events").unwrap().uri, "e2");
    assert!(options.pool_for("other").is_none());
}

#[test]
fn pool_plan_covers_every_pool() {
    let mut options = ConnectOptions {
        default_pool: PoolEntry { name: "DEFAULT".into(), uri: "postgres://u:p@h:1/d".into(), pool_size: 10 },
        additional_pools: vec![PoolEntry { name: "EVENTS".into(), uri: "postgres://v:q@g:2/e".into(), pool_size: 3 }],
    };
    let plan = options.pool_plan().unwrap();
    assert_eq!(plan.len(), 2);
    assert_eq!(plan[1].0, "EVENTS");
    assert_eq!(plan[1].1.port, 2);
    assert_eq!(plan[1].1.max_size, 3);
    options.additional_pools.push(PoolEntry { name: "BROKEN".into(), uri: "postgres://h:5/x".into(), pool_size: 1 });
    assert_eq!(options.pool_plan().unwrap_err(), ("BROKEN".to_string(), PoolConfigError::MissingUser));
}
