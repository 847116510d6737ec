use realtime::azure::{open_locker, AzIdentity, AzLocker, SecretResponse, VaultError};
use realtime::mongodb::{blob_data, Blob, BlobData, BlobError};
use realtime::postgres::{pool_settings, pool_settings_from, PoolConfigError, TlsMode, UriParts};
use realtime::redis::{RedisBucket, SetCommand, TTL_DAY};

#[test]
fn redis_keys_carry_the_bucket_prefix() {
    let b = RedisBucket::new("users".to_string());
    assert_eq!(b.name(), "users");
    assert_eq!(b.key("42"), "users:42");
    assert_eq!(b.keys_pattern(), "users:*");
    assert_eq!(b.key(""), "users:");
}

#[test]
fn redis_writes_expire() {
    let b = RedisBucket::new("s".to_string());
    assert_eq!(TTL_DAY, 24 * 60 * 60);
    assert_eq!(b.set_command("k"), SetCommand::Expiring { key: "s:k".to_string(), seconds: 86400 });
    assert_eq!(b.set_command_with_ttl("k", Some(5)), SetCommand::Expiring { key: "s:k".to_string(), seconds: 5 });
    assert_eq!(b.set_command_with_ttl("k", None), SetCommand::Persistent { key: "s:k".to_string() });
}

#[test]
fn blob_of_a_json_object_is_a_document() {
    match blob_data(br#"{"a": 1}"#).unwrap() {
        BlobData::Document(d) => assert_eq!(d, br#"{"a": 1}"#.to_vec()),
        BlobData::Text(_) => panic!("expected a document"),
    }
}

#[test]
fn blob_of_a_json_string_is_text() {
    match blob_data(br#""hello \"you\"""#).unwrap() {
        BlobData::Text(s) => assert_eq!(s, "hello \"you\""),
        BlobData::Document(_) => panic!("expected text"),
    }
}

#[test]
fn blob_errors() {
    assert_eq!(blob_data(b"").unwrap_err(), BlobError::Empty);
    assert_eq!(blob_data(b"{not json").unwrap_err(), BlobError::NotDocument);
    assert_eq!(blob_data(b"[1, 2]").unwrap_err(), BlobError::NotString);
    assert_eq!(blob_data(b"plain").unwrap_err(), BlobError::NotString);
}

#[test]
fn text_blob_reads_back_as_the_same_string() {
    let blob = Blob::new("obj".to_string(), br#""caf\u00e9""#, 1_700_000_000_000).unwrap();
    assert_eq!(blob.size, 11);
    assert_eq!(blob.created_at, 1_700_000_000_000);
    let back = blob.read_bytes().unwrap();
    assert_eq!(back, "\"café\"".as_bytes().to_vec());
    let again = Blob::new("obj".to_string(), &back, 0).unwrap();
    match again.data {
        BlobData::Text(s) => assert_eq!(s, "café"),
        BlobData::Document(_) => panic!("expected text"),
    }
}

#[test]
fn document_blob_reads_back_as_json() {
    let blob = Blob::new("obj".to_string(), br#"{ "b" : true }"#, 0).unwrap();
    assert_eq!(blob.read_bytes().unwrap(), br#"{"b":true}"#.to_vec());
}

#[test]
fn azure_token_lifetime() {
    assert_eq!(AzIdentity::expires_in(1_000, 400), 600);
    assert_eq!(AzIdentity::expires_in(1_000, 1_000), 0);
    assert_eq!(AzIdentity::expires_in(1_000, 5_000), 0);
    assert_eq!(AzIdentity::expires_in(-1_000, 400), 600);
    assert_eq!(AzIdentity::expires_in(i64::MIN, 0), 9_223_372_036_854_775_808);
    assert_eq!(AzIdentity::new("client".to_string()).name(), "client");
}

#[test]
fn azure_secret_names_are_base64url() {
    let locker = open_locker(true, "app".to_string()).unwrap();
    assert_eq!(locker.identifier(), "app");
    assert_eq!(locker.secret_name("db"), "YXBwLWRi");
    assert_eq!(AzLocker::secret_value(&[0xfb, 0xff]), "-_8");
    assert!(matches!(open_locker(false, "app".to_string()), Err(VaultError::NotConfigured)));
}

#[test]
fn azure_secret_reads() {
    assert_eq!(AzLocker::read_secret(SecretResponse::NotFound).unwrap(), None);
    assert_eq!(AzLocker::read_secret(SecretResponse::Secret(None)).unwrap(), None);
    assert_eq!(AzLocker::read_secret(SecretResponse::Secret(Some("-_8".to_string()))).unwrap(), Some(vec![0xfb, 0xff]));
    assert!(matches!(AzLocker::read_secret(SecretResponse::Secret(Some("-_9".to_string()))), Err(VaultError::Undecodable)));
    assert!(matches!(AzLocker::read_secret(SecretResponse::Secret(Some("a".to_string()))), Err(VaultError::Undecodable)));
    assert!(matches!(
        AzLocker::read_secret(SecretResponse::Failed("boom".to_string())),
        Err(VaultError::GetFailed(d)) if d == "boom"
    ));
    assert!(matches!(
        AzLocker::read_secret(SecretResponse::Unreadable("bad".to_string())),
        Err(VaultError::Unreadable(d)) if d == "bad"
    ));
}

#[test]
fn azure_secret_roundtrip() {
    let value = b"s3cret value".to_vec();
    let stored = AzLocker::secret_value(&value);
    assert_eq!(AzLocker::read_secret(SecretResponse::Secret(Some(stored))).unwrap(), Some(value));
}

#[test]
fn azure_list_ids_keeps_the_lockers_own() {
    let locker = open_locker(true, "app".to_string()).unwrap();
    let ids = vec![
        Some("app-one".to_string()),
        None,
        Some("other-two".to_string()),
        Some("app-".to_string()),
        Some("app".to_string()),
        Some("app-three".to_string()),
    ];
    assert_eq!(locker.list_ids(ids), vec!["one".to_string(), String::new(), "three".to_string()]);
}

#[test]
fn pool_settings_of_a_url() {
    let s = pool_settings("postgres://alice:pw@db.example:6543/sales?sslmode=require", 4).unwrap();
    assert_eq!(s.host, "db.example");
    assert_eq!(s.port, 6543);
    assert_eq!(s.user, "alice");
    assert_eq!(s.password, "pw");
    assert_eq!(s.dbname, "sales");
    assert_eq!(s.max_size, 4);
    assert_eq!(s.tls, Some(TlsMode::Require));
    assert_eq!(s.options, "");
}

#[test]
fn pool_settings_keep_the_server_options() {
    let s = pool_settings("postgres://alice:pw@db:5432/sales?options=-c%20search_path%3Dapp", 4).unwrap();
    assert_eq!(s.options, "-c search_path=app");
    let s = pool_settings("host=db port=5432 user=u password=p dbname=d options='-c x=1'", 2).unwrap();
    assert_eq!(s.options, "-c x=1");
}

#[test]
fn pool_settings_errors() {
    assert_eq!(pool_settings("postgres://alice:pw@/sales", 4).unwrap_err(), PoolConfigError::MissingPort);
    assert_eq!(pool_settings("user=alice password=pw dbname=d", 4).unwrap_err(), PoolConfigError::MissingPort);
    let s = pool_settings("postgres://alice:pw@db/sales", 4).unwrap();
    assert_eq!(s.port, 5432);
    assert_eq!(s.tls, Some(TlsMode::Prefer));
    assert_eq!(pool_settings("postgres://alice@db:5432/sales", 4).unwrap_err(), PoolConfigError::MissingPassword);
    assert_eq!(pool_settings("postgres://db:5432/sales", 4).unwrap_err(), PoolConfigError::MissingUser);
    assert_eq!(pool_settings("postgres://alice:pw@db:5432/sales?sslmode=disable", 4).unwrap().tls, None);
    assert_eq!(pool_settings("postgres://alice:pw@db:5432", 4).unwrap_err(), PoolConfigError::MissingDatabase);
    assert_eq!(pool_settings("host=db port=x", 4).unwrap_err(), PoolConfigError::InvalidUri);
    assert_eq!(PoolConfigError::MissingPort.message(), "Port is missing");
}

#[test]
fn pool_settings_from_parts() {
    let parts = UriParts {
        hosts: vec![],
        ports: vec![5432, 5433],
        user: Some("u".to_string()),
        password: Some(vec![0xff]),
        dbname: Some("d".to_string()),
        tls: TlsMode::Other,
        options: None,
    };
    assert_eq!(pool_settings_from(Some(parts.clone()), 1).unwrap_err(), PoolConfigError::InvalidPassword);
    let mut ok = parts;
    ok.password = Some(b"p".to_vec());
    let s = pool_settings_from(Some(ok), 1).unwrap();
    assert_eq!(s.host, "");
    assert_eq!(s.port, 5432);
    assert_eq!(s.tls, None);
    assert_eq!(s.options, "");
    assert_eq!(pool_settings_from(None, 1).unwrap_err(), PoolConfigError::InvalidUri);
}

#[test]
fn direct_client_uri() {
    use_client_uri();
}

fn use_client_uri() {
    let vars = vec![("MONGODB_URI".to_string(), "mongodb://m".to_string())];
    assert_eq!(realtime::mongodb::client_uri(&vars).unwrap(), "mongodb://m");
    assert_eq!(
        realtime::mongodb::client_uri(&vec![]).unwrap_err(),
        realtime::env::EnvError::Missing("MONGODB_URI".to_string())
    );
}
