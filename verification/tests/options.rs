use realtime::azkeyvault::{debug_build, release_build};
use realtime::azure;
use realtime::env::EnvError;
use realtime::mongodb::{backend as mongo_backend, resource as mongo_resource};
use realtime::nats;
use realtime::otel;
use realtime::redis::{backend as redis_backend, resource as redis_resource};
use realtime::res_postgres;

fn vars(pairs: &[(&str, &str)]) -> Vec<(String, String)> {
    pairs.iter().map(|(k, v)| (k.to_string(), v.to_string())).collect()
}

#[test]
fn redis_backend_defaults() {
    let o = redis_backend::ConnectOptions::from_vars(&vars(&[])).expect("defaults");
    assert_eq!(o.url, "redis://localhost:6379");
    assert_eq!(o.max_retries, 3);
    assert_eq!(o.max_delay, 1000);
}

#[test]
fn redis_backend_reads_settings() {
    let o = redis_backend::ConnectOptions::from_vars(&vars(&[
        ("REDIS_URL", "redis://cache:6380"),
        ("REDIS_MAX_RETRIES", "7"),
        ("REDIS_MAX_DELAY", "+250"),
    ]))
    .expect("settings");
    assert_eq!(o.url, "redis://cache:6380");
    assert_eq!(o.max_retries, 7);
    assert_eq!(o.max_delay, 250);
}

#[test]
fn redis_backend_reports_every_invalid_setting() {
    let e = redis_backend::ConnectOptions::from_vars(&vars(&[
        ("REDIS_MAX_RETRIES", "three"),
        ("REDIS_MAX_DELAY", "-1"),
    ]))
    .unwrap_err();
    assert_eq!(
        e,
        vec![
            EnvError::Invalid("REDIS_MAX_RETRIES".to_string()),
            EnvError::Invalid("REDIS_MAX_DELAY".to_string())
        ]
    );
}

#[test]
fn redis_resource_reads_address() {
    let o = redis_resource::ConnectOptions::from_vars(&vars(&[("REDIS_ADDR", "redis://r:1")])).unwrap();
    assert_eq!(o.address, "redis://r:1");
    assert_eq!(o.max_delay_ms, 1000);
    let e = redis_resource::ConnectOptions::from_vars(&vars(&[("REDIS_MAX_DELAY", "")])).unwrap_err();
    assert_eq!(e, vec![EnvError::Invalid("REDIS_MAX_DELAY".to_string())]);
}

#[test]
fn mongodb_requires_url() {
    let e = mongo_backend::ConnectOptions::from_vars(&vars(&[])).unwrap_err();
    assert_eq!(e, vec![EnvError::Missing("MONGODB_URL".to_string())]);
    let o = mongo_resource::ConnectOptions::from_vars(&vars(&[("MONGODB_URL", "mongodb://db")])).unwrap();
    assert_eq!(o.uri, "mongodb://db");
}

#[test]
fn otel_default_and_override() {
    assert_eq!(otel::ConnectOptions::from_vars(&vars(&[])).grpc_url, "http://localhost:4317");
    assert_eq!(
        otel::ConnectOptions::from_vars(&vars(&[("OTEL_GRPC_URL", "http://otel:4317")])).grpc_url,
        "http://otel:4317"
    );
}

#[test]
fn res_postgres_options() {
    let o = res_postgres::ConnectOptions::from_vars(&vars(&[("POSTGRES_URL", "postgres://u:p@h:5432/d")])).unwrap();
    assert_eq!(o.pool_size, 10);
    let e = res_postgres::ConnectOptions::from_vars(&vars(&[("POSTGRES_POOL_SIZE", "x")])).unwrap_err();
    assert_eq!(
        e,
        vec![
            EnvError::Missing("POSTGRES_URL".to_string()),
            EnvError::Invalid("POSTGRES_POOL_SIZE".to_string())
        ]
    );
}

#[test]
fn nats_options_and_credentials() {
    let o = nats::ConnectOptions::from_vars(&vars(&[("NATS_TOPICS", "a,b,,c")])).unwrap();
    assert_eq!(o.address, "demo.nats.io");
    assert_eq!(o.topics, vec!["a", "b", "", "c"]);
    assert_eq!(o.credentials(), None);
    let o = nats::ConnectOptions::from_vars(&vars(&[
        ("NATS_TOPICS", "t"),
        ("NATS_JWT", "jwt"),
        ("NATS_SEED", "seed"),
        ("NATS_ADDRESS", "nats://n:4222"),
    ]))
    .unwrap();
    assert_eq!(o.credentials(), Some(("jwt".to_string(), "seed".to_string())));
    assert_eq!(o.address, "nats://n:4222");
    let e = nats::ConnectOptions::from_vars(&vars(&[])).unwrap_err();
    assert_eq!(e, vec![EnvError::Missing("NATS_TOPICS".to_string())]);
}

#[test]
fn nats_direct_connect_plan() {
    let p = nats::connect_plan(&vars(&[("NATS_JWT", "j")]));
    assert_eq!(p.address, "demo.nats.io");
    assert_eq!(p.credentials, Some(("j".to_string(), String::new())));
    let p = nats::connect_plan(&vars(&[("NATS_SEED", "s"), ("NATS_ADDR", "x")]));
    assert_eq!(p.address, "x");
    assert_eq!(p.credentials, None);
}

#[test]
fn azure_credential_needs_all_three() {
    let o = azure::ConnectOptions::from_vars(&vars(&[
        ("AZURE_TENANT_ID", "t"),
        ("AZURE_CLIENT_ID", "c"),
        ("AZURE_KEYVAULT_URL", "https://v"),
    ]));
    assert!(o.credential.is_none());
    assert_eq!(o.keyvault_url.as_deref(), Some("https://v"));
    let o = azure::ConnectOptions::from_vars(&vars(&[
        ("AZURE_TENANT_ID", "t"),
        ("AZURE_CLIENT_ID", "c"),
        ("AZURE_CLIENT_SECRET", "s"),
    ]));
    let c = o.credential.expect("credential");
    assert_eq!((c.tenant_id.as_str(), c.client_id.as_str(), c.client_secret.as_str()), ("t", "c", "s"));
    assert!(o.keyvault_url.is_none());
}

#[test]
fn azkeyvault_options() {
    assert_eq!(
        debug_build::ConnectOptions::from_vars(&vars(&[])).unwrap_err(),
        vec![EnvError::Missing("AZURE_KEYVAULT_ADDR".to_string())]
    );
    let e = release_build::ConnectOptions::from_vars(&vars(&[("AZURE_CLIENT_ID", "c")])).unwrap_err();
    assert_eq!(
        e,
        vec![
            EnvError::Missing("AZURE_KEYVAULT_ADDR".to_string()),
            EnvError::Missing("AZURE_TENANT_ID".to_string()),
            EnvError::Missing("AZURE_CLIENT_SECRET".to_string())
        ]
    );
    let o = release_build::ConnectOptions::from_vars(&vars(&[
        ("AZURE_KEYVAULT_ADDR", "a"),
        ("AZURE_TENANT_ID", "t"),
        ("AZURE_CLIENT_ID", "c"),
        ("AZURE_CLIENT_SECRET", "s"),
    ]))
    .unwrap();
    assert_eq!(o.address, "a");
    assert_eq!(o.client_secret, "s");
}

#[test]
fn first_variable_of_a_name_counts() {
    let o = otel::ConnectOptions::from_vars(&vars(&[("OTEL_GRPC_URL", "first"), ("OTEL_GRPC_URL", "second")]));
    assert_eq!(o.grpc_url, "first");
}
