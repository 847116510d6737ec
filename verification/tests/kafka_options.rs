use realtime::be_kafka;
use realtime::env::EnvError;
use realtime::res_kafka;
use realtime::res_kafka::RegistryOptions;

fn vars(pairs: &[(&str, &str)]) -> Vec<(String, String)> {
    pairs.iter().map(|(k, v)| (k.to_string(), v.to_string())).collect()
}

#[test]
fn registry_absent_when_only_missing() {
    assert!(RegistryOptions::from_vars(&vars(&[("KAFKA_REGISTRY_URL", "http://r")])).unwrap().is_none());
    let r = RegistryOptions::from_vars(&vars(&[
        ("KAFKA_REGISTRY_URL", "http://r"),
        ("KAFKA_REGISTRY_API_KEY", "k"),
        ("KAFKA_REGISTRY_API_SECRET", "s"),
    ]))
    .unwrap()
    .unwrap();
    assert_eq!(r.url, "http://r");
    assert_eq!(r.api_key(), "k");
    assert_eq!(r.api_secret(), "s");
    assert_eq!(r.cache_ttl_secs(), 3600);
    let e = RegistryOptions::from_vars(&vars(&[("KAFKA_REGISTRY_CACHE_TTL", "soon")])).unwrap_err();
    assert_eq!(
        e,
        vec![
            EnvError::Missing("KAFKA_REGISTRY_URL".into()),
            EnvError::Missing("KAFKA_REGISTRY_API_KEY".into()),
            EnvError::Missing("KAFKA_REGISTRY_API_SECRET".into()),
            EnvError::Invalid("KAFKA_REGISTRY_CACHE_TTL".into())
        ]
    );
}

#[test]
fn resource_options() {
    let o = res_kafka::ConnectOptions::from_vars(&vars(&[
        ("KAFKA_BROKERS", "b:9092"),
        ("KAFKA_TOPICS", "x,y"),
        ("KAFKA_PARTITION_COUNT", "-3"),
        ("COMPONENT", "svc"),
    ]))
    .unwrap();
    assert_eq!(o.env, "dev");
    assert_eq!(o.topics, Some(vec!["x".to_string(), "y".to_string()]));
    assert_eq!(o.partition_count, Some(-3));
    assert!(o.registry.is_none());
    let entries = o.config_entries_with(1234);
    assert_eq!(entries.last().unwrap(), &("client.id".to_string(), "dev-svc-1234".to_string()));
    let e = res_kafka::ConnectOptions::from_vars(&vars(&[("KAFKA_PARTITION_COUNT", "many"), ("KAFKA_REGISTRY_CACHE_TTL", "x")]))
        .unwrap_err();
    assert_eq!(e[0], EnvError::Missing("KAFKA_BROKERS".into()));
    assert_eq!(e[1], EnvError::Invalid("KAFKA_PARTITION_COUNT".into()));
    assert_eq!(e.len(), 6);
}

#[test]
fn backend_options() {
    let o = be_kafka::ConnectOptions::from_vars(&vars(&[("COMPONENT", "svc"), ("KAFKA_BROKERS", "b")])).unwrap();
    assert_eq!(o.partition_count, 12);
    assert!(o.consumer.is_none());
    assert_eq!(o.consumer_group(), None);
    let o = be_kafka::ConnectOptions::from_vars(&vars(&[("COMPONENT", "svc"), ("KAFKA_BROKERS", "b"), ("KAFKA_TOPICS", "t")]))
        .unwrap();
    assert_eq!(o.consumer_group(), Some(be_kafka::DEFAULT_GROUP.to_string()));
    let entries = o.config_entries_with(5000);
    assert_eq!(entries[0], ("client.id".to_string(), "svc-5000".to_string()));
    assert_eq!(entries.len(), 2);
    let e = be_kafka::ConnectOptions::from_vars(&vars(&[])).unwrap_err();
    assert_eq!(e, vec![EnvError::Missing("COMPONENT".into()), EnvError::Missing("KAFKA_BROKERS".into())]);
}

#[test]
fn random_client_ids_stay_in_range() {
    let o = be_kafka::ConnectOptions::from_vars(&vars(&[("COMPONENT", "c"), ("KAFKA_BROKERS", "b")])).unwrap();
    for _ in 0..50 {
        let id = o.config_entries()[0].1.clone();
        let n: u32 = id.strip_prefix("c-").unwrap().parse().unwrap();
        assert!((1000..9999).contains(&n));
    }
}

#[test]
fn consumer_config_adds_the_group() {
    let o = be_kafka::ConnectOptions::from_vars(&vars(&[
        ("COMPONENT", "svc"),
        ("KAFKA_BROKERS", "b"),
        ("KAFKA_TOPICS", "t"),
        ("KAFKA_CONSUMER_GROUP", "g1"),
    ]))
    .unwrap();
    let entries = o.consumer_config_entries_with(1111).unwrap();
    assert_eq!(entries.last().unwrap(), &("group.id".to_string(), "g1".to_string()));
    let o = be_kafka::ConnectOptions::from_vars(&vars(&[("COMPONENT", "svc"), ("KAFKA_BROKERS", "b")])).unwrap();
    assert!(o.consumer_config_entries_with(1111).is_none());
}

#[test]
fn partition_choice() {
    assert_eq!(be_kafka::select_partition(Some("3"), Some(9)), Some(3));
    assert_eq!(be_kafka::select_partition(Some("0"), None), Some(0));
    assert_eq!(be_kafka::select_partition(Some("-1"), Some(9)), Some(9));
    assert_eq!(be_kafka::select_partition(Some("x"), Some(9)), Some(9));
    assert_eq!(be_kafka::select_partition(None, None), None);
}
