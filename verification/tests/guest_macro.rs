use realtime::buildgen::extract_params;

#[test]
fn test_parse_params() {
    let params = extract_params("{vehicle_id}/{trip_id}");
    assert_eq!(params, vec!["vehicle_id".to_string(), "trip_id".to_string()]);
}

use realtime::buildgen::{
    build_plan, distinct_backends, parse_input_settings, parse_path_params, parse_route, parse_route_strict,
    parse_topic, route_handler_name, route_method, topic_handler_name, wasi_ident, HostBinding, MethodError,
    PathParamError, RouteError, SettingsError,
};

fn strings(v: &[&str]) -> Vec<String> {
    v.iter().map(|s| s.to_string()).collect()
}

#[test]
fn parses_example_like_input_without_commas() {
    let settings = parse_input_settings(&strings(&["owner", "provider", "http", "messaging"])).expect("should parse");
    assert_eq!(settings.http, Some(2));
    assert_eq!(settings.messaging, Some(3));

    let route = parse_route(
        "/jobs/detector",
        &strings(&["method", "request", "reply"]),
        &strings(&["get", "DetectionRequest", "DetectionReply"]),
        true,
    )
    .expect("should have http");
    assert_eq!(route.path, "/jobs/detector");
    assert!(route.params.is_empty());

    let topic = parse_topic("realtime-r9k.v1", &strings(&["message"]), &strings(&["R9kMessage"]), true)
        .expect("should have messaging");
    assert_eq!(topic.pattern, "realtime-r9k.v1");
}

#[test]
fn parses_http_path_params() {
    parse_input_settings(&strings(&["owner", "provider", "http"])).expect("should parse");
    let route = parse_route(
        "/god-mode/set-trip/{vehicle_id}/{trip_id}",
        &strings(&["method", "request", "reply"]),
        &strings(&["get", "SetTripRequest", "SetTripReply"]),
        true,
    )
    .expect("should have http");
    assert_eq!(route.params.len(), 2);
    assert_eq!(route.params[0], "vehicle_id");
    assert_eq!(route.params[1], "trip_id");
}

#[test]
fn path_param_errors() {
    assert_eq!(parse_path_params("/a/{b"), Err(PathParamError::UnclosedBrace));
    assert_eq!(parse_path_params("/a/{ }"), Err(PathParamError::EmptyParam));
    assert_eq!(parse_path_params("/a/{b{c}}"), Err(PathParamError::NestedBrace));
    assert_eq!(parse_path_params("/a/{type}"), Err(PathParamError::InvalidName("type".into())));
    assert_eq!(parse_path_params("/a/{1x}"), Err(PathParamError::InvalidName("1x".into())));
    assert_eq!(parse_path_params("/a/{ id }").unwrap(), strings(&["id"]));
}

#[test]
fn regex_style_params_skip_invalid_names() {
    assert_eq!(extract_params("/{a}/{1b}/{_c9}/{d-e}/{}"), strings(&["a", "_c9"]));
}

#[test]
fn route_settings_errors() {
    let keys = strings(&["method", "request"]);
    let r = parse_route("/x", &keys, &strings(&["put", "Req"]), true);
    assert!(matches!(r, Err(RouteError::Method(MethodError::UnsupportedMethod(m))) if m == "put"));
    let r = parse_route("/x", &keys, &strings(&["POST", "Req"]), true);
    assert_eq!(r, Err(RouteError::Settings(SettingsError::MissingField("reply".into()))));
    let r = parse_route("/x", &strings(&["verb"]), &strings(&["get"]), true);
    assert_eq!(r, Err(RouteError::Settings(SettingsError::UnknownField("verb".into()))));
    let r = parse_route_strict("/x", &strings(&["reply", "reply"]), &strings(&["A", "B"]));
    assert_eq!(r, Err(RouteError::Settings(SettingsError::RepeatedField("reply".into()))));
    let r = parse_route("/{id}", &strings(&["request", "reply", "reply"]), &strings(&["Q", "A", "B"]), true).unwrap();
    assert_eq!(r.method, "get");
    assert_eq!(r.reply, "B");
    assert_eq!(r.params, strings(&["id"]));
}

#[test]
fn methods_and_names() {
    assert_eq!(route_method(Some("POST")).unwrap(), "post");
    assert_eq!(route_method(None).unwrap(), "get");
    assert_eq!(route_handler_name("SetTripRequest"), "settrip");
    assert_eq!(topic_handler_name("R9kMessage"), "r9k");
    assert_eq!(topic_handler_name("Other"), "other");
    assert_eq!(wasi_ident("WasiHttp"), "wasi_http");
    assert_eq!(wasi_ident("WasiKeyValue"), "wasi_keyvalue");
}

#[test]
fn input_settings_require_owner_and_provider() {
    assert_eq!(
        parse_input_settings(&strings(&["provider"])),
        Err(SettingsError::MissingField("owner".into()))
    );
    assert_eq!(
        parse_input_settings(&strings(&["owner", "owner"])),
        Err(SettingsError::MissingField("provider".into()))
    );
    assert_eq!(
        parse_input_settings(&strings(&["owner", "nope"])),
        Err(SettingsError::UnknownField("nope".into()))
    );
}

#[test]
fn backends_are_deduplicated_in_order() {
    assert_eq!(distinct_backends(&strings(&["Nats", "Mongo", "Nats", "Redis", "Mongo"])), strings(&["Nats", "Mongo", "Redis"]));
}

#[test]
fn build_plan_binds_hosts_to_backends() {
    let hosts = vec![
        HostBinding { host_type: "WasiHttp".into(), backend: "HttpDefault".into() },
        HostBinding { host_type: "WasiKeyValue".into(), backend: "Nats".into() },
        HostBinding { host_type: "WasiMessaging".into(), backend: "Nats".into() },
    ];
    let plan = build_plan(&strings(&["HttpDefault", "Nats", "Nats"]), &hosts, true);
    assert_eq!(
        plan.context_fields,
        vec![("HttpDefault".to_string(), "HttpDefault".to_string()), ("Nats".to_string(), "Nats".to_string())]
    );
    assert_eq!(plan.store_fields[1], ("wasi_keyvalue".to_string(), "Nats".to_string()));
    assert_eq!(plan.store_values, plan.store_fields);
    assert_eq!(plan.host_types, strings(&["WasiHttp", "WasiKeyValue", "WasiMessaging"]));
    assert_eq!(plan.view_modules, strings(&["wasi_http", "wasi_keyvalue", "wasi_messaging"]));
    assert!(plan.gen_main);
}

#[test]
fn extracted_params_match_the_regex_pattern() {
    let re = regex::Regex::new(r"\{([A-Za-z_][A-Za-z0-9_]*)\}").unwrap();
    for path in ["{vehicle_id}/{trip_id}", "/a/{b}/{{c}}/{d}e}/{_}/{9}", "{x{y}}", "plain", "{a}{b}", "{é}", "}{a}{"] {
        let expected: Vec<String> = re.captures_iter(path).map(|c| c[1].to_string()).collect();
        assert_eq!(extract_params(path), expected, "path {path}");
    }
}
