use realtime::runtime_error::Error;

#[test]
fn codes_and_descriptions() {
    let cases = vec![
        (Error::BadRequest("a".into()), 400),
        (Error::Unauthorized("a".into()), 401),
        (Error::NotFound("a".into()), 404),
        (Error::Gone("a".into()), 410),
        (Error::ImATeaPot("a".into()), 418),
        (Error::ServerError("a".into()), 500),
        (Error::BadGateway("a".into()), 502),
        (Error::ServiceUnavailable("a".into()), 503),
    ];
    for (e, code) in cases {
        assert_eq!(e.code(), code);
        assert_eq!(e.description(), "a");
        assert_eq!(Error::from_code(code, "a".into()), e);
    }
}

#[test]
fn unknown_codes_are_teapots() {
    assert_eq!(Error::from_code(499, "x".into()), Error::ImATeaPot("x".into()));
    assert_eq!(Error::from_code(418, "x".into()), Error::ImATeaPot("x".into()));
}

#[test]
fn message_is_the_json_form() {
    assert_eq!(Error::NotFound("no such user".into()).message(), r#"{"code": 404, "description": "no such user"}"#);
}

#[test]
fn parse_reads_the_json_form_back() {
    let e = Error::BadGateway("upstream down".into());
    assert_eq!(Error::parse(&e.message()), e);
    let e: Error = "{\"code\": 410, \"description\": \"old\"}".parse().unwrap();
    assert_eq!(e, Error::Gone("old".into()));
}

#[test]
fn parse_fallbacks() {
    assert_eq!(Error::parse("not json"), Error::ImATeaPot("not json".into()));
    assert_eq!(Error::parse("[1]"), Error::ImATeaPot("[1]".into()));
    assert_eq!(Error::parse(r#"{"description": "d"}"#), Error::ImATeaPot("d".into()));
    assert_eq!(Error::parse(r#"{"code": 400}"#), Error::BadRequest(r#"{"code": 400}"#.into()));
    assert_eq!(Error::parse(r#"{"code": "400", "description": "d"}"#), Error::ImATeaPot("d".into()));
    assert_eq!(Error::parse(r#"{"code": 503, "description": 7}"#), Error::ServiceUnavailable(r#"{"code": 503, "description": 7}"#.into()));
}

#[test]
fn every_variant_survives_its_message() {
    let cases = vec![
        Error::BadRequest("bad input: é".into()),
        Error::Unauthorized("no token".into()),
        Error::NotFound("".into()),
        Error::Gone("stale {x}".into()),
        Error::ImATeaPot("tea".into()),
        Error::ServerError("boom".into()),
        Error::BadGateway("db: timeout".into()),
        Error::ServiceUnavailable("later".into()),
    ];
    for e in cases {
        assert_eq!(Error::parse(&e.message()), e);
    }
}
