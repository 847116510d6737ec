use realtime::build_config::{tokenize, Config, ConfigParseError, ConfigToken};

fn names(c: &Config) -> Vec<(String, Vec<String>)> {
    c.components().iter().map(|c| (c.name.clone(), c.resources.clone())).collect()
}

#[test]
fn tokens_split_on_punctuation_and_space() {
    let toks = tokenize("{ a:[b ,c]}");
    let shown: Vec<String> = toks
        .iter()
        .map(|t| match t {
            ConfigToken::Punct(c) => c.to_string(),
            ConfigToken::Word(w) => format!("<{w}>"),
        })
        .collect();
    assert_eq!(shown, vec!["{", "<a>", ":", "[", "<b>", ",", "<c>", "]", "}"]);
}

#[test]
fn parses_components_and_resources() {
    let c = Config::parse("{ guest : [ mongodb , nats , vault ] , other : [ ] , }").unwrap();
    assert_eq!(
        names(&c),
        vec![
            ("guest".to_string(), vec!["mongodb".to_string(), "nats".to_string(), "vault".to_string()]),
            ("other".to_string(), vec![])
        ]
    );
    assert_eq!(names(&Config::parse("{}").unwrap()), vec![]);
    assert_eq!(names(&Config::parse("{ a: [b,] }").unwrap()), vec![("a".to_string(), vec!["b".to_string()])]);
}

#[test]
fn refuses_what_the_grammar_does_not_allow() {
    assert_eq!(Config::parse("").unwrap_err(), ConfigParseError::ExpectedObject);
    assert_eq!(Config::parse("[ ]").unwrap_err(), ConfigParseError::ExpectedObject);
    assert_eq!(Config::parse("{ type: [a] }").unwrap_err(), ConfigParseError::InvalidIdent(1));
    assert_eq!(Config::parse("{ a: [fn] }").unwrap_err(), ConfigParseError::InvalidIdent(4));
    assert_eq!(Config::parse("{ a [b] }").unwrap_err(), ConfigParseError::Unexpected(2));
    assert_eq!(Config::parse("{ a: b }").unwrap_err(), ConfigParseError::Unexpected(3));
    assert_eq!(Config::parse("{ a: [b c] }").unwrap_err(), ConfigParseError::Unexpected(5));
    assert_eq!(Config::parse("{ a: [b] c: [d] }").unwrap_err(), ConfigParseError::Unexpected(6));
    assert_eq!(Config::parse("{ a: [b] } x").unwrap_err(), ConfigParseError::Unexpected(7));
    assert_eq!(Config::parse("{ a: [b]").unwrap_err(), ConfigParseError::Unexpected(6));
}

#[test]
fn builds_configs_by_hand() {
    let mut c = Config::new();
    c.push(realtime::build_config::Component { name: "x".into(), resources: vec!["y".into()] });
    assert_eq!(names(&c), vec![("x".to_string(), vec!["y".to_string()])]);
}
