use wsocket_io::Json;

fn text(s: &str) -> Json {
    Json::Text(s.to_string())
}

fn object(members: Vec<(&str, Json)>) -> Json {
    Json::Object(
        members
            .into_iter()
            .map(|(key, value)| (key.to_string(), value))
            .collect(),
    )
}

#[test]
fn parses_every_kind_of_value() {
    assert_eq!(Json::parse("null").unwrap(), Json::Null);
    assert_eq!(Json::parse("true").unwrap(), Json::Bool(true));
    assert_eq!(
        Json::parse("18446744073709551615").unwrap(),
        Json::Uint(u64::MAX)
    );
    assert_eq!(
        Json::parse("-9223372036854775808").unwrap(),
        Json::Int(i64::MIN)
    );
    assert_eq!(Json::parse("\"a\\nb\"").unwrap(), text("a\nb"));
    assert_eq!(
        Json::parse("[1, [], {}]").unwrap(),
        Json::Array(vec![
            Json::Uint(1),
            Json::Array(vec![]),
            Json::Object(vec![])
        ])
    );
}

#[test]
fn keeps_floats() {
    for (source, printed) in [
        ("1.5", "1.5"),
        ("1.50", "1.5"),
        ("-0.0", "-0.0"),
        ("0.1", "0.1"),
    ] {
        let json = Json::parse(source).unwrap();
        match &json {
            Json::Float(float) => assert_eq!(float.as_str(), printed),
            other => panic!("{:?}", other),
        }
        assert_eq!(json.to_text(), printed);
        assert_eq!(json.clone().to_text(), printed);
        assert_eq!(json.as_u64(), None);
    }
}

#[test]
fn carries_floats_exactly() {
    let exact: f64 = 5e-324;
    for float in [exact, 2.2250738585072014e-308, 1.7976931348623157e308, 0.3] {
        let value = serde_json::Value::from(float);
        assert_eq!(Json::from_value(value.clone()).to_value(), value);
    }
}

#[test]
fn rejects_what_is_not_json() {
    assert!(Json::parse("").is_err());
    assert!(Json::parse("{").is_err());
    assert!(Json::parse("1 2").is_err());
    assert!(Json::parse("'a'").is_err());
}

#[test]
fn takes_over_and_gives_back_values() {
    let value: serde_json::Value =
        serde_json::from_str("{\"b\":[1,-2,0.5,null,true],\"a\":{\"c\":\"d\"}}").unwrap();
    let json = Json::from_value(value.clone());
    assert_eq!(
        json.get("a").unwrap().get("c").unwrap().as_str(),
        Some("d")
    );
    assert_eq!(json.to_value(), value);
}

#[test]
fn prints_members_in_key_order() {
    let json = object(vec![("b", Json::Uint(1)), ("a", Json::Null)]);
    assert_eq!(json.to_text(), "{\"a\":null,\"b\":1}");
}

#[test]
fn the_later_of_two_members_counts() {
    let json = object(vec![("a", Json::Uint(1)), ("a", Json::Uint(2))]);
    assert_eq!(json.get("a"), Some(&Json::Uint(2)));
    assert_eq!(json.to_text(), "{\"a\":2}");
    let json = object(vec![
        ("a", Json::Uint(1)),
        ("b", Json::Uint(2)),
        ("a", Json::Uint(3)),
        ("b", Json::Uint(4)),
        ("a", Json::Null),
    ]);
    assert_eq!(json.to_text(), "{\"a\":null,\"b\":4}");
    assert_eq!(json.clone().get("b"), Some(&Json::Uint(4)));
}

#[test]
fn a_printed_value_reads_back() {
    let json = object(vec![
        ("list", Json::Array(vec![Json::Int(-7), text("\u{1}\"\\/é"), Json::Bool(false)])),
        ("n", Json::Uint(u64::MAX)),
    ]);
    assert_eq!(Json::parse(&json.to_text()).unwrap(), json);
}

#[test]
fn a_value_at_the_depth_limit_reads_back() {
    let mut json = Json::Null;
    for _ in 0..127 {
        json = Json::Array(vec![json]);
    }
    assert_eq!(Json::parse(&json.to_text()).unwrap(), json);
    let deeper = Json::Array(vec![json]);
    assert!(Json::parse(&deeper.to_text()).is_err());
}

#[test]
fn looks_up_members() {
    let json = object(vec![("a", Json::Uint(1))]);
    assert_eq!(json.get("a"), Some(&Json::Uint(1)));
    assert_eq!(json.get("b"), None);
    assert_eq!(Json::Null.get("a"), None);
    assert_eq!(Json::Array(vec![Json::Uint(1)]).get("0"), None);
}

#[test]
fn reads_plain_values() {
    assert_eq!(text("x").as_str(), Some("x"));
    assert_eq!(Json::Null.as_str(), None);
    assert_eq!(Json::Uint(3).as_u64(), Some(3));
    assert_eq!(Json::Int(3).as_u64(), Some(3));
    assert_eq!(Json::Int(-3).as_u64(), None);
    assert_eq!(text("3").as_u64(), None);
    assert_eq!(Json::Bool(true).as_bool(), Some(true));
    assert_eq!(Json::Uint(1).as_bool(), None);
    assert_eq!(Json::Array(vec![]).as_array(), Some(&vec![]));
    assert_eq!(Json::Object(vec![]).as_array(), None);
}
