use frontmcp_tui::json::{Json, JsonNumber};

#[test]
fn parse_reads_an_object_with_sorted_fields() {
    let v = Json::parse(r#"{"b": 1, "a": "x"}"#).unwrap();
    assert_eq!(v.get("a").and_then(|j| j.as_str()), Some("x"));
    assert_eq!(v.get("b").and_then(|j| j.as_u64()), Some(1));
    assert!(v.get("c").is_none());
    assert_eq!(v.to_text(), r#"{"a":"x","b":1}"#);
}

#[test]
fn parse_refuses_what_is_no_json() {
    assert!(Json::parse("{not json").is_none());
    assert!(Json::parse("").is_none());
}

#[test]
fn numbers_keep_their_kind() {
    let v = Json::parse("[150, -3, 1.5]").unwrap();
    let items = v.as_array().unwrap();
    assert!(matches!(items[0], Json::Number(JsonNumber::PosInt(150))));
    assert!(matches!(items[1], Json::Number(JsonNumber::NegInt(-3))));
    assert!(matches!(items[2], Json::Number(JsonNumber::Float(_))));
    assert_eq!(v.to_text(), "[150,-3,1.5]");
}
