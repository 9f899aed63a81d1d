//! JSON values, numbers and texts.
use relay::double::ONE;
use relay::json::{Json, JsonMap};

#[test]
fn values_come_back_from_their_text() {
    for s in [
        "null", "true", "-9223372036854775808", "18446744073709551615", "1.5", r#""a\"\\\n""#,
        r#"[1,[],{}]"#, r#"{"a":{"b":[1.25,"x"]},"z":null}"#,
    ] {
        assert_eq!(Json::parse(s).unwrap().to_text(), s);
    }
    for (depth, read) in [(127, true), (128, false)] {
        let s = format!("{}{}", "[".repeat(depth), "]".repeat(depth));
        assert_eq!(Json::parse(&s).is_some(), read);
        if let Some(j) = Json::parse(&s) {
            assert_eq!(j.to_text(), s);
        }
    }
    assert_eq!(Json::parse(r#"{"$serde_json::public":1}"#).unwrap().to_text(), r#"{"$serde_json::public":1}"#);
    assert!(Json::parse("{").is_none());
    assert!(Json::parse("1 2").is_none());
}

#[test]
fn objects_list_their_keys_in_order() {
    let mut m = JsonMap::new();
    for k in ["b", "", "ab", "a", "é"] {
        m.insert(k, Json::text(k));
    }
    m.insert("a", Json::Null);
    assert_eq!(m.keys(), vec!["", "a", "ab", "b", "é"]);
    m.remove("ab");
    assert!(m.get("ab").is_none());
    assert_eq!(Json::Obj(m).to_text(), r#"{"":"","a":null,"b":"b","é":"é"}"#);
}

#[test]
fn numbers_keep_their_bits() {
    let x = Json::parse("0.1").unwrap();
    assert_eq!(x.double_bits(), Some(0.1f64.to_bits()));
    assert_eq!(Json::parse("1").unwrap().double_bits(), Some(ONE));
    assert_eq!(Json::parse("7").unwrap().as_i64(), Some(7));
    assert_eq!(Json::parse("7.0").unwrap().as_i64(), None);
    assert_eq!(Json::parse("9223372036854775808").unwrap().as_i64(), None);
}
