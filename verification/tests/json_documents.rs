use openai::json::Json;

#[test]
fn parse_copies_every_kind_of_node() {
    let doc = Json::parse(br#"{"a": [1, -2, 1.5, "x", null, true], "b": {"c": false}}"#).unwrap();
    let items = doc.get("a").unwrap().as_array().unwrap();
    assert_eq!(items.len(), 6);
    assert!(matches!(items[0], Json::Unsigned(1)));
    assert!(matches!(items[1], Json::Signed(-2)));
    assert!(matches!(items[2], Json::Double(bits) if f64::from_bits(bits) == 1.5));
    assert_eq!(items[3].as_str(), Some("x"));
    assert!(matches!(items[4], Json::Null));
    assert!(matches!(items[5], Json::Bool(true)));
    let inner = doc.get("b").unwrap();
    assert!(matches!(inner.get("c"), Some(Json::Bool(false))));
    assert!(inner.get("d").is_none());
}

#[test]
fn parse_refuses_what_is_not_one_json_text() {
    assert!(Json::parse(b"").is_err());
    assert!(Json::parse(b"{").is_err());
    assert!(Json::parse(b"{} {}").is_err());
    assert!(Json::parse(b"{'a': 1}").is_err());
    assert!(Json::parse(&[0xff, 0xfe]).is_err());
}

#[test]
fn parse_reads_large_and_small_integers() {
    let doc = Json::parse(b"[18446744073709551615, -9223372036854775808, 0]").unwrap();
    let items = doc.as_array().unwrap();
    assert!(matches!(items[0], Json::Unsigned(u64::MAX)));
    assert!(matches!(items[1], Json::Signed(i64::MIN)));
    assert!(matches!(items[2], Json::Unsigned(0)));
}

#[test]
fn get_finds_members_by_name_only_in_objects() {
    let doc = Json::parse(br#"{"name": "n", "Name": "upper"}"#).unwrap();
    assert_eq!(doc.get("name").unwrap().as_str(), Some("n"));
    assert_eq!(doc.get("Name").unwrap().as_str(), Some("upper"));
    assert!(doc.get("nam").is_none());
    assert!(doc.get("").is_none());
    assert!(Json::Array(vec![]).get("name").is_none());
    assert!(Json::Text("name".to_string()).get("name").is_none());
}

#[test]
fn get_takes_the_first_of_two_members_with_one_name() {
    let doc = Json::Object(vec![
        ("k".to_string(), Json::Unsigned(1)),
        ("k".to_string(), Json::Unsigned(2)),
    ]);
    assert!(matches!(doc.get("k"), Some(Json::Unsigned(1))));
}

#[test]
fn typed_member_readers() {
    let doc = Json::parse(br#"{"s": "text", "n": 7, "big": 4294967296, "neg": -1, "z": null}"#)
        .unwrap();
    assert_eq!(doc.text_member("s").as_deref(), Some("text"));
    assert_eq!(doc.text_member("n"), None);
    assert_eq!(doc.text_member("missing"), None);
    assert_eq!(doc.u32_member("n"), Some(7));
    assert_eq!(doc.u32_member("big"), None);
    assert_eq!(doc.u32_member("neg"), None);
    assert_eq!(doc.u32_member("s"), None);
    assert!(matches!(doc.optional_member("n"), Some(Json::Unsigned(7))));
    assert!(doc.optional_member("z").is_none());
    assert!(doc.optional_member("missing").is_none());
    assert_eq!(doc.optional_text_member("s"), Some(Some("text".to_string())));
    assert_eq!(doc.optional_text_member("z"), Some(None));
    assert_eq!(doc.optional_text_member("missing"), Some(None));
    assert_eq!(doc.optional_text_member("n"), None);
}

#[test]
fn scalar_readers() {
    assert_eq!(Json::Unsigned(5).as_u64(), Some(5));
    assert_eq!(Json::Signed(-5).as_u64(), None);
    assert_eq!(Json::Text("5".to_string()).as_u64(), None);
    assert_eq!(Json::Text("5".to_string()).as_str(), Some("5"));
    assert_eq!(Json::Null.as_str(), None);
    assert!(Json::Null.as_array().is_none());
    assert_eq!(Json::Array(vec![Json::Null]).as_array().map(|items| items.len()), Some(1));
}

#[test]
fn constructors_and_member_helpers() {
    let mut members = Vec::new();
    Json::push_member(&mut members, "a", Json::text("x"));
    Json::push_optional(&mut members, "b", None);
    Json::push_optional(&mut members, "c", Some(Json::Bool(true)));
    let doc = Json::object(members);
    match &doc {
        Json::Object(members) => {
            assert_eq!(members.len(), 2);
            assert_eq!(members[0].0, "a");
            assert_eq!(members[1].0, "c");
        }
        other => panic!("expected an object, got {:?}", other),
    }
    assert_eq!(doc.get("a").unwrap().as_str(), Some("x"));
    assert!(doc.get("b").is_none());
    assert!(matches!(Json::array(vec![Json::Null, Json::Null]), Json::Array(ref items) if items.len() == 2));
}

#[test]
fn duplicate_copies_the_whole_tree() {
    let doc = Json::parse(br#"{"a": [1, {"b": ["x", null, 2.5, -3, false]}], "c": "d"}"#).unwrap();
    let copy = doc.duplicate();
    assert_eq!(format!("{:?}", copy), format!("{:?}", doc));
    assert_eq!(copy.get("c").unwrap().as_str(), Some("d"));
}
