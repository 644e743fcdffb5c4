use si_model::lodash;

fn value(text: &str) -> serde_json::Value {
    serde_json::from_str(text).unwrap()
}

fn path(segments: &[&str]) -> Vec<String> {
    segments.iter().map(|s| s.to_string()).collect()
}

#[test]
fn a_position_is_a_plain_decimal_number() {
    assert_eq!(lodash::position("0"), Some(0));
    assert_eq!(lodash::position("17"), Some(17));
    assert_eq!(lodash::position("18446744073709551615"), Some(usize::MAX));
    assert_eq!(lodash::position("18446744073709551616"), None);
    assert_eq!(lodash::position("99999999999999999999999"), None);
    assert_eq!(lodash::position("01"), None);
    assert_eq!(lodash::position("00"), None);
    assert_eq!(lodash::position("+1"), None);
    assert_eq!(lodash::position("-1"), None);
    assert_eq!(lodash::position("1x"), None);
    assert_eq!(lodash::position("\u{663}"), None);
    assert_eq!(lodash::position(""), None);
}

#[test]
fn a_path_leads_through_members_and_items() {
    let object = value(r#"{"a": {"b": ["x", {"c": "deep"}]}}"#);
    assert_eq!(
        lodash::get(&object, &path(&["a", "b", "1", "c"])).unwrap(),
        Some(&value(r#""deep""#))
    );
    assert_eq!(
        lodash::get(&object, &path(&["a", "b", "0"])).unwrap(),
        Some(&value(r#""x""#))
    );
}

#[test]
fn the_empty_path_leads_to_the_value_itself() {
    let object = value(r#"{"a": 1}"#);
    assert_eq!(lodash::get(&object, &path(&[])).unwrap(), Some(&object));
}

#[test]
fn a_path_can_lead_nowhere() {
    let object = value(r#"{"a": {"b": ["x"]}, "s": "text", "n": null}"#);
    assert_eq!(lodash::get(&object, &path(&["missing"])).unwrap(), None);
    assert_eq!(lodash::get(&object, &path(&["a", "b", "1"])).unwrap(), None);
    assert_eq!(lodash::get(&object, &path(&["a", "b", "x"])).unwrap(), None);
    assert_eq!(lodash::get(&object, &path(&["s", "0"])).unwrap(), None);
    assert_eq!(lodash::get(&object, &path(&["n", "a"])).unwrap(), None);
    assert_eq!(
        lodash::get(&object, &path(&["n"])).unwrap(),
        Some(&serde_json::Value::Null)
    );
}

#[test]
fn a_number_can_be_the_key_of_a_member() {
    let object = value(r#"{"0": "member"}"#);
    assert_eq!(lodash::step(&object, "0"), Some(&value(r#""member""#)));
    assert_eq!(lodash::step(&object, "1"), None);
}

#[test]
fn reading_in_parts_is_reading_at_once() {
    let object = value(r#"{"a": {"b": ["x", {"c": "deep"}]}}"#);
    let first = lodash::get(&object, &path(&["a", "b"])).unwrap().unwrap();
    let second = lodash::get(first, &path(&["1", "c"])).unwrap();
    assert_eq!(
        second,
        lodash::get(&object, &path(&["a", "b", "1", "c"])).unwrap()
    );
}
