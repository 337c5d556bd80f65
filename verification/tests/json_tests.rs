use er_menus::json::{get, json_text_of, JsonValue, MatchResult, Navigator};

fn s(text: &str) -> JsonValue {
    JsonValue::String(text.to_string())
}

fn obj(members: Vec<(&str, JsonValue)>) -> JsonValue {
    JsonValue::Object(members.into_iter().map(|(k, v)| (k.to_string(), v)).collect())
}

fn animations() -> JsonValue {
    JsonValue::Array(vec![
        obj(vec![
            ("events", JsonValue::Array(vec![obj(vec![("id", JsonValue::Number("1".to_string()))])])),
            ("name", s("Wild Strikes")),
        ]),
        obj(vec![("name", s("Wild Strikes Extra"))]),
        obj(vec![("name", JsonValue::Number("5".to_string()))]),
        obj(vec![("other", s("x"))]),
    ])
}

fn text(v: &JsonValue) -> String {
    json_text_of(v).into_iter().collect()
}

#[test]
fn compact_json_text() {
    let v = JsonValue::Array(vec![
        JsonValue::Null,
        JsonValue::Bool(true),
        JsonValue::Bool(false),
        JsonValue::Number("1.5".to_string()),
        s("a\"b\\\n\u{1}\u{7f}é"),
        obj(vec![("k", JsonValue::Number("2".to_string())), ("e", JsonValue::Array(vec![]))]),
    ]);
    assert_eq!(text(&v), "[null,true,false,1.5,\"a\\\"b\\\\\\n\\u0001\u{7f}é\",{\"k\":2,\"e\":[]}]");
    assert_eq!(text(&obj(vec![])), "{}");
}

#[test]
fn member_lookup() {
    let o = obj(vec![("a", s("1")), ("b", JsonValue::Null)]);
    assert_eq!(get(&o, "b"), Some(&JsonValue::Null));
    assert_eq!(get(&o, "c"), None);
    assert_eq!(get(&s("a"), "a"), None);
}

#[test]
fn exact_search_finds_first_ignoring_case() {
    let nav = Navigator::new(animations());
    match nav.find_by_key_value_adv("name", Some("WILD STRIKES"), false, true) {
        MatchResult::SingleExact(v) => assert_eq!(get(v, "name"), Some(&s("Wild Strikes"))),
        _ => panic!("expected an exact match"),
    }
    assert!(matches!(
        nav.find_by_key_value_adv("name", Some("Wild"), false, true),
        MatchResult::NoMatch
    ));
}

#[test]
fn contains_search_outcomes() {
    let nav = Navigator::new(animations());
    match nav.find_by_key_value_adv("name", Some("wild"), false, false) {
        MatchResult::Keys(keys) => assert_eq!(keys, vec!["Wild Strikes", "Wild Strikes Extra"]),
        _ => panic!("expected keys"),
    }
    match nav.find_by_key_value_adv("name", Some("wild"), true, false) {
        MatchResult::All(all) => assert_eq!(all.len(), 2),
        _ => panic!("expected all matches"),
    }
    match nav.find_by_key_value_adv("name", Some("5"), false, false) {
        MatchResult::Single(v) => assert_eq!(get(v, "name"), Some(&JsonValue::Number("5".to_string()))),
        _ => panic!("expected one match"),
    }
    match nav.find_by_key_value_adv("name", None, false, false) {
        MatchResult::Keys(keys) => assert_eq!(keys, vec!["Wild Strikes", "Wild Strikes Extra"]),
        _ => panic!("expected keys"),
    }
    assert!(matches!(
        nav.find_by_key_value_adv("name", Some("zzz"), true, false),
        MatchResult::NoMatch
    ));
    match nav.find_by_key_value_adv("events", None, true, false) {
        MatchResult::Single(v) => {
            assert_eq!(text(v), "{\"events\":[{\"id\":1}],\"name\":\"Wild Strikes\"}")
        }
        _ => panic!("expected one match"),
    }
    match nav.find_by_key_value_adv("events", Some("\"ID\":1"), true, false) {
        MatchResult::Single(_) => {}
        _ => panic!("expected the events array to match by its text"),
    }
}

#[test]
fn single_value_search() {
    let nav = Navigator::new(obj(vec![("events", JsonValue::Array(vec![])), ("name", s("n"))]));
    assert_eq!(nav.len(), 1);
    match nav.find_by_key_value_adv("events", None, true, false) {
        MatchResult::Single(v) => assert_eq!(*v, JsonValue::Array(vec![])),
        _ => panic!("expected the member"),
    }
    assert!(nav.find_by_key_value("name", "n").is_none());
}

#[test]
fn navigation() {
    let mut nav = Navigator::new(animations());
    assert_eq!(nav.len(), 4);
    assert_eq!(get(nav.current().unwrap(), "name"), Some(&s("Wild Strikes")));
    assert!(nav.prev().is_some());
    assert_eq!(get(nav.next().unwrap(), "name"), Some(&s("Wild Strikes Extra")));
    assert_eq!(get(nav.jump_to(3).unwrap(), "other"), Some(&s("x")));
    assert_eq!(get(nav.next().unwrap(), "other"), Some(&s("x")));
    assert!(nav.jump_to(4).is_none());
    assert_eq!(get(nav.current().unwrap(), "other"), Some(&s("x")));
    assert_eq!(get(nav.prev().unwrap(), "name"), Some(&JsonValue::Number("5".to_string())));

    let mut single = Navigator::new(s("only"));
    assert!(single.next().is_none());
    assert_eq!(single.current(), Some(&s("only")));
    assert!(single.jump_to(0).is_none());

    let mut empty = Navigator::new(JsonValue::Array(vec![]));
    assert_eq!(empty.len(), 0);
    assert!(empty.current().is_none());
    assert!(empty.next().is_none());
    assert!(empty.prev().is_none());
}

#[test]
fn string_member_searches() {
    let nav = Navigator::new(animations());
    assert_eq!(
        get(nav.find_by_key_value("name", "Wild Strikes Extra").unwrap(), "name"),
        Some(&s("Wild Strikes Extra"))
    );
    assert!(nav.find_by_key_value("name", "wild strikes").is_none());
    assert!(nav.find_by_key_value("name", "5").is_none());
    assert_eq!(
        get(nav.find_nested(&["name"], "Wild Strikes").unwrap(), "name"),
        Some(&s("Wild Strikes"))
    );
    assert!(nav.find_nested(&["events", "id"], "1").is_none());
}
