use executable_stories::{DocEntry, Json};

fn value_of(entry: &DocEntry) -> serde_json::Value {
    entry.to_json().to_value()
}

#[test]
fn note_serializes_correctly() {
    let entry = DocEntry::note("hello");
    let json = value_of(&entry);
    assert_eq!(json["kind"], "note");
    assert_eq!(json["text"], "hello");
    assert_eq!(json["phase"], "runtime");
}

#[test]
fn tag_serializes_correctly() {
    let entry = DocEntry::tag(&["smoke", "fast"]);
    let json = value_of(&entry);
    assert_eq!(json["kind"], "tag");
    assert_eq!(json["names"], serde_json::Value::from(vec!["smoke", "fast"]));
    assert_eq!(json["phase"], "runtime");
}

#[test]
fn kv_serializes_correctly() {
    let entry = DocEntry::kv("count", serde_json::Value::from(42));
    let json = value_of(&entry);
    assert_eq!(json["kind"], "kv");
    assert_eq!(json["label"], "count");
    assert_eq!(json["value"], 42);
}

#[test]
fn code_serializes_correctly() {
    let entry = DocEntry::code("snippet", "fn main() {}", Some("rust"));
    let json = value_of(&entry);
    assert_eq!(json["kind"], "code");
    assert_eq!(json["label"], "snippet");
    assert_eq!(json["content"], "fn main() {}");
    assert_eq!(json["lang"], "rust");
}

#[test]
fn json_doc_serializes_as_code_with_json_lang() {
    let mut object = serde_json::Map::new();
    object.insert("key".to_string(), serde_json::Value::from("value"));
    let data = serde_json::Value::Object(object);
    let entry = DocEntry::json_doc("payload", &data);
    let json = value_of(&entry);
    assert_eq!(json["kind"], "code");
    assert_eq!(json["lang"], "json");
    assert_eq!(json["label"], "payload");
    assert_eq!(json["content"], "{\n  \"key\": \"value\"\n}");
}

#[test]
fn table_serializes_correctly() {
    let entry = DocEntry::table("results", &["name", "score"], &[&["Alice", "100"]]);
    let json = value_of(&entry);
    assert_eq!(json["kind"], "table");
    assert_eq!(json["columns"], serde_json::Value::from(vec!["name", "score"]));
    assert_eq!(
        json["rows"],
        serde_json::Value::from(vec![serde_json::Value::from(vec!["Alice", "100"])])
    );
}

#[test]
fn link_serializes_correctly() {
    let entry = DocEntry::link("docs", "https://example.com");
    let json = value_of(&entry);
    assert_eq!(json["kind"], "link");
    assert_eq!(json["url"], "https://example.com");
}

#[test]
fn section_serializes_correctly() {
    let entry = DocEntry::section("Details", "## Heading\nBody text");
    let json = value_of(&entry);
    assert_eq!(json["kind"], "section");
    assert_eq!(json["title"], "Details");
    assert_eq!(json["markdown"], "## Heading\nBody text");
}

#[test]
fn mermaid_serializes_correctly() {
    let entry = DocEntry::mermaid("graph TD; A-->B;", Some("Flow"));
    let json = value_of(&entry);
    assert_eq!(json["kind"], "mermaid");
    assert_eq!(json["code"], "graph TD; A-->B;");
    assert_eq!(json["title"], "Flow");
}

#[test]
fn screenshot_serializes_correctly() {
    let entry = DocEntry::screenshot("/tmp/shot.png", Some("Login page"));
    let json = value_of(&entry);
    assert_eq!(json["kind"], "screenshot");
    assert_eq!(json["path"], "/tmp/shot.png");
    assert_eq!(json["alt"], "Login page");
}

#[test]
fn custom_serializes_correctly() {
    let mut data = serde_json::Map::new();
    data.insert("latency_ms".to_string(), serde_json::Value::from(42));
    let entry = DocEntry::custom("metrics", serde_json::Value::Object(data));
    let json = value_of(&entry);
    assert_eq!(json["kind"], "custom");
    assert_eq!(json["type"], "metrics");
    assert_eq!(json["data"]["latency_ms"], 42);
}

#[test]
fn optional_members_are_left_out() {
    let code = value_of(&DocEntry::code("snippet", "x", None));
    assert!(code.get("lang").is_none());
    assert_eq!(code.as_object().unwrap().len(), 4);
    let mermaid = value_of(&DocEntry::mermaid("graph", None));
    assert!(mermaid.get("title").is_none());
    let shot = value_of(&DocEntry::screenshot("a.png", None));
    assert!(shot.get("alt").is_none());
}

#[test]
fn table_rows_are_not_held_to_the_columns() {
    let entry = DocEntry::table("ragged", &["a", "b"], &[&["1"], &["1", "2", "3"], &[]]);
    let json = value_of(&entry);
    let rows = json["rows"].as_array().unwrap();
    assert_eq!(rows.len(), 3);
    assert_eq!(rows[0].as_array().unwrap().len(), 1);
    assert_eq!(rows[1].as_array().unwrap().len(), 3);
    assert_eq!(rows[2].as_array().unwrap().len(), 0);
}

#[test]
fn clone_keeps_every_member() {
    let entry = DocEntry::kv("count", serde_json::Value::from(7));
    assert_eq!(value_of(&entry.clone()), value_of(&entry));
}

#[test]
fn no_key_occurs_twice_in_an_entry() {
    let entries = vec![
        DocEntry::note("n"),
        DocEntry::tag(&["t"]),
        DocEntry::kv("l", serde_json::Value::from(1)),
        DocEntry::code("l", "c", Some("rust")),
        DocEntry::json_doc("l", &serde_json::Value::from(1)),
        DocEntry::table("l", &["a"], &[&["1"]]),
        DocEntry::link("l", "u"),
        DocEntry::section("t", "m"),
        DocEntry::mermaid("c", Some("t")),
        DocEntry::screenshot("p", Some("a")),
        DocEntry::custom("t", serde_json::Value::from(1)),
    ];
    for entry in &entries {
        let members = match entry.to_json() {
            Json::Record(members) => members,
            other => panic!("an entry is written as a record, not as {:?}", other),
        };
        let mut keys: Vec<&str> = members.iter().map(|m| m.0.as_str()).collect();
        let written = keys.len();
        keys.sort();
        keys.dedup();
        assert_eq!(keys.len(), written);
        assert_eq!(value_of(entry).as_object().unwrap().len(), written);
    }
}
