use executable_stories::calculator::{add, divide, multiply, subtract};
use executable_stories::text::decimal_string;
use executable_stories::{Collector, Json, Millis, Story};

#[test]
fn calculator_on_small_numbers() {
    assert_eq!(add(5, 3), 8);
    assert_eq!(subtract(10, 4), 6);
    assert_eq!(multiply(7, 6), 42);
    assert_eq!(divide(20, 4), 5);
}

#[test]
fn divide_rounds_toward_zero() {
    assert_eq!(divide(7, 2), 3);
    assert_eq!(divide(-7, 2), -3);
    assert_eq!(divide(7, -2), -3);
    assert_eq!(divide(-7, -2), 3);
    assert_eq!(divide(0, -5), 0);
    assert_eq!(divide(i32::MIN, i32::MIN), 1);
    assert_eq!(divide(i32::MAX, i32::MIN), 0);
    assert_eq!(divide(i32::MIN, 1), i32::MIN);
    assert_eq!(divide(i32::MAX, -1), -i32::MAX);
}

#[test]
fn decimal_string_writes_the_numeral() {
    assert_eq!(decimal_string(0), "0");
    assert_eq!(decimal_string(7), "7");
    assert_eq!(decimal_string(10), "10");
    assert_eq!(decimal_string(1_234_567_890), "1234567890");
    assert_eq!(decimal_string(u64::MAX), "18446744073709551615");
}

#[test]
fn millis_are_written_with_three_decimals() {
    assert_eq!(Millis::from_micros(42_500).to_decimal(), "42.500");
    assert_eq!(Millis::from_micros(0).to_decimal(), "0.000");
    assert_eq!(Millis::from_micros(7).to_decimal(), "0.007");
    assert_eq!(Millis::from_micros(1_000_000).to_decimal(), "1000.000");
    assert_eq!(Millis::from_micros(12_345_678).to_decimal(), "12345.678");
    assert_eq!(Millis::from_micros(42_500).as_micros(), 42_500);
    assert_eq!(Millis::from_micros(42_500).whole_millis(), 42);
}

#[test]
fn readings_of_the_clock_are_capped() {
    assert_eq!(Millis::from_reading(15).micros, 15);
    assert_eq!(Millis::from_reading(u64::MAX as u128).micros, u64::MAX);
    assert_eq!(Millis::from_reading(u64::MAX as u128 + 1).micros, u64::MAX);
    assert_eq!(Millis::from_reading(u128::MAX).micros, u64::MAX);
}

#[test]
fn every_kind_of_value_reaches_serde_json() {
    let doc = Json::Record(vec![
        ("flag".to_string(), Json::Bool(true)),
        ("count".to_string(), Json::UInt(u64::MAX)),
        ("delta".to_string(), Json::Int(-3)),
        ("time".to_string(), Json::Millis(Millis::from_micros(1_250))),
        ("name".to_string(), Json::Text("a \"quoted\" name".to_string())),
        (
            "list".to_string(),
            Json::List(vec![Json::UInt(1), Json::Text("two".to_string()), Json::List(vec![])]),
        ),
        ("raw".to_string(), Json::Raw(serde_json::Value::Null)),
    ]);
    let value = doc.to_value();
    assert_eq!(value["flag"], true);
    assert_eq!(value["count"], u64::MAX);
    assert_eq!(value["delta"], -3);
    assert_eq!(value["time"], 1.25);
    assert_eq!(value["name"], "a \"quoted\" name");
    assert_eq!(value["list"][0], 1);
    assert_eq!(value["list"][1], "two");
    assert_eq!(value["list"][2].as_array().unwrap().len(), 0);
    assert!(value["raw"].is_null());
    assert_eq!(value.as_object().unwrap().len(), 7);
    assert_eq!(doc.clone().to_value(), value);

    let text = doc.to_pretty_string().unwrap();
    let parsed: serde_json::Value = serde_json::from_str(&text).unwrap();
    assert_eq!(parsed, value);
    assert!(text.contains("\n  \"flag\": true"));
}

#[test]
fn json_lists_of_strings() {
    assert_eq!(
        Json::from_strs(&["a", "b"]).to_value(),
        serde_json::Value::from(vec!["a", "b"])
    );
    assert_eq!(
        Json::from_strings(&vec!["c".to_string()]).to_value(),
        serde_json::Value::from(vec!["c"])
    );
}

#[test]
fn without_a_trace_a_story_notes_nothing() {
    let mut collector = Collector::new();
    let story = Story::new("untraced", &mut collector);
    assert!(story.meta().is_none());
    assert!(story.docs().is_empty());
    assert_eq!(story.source_order(), Some(0));
    assert_eq!(story.scenario(), "untraced");
    assert!(!story.passed());
}

#[test]
fn trace_of_zeros_changes_nothing() {
    let mut story = Story::start("s", 3, std::time::Instant::now());
    assert!(!story.apply_trace("00000000000000000000000000000000", "0000000000000000", None));
    assert!(!story.apply_trace("", "abc", Some("https://t/{traceId}")));
    assert!(story.meta().is_none());
    assert!(story.docs().is_empty());
}

#[test]
fn trace_is_noted_with_id_and_link() {
    let mut story = Story::start("s", 3, std::time::Instant::now());
    let active = story.apply_trace("0af7651916cd43dd", "b7ad6b71", Some("https://t/{traceId}/v/{traceId}"));
    assert!(active);
    let meta = story.meta().as_ref().unwrap().to_value();
    assert_eq!(meta["otel"]["traceId"], "0af7651916cd43dd");
    assert_eq!(meta["otel"]["spanId"], "b7ad6b71");
    assert_eq!(story.docs().len(), 2);
    let id = story.docs()[0].to_json().to_value();
    assert_eq!(id["kind"], "kv");
    assert_eq!(id["label"], "Trace ID");
    assert_eq!(id["value"], "0af7651916cd43dd");
    let link = story.docs()[1].to_json().to_value();
    assert_eq!(link["kind"], "link");
    assert_eq!(link["label"], "View Trace");
    assert_eq!(link["url"], "https://t/0af7651916cd43dd/v/0af7651916cd43dd");
}

#[test]
fn story_template_comes_before_the_given_one() {
    let mut story = Story::start("s", 0, std::time::Instant::now())
        .with_trace_url_template("own/{traceId}");
    story.apply_trace("1", "2", Some("other/{traceId}"));
    assert_eq!(story.docs()[1].to_json().to_value()["url"], "own/1");

    let mut plain = Story::start("s", 0, std::time::Instant::now());
    plain.apply_trace("1", "2", None);
    assert_eq!(plain.docs().len(), 1);
}

#[test]
fn span_attributes_name_title_tags_and_tickets() {
    let story = Story::start("checkout", 0, std::time::Instant::now());
    assert_eq!(
        story.span_attributes(),
        vec![("story.scenario".to_string(), "checkout".to_string())]
    );
    let story = story.with_tags(&["smoke", "a\"b"]).with_tickets(&["T-1"]);
    assert_eq!(
        story.span_attributes(),
        vec![
            ("story.scenario".to_string(), "checkout".to_string()),
            ("story.tags".to_string(), "[\"smoke\", \"a\\\"b\"]".to_string()),
            ("story.tickets".to_string(), "[\"T-1\"]".to_string()),
        ]
    );
}

#[test]
fn begin_wrapped_and_record_duration() {
    let mut story = Story::start("s", 0, std::time::Instant::now());
    story.given("plain");
    let place = story.begin_wrapped("Given", "wrapped");
    assert_eq!(place, 1);
    assert_eq!(story.steps()[1].keyword, "And");
    assert_eq!(story.steps()[1].wrapped, Some(true));
    assert_eq!(story.steps()[1].duration_ms, None);
    story.record_duration(place, Millis::from_micros(250));
    story.record_duration(9, Millis::from_micros(1));
    assert_eq!(story.steps()[1].duration_ms, Some(Millis::from_micros(250)));
    assert_eq!(story.steps()[0].duration_ms, None);
    let tc = story.finalize(Millis::from_micros(3_000));
    assert_eq!(tc.status, "fail");
    assert_eq!(tc.duration_ms, Some(Millis::from_micros(3_000)));
    let events = tc.step_events.unwrap();
    assert_eq!(events.len(), 1);
    assert_eq!(events[0].index, Some(1));
    assert_eq!(events[0].title, Some("wrapped".to_string()));
    assert_eq!(events[0].status, None);
    assert_eq!(events[0].duration_ms, Some(Millis::from_micros(250)));
}

#[test]
fn unusual_keywords_stand_as_they_are() {
    let mut story = Story::start("s", 0, std::time::Instant::now());
    story.begin_wrapped("given", "lower case");
    story.begin_wrapped("given", "lower case again");
    story.begin_wrapped("", "empty");
    let keywords: Vec<&str> = story.steps().iter().map(|s| s.keyword.as_str()).collect();
    assert_eq!(keywords, vec!["given", "given", ""]);
}
