use executable_stories::{Collector, Millis, StepDoc, Story};

fn wait_at_least(millis: u64) {
    let start = std::time::Instant::now();
    while start.elapsed() < std::time::Duration::from_millis(millis) {
        std::hint::spin_loop();
    }
}

#[test]
fn auto_and_on_repeated_primary_keyword() {
    let mut collector = Collector::new();
    let mut story = Story::new("auto-and across story", &mut collector);
    story.given("first given");
    story.when("a when in between");
    story.given("second given");

    assert_eq!(story.steps()[0].keyword, "Given");
    assert_eq!(story.steps()[1].keyword, "When");
    assert_eq!(story.steps()[2].keyword, "And");
}

#[test]
fn aaa_aliases_produce_correct_keywords() {
    let mut collector = Collector::new();
    let mut story = Story::new("AAA story", &mut collector);
    story.arrange("precondition");
    story.act("action");
    story.assert_that("outcome");

    assert_eq!(story.steps()[0].keyword, "Given");
    assert_eq!(story.steps()[1].keyword, "When");
    assert_eq!(story.steps()[2].keyword, "Then");
}

#[test]
fn extra_aliases_produce_correct_keywords() {
    let mut collector = Collector::new();
    let mut story = Story::new("Extra aliases", &mut collector);
    story.setup("setup");
    story.context("context");
    story.execute("execute");
    story.action("action");
    story.verify("verify");

    assert_eq!(story.steps()[0].keyword, "Given");
    assert_eq!(story.steps()[1].keyword, "And");
    assert_eq!(story.steps()[2].keyword, "When");
    assert_eq!(story.steps()[3].keyword, "And");
    assert_eq!(story.steps()[4].keyword, "Then");
}

#[test]
fn with_docs_attaches_to_step() {
    let mut collector = Collector::new();
    let mut story = Story::new("With docs", &mut collector);
    story
        .given("a step")
        .with_docs(vec![StepDoc::note("a note"), StepDoc::tag(&["smoke"])]);

    assert_eq!(story.steps().len(), 1);
    let docs = story.steps()[0].docs.as_ref().unwrap();
    assert_eq!(docs.len(), 2);
    let note = docs[0].to_json().to_value();
    assert_eq!(note["kind"], "note");
    assert_eq!(note["text"], "a note");
    let tag = docs[1].to_json().to_value();
    assert_eq!(tag["kind"], "tag");
}

#[test]
fn step_timing() {
    let mut collector = Collector::new();
    let mut story = Story::new("Timed step", &mut collector);
    story.given("slow step");
    let token = story.start_timer();
    wait_at_least(15);
    story.end_timer(token);
    story.pass();

    assert_eq!(story.steps().len(), 1);
    let d = story.steps()[0].duration_ms.unwrap();
    assert!(d.micros >= 10_000, "duration should be >= 10 ms, got {:?}", d);
}

#[test]
fn double_end_timer_is_noop() {
    let mut collector = Collector::new();
    let mut story = Story::new("Double end", &mut collector);
    story.given("step");
    let token = story.start_timer();
    story.end_timer(token);
    let first = story.steps()[0].duration_ms;
    wait_at_least(2);
    story.end_timer(token); // no-op
    story.pass();

    assert_eq!(story.steps().len(), 1);
    assert!(story.steps()[0].duration_ms.is_some());
    assert_eq!(story.steps()[0].duration_ms, first);
}

#[test]
fn fn_step_creates_wrapped_step() {
    let mut collector = Collector::new();
    let mut story = Story::new("fn_step test", &mut collector);
    let mut called = false;
    story.fn_step("Given", "a wrapped precondition", || {
        called = true;
    });
    story.pass();

    assert!(called);
    assert_eq!(story.steps().len(), 1);
    assert_eq!(story.steps()[0].keyword, "Given");
    assert_eq!(story.steps()[0].text, "a wrapped precondition");
    assert_eq!(story.steps()[0].wrapped, Some(true));
    assert!(story.steps()[0].duration_ms.is_some());
}

#[test]
fn fn_step_records_duration() {
    let mut collector = Collector::new();
    let mut story = Story::new("fn_step duration", &mut collector);
    story.fn_step("When", "I wait briefly", || {
        wait_at_least(15);
    });
    story.pass();

    let d = story.steps()[0].duration_ms.unwrap();
    assert!(d.micros >= 10_000, "duration should be >= 10 ms, got {:?}", d);
}

#[test]
fn fn_step_returns_result() {
    let mut collector = Collector::new();
    let mut story = Story::new("fn_step return", &mut collector);
    let result = story.fn_step("When", "I compute", || 42);
    story.pass();

    assert_eq!(result, 42);
}

#[test]
#[should_panic(expected = "boom")]
fn fn_step_propagates_panics() {
    let mut collector = Collector::new();
    let mut story = Story::new("fn_step panic", &mut collector);
    story.fn_step("Then", "it panics", || {
        panic!("boom");
    });
    story.pass();
}

#[test]
fn fn_step_auto_and_conversion() {
    let mut collector = Collector::new();
    let mut story = Story::new("fn_step auto-and", &mut collector);
    story.given("a text-only step");
    story.fn_step("Given", "a wrapped step", || {});
    story.pass();

    assert_eq!(story.steps()[0].keyword, "Given");
    assert_eq!(story.steps()[1].keyword, "And");
    assert_eq!(story.steps()[1].wrapped, Some(true));
}

#[test]
fn fn_step_integration_with_markers() {
    let mut collector = Collector::new();
    let mut story = Story::new("fn_step + markers", &mut collector);
    story.given("a text-only precondition");
    story.fn_step("When", "I perform action", || {});
    story.then("a text-only assertion");
    story.fn_step("Then", "the wrapped assertion", || {});
    story.pass();

    assert_eq!(story.steps().len(), 4);
    assert_eq!(story.steps()[0].wrapped, None);
    assert_eq!(story.steps()[1].wrapped, Some(true));
    assert_eq!(story.steps()[2].wrapped, None);
    assert_eq!(story.steps()[3].wrapped, Some(true));
}

#[test]
fn expect_step_creates_wrapped_then_step() {
    let mut collector = Collector::new();
    let mut story = Story::new("expect_step test", &mut collector);
    let mut called = false;
    story.expect_step("the result is correct", || {
        called = true;
    });
    story.pass();

    assert!(called);
    assert_eq!(story.steps()[0].keyword, "Then");
    assert_eq!(story.steps()[0].text, "the result is correct");
    assert_eq!(story.steps()[0].wrapped, Some(true));
    assert!(story.steps()[0].duration_ms.is_some());
}

#[test]
fn expect_step_returns_result() {
    let mut collector = Collector::new();
    let mut story = Story::new("expect_step return", &mut collector);
    let result = story.expect_step("check value", || true);
    story.pass();

    assert!(result);
}

#[test]
fn failing_body_still_has_its_duration() {
    let mut collector = Collector::new();
    let mut story = Story::new("failure as a value", &mut collector);
    let result: Result<u32, String> =
        story.fn_step("When", "the work fails", || Err("boom".to_string()));
    assert_eq!(result, Err("boom".to_string()));
    assert_eq!(story.steps()[0].wrapped, Some(true));
    assert!(story.steps()[0].duration_ms.is_some());
    story.finish(&mut collector);
    let all = collector.get_all();
    assert_eq!(all[0].status, "fail");
    assert_eq!(all[0].step_events.as_ref().unwrap().len(), 1);
}

#[test]
fn end_timer_at_writes_the_given_time_once() {
    let mut collector = Collector::new();
    let mut story = Story::new("manual clock", &mut collector);
    story.given("first");
    let token = story.start_timer();
    story.when("second");
    story.end_timer_at(token, Millis::from_micros(1_500));
    story.end_timer_at(token, Millis::from_micros(9_000));
    assert_eq!(story.steps()[0].duration_ms, Some(Millis::from_micros(1_500)));
    assert_eq!(story.steps()[1].duration_ms, None);
}

#[test]
fn unknown_token_is_ignored() {
    let mut collector = Collector::new();
    let mut story = Story::new("no such timer", &mut collector);
    story.given("step");
    story.end_timer(7);
    story.end_timer_at(7, Millis::from_micros(1));
    assert_eq!(story.steps()[0].duration_ms, None);
}

#[test]
fn timer_started_before_any_step_writes_nothing() {
    let mut collector = Collector::new();
    let mut story = Story::new("early timer", &mut collector);
    let token = story.start_timer();
    assert_eq!(token, 0);
    story.given("step");
    story.end_timer_at(token, Millis::from_micros(5));
    assert_eq!(story.steps()[0].duration_ms, None);
    assert_eq!(story.start_timer(), 1);
}

#[test]
fn step_ids_count_from_zero() {
    let mut collector = Collector::new();
    let mut story = Story::new("ids", &mut collector);
    for i in 0..12 {
        story.and(&format!("step {}", i));
    }
    assert_eq!(story.steps()[0].id, Some("step-0".to_string()));
    assert_eq!(story.steps()[9].id, Some("step-9".to_string()));
    assert_eq!(story.steps()[10].id, Some("step-10".to_string()));
    assert_eq!(story.steps()[11].id, Some("step-11".to_string()));
    assert_eq!(story.steps()[11].text, "step 11");
}

#[test]
fn with_docs_without_a_step_binds_to_the_story() {
    let mut collector = Collector::new();
    let mut story = Story::new("no step yet", &mut collector);
    story.note("first");
    story.with_docs(vec![StepDoc::note("second"), StepDoc::tag(&["third"])]);
    let kinds: Vec<serde_json::Value> = story
        .docs()
        .iter()
        .map(|entry| entry.to_json().to_value())
        .collect();
    assert_eq!(kinds.len(), 3);
    assert_eq!(kinds[0]["text"], "first");
    assert_eq!(kinds[1]["text"], "second");
    assert_eq!(kinds[2]["kind"], "tag");

    story.given("step").with_docs(vec![]);
    assert!(story.steps()[0].docs.is_none());
    story.with_docs(vec![StepDoc::note("on the step")]);
    assert_eq!(story.docs().len(), 3);
    assert_eq!(story.steps()[0].docs.as_ref().unwrap().len(), 1);
}

#[test]
fn attachments_name_the_current_step() {
    let mut collector = Collector::new();
    let mut story = Story::new("attachments", &mut collector);
    story.attach("early", "text/plain", "");
    story.given("a step");
    story.attach("log", "text/plain", "/tmp/log.txt");
    story.attach_inline("body", "application/json", "{}", "utf-8");
    let all = story.attachments();
    assert_eq!(all.len(), 3);
    assert_eq!(all[0].path, None);
    assert_eq!(all[0].step_index, None);
    assert_eq!(all[0].step_id, None);
    assert_eq!(all[1].path, Some("/tmp/log.txt".to_string()));
    assert_eq!(all[1].step_index, Some(0));
    assert_eq!(all[1].step_id, Some("step-0".to_string()));
    assert_eq!(all[2].body, Some("{}".to_string()));
    assert_eq!(all[2].encoding, Some("utf-8".to_string()));
    assert_eq!(all[2].path, None);
    assert_eq!(all[2].step_id, Some("step-0".to_string()));
}
