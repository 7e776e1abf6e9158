use executable_stories::{Collector, Story};

fn keywords(story: &Story) -> Vec<String> {
    story.steps().iter().map(|step| step.keyword.clone()).collect()
}

#[test]
fn test_story_new() {
    let mut collector = Collector::new();
    let mut s = Story::new("test scenario", &mut collector).with_tags(&["tag1"]);
    s.given("a precondition");
    s.when("an action");
    s.then("an outcome");
    s.pass();
    assert_eq!(keywords(&s), vec!["Given", "When", "Then"]);
    assert_eq!(s.tags(), &Some(vec!["tag1".to_string()]));
    s.finish(&mut collector);
    let all = collector.get_all();
    assert_eq!(all.len(), 1);
    assert_eq!(all[0].status, "pass");
    assert_eq!(all[0].title, Some("test scenario".to_string()));
}

#[test]
fn test_story_with_and_but() {
    let mut collector = Collector::new();
    let mut s = Story::new("scenario with and/but", &mut collector);
    s.given("a precondition");
    s.and("another precondition");
    s.when("an action");
    s.then("an outcome");
    s.but("not this other outcome");
    s.pass();
    assert_eq!(keywords(&s), vec!["Given", "And", "When", "Then", "But"]);
    s.finish(&mut collector);
    assert_eq!(collector.get_all()[0].status, "pass");
}

#[test]
fn test_story_with_tickets() {
    let mut collector = Collector::new();
    let mut s = Story::new("ticketed scenario", &mut collector)
        .with_tags(&["smoke"])
        .with_tickets(&["JIRA-123", "JIRA-456"]);
    s.given("a setup");
    s.when("something happens");
    s.then("it works");
    s.pass();
    s.finish(&mut collector);
    let all = collector.get_all();
    let story = all[0].story.as_ref().unwrap();
    assert_eq!(story.tags, Some(vec!["smoke".to_string()]));
    assert_eq!(
        story.tickets,
        Some(vec!["JIRA-123".to_string(), "JIRA-456".to_string()])
    );
}

#[test]
fn test_doc_methods() {
    let mut collector = Collector::new();
    let mut s = Story::new("test docs", &mut collector);
    s.given("something");
    s.note("a note");
    s.pass();
    assert!(s.docs().is_empty());
    let docs = s.steps()[0].docs.as_ref().unwrap();
    assert_eq!(docs.len(), 1);
    let note = docs[0].to_json().to_value();
    assert_eq!(note["kind"], "note");
    assert_eq!(note["text"], "a note");
}

#[test]
fn test_doc_methods_on_steps() {
    let mut collector = Collector::new();
    let mut s = Story::new("docs on steps", &mut collector);
    s.given("a user exists");
    s.kv("user_id", serde_json::Value::from(42));
    s.when("the user logs in");
    s.code("request", "POST /login", Some("http"));
    s.then("login succeeds");
    s.link("docs", "https://example.com/auth");
    s.pass();
    let kinds: Vec<serde_json::Value> = s
        .steps()
        .iter()
        .map(|step| step.docs.as_ref().unwrap()[0].to_json().to_value()["kind"].clone())
        .collect();
    assert_eq!(kinds, vec!["kv", "code", "link"]);
    let kv = s.steps()[0].docs.as_ref().unwrap()[0].to_json().to_value();
    assert_eq!(kv["label"], "user_id");
    assert_eq!(kv["value"], 42);
}

#[test]
fn test_story_level_docs() {
    let mut collector = Collector::new();
    let mut s = Story::new("story level docs", &mut collector);
    // Docs added before any step go to story-level
    s.note("this is a story-level note");
    s.given("something");
    s.pass();
    assert_eq!(s.docs().len(), 1);
    assert_eq!(s.docs()[0].to_json().to_value()["text"], "this is a story-level note");
    assert!(s.steps()[0].docs.is_none());
}

#[test]
fn test_fail_without_pass() {
    // This story will record as "fail" because pass() is never called.
    let mut collector = Collector::new();
    let mut s = Story::new("failing scenario", &mut collector);
    s.given("a precondition");
    s.when("something goes wrong");
    // no s.pass() -- intentionally failing
    s.finish(&mut collector);
    let all = collector.get_all();
    assert_eq!(all.len(), 1);
    assert_eq!(all[0].status, "fail");
}
