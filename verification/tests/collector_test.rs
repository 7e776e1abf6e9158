use executable_stories::{
    detect_ci, output_path, render_raw_run, CiEnv, Collector, OrderSeq, RawTestCase, Story,
    DEFAULT_OUTPUT, SCHEMA_VERSION,
};

fn no_env() -> CiEnv {
    CiEnv {
        github_actions: None,
        github_server_url: None,
        github_repository: None,
        github_run_id: None,
        github_run_number: None,
        circleci: None,
        circle_build_num: None,
        circle_build_url: None,
        jenkins_url: None,
        build_number: None,
        build_url: None,
        travis: None,
        travis_build_number: None,
        travis_build_web_url: None,
        gitlab_ci: None,
        ci_pipeline_iid: None,
        ci_pipeline_url: None,
        ci: None,
    }
}

fn text(value: &str) -> Option<String> {
    Some(value.to_string())
}

fn case(status: &str) -> RawTestCase {
    RawTestCase {
        status: status.to_string(),
        ..Default::default()
    }
}

#[test]
fn calculator_scenario_is_recorded_as_passed() {
    let mut collector = Collector::new();
    let mut s = Story::new("Calculator adds two numbers", &mut collector);
    s.given("two numbers 5 and 3");
    s.when("the numbers are added");
    s.then("the result is 8");
    s.pass();
    s.finish(&mut collector);
    let all = collector.get_all();
    assert_eq!(all.len(), 1);
    assert_eq!(all[0].status, "pass");
    let story = all[0].story.as_ref().unwrap();
    assert_eq!(story.scenario, "Calculator adds two numbers");
    let lines: Vec<(&str, &str)> = story
        .steps
        .iter()
        .map(|step| (step.keyword.as_str(), step.text.as_str()))
        .collect();
    assert_eq!(
        lines,
        vec![
            ("Given", "two numbers 5 and 3"),
            ("When", "the numbers are added"),
            ("Then", "the result is 8"),
        ]
    );
    assert_eq!(all[0].retry, 0);
    assert_eq!(all[0].retries, 0);
    assert!(all[0].duration_ms.is_some());
    assert!(all[0].step_events.is_none());
    assert!(all[0].attachments.is_none());
    assert!(story.docs.is_none());
}

#[test]
fn three_givens_then_when_then() {
    let mut collector = Collector::new();
    let mut s = Story::new("repeats", &mut collector);
    s.given("one").given("two").given("three").when("four").then("five");
    let keywords: Vec<&str> = s.steps().iter().map(|step| step.keyword.as_str()).collect();
    assert_eq!(keywords, vec!["Given", "And", "And", "When", "Then"]);
}

#[test]
fn story_that_never_passed_is_recorded_as_failed() {
    let mut collector = Collector::new();
    let s = Story::new("dropped", &mut collector);
    s.finish(&mut collector);
    let all = collector.get_all();
    assert_eq!(all.len(), 1);
    assert_eq!(all[0].status, "fail");
    assert_eq!(all[0].story.as_ref().unwrap().steps.len(), 0);
}

#[test]
fn nothing_recorded_means_nothing_to_write() {
    let collector = Collector::new();
    assert!(collector.build_run("/work".to_string(), &no_env()).is_none());
}

#[test]
fn run_holds_the_cases_in_the_order_they_finished() {
    let mut collector = Collector::new();
    let first = Story::new("first begun", &mut collector);
    let mut second = Story::new("second begun", &mut collector);
    second.pass();
    second.finish(&mut collector);
    first.finish(&mut collector);
    let mut env = no_env();
    env.ci = text("true");
    let run = collector.build_run("/work".to_string(), &env).unwrap();
    assert_eq!(run.schema_version, 1);
    assert_eq!(SCHEMA_VERSION, 1);
    assert_eq!(run.project_root, "/work");
    assert_eq!(run.started_at_ms, None);
    assert_eq!(run.finished_at_ms, None);
    assert_eq!(run.ci.as_ref().unwrap().name, "ci");
    let titles: Vec<&str> = run
        .test_cases
        .iter()
        .map(|tc| tc.title.as_deref().unwrap())
        .collect();
    assert_eq!(titles, vec!["second begun", "first begun"]);
    let orders: Vec<Option<u32>> = run
        .test_cases
        .iter()
        .map(|tc| tc.story.as_ref().unwrap().source_order)
        .collect();
    assert_eq!(orders, vec![Some(1), Some(0)]);
    // Writing does not empty the collector.
    assert_eq!(collector.get_all().len(), 2);
}

#[test]
fn next_order_counts_up_and_reset_starts_over() {
    let mut collector = Collector::new();
    assert_eq!(collector.next_order(), 0);
    assert_eq!(collector.next_order(), 1);
    assert_eq!(collector.next_order(), 2);
    collector.record(case("pass"));
    collector.record(case("fail"));
    let all = collector.get_all();
    assert_eq!(all.len(), 2);
    assert_eq!(all[0].status, "pass");
    assert_eq!(all[1].status, "fail");
    collector.reset();
    assert!(collector.get_all().is_empty());
    assert_eq!(collector.next_order(), 0);
}

#[test]
fn reset_keeps_the_trace_url_template() {
    let mut collector = Collector::new();
    assert_eq!(collector.trace_url_template(), None);
    collector.set_trace_url_template(text("https://t/{traceId}"));
    collector.reset();
    assert_eq!(collector.trace_url_template(), Some("https://t/{traceId}"));
}

#[test]
fn default_case_is_empty() {
    let tc = RawTestCase::default();
    assert_eq!(tc.status, "");
    assert_eq!(tc.retry, 0);
    assert_eq!(tc.retries, 0);
    assert!(tc.title.is_none() && tc.story.is_none() && tc.error.is_none());
}

#[test]
fn no_marker_no_build_service() {
    assert!(detect_ci(&no_env()).is_none());
    let mut env = no_env();
    env.github_actions = text("false");
    env.ci = text("1");
    env.build_number = text("12");
    assert!(detect_ci(&env).is_none());
}

#[test]
fn github_wins_and_puts_its_address_together() {
    let mut env = no_env();
    env.github_actions = text("true");
    env.github_server_url = text("https://github.com");
    env.github_repository = text("acme/widgets");
    env.github_run_id = text("987");
    env.github_run_number = text("41");
    env.circleci = text("true");
    env.ci = text("true");
    let ci = detect_ci(&env).unwrap();
    assert_eq!(ci.name, "github");
    assert_eq!(ci.build_number, text("41"));
    assert_eq!(ci.url, text("https://github.com/acme/widgets/actions/runs/987"));
    env.github_repository = None;
    let ci = detect_ci(&env).unwrap();
    assert_eq!(ci.name, "github");
    assert_eq!(ci.url, None);
}

#[test]
fn each_service_reads_its_own_variables() {
    let mut env = no_env();
    env.ci = text("true");
    let ci = detect_ci(&env).unwrap();
    assert_eq!((ci.name.as_str(), ci.build_number, ci.url), ("ci", None, None));

    env.gitlab_ci = text("true");
    env.ci_pipeline_iid = text("5");
    env.ci_pipeline_url = text("https://gitlab/p/5");
    let ci = detect_ci(&env).unwrap();
    assert_eq!(
        (ci.name.as_str(), ci.build_number, ci.url),
        ("gitlab", text("5"), text("https://gitlab/p/5"))
    );

    env.travis = text("true");
    env.travis_build_number = text("6");
    env.travis_build_web_url = text("https://travis/b/6");
    let ci = detect_ci(&env).unwrap();
    assert_eq!(
        (ci.name.as_str(), ci.build_number, ci.url),
        ("travis", text("6"), text("https://travis/b/6"))
    );

    env.jenkins_url = text("");
    env.build_number = text("7");
    env.build_url = text("https://jenkins/job/7");
    let ci = detect_ci(&env).unwrap();
    assert_eq!(
        (ci.name.as_str(), ci.build_number, ci.url),
        ("jenkins", text("7"), text("https://jenkins/job/7"))
    );

    env.circleci = text("true");
    env.circle_build_num = text("8");
    env.circle_build_url = text("https://circle/8");
    let ci = detect_ci(&env).unwrap();
    assert_eq!(
        (ci.name.as_str(), ci.build_number, ci.url),
        ("circleci", text("8"), text("https://circle/8"))
    );
}

#[test]
fn output_path_falls_back_to_the_default() {
    assert_eq!(output_path(None), ".executable-stories/raw-run.json");
    assert_eq!(DEFAULT_OUTPUT, ".executable-stories/raw-run.json");
    assert_eq!(output_path(text("out/run.json")), "out/run.json");
}

#[test]
fn written_run_reads_back_with_absent_members_absent() {
    let mut collector = Collector::new();
    let mut s = Story::new("round trip", &mut collector).with_tags(&["smoke"]);
    s.given("a step");
    s.fn_step("When", "timed", || {});
    s.attach("log", "text/plain", "/tmp/log");
    s.pass();
    s.finish(&mut collector);
    let mut env = no_env();
    env.circleci = text("true");
    env.circle_build_num = text("8");
    let run = collector.build_run("/work".to_string(), &env).unwrap();
    let written = render_raw_run(&run).unwrap();
    let parsed: serde_json::Value = serde_json::from_str(&written).unwrap();

    assert_eq!(parsed["schemaVersion"], 1);
    assert_eq!(parsed["projectRoot"], "/work");
    assert!(parsed.get("startedAtMs").is_none());
    assert!(parsed.get("finishedAtMs").is_none());
    assert_eq!(parsed["ci"]["name"], "circleci");
    assert_eq!(parsed["ci"]["buildNumber"], "8");
    assert!(parsed["ci"].get("url").is_none());

    let tc = &parsed["testCases"][0];
    assert_eq!(tc["status"], "pass");
    assert_eq!(tc["title"], "round trip");
    assert_eq!(tc["retry"], 0);
    assert_eq!(tc["retries"], 0);
    assert!(tc["durationMs"].is_number());
    assert!(tc.get("externalId").is_none());
    assert!(tc.get("error").is_none());
    assert_eq!(tc["attachments"][0]["name"], "log");
    assert_eq!(tc["attachments"][0]["mediaType"], "text/plain");
    assert_eq!(tc["attachments"][0]["stepIndex"], 1);
    assert_eq!(tc["attachments"][0]["stepId"], "step-1");
    assert!(tc["attachments"][0].get("body").is_none());
    assert_eq!(tc["stepEvents"].as_array().unwrap().len(), 1);
    assert_eq!(tc["stepEvents"][0]["index"], 1);
    assert_eq!(tc["stepEvents"][0]["title"], "timed");
    assert!(tc["stepEvents"][0].get("status").is_none());

    let story = &tc["story"];
    assert_eq!(story["scenario"], "round trip");
    assert_eq!(story["sourceOrder"], 0);
    assert_eq!(story["tags"][0], "smoke");
    assert!(story.get("tickets").is_none());
    assert!(story.get("docs").is_none());
    assert_eq!(story["steps"][0]["id"], "step-0");
    assert!(story["steps"][0].get("wrapped").is_none());
    assert!(story["steps"][0].get("durationMs").is_none());
    assert_eq!(story["steps"][1]["wrapped"], true);
    assert!(story["steps"][1]["durationMs"].is_number());

    // Nothing that is absent is written as null.
    assert!(!written.contains("null"));
}

#[test]
fn order_sequence_counts_up_and_starts_over() {
    let mut orders = OrderSeq::new();
    assert_eq!(orders.peek_order(), 0);
    assert_eq!(orders.next_order(), 0);
    assert_eq!(orders.next_order(), 1);
    assert_eq!(orders.peek_order(), 2);
    orders.reset();
    assert_eq!(orders.next_order(), 0);
}

#[test]
fn story_begun_by_order_is_concluded_without_a_collector() {
    let mut orders = OrderSeq::new();
    orders.next_order();
    let mut story = Story::begin("on its own", orders.next_order(), None);
    assert_eq!(story.source_order(), Some(1));
    assert!(story.meta().is_none());
    story.given("a step");
    let failed = Story::begin("never passed", 2, Some("https://t/{traceId}")).conclude();
    assert_eq!(failed.status, "fail");
    story.pass();
    let tc = story.conclude();
    assert_eq!(tc.status, "pass");
    assert_eq!(tc.title, Some("on its own".to_string()));
    assert_eq!(tc.story.as_ref().unwrap().source_order, Some(1));
    assert!(tc.duration_ms.is_some());
}
