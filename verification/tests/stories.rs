use executable_stories::calculator::{add, divide, multiply, subtract};
use executable_stories::{Collector, RawTestCase, Story};

fn keywords(tc: &RawTestCase) -> Vec<String> {
    let story = tc.story.as_ref().unwrap();
    story.steps.iter().map(|step| step.keyword.clone()).collect()
}

fn finish(story: Story, collector: &mut Collector) -> RawTestCase {
    story.finish(collector);
    let mut all = collector.get_all();
    assert_eq!(all.len(), 1);
    all.remove(0)
}

#[test]
fn test_calculator_adds_two_numbers() {
    let mut collector = Collector::new();
    let mut s = Story::new("Calculator adds two numbers", &mut collector);
    s.given("two numbers 5 and 3");
    let (a, b) = (5, 3);
    s.when("the numbers are added");
    let result = add(a, b);
    s.then("the result is 8");
    assert_eq!(result, 8);
    s.pass();
    let tc = finish(s, &mut collector);
    assert_eq!(tc.status, "pass");
    assert_eq!(keywords(&tc), vec!["Given", "When", "Then"]);
}

#[test]
fn test_calculator_subtracts_two_numbers() {
    let mut collector = Collector::new();
    let mut s = Story::new("Calculator subtracts two numbers", &mut collector);
    s.given("two numbers 10 and 4");
    let (a, b) = (10, 4);
    s.when("the second is subtracted from the first");
    let result = subtract(a, b);
    s.then("the result is 6");
    assert_eq!(result, 6);
    s.pass();
    let tc = finish(s, &mut collector);
    assert_eq!(tc.status, "pass");
    assert_eq!(keywords(&tc), vec!["Given", "When", "Then"]);
}

#[test]
fn test_calculator_multiplies_two_numbers() {
    let mut collector = Collector::new();
    let mut s = Story::new("Calculator multiplies two numbers", &mut collector);
    s.given("two numbers 7 and 6");
    let (a, b) = (7, 6);
    s.note("This is a note");
    s.when("the numbers are multiplied");
    let result = multiply(a, b);
    s.then("the result is 42");
    assert_eq!(result, 42);
    s.pass();
    let tc = finish(s, &mut collector);
    assert_eq!(tc.status, "pass");
    assert_eq!(keywords(&tc), vec!["Given", "When", "Then"]);
}

#[test]
fn test_calculator_divides_two_numbers() {
    let mut collector = Collector::new();
    let mut s = Story::new("Calculator divides two numbers", &mut collector);
    s.given("two numbers 20 and 4");
    let (a, b) = (20, 4);
    s.when("the first is divided by the second");
    let result = divide(a, b);
    s.then("the result is 5");
    assert_eq!(result, 5);
    s.pass();
    let tc = finish(s, &mut collector);
    assert_eq!(tc.status, "pass");
    assert_eq!(keywords(&tc), vec!["Given", "When", "Then"]);
}

#[test]
fn test_story_with_single_tag() {
    let mut collector = Collector::new();
    let mut s = Story::new("Story with single tag", &mut collector).with_tags(&["smoke"]);
    s.note("Single tag for basic categorization");
    s.given("a tagged story");
    s.when("tests are filtered");
    s.then("this story matches the 'smoke' tag");
    s.pass();
    let tc = finish(s, &mut collector);
    assert_eq!(tc.status, "pass");
    assert_eq!(keywords(&tc), vec!["Given", "When", "Then"]);
}

#[test]
fn test_story_with_multiple_tags() {
    let mut collector = Collector::new();
    let mut s = Story::new("Story with multiple tags", &mut collector).with_tags(&["smoke", "regression", "critical"]);
    s.note("Multiple tags for flexible filtering");
    s.given("a story with multiple tags");
    s.when("tests are filtered by any tag");
    s.then("this story matches multiple filters");
    s.pass();
    let tc = finish(s, &mut collector);
    assert_eq!(tc.status, "pass");
    assert_eq!(keywords(&tc), vec!["Given", "When", "Then"]);
}

#[test]
fn test_story_with_ticket() {
    let mut collector = Collector::new();
    let mut s = Story::new("Story with ticket", &mut collector).with_tickets(&["JIRA-123"]);
    s.note("Links story to a single issue tracker ticket");
    s.given("a story linked to JIRA-123");
    s.when("documentation is generated");
    s.then("ticket reference appears in docs");
    s.pass();
    let tc = finish(s, &mut collector);
    assert_eq!(tc.status, "pass");
    assert_eq!(keywords(&tc), vec!["Given", "When", "Then"]);
}

#[test]
fn test_explicit_and_and_but_steps() {
    let mut collector = Collector::new();
    let mut s = Story::new("Order with explicit And and But steps", &mut collector);
    s.given("the user is logged in")
        .and("the user has a valid payment method")
        .and("the user has items in cart")
        .when("the user clicks checkout")
        .and("confirms the order")
        .then("the order should be created")
        .and("the payment should be processed")
        .but("the inventory is not yet decremented");
    s.pass();
    let tc = finish(s, &mut collector);
    assert_eq!(tc.status, "pass");
    assert_eq!(keywords(&tc), vec!["Given", "And", "And", "When", "And", "Then", "And", "But"]);
}

#[test]
fn test_but_for_negative_assertion() {
    let mut collector = Collector::new();
    let mut s = Story::new("Login blocked for suspended user", &mut collector);
    s.given("the user account exists");
    s.given("the account is suspended");
    s.when("the user submits valid credentials");
    s.then("the user should see an error message");
    s.but("the user should not be logged in");
    s.but("the session should not be created");
    s.pass();
    let tc = finish(s, &mut collector);
    assert_eq!(tc.status, "pass");
    assert_eq!(keywords(&tc), vec!["Given", "And", "When", "Then", "But", "But"]);
}

#[test]
fn test_mixed_given_when_then_with_and() {
    let mut collector = Collector::new();
    let mut s = Story::new("Sum calculation using and", &mut collector);
    s.given("numbers 1, 2, 3, 4, 5");
    s.and("an accumulator initialized to zero");
    let total = 1 + 2 + 3 + 4 + 5;
    s.when("the sum is calculated");
    s.then("the result is 15");
    s.and("the result is positive");
    assert_eq!(total, 15);
    assert!(total > 0);
    s.pass();
    let tc = finish(s, &mut collector);
    assert_eq!(tc.status, "pass");
    assert_eq!(keywords(&tc), vec!["Given", "And", "When", "Then", "And"]);
}

#[test]
fn test_multiple_given_auto_and() {
    let mut collector = Collector::new();
    let mut s = Story::new("User logs in successfully", &mut collector);
    s.given("the user account exists");
    s.given("the user is on the login page");
    s.given("the account is active");
    s.when("the user submits valid credentials");
    s.then("the user should see the dashboard");
    s.pass();
    let tc = finish(s, &mut collector);
    assert_eq!(tc.status, "pass");
    assert_eq!(keywords(&tc), vec!["Given", "And", "And", "When", "Then"]);
}

#[test]
fn test_multiple_when_auto_and() {
    let mut collector = Collector::new();
    let mut s = Story::new("User updates profile settings", &mut collector);
    s.given("the user is logged in");
    s.when("the user navigates to settings");
    s.when("the user changes their display name");
    s.then("the changes should be saved");
    s.pass();
    let tc = finish(s, &mut collector);
    assert_eq!(tc.status, "pass");
    assert_eq!(keywords(&tc), vec!["Given", "When", "And", "Then"]);
}

#[test]
fn test_multiple_then_auto_and() {
    let mut collector = Collector::new();
    let mut s = Story::new("Successful order confirmation", &mut collector);
    s.given("the user has items in cart");
    s.when("the user completes checkout");
    s.then("the order should be created");
    s.then("a confirmation email should be sent");
    s.then("the inventory should be updated");
    s.pass();
    let tc = finish(s, &mut collector);
    assert_eq!(tc.status, "pass");
    assert_eq!(keywords(&tc), vec!["Given", "When", "Then", "And", "And"]);
}

#[test]
fn test_but_keyword_for_contrast() {
    let mut collector = Collector::new();
    let mut s = Story::new("Login blocked for suspended user", &mut collector);
    s.given("the user account exists");
    s.given("the account is suspended");
    s.when("the user submits valid credentials");
    s.then("the user should see an error message");
    s.but("the user should not be logged in");
    s.but("the session should not be created");
    s.pass();
    let tc = finish(s, &mut collector);
    assert_eq!(tc.status, "pass");
    assert_eq!(keywords(&tc), vec!["Given", "And", "When", "Then", "But", "But"]);
}

#[test]
fn test_explicit_and_steps() {
    let mut collector = Collector::new();
    let mut s = Story::new("Order with explicit And steps", &mut collector);
    s.given("the user is logged in")
        .and("the user has a valid payment method")
        .and("the user has items in cart")
        .when("the user clicks checkout")
        .and("confirms the order")
        .then("the order should be created")
        .and("the payment should be processed");
    s.pass();
    let tc = finish(s, &mut collector);
    assert_eq!(tc.status, "pass");
    assert_eq!(keywords(&tc), vec!["Given", "And", "And", "When", "And", "Then", "And"]);
}

#[test]
fn test_wrapped_steps_addition() {
    let mut collector = Collector::new();
    let mut s = Story::new("Calculator adds two numbers using fn_step and expect_step", &mut collector);
    let a = s.fn_step("Given", "number a is 5", || 5);
    let b = s.fn_step("Given", "number b is 3", || 3);
    let result = s.fn_step("When", "the numbers are added", || add(a, b));
    s.expect_step("the result is 8", || {
        assert_eq!(result, 8);
    });
    s.pass();
    let tc = finish(s, &mut collector);
    assert_eq!(tc.status, "pass");
    assert_eq!(keywords(&tc), vec!["Given", "And", "When", "Then"]);
}

#[test]
fn test_wrapped_steps_subtraction() {
    let mut collector = Collector::new();
    let mut s = Story::new("Calculator subtracts using fn_step with timing", &mut collector);
    s.fn_step("Given", "two numbers 10 and 4", || {});
    let result = s.fn_step("When", "the second is subtracted from the first", || {
        subtract(10, 4)
    });
    s.expect_step("the result is 6", || {
        assert_eq!(result, 6);
    });
    s.pass();
    let tc = finish(s, &mut collector);
    assert_eq!(tc.status, "pass");
    assert_eq!(keywords(&tc), vec!["Given", "When", "Then"]);
}

#[test]
fn test_wrapped_steps_mixed() {
    let mut collector = Collector::new();
    let mut s = Story::new("Mixed markers and wrapped steps", &mut collector);
    s.given("the calculator is ready");
    let result = s.fn_step("When", "we multiply 7 by 6", || multiply(7, 6));
    s.expect_step("the result is 42", || {
        assert_eq!(result, 42);
    });
    s.and("the result is a positive number");
    assert!(result > 0);
    s.pass();
    let tc = finish(s, &mut collector);
    assert_eq!(tc.status, "pass");
    assert_eq!(keywords(&tc), vec!["Given", "When", "Then", "And"]);
}
