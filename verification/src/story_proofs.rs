use vstd::prelude::*;
use crate::json::Member;
use crate::keyword::{infer, mark_seen};
use crate::millis::Millis;
use crate::story::{
    begun, finished, first_with_id, step_id, timer_target, told_step, with_doc, with_duration,
    with_step, with_entries, with_timer, with_timer_ended, with_trace, with_wrapped,
    with_wrapped_step, StoryModel, TimerModel,
};
use crate::text::{decimal, lemma_decimal_injective};
use crate::types::StepModel;

verus! {

/// One request for a step: the keyword asked for, and the text.
pub type Request = (Seq<char>, Seq<char>);

/// The story after a run of requests for steps, taken in order.
pub open spec fn told(m: StoryModel, requests: Seq<Request>) -> StoryModel
    decreases requests.len(),
{
    if requests.len() == 0 {
        m
    } else {
        told(
            with_step(m, requests[0].0, requests[0].1),
            requests.subrange(1, requests.len() as int),
        )
    }
}

/// The keywords that a run of requests asks for.
pub open spec fn keywords_of(requests: Seq<Request>) -> Seq<Seq<char>> {
    Seq::new(requests.len(), |i: int| requests[i].0)
}

/// `after` is `before` with one more step at its end.
pub open spec fn one_more(before: Seq<StepModel>, after: Seq<StepModel>) -> bool {
    &&& after.len() == before.len() + 1
    &&& forall|i: int| 0 <= i < before.len() ==> after[i] == before[i]
}

/// `after` has the steps of `before`, each at its place and each with the
/// keyword, the text and the id it had.
pub open spec fn same_lines(before: Seq<StepModel>, after: Seq<StepModel>) -> bool {
    &&& after.len() == before.len()
    &&& forall|i: int|
        0 <= i < before.len() ==> {
            &&& (#[trigger] after[i]).keyword == before[i].keyword
            &&& after[i].text == before[i].text
            &&& after[i].id == before[i].id
        }
}

/// After a run of requests a story has one more step for each request. The
/// steps it had stay as they were and where they were; the new ones stand
/// behind them in the order of the requests, each with the text of its
/// request, under the keyword that the story's use of the primary keywords
/// gives it, and with the id of its place. Nothing else of the story changes
/// but what it has used.
pub proof fn lemma_told_in_order(m: StoryModel, requests: Seq<Request>)
    ensures
        told(m, requests).steps.len() == m.steps.len() + requests.len(),
        infer(m.seen, keywords_of(requests)).len() == requests.len(),
        forall|i: int| 0 <= i < m.steps.len() ==> told(m, requests).steps[i] == m.steps[i],
        forall|i: int|
            0 <= i < requests.len() ==> #[trigger] told(m, requests).steps[m.steps.len() + i]
                == told_step(
                infer(m.seen, keywords_of(requests))[i],
                requests[i].1,
                (m.steps.len() + i) as nat,
            ),
        told(m, requests) == (StoryModel {
            steps: told(m, requests).steps,
            seen: told(m, requests).seen,
            ..m
        }),
    decreases requests.len(),
{
    crate::keyword::lemma_infer_len(m.seen, keywords_of(requests));
    if requests.len() > 0 {
        let next = with_step(m, requests[0].0, requests[0].1);
        let rest = requests.subrange(1, requests.len() as int);
        lemma_told_in_order(next, rest);
        assert(keywords_of(requests).subrange(1, requests.len() as int) =~= keywords_of(rest));
        assert(next.seen == mark_seen(m.seen, keywords_of(requests)[0]));
        assert forall|i: int| 0 <= i < m.steps.len() implies told(m, requests).steps[i]
            == m.steps[i] by {
            assert(told(next, rest).steps[i] == next.steps[i]);
        }
        assert forall|i: int| 0 <= i < requests.len() implies #[trigger] told(
            m,
            requests,
        ).steps[m.steps.len() + i] == told_step(
            infer(m.seen, keywords_of(requests))[i],
            requests[i].1,
            (m.steps.len() + i) as nat,
        ) by {
            if i == 0 {
                assert(told(next, rest).steps[m.steps.len() as int] == next.steps[m.steps.len() as int]);
            } else {
                assert(told(next, rest).steps[next.steps.len() + (i - 1)] == told_step(
                    infer(next.seen, keywords_of(rest))[i - 1],
                    rest[i - 1].1,
                    (next.steps.len() + (i - 1)) as nat,
                ));
                assert(rest[i - 1] == requests[i]);
            }
        }
    }
}

/// Telling a step, plain or wrapped, puts exactly one step behind those that
/// the story has, and leaves those as they are.
pub proof fn lemma_step_adds_one(m: StoryModel, keyword: Seq<char>, text: Seq<char>, elapsed: Millis)
    ensures
        one_more(m.steps, with_step(m, keyword, text).steps),
        one_more(m.steps, with_wrapped(m, keyword, text).steps),
        one_more(m.steps, with_wrapped_step(m, keyword, text, elapsed).steps),
{
}

/// Nothing but telling a step changes how many steps a story has, where
/// they stand, or the keyword, the text and the id of any of them: not
/// attaching entries, not starting or ending a timer, not writing a duration,
/// not taking note of a trace.
pub proof fn lemma_lines_stay(
    m: StoryModel,
    entry: Seq<Member>,
    more: Seq<Seq<Member>>,
    token: usize,
    place: Option<int>,
    elapsed: Millis,
    trace_id: Seq<char>,
    span_id: Seq<char>,
    template: Option<Seq<char>>,
)
    ensures
        same_lines(m.steps, with_doc(m, entry).steps),
        same_lines(m.steps, with_entries(m, more).steps),
        same_lines(m.steps, with_timer(m).steps),
        same_lines(m.steps, with_timer_ended(m, token, elapsed).steps),
        same_lines(m.steps, with_duration(m.steps, place, elapsed)),
        same_lines(m.steps, with_trace(m, trace_id, span_id, template).steps),
{
}

/// Ending a timer a second time changes nothing, whatever the clock says by
/// then: the duration that the first ending wrote stays.
pub proof fn lemma_end_timer_once(m: StoryModel, token: usize, first: Millis, second: Millis)
    ensures
        with_timer_ended(with_timer_ended(m, token, first), token, second) == with_timer_ended(
            m,
            token,
            first,
        ),
{
}

/// A token that was never handed out ends no timer.
pub proof fn lemma_unknown_token(m: StoryModel, token: usize, elapsed: Millis)
    requires
        token >= m.timers.len(),
    ensures
        with_timer_ended(m, token, elapsed) == m,
{
}

/// A story is recorded as passed exactly if the test said that it passed,
/// and as failed else; there is no third status.
pub proof fn lemma_status(m: StoryModel, elapsed: Millis)
    ensures
        finished(m, elapsed).status == "pass"@ <==> m.passed,
        finished(m, elapsed).status == "fail"@ <==> !m.passed,
{
    reveal_strlit("pass");
    reveal_strlit("fail");
    assert("pass"@[0] == 'p');
    assert("fail"@[0] == 'f');
}

/// A timer is tied to a step of a story with `steps` steps, by that
/// step's place and by the id of that place, or to no step at all.
pub open spec fn timer_tied(steps: nat, t: TimerModel) -> bool {
    match t.step_index {
        Some(i) => i < steps && t.step_id == Some(step_id(i as nat)),
        None => t.step_id is None,
    }
}

/// How the operations of a story leave it: every step carries the id of its
/// place, and every timer is tied to a step that the story has, or to none.
pub open spec fn well_told(m: StoryModel) -> bool {
    &&& m.steps.len() <= usize::MAX
    &&& forall|i: int| 0 <= i < m.steps.len() ==> (#[trigger] m.steps[i]).id == Some(step_id(i as nat))
    &&& forall|t: int| 0 <= t < m.timers.len() ==> timer_tied(m.steps.len(), #[trigger] m.timers[t])
}

/// Steps at different places have different ids.
pub proof fn lemma_step_ids_differ(i: nat, j: nat)
    requires
        step_id(i) == step_id(j),
    ensures
        i == j,
{
    let head = "step-"@;
    assert(step_id(i).subrange(head.len() as int, step_id(i).len() as int) =~= decimal(i));
    assert(step_id(j).subrange(head.len() as int, step_id(j).len() as int) =~= decimal(j));
    lemma_decimal_injective(i, j);
}

/// A story that has just begun is well told.
pub proof fn lemma_begun_well_told(scenario: Seq<char>, source_order: u32)
    ensures
        well_told(begun(scenario, source_order)),
{
}

/// Telling a step, plain or wrapped, leaves a well told story well told, as
/// long as there is room for one more step.
pub proof fn lemma_step_keeps_well_told(
    m: StoryModel,
    keyword: Seq<char>,
    text: Seq<char>,
    elapsed: Millis,
)
    requires
        well_told(m),
        m.steps.len() < usize::MAX,
    ensures
        well_told(with_step(m, keyword, text)),
        well_told(with_wrapped(m, keyword, text)),
        well_told(with_wrapped_step(m, keyword, text, elapsed)),
{
    let a = with_step(m, keyword, text);
    assert forall|t: int| 0 <= t < a.timers.len() implies timer_tied(
        a.steps.len(),
        #[trigger] a.timers[t],
    ) by {
        assert(timer_tied(m.steps.len(), m.timers[t]));
    }
    let b = with_wrapped(m, keyword, text);
    assert forall|t: int| 0 <= t < b.timers.len() implies timer_tied(
        b.steps.len(),
        #[trigger] b.timers[t],
    ) by {
        assert(timer_tied(m.steps.len(), m.timers[t]));
    }
    let c = with_wrapped_step(m, keyword, text, elapsed);
    assert forall|t: int| 0 <= t < c.timers.len() implies timer_tied(
        c.steps.len(),
        #[trigger] c.timers[t],
    ) by {
        assert(timer_tied(m.steps.len(), m.timers[t]));
    }
}

/// Every other operation leaves a well told story well told, too.
pub proof fn lemma_keeps_well_told(
    m: StoryModel,
    entry: Seq<Member>,
    more: Seq<Seq<Member>>,
    token: usize,
    place: usize,
    elapsed: Millis,
    trace_id: Seq<char>,
    span_id: Seq<char>,
    template: Option<Seq<char>>,
)
    requires
        well_told(m),
    ensures
        well_told(with_doc(m, entry)),
        well_told(with_entries(m, more)),
        well_told(with_timer(m)),
        well_told(with_timer_ended(m, token, elapsed)),
        well_told(StoryModel { steps: with_duration(m.steps, Some(place as int), elapsed), ..m }),
        well_told(with_trace(m, trace_id, span_id, template)),
        well_told(StoryModel { passed: true, ..m }),
{
    lemma_lines_stay(m, entry, more, token, Some(place as int), elapsed, trace_id, span_id, template);
    let a = with_doc(m, entry);
    assert forall|t: int| 0 <= t < a.timers.len() implies timer_tied(
        a.steps.len(),
        #[trigger] a.timers[t],
    ) by {
        assert(timer_tied(m.steps.len(), m.timers[t]));
    }
    let b = with_entries(m, more);
    assert forall|t: int| 0 <= t < b.timers.len() implies timer_tied(
        b.steps.len(),
        #[trigger] b.timers[t],
    ) by {
        assert(timer_tied(m.steps.len(), m.timers[t]));
    }
    let c = with_timer(m);
    assert forall|t: int| 0 <= t < c.timers.len() implies timer_tied(
        c.steps.len(),
        #[trigger] c.timers[t],
    ) by {
        if t < m.timers.len() {
            assert(timer_tied(m.steps.len(), m.timers[t]));
        } else if m.steps.len() > 0 {
            assert(m.steps.last() == m.steps[m.steps.len() - 1]);
        }
    }
    let d = with_timer_ended(m, token, elapsed);
    assert forall|t: int| 0 <= t < d.timers.len() implies timer_tied(
        d.steps.len(),
        #[trigger] d.timers[t],
    ) by {
        assert(timer_tied(m.steps.len(), m.timers[t]));
    }
    let e = StoryModel { steps: with_duration(m.steps, Some(place as int), elapsed), ..m };
    assert forall|t: int| 0 <= t < e.timers.len() implies timer_tied(
        e.steps.len(),
        #[trigger] e.timers[t],
    ) by {
        assert(timer_tied(m.steps.len(), m.timers[t]));
    }
}

/// In a well told story the id of a place finds the step at that place and
/// no other.
pub proof fn lemma_id_finds_its_step(m: StoryModel, place: int, from: int)
    requires
        well_told(m),
        0 <= from <= place < m.steps.len(),
    ensures
        first_with_id(m.steps, step_id(place as nat), from) == Some(place),
    decreases place - from,
{
    if from < place {
        if m.steps[from].id == Some(step_id(place as nat)) {
            lemma_step_ids_differ(from as nat, place as nat);
        }
        lemma_id_finds_its_step(m, place, from + 1);
    }
}

/// In a well told story a timer writes to the step that was current when
/// it was started, and the step's id leads to the same step as its place;
/// a timer that was started before any step writes to none.
pub proof fn lemma_timer_target(m: StoryModel, token: int)
    requires
        well_told(m),
        0 <= token < m.timers.len(),
    ensures
        timer_target(m.steps, m.timers[token]) == (match m.timers[token].step_index {
            Some(i) => Some(i as int),
            None => None,
        }),
        m.timers[token].step_index matches Some(i) ==> first_with_id(
            m.steps,
            m.timers[token].step_id->0,
            0,
        ) == Some(i as int),
{
    assert(timer_tied(m.steps.len(), m.timers[token]));
    match m.timers[token].step_index {
        Some(i) => {
            lemma_id_finds_its_step(m, i as int, 0);
        },
        None => {},
    }
}

/// A timer started on a step writes to that very step when it is ended,
/// however many steps were told in between.
pub proof fn lemma_timer_hits_its_step(m: StoryModel, requests: Seq<Request>, elapsed: Millis)
    requires
        well_told(m),
        m.steps.len() > 0,
    ensures
        ({
            let current = m.steps.len() - 1;
            let later = told(with_timer(m), requests);
            let ended = with_timer_ended(later, m.timers.len() as usize, elapsed);
            &&& later.steps.len() == m.steps.len() + requests.len()
            &&& m.timers.len() <= usize::MAX ==> ended.steps == later.steps.update(
                current,
                StepModel { duration_ms: Some(elapsed), ..later.steps[current] },
            )
        }),
{
    let started = with_timer(m);
    lemma_told_in_order(started, requests);
    let later = told(started, requests);
    assert(later.timers == started.timers);
    assert(m.steps.last() == m.steps[m.steps.len() - 1]);
}

} // verus!
