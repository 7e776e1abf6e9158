use vstd::prelude::*;
use crate::ci::{detect_ci, detected, CiEnv};
use crate::types::{CiModel, RawRun, RawTestCase, RunModel, TestCaseModel};

verus! {

/// The version of the layout that runs are written in.
pub const SCHEMA_VERSION: u32 = 1;

/// Hands out the order in which the stories of a run are begun: 0 to the
/// first, and one more to each that follows.
pub struct OrderSeq {
    next: u32,
}

impl View for OrderSeq {
    type V = u32;

    /// The order that the next story will be given.
    closed spec fn view(&self) -> u32 {
        self.next
    }
}

impl OrderSeq {
    /// A sequence whose first story has order 0.
    pub fn new() -> (s: OrderSeq)
        ensures
            s@ == 0,
    {
        OrderSeq { next: 0 }
    }

    /// The order that the next story will be given.
    pub fn peek_order(&self) -> (order: u32)
        ensures
            order == self@,
    {
        self.next
    }

    /// Hands out the order of the next story and moves on by one.
    pub fn next_order(&mut self) -> (order: u32)
        requires
            old(self)@ < u32::MAX,
        ensures
            order == old(self)@,
            final(self)@ == order + 1,
    {
        let order = self.next;
        self.next = order + 1;
        order
    }

    /// Starts the order at 0 again.
    pub fn reset(&mut self)
        ensures
            final(self)@ == 0,
    {
        self.next = 0;
    }
}

/// Gathers the test cases of a run as they finish, and hands out the order
/// in which stories were begun. One collector serves a whole run; every story
/// is given it when it begins and when it ends. Its list and its sequence of
/// orders are two things that do not depend on each other: a program that
/// guards them apart can keep an `OrderSeq` beside a collector.
pub struct Collector {
    cases: Vec<RawTestCase>,
    orders: OrderSeq,
    trace_url_template: Option<String>,
}

/// What a `Collector` stands for.
pub struct CollectorModel {
    /// The test cases recorded so far, in the order in which they finished.
    pub cases: Seq<TestCaseModel>,
    /// The order that the next story will be given.
    pub next: u32,
    /// The address pattern for links to traces, where the run has one.
    pub trace_url_template: Option<Seq<char>>,
}

impl View for Collector {
    type V = CollectorModel;

    closed spec fn view(&self) -> CollectorModel {
        CollectorModel {
            cases: self.cases.deep_view(),
            next: self.orders@,
            trace_url_template: self.trace_url_template.deep_view(),
        }
    }
}

/// The run that is written for the test cases gathered so far: none while
/// there is no test case; else all of them in the order in which they
/// finished, under the current schema version, without times.
pub open spec fn run_of(m: CollectorModel, project_root: Seq<char>, ci: Option<CiModel>) -> Option<
    RunModel,
> {
    if m.cases.len() == 0 {
        None
    } else {
        Some(
            RunModel {
                schema_version: SCHEMA_VERSION,
                test_cases: m.cases,
                project_root,
                started_at_ms: None,
                finished_at_ms: None,
                ci,
            },
        )
    }
}

impl Collector {
    /// A collector with nothing recorded, whose first story has order 0.
    pub fn new() -> (c: Collector)
        ensures
            c@ == (CollectorModel { cases: Seq::empty(), next: 0, trace_url_template: None }),
    {
        let c = Collector { cases: Vec::new(), orders: OrderSeq::new(), trace_url_template: None };
        assert(c.cases.deep_view() =~= Seq::<TestCaseModel>::empty());
        c
    }

    /// Sets the address pattern that stories use for links to their traces.
    pub fn set_trace_url_template(&mut self, template: Option<String>)
        ensures
            final(self)@ == (CollectorModel {
                trace_url_template: template.deep_view(),
                ..old(self)@
            }),
    {
        self.trace_url_template = template;
    }

    /// The address pattern for links to traces, where one was set.
    pub fn trace_url_template(&self) -> (r: Option<&str>)
        ensures
            r.deep_view() == self@.trace_url_template,
    {
        match &self.trace_url_template {
            Some(t) => Some(t.as_str()),
            None => None,
        }
    }

    /// Records a finished test case behind those recorded before.
    pub fn record(&mut self, tc: RawTestCase)
        ensures
            final(self)@ == (CollectorModel { cases: old(self)@.cases.push(tc@), ..old(self)@ }),
    {
        self.cases.push(tc);
        assert(self.cases.deep_view() =~= old(self).cases.deep_view().push(tc@));
    }

    /// The order that the next story will be given.
    pub fn peek_order(&self) -> (order: u32)
        ensures
            order == self@.next,
    {
        self.orders.peek_order()
    }

    /// Hands out the order of the next story and moves on by one.
    pub fn next_order(&mut self) -> (order: u32)
        requires
            old(self)@.next < u32::MAX,
        ensures
            order == old(self)@.next,
            final(self)@ == (CollectorModel { next: (order + 1) as u32, ..old(self)@ }),
    {
        self.orders.next_order()
    }

    /// A copy of every test case recorded so far, in the order in which they
    /// finished.
    pub fn get_all(&self) -> (all: Vec<RawTestCase>)
        ensures
            all.deep_view() == self@.cases,
    {
        let all = self.cases.clone();
        assert(all.deep_view() =~= self.cases.deep_view());
        all
    }

    /// Forgets every test case and starts the order at 0 again.
    pub fn reset(&mut self)
        ensures
            final(self)@ == (CollectorModel { cases: Seq::empty(), next: 0, ..old(self)@ }),
    {
        self.cases.clear();
        self.orders.reset();
        assert(self.cases.deep_view() =~= Seq::<TestCaseModel>::empty());
    }

    /// The run to write out for what was gathered, under the given project
    /// root and with the build service that the environment speaks of; `None`
    /// while no test case was recorded, in which case nothing is to be
    /// written.
    pub fn build_run(&self, project_root: String, env: &CiEnv) -> (run: Option<RawRun>)
        ensures
            run.deep_view() == run_of(self@, project_root@, detected(env@)),
    {
        let cases = self.get_all();
        if cases.len() == 0 {
            return None;
        }
        let ci = detect_ci(env);
        Some(
            RawRun {
                schema_version: SCHEMA_VERSION,
                test_cases: cases,
                project_root,
                started_at_ms: None,
                finished_at_ms: None,
                ci,
            },
        )
    }
}

} // verus!
