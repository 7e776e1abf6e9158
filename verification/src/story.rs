use vstd::prelude::*;
use vstd::string::StringExecFns;
use crate::clock::elapsed_since;
use crate::collector::{Collector, CollectorModel};
use crate::doc_entry::{code_members, entry_head, opt_str_view, rows_model, DocEntry};
use crate::json::{
    push_member, pretty_text, string_value, strs_view, text_list, value_string, Json, JsonModel,
    Member,
};
use crate::keyword::{effective_keyword, mark_seen, Seen};
use crate::millis::Millis;
use crate::text::{decimal, decimal_string};
use crate::trace::{
    active_trace_ids, all_zeros, debug_list, debug_text, is_all_zeros, replace_all, replaced,
    set_span_attribute,
};
use crate::types::{
    AttachmentModel, RawAttachment, RawStepEvent, RawTestCase, StepEventModel, StepModel,
    StoryMeta, StoryMetaModel, StoryStep, TestCaseModel,
};

verus! {

/// An entry to hand to `Story::with_docs`, made by the constructor of its
/// kind like a `DocEntry`.
#[derive(Debug)]
pub struct StepDoc(pub(crate) DocEntry);

impl View for StepDoc {
    type V = Seq<Member>;

    closed spec fn view(&self) -> Seq<Member> {
        self.0@
    }
}

impl DeepView for StepDoc {
    type V = Seq<Member>;

    open spec fn deep_view(&self) -> Seq<Member> {
        self@
    }
}

impl Clone for StepDoc {
    fn clone(&self) -> (r: Self)
        ensures
            r@ == self@,
    {
        StepDoc(self.0.clone())
    }
}

impl StepDoc {
    /// A simple text note.
    pub fn note(text: &str) -> (r: StepDoc)
        ensures
            r@ == entry_head("note"@).push(("text"@, JsonModel::Text(text@))),
    {
        StepDoc(DocEntry::note(text))
    }

    /// Tag annotation with the given tag names.
    pub fn tag(names: &[&str]) -> (r: StepDoc)
        ensures
            r@ == entry_head("tag"@).push(("names"@, text_list(strs_view(names@)))),
    {
        StepDoc(DocEntry::tag(names))
    }

    /// A key-value pair; the value is carried as it is.
    pub fn kv(label: &str, value: serde_json::Value) -> (r: StepDoc)
        ensures
            r@ == entry_head("kv"@).push(("label"@, JsonModel::Text(label@))).push(
                ("value"@, JsonModel::Raw(value)),
            ),
    {
        StepDoc(DocEntry::kv(label, value))
    }

    /// A JSON document shown as a code block in the language `json`.
    pub fn json_doc(label: &str, value: &serde_json::Value) -> (r: StepDoc)
        ensures
            r@ == code_members(
                label@,
                pretty_text(*value),
                Some("json"@),
            ),
    {
        StepDoc(DocEntry::json_doc(label, value))
    }

    /// A code block; the language is a member only where one is given.
    pub fn code(label: &str, content: &str, lang: Option<&str>) -> (r: StepDoc)
        ensures
            r@ == code_members(label@, content@, opt_str_view(lang)),
    {
        StepDoc(DocEntry::code(label, content, lang))
    }

    /// A table with its column names and its rows.
    pub fn table(label: &str, columns: &[&str], rows: &[&[&str]]) -> (r: StepDoc)
        ensures
            r@ == entry_head("table"@).push(("label"@, JsonModel::Text(label@))).push(
                ("columns"@, text_list(strs_view(columns@))),
            ).push(("rows"@, rows_model(rows@))),
    {
        StepDoc(DocEntry::table(label, columns, rows))
    }

    /// A hyperlink.
    pub fn link(label: &str, url: &str) -> (r: StepDoc)
        ensures
            r@ == entry_head("link"@).push(("label"@, JsonModel::Text(label@))).push(
                ("url"@, JsonModel::Text(url@)),
            ),
    {
        StepDoc(DocEntry::link(label, url))
    }

    /// A markdown section.
    pub fn section(title: &str, markdown: &str) -> (r: StepDoc)
        ensures
            r@ == entry_head("section"@).push(("title"@, JsonModel::Text(title@))).push(
                ("markdown"@, JsonModel::Text(markdown@)),
            ),
    {
        StepDoc(DocEntry::section(title, markdown))
    }

    /// A mermaid diagram; the title is a member only where one is given.
    pub fn mermaid(code: &str, title: Option<&str>) -> (r: StepDoc)
        ensures
            r@ == entry_head("mermaid"@).push(("code"@, JsonModel::Text(code@))) + (match title {
                Some(t) => seq![("title"@, JsonModel::Text(t@))],
                None => Seq::empty(),
            }),
    {
        StepDoc(DocEntry::mermaid(code, title))
    }

    /// A screenshot reference.
    pub fn screenshot(path: &str, alt: Option<&str>) -> (r: StepDoc)
        ensures
            r@ == entry_head("screenshot"@).push(("path"@, JsonModel::Text(path@))) + (match alt {
                Some(a) => seq![("alt"@, JsonModel::Text(a@))],
                None => Seq::empty(),
            }),
    {
        StepDoc(DocEntry::screenshot(path, alt))
    }

    /// An entry of a kind of the caller's own.
    pub fn custom(custom_type: &str, data: serde_json::Value) -> (r: StepDoc)
        ensures
            r@ == entry_head("custom"@).push(("type"@, JsonModel::Text(custom_type@))).push(
                ("data"@, JsonModel::Raw(data)),
            ),
    {
        StepDoc(DocEntry::custom(custom_type, data))
    }
}

/// A timer between its start and its end: the step it was started on, by
/// place and by id, and whether it has been ended.
pub struct TimerEntry {
    start: std::time::Instant,
    step_index: Option<usize>,
    step_id: Option<String>,
    consumed: bool,
}

/// What a `TimerEntry` stands for. The reading of the clock is left out: no
/// rule depends on it.
pub struct TimerModel {
    pub step_index: Option<usize>,
    pub step_id: Option<Seq<char>>,
    pub consumed: bool,
}

impl DeepView for TimerEntry {
    type V = TimerModel;

    closed spec fn deep_view(&self) -> TimerModel {
        TimerModel {
            step_index: self.step_index,
            step_id: self.step_id.deep_view(),
            consumed: self.consumed,
        }
    }
}

/// The narrative of one test case while it runs: its steps in the order in
/// which they were told, what is attached to them and to the story, and
/// whether the test said that it passed.
pub struct Story {
    scenario: String,
    steps: Vec<StoryStep>,
    tags: Option<Vec<String>>,
    tickets: Option<Vec<String>>,
    meta: Option<Json>,
    trace_url_template: Option<String>,
    docs: Vec<DocEntry>,
    seen: Seen,
    source_order: Option<u32>,
    start_time: std::time::Instant,
    passed: bool,
    attachments: Vec<RawAttachment>,
    timers: Vec<TimerEntry>,
}

/// What a `Story` stands for.
pub struct StoryModel {
    pub scenario: Seq<char>,
    pub steps: Seq<StepModel>,
    pub tags: Option<Seq<Seq<char>>>,
    pub tickets: Option<Seq<Seq<char>>>,
    pub meta: Option<JsonModel>,
    pub trace_url_template: Option<Seq<char>>,
    /// The entries attached to the story as a whole.
    pub docs: Seq<Seq<Member>>,
    pub seen: Seen,
    pub source_order: Option<u32>,
    pub passed: bool,
    pub attachments: Seq<AttachmentModel>,
    /// Every timer ever started, at the place of its token.
    pub timers: Seq<TimerModel>,
}

impl View for Story {
    type V = StoryModel;

    closed spec fn view(&self) -> StoryModel {
        StoryModel {
            scenario: self.scenario@,
            steps: self.steps.deep_view(),
            tags: self.tags.deep_view(),
            tickets: self.tickets.deep_view(),
            meta: self.meta.deep_view(),
            trace_url_template: self.trace_url_template.deep_view(),
            docs: self.docs.deep_view(),
            seen: self.seen,
            source_order: self.source_order,
            passed: self.passed,
            attachments: self.attachments.deep_view(),
            timers: self.timers.deep_view(),
        }
    }
}

/// The story that has just begun: a title and an order, and nothing else.
pub open spec fn begun(scenario: Seq<char>, source_order: u32) -> StoryModel {
    StoryModel {
        scenario,
        steps: Seq::empty(),
        tags: None,
        tickets: None,
        meta: None,
        trace_url_template: None,
        docs: Seq::empty(),
        seen: Seen { seen_given: false, seen_when: false, seen_then: false },
        source_order: Some(source_order),
        passed: false,
        attachments: Seq::empty(),
        timers: Seq::empty(),
    }
}

/// The id of the step at place `n` of its story.
pub open spec fn step_id(n: nat) -> Seq<char> {
    "step-"@ + decimal(n)
}

/// A step as it is when it has just been told.
pub open spec fn told_step(keyword: Seq<char>, text: Seq<char>, place: nat) -> StepModel {
    StepModel {
        keyword,
        text,
        id: Some(step_id(place)),
        mode: None,
        wrapped: None,
        duration_ms: None,
        docs: None,
    }
}

/// The story after one more step was asked for under `keyword`: the step
/// stands behind all earlier ones, under the keyword that the story's use of
/// the primary keywords gives it.
pub open spec fn with_step(m: StoryModel, keyword: Seq<char>, text: Seq<char>) -> StoryModel {
    StoryModel {
        steps: m.steps.push(told_step(effective_keyword(m.seen, keyword), text, m.steps.len())),
        seen: mark_seen(m.seen, keyword),
        ..m
    }
}

impl Story {
    /// Begins a story with the given title and order at the given reading of
    /// the clock.
    pub fn start(scenario: &str, source_order: u32, started: std::time::Instant) -> (story: Story)
        ensures
            story@ == begun(scenario@, source_order),
    {
        let story = Story {
            scenario: scenario.to_string(),
            steps: Vec::new(),
            tags: None,
            tickets: None,
            meta: None,
            trace_url_template: None,
            docs: Vec::new(),
            seen: Seen::none(),
            source_order: Some(source_order),
            start_time: started,
            passed: false,
            attachments: Vec::new(),
            timers: Vec::new(),
        };
        assert(story.steps.deep_view() =~= Seq::empty());
        assert(story.docs.deep_view() =~= Seq::empty());
        assert(story.attachments.deep_view() =~= Seq::empty());
        assert(story.timers.deep_view() =~= Seq::empty());
        story
    }

    /// Sets the tags of the story.
    pub fn with_tags(self, tags: &[&str]) -> (story: Story)
        ensures
            story@ == (StoryModel { tags: Some(strs_view(tags@)), ..self@ }),
    {
        let mut story = self;
        story.tags = Some(to_strings(tags));
        story
    }

    /// Sets the ticket references of the story.
    pub fn with_tickets(self, tickets: &[&str]) -> (story: Story)
        ensures
            story@ == (StoryModel { tickets: Some(strs_view(tickets@)), ..self@ }),
    {
        let mut story = self;
        story.tickets = Some(to_strings(tickets));
        story
    }

    /// Sets the address pattern for links to the story's trace.
    pub fn with_trace_url_template(self, template: &str) -> (story: Story)
        ensures
            story@ == (StoryModel { trace_url_template: Some(template@), ..self@ }),
    {
        let mut story = self;
        story.trace_url_template = Some(template.to_string());
        story
    }

    fn add_step(&mut self, keyword: &str, text: &str)
        ensures
            final(self)@ == with_step(old(self)@, keyword@, text@),
    {
        let effective = self.seen.take(keyword);
        let mut id = String::from_str("step-");
        let place = decimal_string(self.steps.len() as u64);
        id.append(place.as_str());
        let step = StoryStep {
            keyword: effective.to_string(),
            text: text.to_string(),
            id: Some(id),
            mode: None,
            wrapped: None,
            duration_ms: None,
            docs: None,
        };
        assert(step@ == told_step(
            effective_keyword(old(self).seen, keyword@),
            text@,
            old(self).steps.len() as nat,
        ));
        self.steps.push(step);
        assert(self.steps.deep_view() =~= old(self).steps.deep_view().push(step@));
    }

    /// Tells a Given step.
    pub fn given(&mut self, text: &str) -> (ret: &mut Self)
        ensures
            ret@ == with_step(old(self)@, "Given"@, text@),
            *final(self) == *final(ret),
    {
        self.add_step("Given", text);
        self
    }

    /// Tells a When step.
    pub fn when(&mut self, text: &str) -> (ret: &mut Self)
        ensures
            ret@ == with_step(old(self)@, "When"@, text@),
            *final(self) == *final(ret),
    {
        self.add_step("When", text);
        self
    }

    /// Tells a Then step.
    pub fn then(&mut self, text: &str) -> (ret: &mut Self)
        ensures
            ret@ == with_step(old(self)@, "Then"@, text@),
            *final(self) == *final(ret),
    {
        self.add_step("Then", text);
        self
    }

    /// Tells an And step.
    pub fn and(&mut self, text: &str) -> (ret: &mut Self)
        ensures
            ret@ == with_step(old(self)@, "And"@, text@),
            *final(self) == *final(ret),
    {
        self.add_step("And", text);
        self
    }

    /// Tells a But step.
    pub fn but(&mut self, text: &str) -> (ret: &mut Self)
        ensures
            ret@ == with_step(old(self)@, "But"@, text@),
            *final(self) == *final(ret),
    {
        self.add_step("But", text);
        self
    }
}

/// The entries of a step once `more` have been put behind those it has.
/// Where `more` is empty there is nothing to attach, and the step keeps what
/// it has.
pub open spec fn docs_with(existing: Option<Seq<Seq<Member>>>, more: Seq<Seq<Member>>) -> Option<
    Seq<Seq<Member>>,
> {
    if more.len() == 0 {
        existing
    } else {
        Some(
            match existing {
                Some(d) => d + more,
                None => more,
            },
        )
    }
}

/// The story after `more` entries were attached to whatever is current: to
/// the step told last, behind those it has, or, while the story has no step,
/// to the story as a whole, behind those it has. No entry is lost, and the
/// entries keep their order.
pub open spec fn with_entries(m: StoryModel, more: Seq<Seq<Member>>) -> StoryModel {
    if m.steps.len() == 0 {
        StoryModel { docs: m.docs + more, ..m }
    } else {
        let last = m.steps.len() - 1;
        StoryModel {
            steps: m.steps.update(
                last,
                StepModel { docs: docs_with(m.steps[last].docs, more), ..m.steps[last] },
            ),
            ..m
        }
    }
}

/// The story after one entry was attached to whatever is current: the step
/// told last, or the story as a whole while it has no step.
pub open spec fn with_doc(m: StoryModel, entry: Seq<Member>) -> StoryModel {
    with_entries(m, seq![entry])
}

impl Story {
    /// Puts entries behind those of the step told last.
    fn extend_last(&mut self, more: Vec<DocEntry>)
        requires
            old(self)@.steps.len() > 0,
        ensures
            final(self)@ == with_entries(old(self)@, more.deep_view()),
    {
        let mut more = more;
        if more.len() == 0 {
            assert(self.steps.deep_view() =~= self.steps.deep_view().update(
                self.steps.len() - 1,
                self.steps[self.steps.len() - 1]@,
            ));
            return ;
        }
        let last = self.steps.len() - 1;
        let ghost before = self.steps[last as int]@;
        let ghost added = more.deep_view();
        let mut all = match self.steps[last].docs.take() {
            Some(d) => d,
            None => Vec::new(),
        };
        let ghost had = all.deep_view();
        all.append(&mut more);
        assert(all.deep_view() =~= had + added);
        self.steps[last].docs = Some(all);
        assert(self.steps.deep_view() =~= old(self).steps.deep_view().update(
            last as int,
            StepModel { docs: docs_with(before.docs, added), ..before },
        ));
    }

    /// Attaches an entry to whatever is current.
    fn attach_doc(&mut self, entry: DocEntry)
        ensures
            final(self)@ == with_doc(old(self)@, entry@),
    {
        if self.steps.len() == 0 {
            self.docs.push(entry);
            assert(self.docs.deep_view() =~= old(self).docs.deep_view() + seq![entry@]);
        } else {
            let mut more: Vec<DocEntry> = Vec::new();
            more.push(entry);
            assert(more.deep_view() =~= seq![entry@]);
            self.extend_last(more);
        }
    }

    /// Tells an Arrange step, which is a Given step.
    pub fn arrange(&mut self, text: &str) -> (ret: &mut Self)
        ensures
            ret@ == with_step(old(self)@, "Given"@, text@),
            *final(self) == *final(ret),
    {
        self.add_step("Given", text);
        self
    }

    /// Tells an Act step, which is a When step.
    pub fn act(&mut self, text: &str) -> (ret: &mut Self)
        ensures
            ret@ == with_step(old(self)@, "When"@, text@),
            *final(self) == *final(ret),
    {
        self.add_step("When", text);
        self
    }

    /// Tells an Assert step, which is a Then step.
    pub fn assert_that(&mut self, text: &str) -> (ret: &mut Self)
        ensures
            ret@ == with_step(old(self)@, "Then"@, text@),
            *final(self) == *final(ret),
    {
        self.add_step("Then", text);
        self
    }

    /// Tells a Setup step, which is a Given step.
    pub fn setup(&mut self, text: &str) -> (ret: &mut Self)
        ensures
            ret@ == with_step(old(self)@, "Given"@, text@),
            *final(self) == *final(ret),
    {
        self.add_step("Given", text);
        self
    }

    /// Tells a Context step, which is a Given step.
    pub fn context(&mut self, text: &str) -> (ret: &mut Self)
        ensures
            ret@ == with_step(old(self)@, "Given"@, text@),
            *final(self) == *final(ret),
    {
        self.add_step("Given", text);
        self
    }

    /// Tells an Execute step, which is a When step.
    pub fn execute(&mut self, text: &str) -> (ret: &mut Self)
        ensures
            ret@ == with_step(old(self)@, "When"@, text@),
            *final(self) == *final(ret),
    {
        self.add_step("When", text);
        self
    }

    /// Tells an Action step, which is a When step.
    pub fn action(&mut self, text: &str) -> (ret: &mut Self)
        ensures
            ret@ == with_step(old(self)@, "When"@, text@),
            *final(self) == *final(ret),
    {
        self.add_step("When", text);
        self
    }

    /// Tells a Verify step, which is a Then step.
    pub fn verify(&mut self, text: &str) -> (ret: &mut Self)
        ensures
            ret@ == with_step(old(self)@, "Then"@, text@),
            *final(self) == *final(ret),
    {
        self.add_step("Then", text);
        self
    }

    /// Attaches the given entries to whatever is current: to the step told
    /// last, behind those it has, or to the story as a whole while it has no
    /// step.
    pub fn with_docs(&mut self, docs: Vec<StepDoc>) -> (ret: &mut Self)
        ensures
            ret@ == with_entries(old(self)@, docs.deep_view()),
            *final(self) == *final(ret),
    {
        let mut entries: Vec<DocEntry> = Vec::new();
        let mut i: usize = 0;
        while i < docs.len()
            invariant
                i <= docs.len(),
                entries.len() == i,
                forall|k: int| 0 <= k < i ==> entries[k]@ == docs[k]@,
            decreases docs.len() - i,
        {
            entries.push(docs[i].0.clone());
            i += 1;
        }
        assert(entries.deep_view() =~= docs.deep_view());
        if self.steps.len() > 0 {
            self.extend_last(entries);
        } else {
            let ghost had = self.docs.deep_view();
            self.docs.append(&mut entries);
            assert(self.docs.deep_view() =~= had + docs.deep_view());
        }
        self
    }

    /// Attaches a text note to whatever is current.
    pub fn note(&mut self, text: &str) -> (ret: &mut Self)
        ensures
            ret@ == with_doc(
                old(self)@,
                entry_head("note"@).push(("text"@, JsonModel::Text(text@))),
            ),
            *final(self) == *final(ret),
    {
        self.attach_doc(DocEntry::note(text));
        self
    }

    /// Attaches tag names to whatever is current.
    pub fn tag(&mut self, names: &[&str]) -> (ret: &mut Self)
        ensures
            ret@ == with_doc(
                old(self)@,
                entry_head("tag"@).push(("names"@, text_list(strs_view(names@)))),
            ),
            *final(self) == *final(ret),
    {
        self.attach_doc(DocEntry::tag(names));
        self
    }

    /// Attaches a key-value pair to whatever is current.
    pub fn kv(&mut self, label: &str, value: serde_json::Value) -> (ret: &mut Self)
        ensures
            ret@ == with_doc(
                old(self)@,
                entry_head("kv"@).push(("label"@, JsonModel::Text(label@))).push(
                    ("value"@, JsonModel::Raw(value)),
                ),
            ),
            *final(self) == *final(ret),
    {
        self.attach_doc(DocEntry::kv(label, value));
        self
    }

    /// Attaches a JSON document, shown as code in the language `json`, to
    /// whatever is current.
    pub fn json(&mut self, label: &str, value: &serde_json::Value) -> (ret: &mut Self)
        ensures
            ret@ == with_doc(
                old(self)@,
                code_members(
                    label@,
                    pretty_text(*value),
                    Some("json"@),
                ),
            ),
            *final(self) == *final(ret),
    {
        self.attach_doc(DocEntry::json_doc(label, value));
        self
    }

    /// Attaches a code block to whatever is current.
    pub fn code(&mut self, label: &str, content: &str, lang: Option<&str>) -> (ret: &mut Self)
        ensures
            ret@ == with_doc(old(self)@, code_members(label@, content@, opt_str_view(lang))),
            *final(self) == *final(ret),
    {
        self.attach_doc(DocEntry::code(label, content, lang));
        self
    }

    /// Attaches a table to whatever is current.
    pub fn table(&mut self, label: &str, columns: &[&str], rows: &[&[&str]]) -> (ret: &mut Self)
        ensures
            ret@ == with_doc(
                old(self)@,
                entry_head("table"@).push(("label"@, JsonModel::Text(label@))).push(
                    ("columns"@, text_list(strs_view(columns@))),
                ).push(("rows"@, rows_model(rows@))),
            ),
            *final(self) == *final(ret),
    {
        self.attach_doc(DocEntry::table(label, columns, rows));
        self
    }

    /// Attaches a link to whatever is current.
    pub fn link(&mut self, label: &str, url: &str) -> (ret: &mut Self)
        ensures
            ret@ == with_doc(
                old(self)@,
                entry_head("link"@).push(("label"@, JsonModel::Text(label@))).push(
                    ("url"@, JsonModel::Text(url@)),
                ),
            ),
            *final(self) == *final(ret),
    {
        self.attach_doc(DocEntry::link(label, url));
        self
    }

    /// Attaches a markdown section to whatever is current.
    pub fn section(&mut self, title: &str, markdown: &str) -> (ret: &mut Self)
        ensures
            ret@ == with_doc(
                old(self)@,
                entry_head("section"@).push(("title"@, JsonModel::Text(title@))).push(
                    ("markdown"@, JsonModel::Text(markdown@)),
                ),
            ),
            *final(self) == *final(ret),
    {
        self.attach_doc(DocEntry::section(title, markdown));
        self
    }

    /// Attaches a mermaid diagram to whatever is current.
    pub fn mermaid(&mut self, code: &str, title: Option<&str>) -> (ret: &mut Self)
        ensures
            ret@ == with_doc(
                old(self)@,
                entry_head("mermaid"@).push(("code"@, JsonModel::Text(code@))) + (match title {
                    Some(t) => seq![("title"@, JsonModel::Text(t@))],
                    None => Seq::empty(),
                }),
            ),
            *final(self) == *final(ret),
    {
        self.attach_doc(DocEntry::mermaid(code, title));
        self
    }

    /// Attaches a screenshot reference to whatever is current.
    pub fn screenshot(&mut self, path: &str, alt: Option<&str>) -> (ret: &mut Self)
        ensures
            ret@ == with_doc(
                old(self)@,
                entry_head("screenshot"@).push(("path"@, JsonModel::Text(path@))) + (match alt {
                    Some(a) => seq![("alt"@, JsonModel::Text(a@))],
                    None => Seq::empty(),
                }),
            ),
            *final(self) == *final(ret),
    {
        self.attach_doc(DocEntry::screenshot(path, alt));
        self
    }

    /// Attaches an entry of a kind of the caller's own to whatever is
    /// current.
    pub fn custom(&mut self, custom_type: &str, data: serde_json::Value) -> (ret: &mut Self)
        ensures
            ret@ == with_doc(
                old(self)@,
                entry_head("custom"@).push(("type"@, JsonModel::Text(custom_type@))).push(
                    ("data"@, JsonModel::Raw(data)),
                ),
            ),
            *final(self) == *final(ret),
    {
        self.attach_doc(DocEntry::custom(custom_type, data));
        self
    }
}

/// The timer that is started on a story in state `m`: tied to the step told
/// last, by its place and by its id, or to none where no step was told.
pub open spec fn fresh_timer(m: StoryModel) -> TimerModel {
    if m.steps.len() == 0 {
        TimerModel { step_index: None, step_id: None, consumed: false }
    } else {
        TimerModel {
            step_index: Some((m.steps.len() - 1) as usize),
            step_id: m.steps.last().id,
            consumed: false,
        }
    }
}

/// The story after a timer was started: its token is the number of timers
/// started before.
pub open spec fn with_timer(m: StoryModel) -> StoryModel {
    StoryModel { timers: m.timers.push(fresh_timer(m)), ..m }
}

/// The place of the first step from `from` on that has the id `id`.
pub open spec fn first_with_id(steps: Seq<StepModel>, id: Seq<char>, from: int) -> Option<int>
    decreases steps.len() - from,
{
    if from < 0 || from >= steps.len() {
        None
    } else if steps[from].id == Some(id) {
        Some(from)
    } else {
        first_with_id(steps, id, from + 1)
    }
}

/// The step that a timer writes to: the one at its place where the story
/// has a step there, else the first one that has its id.
pub open spec fn timer_target(steps: Seq<StepModel>, t: TimerModel) -> Option<int> {
    if t.step_index is Some && t.step_index->0 < steps.len() {
        Some(t.step_index->0 as int)
    } else {
        match t.step_id {
            Some(id) => first_with_id(steps, id, 0),
            None => None,
        }
    }
}

/// The steps with `elapsed` written onto the one at `place`; unchanged where
/// there is no such step.
pub open spec fn with_duration(steps: Seq<StepModel>, place: Option<int>, elapsed: Millis) -> Seq<
    StepModel,
> {
    match place {
        Some(i) => if 0 <= i < steps.len() {
            steps.update(i, StepModel { duration_ms: Some(elapsed), ..steps[i] })
        } else {
            steps
        },
        None => steps,
    }
}

/// The story after the timer `token` was ended with `elapsed` on the clock.
/// A token that was never handed out, or whose timer was ended before,
/// changes nothing. Else the timer counts as ended from now on, and the
/// step it is tied to, if there is one, has `elapsed` as its duration.
pub open spec fn with_timer_ended(m: StoryModel, token: usize, elapsed: Millis) -> StoryModel {
    if token >= m.timers.len() || m.timers[token as int].consumed {
        m
    } else {
        let t = m.timers[token as int];
        StoryModel {
            timers: m.timers.update(token as int, TimerModel { consumed: true, ..t }),
            steps: with_duration(m.steps, timer_target(m.steps, t), elapsed),
            ..m
        }
    }
}

/// The story after a wrapped step was begun: told like any step, and marked
/// as wrapped.
pub open spec fn with_wrapped(m: StoryModel, keyword: Seq<char>, text: Seq<char>) -> StoryModel {
    StoryModel {
        steps: m.steps.push(
            StepModel {
                wrapped: Some(true),
                ..told_step(effective_keyword(m.seen, keyword), text, m.steps.len())
            },
        ),
        seen: mark_seen(m.seen, keyword),
        ..m
    }
}

/// The story after a wrapped step has run for `elapsed`.
pub open spec fn with_wrapped_step(
    m: StoryModel,
    keyword: Seq<char>,
    text: Seq<char>,
    elapsed: Millis,
) -> StoryModel {
    StoryModel {
        steps: m.steps.push(
            StepModel {
                wrapped: Some(true),
                duration_ms: Some(elapsed),
                ..told_step(effective_keyword(m.seen, keyword), text, m.steps.len())
            },
        ),
        seen: mark_seen(m.seen, keyword),
        ..m
    }
}

/// The step that an attachment made now belongs to: the step told last, by
/// place and id, where that step has an id; none else.
pub open spec fn current_link(m: StoryModel) -> (Option<usize>, Option<Seq<char>>) {
    if m.steps.len() > 0 && m.steps.last().id is Some {
        (Some((m.steps.len() - 1) as usize), m.steps.last().id)
    } else {
        (None, None)
    }
}

/// An attachment that names a file. An empty path counts as no path.
pub open spec fn file_attachment(
    m: StoryModel,
    name: Seq<char>,
    media_type: Seq<char>,
    path: Seq<char>,
) -> AttachmentModel {
    AttachmentModel {
        name,
        media_type,
        path: if path.len() == 0 {
            None
        } else {
            Some(path)
        },
        body: None,
        encoding: None,
        charset: None,
        file_name: None,
        byte_length: None,
        step_index: current_link(m).0,
        step_id: current_link(m).1,
    }
}

/// An attachment that carries its body.
pub open spec fn inline_attachment(
    m: StoryModel,
    name: Seq<char>,
    media_type: Seq<char>,
    body: Seq<char>,
    encoding: Seq<char>,
) -> AttachmentModel {
    AttachmentModel {
        name,
        media_type,
        path: None,
        body: Some(body),
        encoding: Some(encoding),
        charset: None,
        file_name: None,
        byte_length: None,
        step_index: current_link(m).0,
        step_id: current_link(m).1,
    }
}

/// The events of the first `n` steps: one for each step that has a
/// duration, in the order of the steps, with the step's place, text and
/// duration.
pub open spec fn events_upto(steps: Seq<StepModel>, n: nat) -> Seq<StepEventModel>
    decreases n,
{
    if n == 0 || n > steps.len() {
        Seq::empty()
    } else {
        let before = events_upto(steps, (n - 1) as nat);
        let step = steps[n - 1];
        match step.duration_ms {
            Some(d) => before.push(
                StepEventModel {
                    index: Some((n - 1) as usize),
                    title: Some(step.text),
                    status: None,
                    duration_ms: Some(d),
                },
            ),
            None => before,
        }
    }
}

/// A sequence as a record holds it: left out where it is empty.
pub open spec fn unless_empty<T>(items: Seq<T>) -> Option<Seq<T>> {
    if items.len() == 0 {
        None
    } else {
        Some(items)
    }
}

/// The test case that a story is recorded as when it ends after `elapsed`:
/// passed only if the test said so, with the steps as they were told, and an
/// event for every step that was timed.
pub open spec fn finished(m: StoryModel, elapsed: Millis) -> TestCaseModel {
    TestCaseModel {
        status: if m.passed {
            "pass"@
        } else {
            "fail"@
        },
        external_id: None,
        title: Some(m.scenario),
        story: Some(
            StoryMetaModel {
                scenario: m.scenario,
                steps: m.steps,
                tags: m.tags,
                tickets: m.tickets,
                meta: m.meta,
                docs: unless_empty(m.docs),
                source_order: m.source_order,
            },
        ),
        duration_ms: Some(elapsed),
        error: None,
        retry: 0,
        retries: 0,
        attachments: unless_empty(m.attachments),
        step_events: unless_empty(events_upto(m.steps, m.steps.len())),
    }
}

impl Story {
    /// Starts a timer tied to the step told last and hands out its token.
    pub fn start_timer(&mut self) -> (token: usize)
        ensures
            token == old(self)@.timers.len(),
            final(self)@ == with_timer(old(self)@),
    {
        let token = self.timers.len();
        let entry = if self.steps.len() == 0 {
            TimerEntry {
                start: std::time::Instant::now(),
                step_index: None,
                step_id: None,
                consumed: false,
            }
        } else {
            let last = self.steps.len() - 1;
            TimerEntry {
                start: std::time::Instant::now(),
                step_index: Some(last),
                step_id: match &self.steps[last].id {
                    Some(id) => Some(id.clone()),
                    None => None,
                },
                consumed: false,
            }
        };
        assert(entry.deep_view() == fresh_timer(self@));
        self.timers.push(entry);
        assert(self.timers.deep_view() =~= old(self).timers.deep_view().push(entry.deep_view()));
        token
    }

    /// Ends the timer `token` and writes the time that went by since its
    /// start onto the step it is tied to. Ending a timer again, or one that
    /// was never started, does nothing.
    pub fn end_timer(&mut self, token: usize)
        ensures
            exists|elapsed: Millis| final(self)@ == with_timer_ended(old(self)@, token, elapsed),
    {
        if token < self.timers.len() {
            let elapsed = elapsed_since(&self.timers[token].start);
            self.end_timer_at(token, elapsed);
        } else {
            assert(self@ == with_timer_ended(self@, token, Millis { micros: 0 }));
        }
    }

    /// Ends the timer `token` with `elapsed` as the time that went by.
    pub fn end_timer_at(&mut self, token: usize, elapsed: Millis)
        ensures
            final(self)@ == with_timer_ended(old(self)@, token, elapsed),
    {
        if token >= self.timers.len() {
            return ;
        }
        if self.timers[token].consumed {
            return ;
        }
        let ghost before = self.timers[token as int].deep_view();
        self.timers[token].consumed = true;
        assert(self.timers.deep_view() =~= old(self).timers.deep_view().update(
            token as int,
            TimerModel { consumed: true, ..before },
        ));
        let place = self.target_of(token);
        match place {
            Some(i) => {
                self.record_duration(i, elapsed);
            },
            None => {},
        }
    }

    /// The place of the step that the timer `token` writes to.
    fn target_of(&self, token: usize) -> (place: Option<usize>)
        requires
            token < self@.timers.len(),
        ensures
            match place {
                Some(i) => timer_target(self@.steps, self@.timers[token as int]) == Some(i as int),
                None => timer_target(self@.steps, self@.timers[token as int]) is None,
            },
    {
        let timer = &self.timers[token];
        assert(self.timers.deep_view()[token as int] == timer.deep_view());
        match timer.step_index {
            Some(i) => {
                if i < self.steps.len() {
                    return Some(i);
                }
            },
            None => {},
        }
        match &timer.step_id {
            Some(id) => {
                let mut i: usize = 0;
                assert(timer_target(self@.steps, self@.timers[token as int]) == first_with_id(
                    self.steps.deep_view(),
                    id@,
                    0,
                ));
                while i < self.steps.len()
                    invariant
                        i <= self.steps.len(),
                        token < self@.timers.len(),
                        timer_target(self@.steps, self@.timers[token as int]) == first_with_id(
                            self.steps.deep_view(),
                            id@,
                            0,
                        ),
                        first_with_id(self.steps.deep_view(), id@, 0) == first_with_id(
                            self.steps.deep_view(),
                            id@,
                            i as int,
                        ),
                    decreases self.steps.len() - i,
                {
                    assert(self.steps.deep_view()[i as int] == self.steps[i as int]@);
                    let found = match &self.steps[i].id {
                        Some(other) => *other == *id,
                        None => false,
                    };
                    assert(found == (self.steps.deep_view()[i as int].id == Some(id@)));
                    if found {
                        return Some(i);
                    }
                    i += 1;
                }
                None
            },
            None => None,
        }
    }

    /// Writes `elapsed` onto the step at `place` as its duration. A place
    /// without a step changes nothing.
    pub fn record_duration(&mut self, place: usize, elapsed: Millis)
        ensures
            final(self)@ == (StoryModel {
                steps: with_duration(old(self)@.steps, Some(place as int), elapsed),
                ..old(self)@
            }),
    {
        if place < self.steps.len() {
            let ghost before = self.steps[place as int]@;
            self.steps[place].duration_ms = Some(elapsed);
            assert(self.steps.deep_view() =~= old(self).steps.deep_view().update(
                place as int,
                StepModel { duration_ms: Some(elapsed), ..before },
            ));
        }
    }

    /// Tells a step that wraps a piece of work, and hands back its place so
    /// that the time the work took can be written onto it.
    pub fn begin_wrapped(&mut self, keyword: &str, text: &str) -> (place: usize)
        ensures
            place == old(self)@.steps.len(),
            final(self)@ == with_wrapped(old(self)@, keyword@, text@),
    {
        let place = self.steps.len();
        self.add_step(keyword, text);
        assert(self@.steps.len() == old(self)@.steps.len() + 1);
        assert(self.steps.deep_view().len() == self.steps.len());
        let ghost mid = self@;
        let ghost told = mid.steps[place as int];
        assert(told == self.steps[place as int]@);
        self.steps[place].wrapped = Some(true);
        assert(self.steps.deep_view() =~= mid.steps.update(
            place as int,
            StepModel { wrapped: Some(true), ..told },
        ));
        assert(self.steps.deep_view() =~= old(self).steps.deep_view().push(
            StepModel { wrapped: Some(true), ..told },
        ));
        place
    }

    /// Tells a step, runs `body` as its work, and writes the time that the
    /// work took onto the step. What `body` hands back, be it a value or a
    /// failure, is handed on as it is.
    pub fn fn_step<F: FnOnce() -> T, T>(&mut self, keyword: &str, text: &str, body: F) -> (r: T)
        requires
            body.requires(()),
        ensures
            body.ensures((), r),
            exists|elapsed: Millis|
                final(self)@ == with_wrapped_step(old(self)@, keyword@, text@, elapsed),
    {
        let place = self.begin_wrapped(keyword, text);
        let ghost begun = self@;
        let start = std::time::Instant::now();
        let r = body();
        let elapsed = elapsed_since(&start);
        self.record_duration(place, elapsed);
        assert(self@.steps =~= with_wrapped_step(old(self)@, keyword@, text@, elapsed).steps);
        assert(self@ == with_wrapped_step(old(self)@, keyword@, text@, elapsed));
        r
    }

    /// A wrapped Then step.
    pub fn expect_step<F: FnOnce() -> T, T>(&mut self, text: &str, body: F) -> (r: T)
        requires
            body.requires(()),
        ensures
            body.ensures((), r),
            exists|elapsed: Millis|
                final(self)@ == with_wrapped_step(old(self)@, "Then"@, text@, elapsed),
    {
        self.fn_step("Then", text, body)
    }

    /// The step that an attachment made now belongs to.
    fn current_link(&self) -> (link: (Option<usize>, Option<String>))
        ensures
            link.0 == current_link(self@).0,
            link.1.deep_view() == current_link(self@).1,
    {
        if self.steps.len() == 0 {
            return (None, None);
        }
        let last = self.steps.len() - 1;
        assert(self.steps.deep_view().last() == self.steps[last as int]@);
        match &self.steps[last].id {
            Some(id) => (Some(last), Some(id.clone())),
            None => (None, None),
        }
    }

    /// Attaches a file by its path.
    pub fn attach(&mut self, name: &str, media_type: &str, path: &str) -> (ret: &mut Self)
        ensures
            ret@ == (StoryModel {
                attachments: old(self)@.attachments.push(
                    file_attachment(old(self)@, name@, media_type@, path@),
                ),
                ..old(self)@
            }),
            *final(self) == *final(ret),
    {
        let link = self.current_link();
        let a = RawAttachment {
            name: name.to_string(),
            media_type: media_type.to_string(),
            path: if path.is_empty() {
                None
            } else {
                Some(path.to_string())
            },
            body: None,
            encoding: None,
            charset: None,
            file_name: None,
            byte_length: None,
            step_index: link.0,
            step_id: link.1,
        };
        assert(a@ == file_attachment(self@, name@, media_type@, path@));
        self.attachments.push(a);
        assert(self.attachments.deep_view() =~= old(self).attachments.deep_view().push(a@));
        self
    }

    /// Attaches a body given inline, with the encoding it is in.
    pub fn attach_inline(&mut self, name: &str, media_type: &str, body: &str, encoding: &str) -> (ret:
        &mut Self)
        ensures
            ret@ == (StoryModel {
                attachments: old(self)@.attachments.push(
                    inline_attachment(old(self)@, name@, media_type@, body@, encoding@),
                ),
                ..old(self)@
            }),
            *final(self) == *final(ret),
    {
        let link = self.current_link();
        let a = RawAttachment {
            name: name.to_string(),
            media_type: media_type.to_string(),
            path: None,
            body: Some(body.to_string()),
            encoding: Some(encoding.to_string()),
            charset: None,
            file_name: None,
            byte_length: None,
            step_index: link.0,
            step_id: link.1,
        };
        assert(a@ == inline_attachment(self@, name@, media_type@, body@, encoding@));
        self.attachments.push(a);
        assert(self.attachments.deep_view() =~= old(self).attachments.deep_view().push(a@));
        self
    }

    /// Says that the test passed.
    pub fn pass(&mut self)
        ensures
            final(self)@ == (StoryModel { passed: true, ..old(self)@ }),
    {
        self.passed = true;
    }

    /// The events of the steps that were timed.
    fn step_events(&self) -> (events: Vec<RawStepEvent>)
        ensures
            events.deep_view() == events_upto(self@.steps, self@.steps.len()),
    {
        let mut events: Vec<RawStepEvent> = Vec::new();
        let mut i: usize = 0;
        assert(events.deep_view() =~= events_upto(self@.steps, 0));
        while i < self.steps.len()
            invariant
                i <= self.steps.len(),
                events.deep_view() == events_upto(self.steps.deep_view(), i as nat),
            decreases self.steps.len() - i,
        {
            let ghost before = events.deep_view();
            match self.steps[i].duration_ms {
                Some(d) => {
                    let event = RawStepEvent {
                        index: Some(i),
                        title: Some(self.steps[i].text.clone()),
                        status: None,
                        duration_ms: Some(d),
                    };
                    events.push(event);
                    assert(events.deep_view() =~= before.push(event@));
                },
                None => {},
            }
            i += 1;
        }
        events
    }

    /// Ends the story after `elapsed` and hands back the test case that it
    /// is recorded as.
    pub fn finalize(self, elapsed: Millis) -> (tc: RawTestCase)
        ensures
            tc@ == finished(self@, elapsed),
    {
        let step_events = self.step_events();
        let status = if self.passed {
            "pass"
        } else {
            "fail"
        };
        let title = self.scenario.clone();
        RawTestCase {
            status: status.to_string(),
            external_id: None,
            title: Some(title),
            story: Some(
                StoryMeta {
                    scenario: self.scenario,
                    steps: self.steps,
                    tags: self.tags,
                    tickets: self.tickets,
                    meta: self.meta,
                    docs: if self.docs.len() == 0 {
                        None
                    } else {
                        Some(self.docs)
                    },
                    source_order: self.source_order,
                },
            ),
            duration_ms: Some(elapsed),
            error: None,
            retry: 0,
            retries: 0,
            attachments: if self.attachments.len() == 0 {
                None
            } else {
                Some(self.attachments)
            },
            step_events: if step_events.len() == 0 {
                None
            } else {
                Some(step_events)
            },
        }
    }

    /// Ends the story now and hands back the test case that it is recorded
    /// as: as passed if the test said so, as failed else, with the time since
    /// it began as its duration.
    pub fn conclude(self) -> (tc: RawTestCase)
        ensures
            exists|elapsed: Millis| tc@ == #[trigger] finished(self@, elapsed),
    {
        let elapsed = elapsed_since(&self.start_time);
        self.finalize(elapsed)
    }

    /// Ends the story now and records it with the collector: as passed if
    /// the test said so, as failed else.
    pub fn finish(self, collector: &mut Collector)
        ensures
            exists|elapsed: Millis|
                final(collector)@ == (CollectorModel {
                    cases: old(collector)@.cases.push(#[trigger] finished(self@, elapsed)),
                    ..old(collector)@
                }),
    {
        let tc = self.conclude();
        collector.record(tc);
    }
}

/// What a story notes of the trace it runs in: the two ids, under `otel`.
pub open spec fn trace_meta(trace_id: Seq<char>, span_id: Seq<char>) -> JsonModel {
    JsonModel::Record(
        seq![
            (
                "otel"@,
                JsonModel::Record(
                    seq![
                        ("traceId"@, JsonModel::Text(trace_id)),
                        ("spanId"@, JsonModel::Text(span_id)),
                    ],
                ),
            ),
        ],
    )
}

/// The entries that a trace adds to a story: its id, and a link to it where
/// there is an address pattern, with the id put in the pattern's place for it.
pub open spec fn trace_docs(trace_id: Seq<char>, template: Option<Seq<char>>) -> Seq<Seq<Member>> {
    let id_entry = entry_head("kv"@).push(("label"@, JsonModel::Text("Trace ID"@))).push(
        ("value"@, JsonModel::Raw(string_value(trace_id))),
    );
    match template {
        Some(t) => seq![
            id_entry,
            entry_head("link"@).push(("label"@, JsonModel::Text("View Trace"@))).push(
                ("url"@, JsonModel::Text(replaced(t, "{traceId}"@, trace_id))),
            ),
        ],
        None => seq![id_entry],
    }
}

/// The story after it was told of the trace it runs in. An id of nothing but
/// zeros means that there is no trace, and changes nothing. Else the story
/// notes the ids and gets the trace's entries, behind those it has; the
/// address pattern is the story's own or, if it has none, the one given.
pub open spec fn with_trace(
    m: StoryModel,
    trace_id: Seq<char>,
    span_id: Seq<char>,
    template: Option<Seq<char>>,
) -> StoryModel {
    if all_zeros(trace_id) {
        m
    } else {
        StoryModel {
            meta: Some(trace_meta(trace_id, span_id)),
            docs: m.docs + trace_docs(
                trace_id,
                match m.trace_url_template {
                    Some(t) => Some(t),
                    None => template,
                },
            ),
            ..m
        }
    }
}

/// What a story tells the span it runs in: its title, and its tags and
/// ticket references where it has them, as std's `Debug` writes such lists.
pub open spec fn span_attributes_of(m: StoryModel) -> Seq<(Seq<char>, Seq<char>)> {
    seq![("story.scenario"@, m.scenario)] + (match m.tags {
        Some(t) => seq![("story.tags"@, debug_text(t))],
        None => Seq::empty(),
    }) + (match m.tickets {
        Some(t) => seq![("story.tickets"@, debug_text(t))],
        None => Seq::empty(),
    })
}

/// The characters of each pair of strings, in order.
pub open spec fn pairs_view(pairs: Seq<(String, String)>) -> Seq<(Seq<char>, Seq<char>)> {
    Seq::new(pairs.len(), |i: int| (pairs[i].0@, pairs[i].1@))
}

impl Story {
    /// Tells the story of the trace it runs in, by the ids of the trace and
    /// of the span, with the address pattern to fall back on. Hands back
    /// whether there is a trace.
    pub fn apply_trace(&mut self, trace_id: &str, span_id: &str, template: Option<&str>) -> (active:
        bool)
        ensures
            active == !all_zeros(trace_id@),
            final(self)@ == with_trace(old(self)@, trace_id@, span_id@, opt_str_view(template)),
    {
        if is_all_zeros(trace_id) {
            return false;
        }
        let mut ids: Vec<(String, Json)> = Vec::new();
        push_member(&mut ids, "traceId", Json::Text(trace_id.to_string()));
        push_member(&mut ids, "spanId", Json::Text(span_id.to_string()));
        let mut outer: Vec<(String, Json)> = Vec::new();
        push_member(&mut outer, "otel", Json::Record(ids));
        let meta = Json::Record(outer);
        assert(meta@ == trace_meta(trace_id@, span_id@)) by {
            assert(meta@->Record_0 =~= trace_meta(trace_id@, span_id@)->Record_0) by {
                assert(meta@->Record_0[0].1->Record_0 =~= seq![
                    ("traceId"@, JsonModel::Text(trace_id@)),
                    ("spanId"@, JsonModel::Text(span_id@)),
                ]);
            }
        }
        self.meta = Some(meta);
        let id_entry = DocEntry::kv("Trace ID", value_string(trace_id.to_string()));
        self.docs.push(id_entry);
        let pattern: Option<String> = match &self.trace_url_template {
            Some(t) => Some(t.clone()),
            None => match template {
                Some(t) => Some(t.to_string()),
                None => None,
            },
        };
        match pattern {
            Some(t) => {
                proof {
                    reveal_strlit("{traceId}");
                }
                let url = replace_all(t.as_str(), "{traceId}", trace_id);
                let link = DocEntry::link("View Trace", url.as_str());
                self.docs.push(link);
                assert(self.docs.deep_view() =~= old(self).docs.deep_view() + seq![
                    id_entry@,
                    link@,
                ]);
            },
            None => {
                assert(self.docs.deep_view() =~= old(self).docs.deep_view() + seq![id_entry@]);
            },
        }
        true
    }

    /// What the story tells the span it runs in, as keys and values.
    pub fn span_attributes(&self) -> (attributes: Vec<(String, String)>)
        ensures
            pairs_view(attributes@) == span_attributes_of(self@),
    {
        let mut attributes: Vec<(String, String)> = Vec::new();
        attributes.push(("story.scenario".to_string(), self.scenario.clone()));
        let ghost first = pairs_view(attributes@);
        assert(first =~= seq![("story.scenario"@, self.scenario@)]);
        match &self.tags {
            Some(tags) => {
                attributes.push(("story.tags".to_string(), debug_list(tags)));
                assert(pairs_view(attributes@) =~= first + seq![
                    ("story.tags"@, debug_text(tags.deep_view())),
                ]);
            },
            None => {
                assert(pairs_view(attributes@) =~= first + Seq::empty());
            },
        }
        let ghost second = pairs_view(attributes@);
        match &self.tickets {
            Some(tickets) => {
                attributes.push(("story.tickets".to_string(), debug_list(tickets)));
                assert(pairs_view(attributes@) =~= second + seq![
                    ("story.tickets"@, debug_text(tickets.deep_view())),
                ]);
            },
            None => {
                assert(pairs_view(attributes@) =~= second + Seq::empty());
            },
        }
        attributes
    }

    /// Looks up the trace that this thread runs in, tells the story of it,
    /// and tells the active span of the story.
    fn bridge_otel(&mut self, template: Option<&str>)
        ensures
            exists|trace_id: Seq<char>, span_id: Seq<char>|
                final(self)@ == with_trace(old(self)@, trace_id, span_id, opt_str_view(template)),
    {
        let ids = active_trace_ids();
        let active = self.apply_trace(ids.0.as_str(), ids.1.as_str(), template);
        if active {
            let attributes = self.span_attributes();
            let mut i: usize = 0;
            while i < attributes.len()
                invariant
                    i <= attributes.len(),
                decreases attributes.len() - i,
            {
                set_span_attribute(attributes[i].0.as_str(), attributes[i].1.as_str());
                i += 1;
            }
        }
    }

    /// Begins a story with the given title and order: starts its clock, and
    /// tells it of the trace that this thread runs in, with the given address
    /// pattern to fall back on.
    pub fn begin(scenario: &str, source_order: u32, template: Option<&str>) -> (story: Story)
        ensures
            exists|trace_id: Seq<char>, span_id: Seq<char>|
                story@ == with_trace(
                    begun(scenario@, source_order),
                    trace_id,
                    span_id,
                    opt_str_view(template),
                ),
    {
        let mut story = Story::start(scenario, source_order, std::time::Instant::now());
        story.bridge_otel(template);
        story
    }

    /// Begins a story with the given title: takes its order from the
    /// collector, starts its clock, and tells it of the trace that this thread
    /// runs in, with the collector's address pattern to fall back on.
    pub fn new(scenario: &str, collector: &mut Collector) -> (story: Story)
        requires
            old(collector)@.next < u32::MAX,
        ensures
            final(collector)@ == (CollectorModel {
                next: (old(collector)@.next + 1) as u32,
                ..old(collector)@
            }),
            exists|trace_id: Seq<char>, span_id: Seq<char>|
                story@ == with_trace(
                    begun(scenario@, old(collector)@.next),
                    trace_id,
                    span_id,
                    old(collector)@.trace_url_template,
                ),
    {
        let order = collector.next_order();
        Story::begin(scenario, order, collector.trace_url_template())
    }

    /// The title of the story.
    pub fn scenario(&self) -> (r: &str)
        ensures
            r@ == self@.scenario,
    {
        self.scenario.as_str()
    }

    /// The steps told so far, in the order in which they were told.
    pub fn steps(&self) -> (r: &Vec<StoryStep>)
        ensures
            r.deep_view() == self@.steps,
    {
        &self.steps
    }

    /// The entries attached to the story as a whole.
    pub fn docs(&self) -> (r: &Vec<DocEntry>)
        ensures
            r.deep_view() == self@.docs,
    {
        &self.docs
    }

    /// The attachments made so far.
    pub fn attachments(&self) -> (r: &Vec<RawAttachment>)
        ensures
            r.deep_view() == self@.attachments,
    {
        &self.attachments
    }

    /// The tags of the story, where it has any.
    pub fn tags(&self) -> (r: &Option<Vec<String>>)
        ensures
            r.deep_view() == self@.tags,
    {
        &self.tags
    }

    /// The ticket references of the story, where it has any.
    pub fn tickets(&self) -> (r: &Option<Vec<String>>)
        ensures
            r.deep_view() == self@.tickets,
    {
        &self.tickets
    }

    /// What the story has noted of its trace, where there is one.
    pub fn meta(&self) -> (r: &Option<Json>)
        ensures
            r.deep_view() == self@.meta,
    {
        &self.meta
    }

    /// The order in which the story was begun among the stories of its run.
    pub fn source_order(&self) -> (r: Option<u32>)
        ensures
            r == self@.source_order,
    {
        self.source_order
    }

    /// Tells whether the test has said that it passed.
    pub fn passed(&self) -> (r: bool)
        ensures
            r == self@.passed,
    {
        self.passed
    }
}

/// Owned copies of the given string slices, in order.
fn to_strings(items: &[&str]) -> (out: Vec<String>)
    ensures
        out.deep_view() == strs_view(items@),
{
    let mut out: Vec<String> = Vec::new();
    let mut i: usize = 0;
    while i < items.len()
        invariant
            i <= items.len(),
            out.len() == i,
            forall|k: int| 0 <= k < i ==> out[k]@ == items[k]@,
        decreases items.len() - i,
    {
        out.push(items[i].to_string());
        i += 1;
    }
    assert(out.deep_view() =~= strs_view(items@));
    out
}

} // verus!
