use vstd::prelude::*;
use crate::doc_entry::{docs_json, docs_to_json, DocEntry};
use crate::json::{
    list_view, members_view, optional_member, push_member, push_optional, strings_view, text_list,
    Json, JsonModel, Member,
};
use crate::millis::Millis;

verus! {

impl DeepView for Millis {
    type V = Millis;

    open spec fn deep_view(&self) -> Millis {
        *self
    }
}

/// The text member that an optional string adds to a record.
pub open spec fn optional_text(key: Seq<char>, value: Option<Seq<char>>) -> Seq<Member> {
    optional_member(
        key,
        match value {
            Some(s) => Some(JsonModel::Text(s)),
            None => None,
        },
    )
}

/// The member that an optional time adds to a record.
pub open spec fn optional_millis(key: Seq<char>, value: Option<Millis>) -> Seq<Member> {
    optional_member(
        key,
        match value {
            Some(m) => Some(JsonModel::Millis(m)),
            None => None,
        },
    )
}

/// The member that an optional count adds to a record.
pub open spec fn optional_count(key: Seq<char>, value: Option<usize>) -> Seq<Member> {
    optional_member(
        key,
        match value {
            Some(n) => Some(JsonModel::UInt(n as u64)),
            None => None,
        },
    )
}

fn push_optional_text(members: &mut Vec<(String, Json)>, key: &str, value: &Option<String>)
    ensures
        members_view(final(members)@) == members_view(old(members)@) + optional_text(
            key@,
            value.deep_view(),
        ),
{
    let item = match value {
        Some(s) => Some(Json::Text(s.clone())),
        None => None,
    };
    push_optional(members, key, item);
}

fn push_optional_millis(members: &mut Vec<(String, Json)>, key: &str, value: Option<Millis>)
    ensures
        members_view(final(members)@) == members_view(old(members)@) + optional_millis(key@, value),
{
    let item = match value {
        Some(m) => Some(Json::Millis(m)),
        None => None,
    };
    push_optional(members, key, item);
}

fn push_optional_count(members: &mut Vec<(String, Json)>, key: &str, value: Option<usize>)
    ensures
        members_view(final(members)@) == members_view(old(members)@) + optional_count(key@, value),
{
    let item = match value {
        Some(n) => Some(Json::UInt(n as u64)),
        None => None,
    };
    push_optional(members, key, item);
}

fn clone_text(value: &Option<String>) -> (r: Option<String>)
    ensures
        r.deep_view() == value.deep_view(),
{
    match value {
        Some(s) => Some(s.clone()),
        None => None,
    }
}

fn clone_docs(value: &Option<Vec<DocEntry>>) -> (r: Option<Vec<DocEntry>>)
    ensures
        r.deep_view() == value.deep_view(),
{
    match value {
        Some(docs) => {
            let copy = docs.clone();
            assert(copy.deep_view() =~= docs.deep_view());
            Some(copy)
        },
        None => None,
    }
}

/// One line of a story.
#[derive(Debug)]
pub struct StoryStep {
    pub keyword: String,
    pub text: String,
    pub id: Option<String>,
    pub mode: Option<String>,
    pub wrapped: Option<bool>,
    pub duration_ms: Option<Millis>,
    pub docs: Option<Vec<DocEntry>>,
}

/// What a `StoryStep` stands for.
pub struct StepModel {
    pub keyword: Seq<char>,
    pub text: Seq<char>,
    pub id: Option<Seq<char>>,
    pub mode: Option<Seq<char>>,
    pub wrapped: Option<bool>,
    pub duration_ms: Option<Millis>,
    pub docs: Option<Seq<Seq<Member>>>,
}

impl DeepView for StoryStep {
    type V = StepModel;

    open spec fn deep_view(&self) -> StepModel {
        StepModel {
            keyword: self.keyword@,
            text: self.text@,
            id: self.id.deep_view(),
            mode: self.mode.deep_view(),
            wrapped: self.wrapped,
            duration_ms: self.duration_ms,
            docs: self.docs.deep_view(),
        }
    }
}

impl View for StoryStep {
    type V = StepModel;

    open spec fn view(&self) -> StepModel {
        self.deep_view()
    }
}

/// The record that a step is written as: keyword and text always, every
/// other member only where the step has it.
pub open spec fn step_json(s: StepModel) -> JsonModel {
    JsonModel::Record(
        seq![("keyword"@, JsonModel::Text(s.keyword)), ("text"@, JsonModel::Text(s.text))]
            + optional_text("id"@, s.id) + optional_text("mode"@, s.mode) + optional_member(
            "wrapped"@,
            match s.wrapped {
                Some(b) => Some(JsonModel::Bool(b)),
                None => None,
            },
        ) + optional_millis("durationMs"@, s.duration_ms) + optional_member(
            "docs"@,
            match s.docs {
                Some(d) => Some(docs_json(d)),
                None => None,
            },
        ),
    )
}

impl Clone for StoryStep {
    fn clone(&self) -> (r: Self)
        ensures
            r@ == self@,
    {
        StoryStep {
            keyword: self.keyword.clone(),
            text: self.text.clone(),
            id: clone_text(&self.id),
            mode: clone_text(&self.mode),
            wrapped: self.wrapped,
            duration_ms: self.duration_ms,
            docs: clone_docs(&self.docs),
        }
    }
}

impl StoryStep {
    pub fn to_json(&self) -> (j: Json)
        ensures
            j@ == step_json(self@),
    {
        let mut members: Vec<(String, Json)> = Vec::new();
        push_member(&mut members, "keyword", Json::Text(self.keyword.clone()));
        push_member(&mut members, "text", Json::Text(self.text.clone()));
        assert(members_view(members@) =~= seq![
            ("keyword"@, JsonModel::Text(self.keyword@)),
            ("text"@, JsonModel::Text(self.text@)),
        ]);
        push_optional_text(&mut members, "id", &self.id);
        push_optional_text(&mut members, "mode", &self.mode);
        push_optional(
            &mut members,
            "wrapped",
            match self.wrapped {
                Some(b) => Some(Json::Bool(b)),
                None => None,
            },
        );
        push_optional_millis(&mut members, "durationMs", self.duration_ms);
        push_optional(
            &mut members,
            "docs",
            match &self.docs {
                Some(d) => Some(docs_to_json(d)),
                None => None,
            },
        );
        Json::Record(members)
    }
}

/// The list that a sequence of steps is written as.
pub open spec fn steps_json(steps: Seq<StepModel>) -> JsonModel {
    JsonModel::List(Seq::new(steps.len(), |i: int| step_json(steps[i])))
}

fn steps_to_json(steps: &Vec<StoryStep>) -> (j: Json)
    ensures
        j@ == steps_json(steps.deep_view()),
{
    let mut out: Vec<Json> = Vec::new();
    let mut i: usize = 0;
    while i < steps.len()
        invariant
            i <= steps.len(),
            out.len() == i,
            forall|k: int| 0 <= k < i ==> out[k]@ == step_json(steps[k]@),
        decreases steps.len() - i,
    {
        out.push(steps[i].to_json());
        i += 1;
    }
    assert(list_view(out@) =~= steps_json(steps.deep_view())->List_0);
    Json::List(out)
}

/// What went wrong in a test case.
#[derive(Debug)]
pub struct RawError {
    pub message: Option<String>,
    pub stack: Option<String>,
}

/// What a `RawError` stands for.
pub struct ErrorModel {
    pub message: Option<Seq<char>>,
    pub stack: Option<Seq<char>>,
}

impl DeepView for RawError {
    type V = ErrorModel;

    open spec fn deep_view(&self) -> ErrorModel {
        ErrorModel { message: self.message.deep_view(), stack: self.stack.deep_view() }
    }
}

impl View for RawError {
    type V = ErrorModel;

    open spec fn view(&self) -> ErrorModel {
        self.deep_view()
    }
}

/// The record that an error is written as: each member only where it is there.
pub open spec fn error_json(e: ErrorModel) -> JsonModel {
    JsonModel::Record(
        Seq::<Member>::empty() + optional_text("message"@, e.message) + optional_text(
            "stack"@,
            e.stack,
        ),
    )
}

impl Clone for RawError {
    fn clone(&self) -> (r: Self)
        ensures
            r@ == self@,
    {
        RawError { message: clone_text(&self.message), stack: clone_text(&self.stack) }
    }
}

impl RawError {
    pub fn to_json(&self) -> (j: Json)
        ensures
            j@ == error_json(self@),
    {
        let mut members: Vec<(String, Json)> = Vec::new();
        assert(members_view(members@) =~= Seq::<Member>::empty());
        push_optional_text(&mut members, "message", &self.message);
        push_optional_text(&mut members, "stack", &self.stack);
        Json::Record(members)
    }
}

/// A file or an inline body that goes with a test case, and the step that was
/// current when it was attached.
#[derive(Debug)]
pub struct RawAttachment {
    pub name: String,
    pub media_type: String,
    pub path: Option<String>,
    pub body: Option<String>,
    pub encoding: Option<String>,
    pub charset: Option<String>,
    pub file_name: Option<String>,
    pub byte_length: Option<usize>,
    pub step_index: Option<usize>,
    pub step_id: Option<String>,
}

/// What a `RawAttachment` stands for.
pub struct AttachmentModel {
    pub name: Seq<char>,
    pub media_type: Seq<char>,
    pub path: Option<Seq<char>>,
    pub body: Option<Seq<char>>,
    pub encoding: Option<Seq<char>>,
    pub charset: Option<Seq<char>>,
    pub file_name: Option<Seq<char>>,
    pub byte_length: Option<usize>,
    pub step_index: Option<usize>,
    pub step_id: Option<Seq<char>>,
}

impl DeepView for RawAttachment {
    type V = AttachmentModel;

    open spec fn deep_view(&self) -> AttachmentModel {
        AttachmentModel {
            name: self.name@,
            media_type: self.media_type@,
            path: self.path.deep_view(),
            body: self.body.deep_view(),
            encoding: self.encoding.deep_view(),
            charset: self.charset.deep_view(),
            file_name: self.file_name.deep_view(),
            byte_length: self.byte_length,
            step_index: self.step_index,
            step_id: self.step_id.deep_view(),
        }
    }
}

impl View for RawAttachment {
    type V = AttachmentModel;

    open spec fn view(&self) -> AttachmentModel {
        self.deep_view()
    }
}

/// The record that an attachment is written as: name and media type always,
/// every other member only where the attachment has it.
pub open spec fn attachment_json(a: AttachmentModel) -> JsonModel {
    JsonModel::Record(
        seq![("name"@, JsonModel::Text(a.name)), ("mediaType"@, JsonModel::Text(a.media_type))]
            + optional_text("path"@, a.path) + optional_text("body"@, a.body) + optional_text(
            "encoding"@,
            a.encoding,
        ) + optional_text("charset"@, a.charset) + optional_text("fileName"@, a.file_name)
            + optional_count("byteLength"@, a.byte_length) + optional_count(
            "stepIndex"@,
            a.step_index,
        ) + optional_text("stepId"@, a.step_id),
    )
}

/// The list that a sequence of attachments is written as.
pub open spec fn attachments_json(items: Seq<AttachmentModel>) -> JsonModel {
    JsonModel::List(Seq::new(items.len(), |i: int| attachment_json(items[i])))
}

impl Clone for RawAttachment {
    fn clone(&self) -> (r: Self)
        ensures
            r@ == self@,
    {
        RawAttachment {
            name: self.name.clone(),
            media_type: self.media_type.clone(),
            path: clone_text(&self.path),
            body: clone_text(&self.body),
            encoding: clone_text(&self.encoding),
            charset: clone_text(&self.charset),
            file_name: clone_text(&self.file_name),
            byte_length: self.byte_length,
            step_index: self.step_index,
            step_id: clone_text(&self.step_id),
        }
    }
}

impl RawAttachment {
    pub fn to_json(&self) -> (j: Json)
        ensures
            j@ == attachment_json(self@),
    {
        let mut members: Vec<(String, Json)> = Vec::new();
        push_member(&mut members, "name", Json::Text(self.name.clone()));
        push_member(&mut members, "mediaType", Json::Text(self.media_type.clone()));
        assert(members_view(members@) =~= seq![
            ("name"@, JsonModel::Text(self.name@)),
            ("mediaType"@, JsonModel::Text(self.media_type@)),
        ]);
        push_optional_text(&mut members, "path", &self.path);
        push_optional_text(&mut members, "body", &self.body);
        push_optional_text(&mut members, "encoding", &self.encoding);
        push_optional_text(&mut members, "charset", &self.charset);
        push_optional_text(&mut members, "fileName", &self.file_name);
        push_optional_count(&mut members, "byteLength", self.byte_length);
        push_optional_count(&mut members, "stepIndex", self.step_index);
        push_optional_text(&mut members, "stepId", &self.step_id);
        Json::Record(members)
    }
}

fn attachments_to_json(items: &Vec<RawAttachment>) -> (j: Json)
    ensures
        j@ == attachments_json(items.deep_view()),
{
    let mut out: Vec<Json> = Vec::new();
    let mut i: usize = 0;
    while i < items.len()
        invariant
            i <= items.len(),
            out.len() == i,
            forall|k: int| 0 <= k < i ==> out[k]@ == attachment_json(items[k]@),
        decreases items.len() - i,
    {
        out.push(items[i].to_json());
        i += 1;
    }
    assert(list_view(out@) =~= attachments_json(items.deep_view())->List_0);
    Json::List(out)
}

/// The timing of one step, by its place in the story.
#[derive(Debug)]
pub struct RawStepEvent {
    pub index: Option<usize>,
    pub title: Option<String>,
    pub status: Option<String>,
    pub duration_ms: Option<Millis>,
}

/// What a `RawStepEvent` stands for.
pub struct StepEventModel {
    pub index: Option<usize>,
    pub title: Option<Seq<char>>,
    pub status: Option<Seq<char>>,
    pub duration_ms: Option<Millis>,
}

impl DeepView for RawStepEvent {
    type V = StepEventModel;

    open spec fn deep_view(&self) -> StepEventModel {
        StepEventModel {
            index: self.index,
            title: self.title.deep_view(),
            status: self.status.deep_view(),
            duration_ms: self.duration_ms,
        }
    }
}

impl View for RawStepEvent {
    type V = StepEventModel;

    open spec fn view(&self) -> StepEventModel {
        self.deep_view()
    }
}

/// The record that a step event is written as: each member only where it is
/// there.
pub open spec fn event_json(e: StepEventModel) -> JsonModel {
    JsonModel::Record(
        Seq::<Member>::empty() + optional_count("index"@, e.index) + optional_text(
            "title"@,
            e.title,
        ) + optional_text("status"@, e.status) + optional_millis("durationMs"@, e.duration_ms),
    )
}

/// The list that a sequence of step events is written as.
pub open spec fn events_json(items: Seq<StepEventModel>) -> JsonModel {
    JsonModel::List(Seq::new(items.len(), |i: int| event_json(items[i])))
}

impl Clone for RawStepEvent {
    fn clone(&self) -> (r: Self)
        ensures
            r@ == self@,
    {
        RawStepEvent {
            index: self.index,
            title: clone_text(&self.title),
            status: clone_text(&self.status),
            duration_ms: self.duration_ms,
        }
    }
}

impl RawStepEvent {
    pub fn to_json(&self) -> (j: Json)
        ensures
            j@ == event_json(self@),
    {
        let mut members: Vec<(String, Json)> = Vec::new();
        assert(members_view(members@) =~= Seq::<Member>::empty());
        push_optional_count(&mut members, "index", self.index);
        push_optional_text(&mut members, "title", &self.title);
        push_optional_text(&mut members, "status", &self.status);
        push_optional_millis(&mut members, "durationMs", self.duration_ms);
        Json::Record(members)
    }
}

fn events_to_json(items: &Vec<RawStepEvent>) -> (j: Json)
    ensures
        j@ == events_json(items.deep_view()),
{
    let mut out: Vec<Json> = Vec::new();
    let mut i: usize = 0;
    while i < items.len()
        invariant
            i <= items.len(),
            out.len() == i,
            forall|k: int| 0 <= k < i ==> out[k]@ == event_json(items[k]@),
        decreases items.len() - i,
    {
        out.push(items[i].to_json());
        i += 1;
    }
    assert(list_view(out@) =~= events_json(items.deep_view())->List_0);
    Json::List(out)
}

/// The build service that a run was made on.
#[derive(Debug)]
pub struct RawCIInfo {
    pub name: String,
    pub url: Option<String>,
    pub build_number: Option<String>,
}

/// What a `RawCIInfo` stands for.
pub struct CiModel {
    pub name: Seq<char>,
    pub url: Option<Seq<char>>,
    pub build_number: Option<Seq<char>>,
}

impl DeepView for RawCIInfo {
    type V = CiModel;

    open spec fn deep_view(&self) -> CiModel {
        CiModel {
            name: self.name@,
            url: self.url.deep_view(),
            build_number: self.build_number.deep_view(),
        }
    }
}

impl View for RawCIInfo {
    type V = CiModel;

    open spec fn view(&self) -> CiModel {
        self.deep_view()
    }
}

/// The record that a build service is written as: the name always, address
/// and build number only where they are there.
pub open spec fn ci_json(c: CiModel) -> JsonModel {
    JsonModel::Record(
        seq![("name"@, JsonModel::Text(c.name))] + optional_text("url"@, c.url) + optional_text(
            "buildNumber"@,
            c.build_number,
        ),
    )
}

impl Clone for RawCIInfo {
    fn clone(&self) -> (r: Self)
        ensures
            r@ == self@,
    {
        RawCIInfo {
            name: self.name.clone(),
            url: clone_text(&self.url),
            build_number: clone_text(&self.build_number),
        }
    }
}

impl RawCIInfo {
    pub fn to_json(&self) -> (j: Json)
        ensures
            j@ == ci_json(self@),
    {
        let mut members: Vec<(String, Json)> = Vec::new();
        push_member(&mut members, "name", Json::Text(self.name.clone()));
        assert(members_view(members@) =~= seq![("name"@, JsonModel::Text(self.name@))]);
        push_optional_text(&mut members, "url", &self.url);
        push_optional_text(&mut members, "buildNumber", &self.build_number);
        Json::Record(members)
    }
}

/// The story of a test case as it is recorded.
#[derive(Debug)]
pub struct StoryMeta {
    pub scenario: String,
    pub steps: Vec<StoryStep>,
    pub tags: Option<Vec<String>>,
    pub tickets: Option<Vec<String>>,
    pub meta: Option<Json>,
    pub docs: Option<Vec<DocEntry>>,
    pub source_order: Option<u32>,
}

/// What a `StoryMeta` stands for.
pub struct StoryMetaModel {
    pub scenario: Seq<char>,
    pub steps: Seq<StepModel>,
    pub tags: Option<Seq<Seq<char>>>,
    pub tickets: Option<Seq<Seq<char>>>,
    pub meta: Option<JsonModel>,
    pub docs: Option<Seq<Seq<Member>>>,
    pub source_order: Option<u32>,
}

impl DeepView for StoryMeta {
    type V = StoryMetaModel;

    open spec fn deep_view(&self) -> StoryMetaModel {
        StoryMetaModel {
            scenario: self.scenario@,
            steps: self.steps.deep_view(),
            tags: self.tags.deep_view(),
            tickets: self.tickets.deep_view(),
            meta: self.meta.deep_view(),
            docs: self.docs.deep_view(),
            source_order: self.source_order,
        }
    }
}

impl View for StoryMeta {
    type V = StoryMetaModel;

    open spec fn view(&self) -> StoryMetaModel {
        self.deep_view()
    }
}

/// The member that an optional list of strings adds to a record.
pub open spec fn optional_texts(key: Seq<char>, value: Option<Seq<Seq<char>>>) -> Seq<Member> {
    optional_member(
        key,
        match value {
            Some(items) => Some(text_list(items)),
            None => None,
        },
    )
}

/// The record that a story is written as: scenario and steps always, every
/// other member only where the story has it.
pub open spec fn story_json(s: StoryMetaModel) -> JsonModel {
    JsonModel::Record(
        seq![("scenario"@, JsonModel::Text(s.scenario)), ("steps"@, steps_json(s.steps))]
            + optional_texts("tags"@, s.tags) + optional_texts("tickets"@, s.tickets)
            + optional_member("meta"@, s.meta) + optional_member(
            "docs"@,
            match s.docs {
                Some(d) => Some(docs_json(d)),
                None => None,
            },
        ) + optional_member(
            "sourceOrder"@,
            match s.source_order {
                Some(n) => Some(JsonModel::UInt(n as u64)),
                None => None,
            },
        ),
    )
}

fn clone_texts(value: &Option<Vec<String>>) -> (r: Option<Vec<String>>)
    ensures
        r.deep_view() == value.deep_view(),
{
    match value {
        Some(items) => {
            let copy = items.clone();
            assert(copy.deep_view() =~= items.deep_view());
            Some(copy)
        },
        None => None,
    }
}

fn push_optional_texts(members: &mut Vec<(String, Json)>, key: &str, value: &Option<Vec<String>>)
    ensures
        members_view(final(members)@) == members_view(old(members)@) + optional_texts(
            key@,
            value.deep_view(),
        ),
{
    let item = match value {
        Some(items) => {
            assert(strings_view(items@) =~= items.deep_view());
            Some(Json::from_strings(items))
        },
        None => None,
    };
    push_optional(members, key, item);
}

impl Clone for StoryMeta {
    fn clone(&self) -> (r: Self)
        ensures
            r@ == self@,
    {
        let steps = self.steps.clone();
        assert(steps.deep_view() =~= self.steps.deep_view());
        StoryMeta {
            scenario: self.scenario.clone(),
            steps,
            tags: clone_texts(&self.tags),
            tickets: clone_texts(&self.tickets),
            meta: match &self.meta {
                Some(m) => Some(m.clone()),
                None => None,
            },
            docs: clone_docs(&self.docs),
            source_order: self.source_order,
        }
    }
}

impl StoryMeta {
    pub fn to_json(&self) -> (j: Json)
        ensures
            j@ == story_json(self@),
    {
        let mut members: Vec<(String, Json)> = Vec::new();
        push_member(&mut members, "scenario", Json::Text(self.scenario.clone()));
        push_member(&mut members, "steps", steps_to_json(&self.steps));
        assert(members_view(members@) =~= seq![
            ("scenario"@, JsonModel::Text(self.scenario@)),
            ("steps"@, steps_json(self.steps.deep_view())),
        ]);
        push_optional_texts(&mut members, "tags", &self.tags);
        push_optional_texts(&mut members, "tickets", &self.tickets);
        push_optional(
            &mut members,
            "meta",
            match &self.meta {
                Some(m) => Some(m.clone()),
                None => None,
            },
        );
        push_optional(
            &mut members,
            "docs",
            match &self.docs {
                Some(d) => Some(docs_to_json(d)),
                None => None,
            },
        );
        push_optional(
            &mut members,
            "sourceOrder",
            match self.source_order {
                Some(n) => Some(Json::UInt(n as u64)),
                None => None,
            },
        );
        Json::Record(members)
    }
}

/// One finished test case.
#[derive(Debug)]
pub struct RawTestCase {
    pub status: String,
    pub external_id: Option<String>,
    pub title: Option<String>,
    pub story: Option<StoryMeta>,
    pub duration_ms: Option<Millis>,
    pub error: Option<RawError>,
    pub retry: i32,
    pub retries: i32,
    pub attachments: Option<Vec<RawAttachment>>,
    pub step_events: Option<Vec<RawStepEvent>>,
}

/// What a `RawTestCase` stands for.
pub struct TestCaseModel {
    pub status: Seq<char>,
    pub external_id: Option<Seq<char>>,
    pub title: Option<Seq<char>>,
    pub story: Option<StoryMetaModel>,
    pub duration_ms: Option<Millis>,
    pub error: Option<ErrorModel>,
    pub retry: i32,
    pub retries: i32,
    pub attachments: Option<Seq<AttachmentModel>>,
    pub step_events: Option<Seq<StepEventModel>>,
}

impl DeepView for RawTestCase {
    type V = TestCaseModel;

    open spec fn deep_view(&self) -> TestCaseModel {
        TestCaseModel {
            status: self.status@,
            external_id: self.external_id.deep_view(),
            title: self.title.deep_view(),
            story: self.story.deep_view(),
            duration_ms: self.duration_ms,
            error: self.error.deep_view(),
            retry: self.retry,
            retries: self.retries,
            attachments: self.attachments.deep_view(),
            step_events: self.step_events.deep_view(),
        }
    }
}

impl View for RawTestCase {
    type V = TestCaseModel;

    open spec fn view(&self) -> TestCaseModel {
        self.deep_view()
    }
}

/// The record that a test case is written as: status, retry and retries
/// always, every other member only where the test case has it.
pub open spec fn case_json(c: TestCaseModel) -> JsonModel {
    JsonModel::Record(
        seq![("status"@, JsonModel::Text(c.status))] + optional_text("externalId"@, c.external_id)
            + optional_text("title"@, c.title) + optional_member(
            "story"@,
            match c.story {
                Some(s) => Some(story_json(s)),
                None => None,
            },
        ) + optional_millis("durationMs"@, c.duration_ms) + optional_member(
            "error"@,
            match c.error {
                Some(e) => Some(error_json(e)),
                None => None,
            },
        ) + seq![
            ("retry"@, JsonModel::Int(c.retry as i64)),
            ("retries"@, JsonModel::Int(c.retries as i64)),
        ] + optional_member(
            "attachments"@,
            match c.attachments {
                Some(a) => Some(attachments_json(a)),
                None => None,
            },
        ) + optional_member(
            "stepEvents"@,
            match c.step_events {
                Some(e) => Some(events_json(e)),
                None => None,
            },
        ),
    )
}

/// The list that a sequence of test cases is written as.
pub open spec fn cases_json(items: Seq<TestCaseModel>) -> JsonModel {
    JsonModel::List(Seq::new(items.len(), |i: int| case_json(items[i])))
}

/// The test case with nothing in it: an empty status, no retries, and none
/// of the optional members.
pub open spec fn empty_case() -> TestCaseModel {
    TestCaseModel {
        status: Seq::empty(),
        external_id: None,
        title: None,
        story: None,
        duration_ms: None,
        error: None,
        retry: 0,
        retries: 0,
        attachments: None,
        step_events: None,
    }
}

impl Default for RawTestCase {
    fn default() -> (r: Self)
        ensures
            r@ == empty_case(),
    {
        RawTestCase {
            status: String::new(),
            external_id: None,
            title: None,
            story: None,
            duration_ms: None,
            error: None,
            retry: 0,
            retries: 0,
            attachments: None,
            step_events: None,
        }
    }
}

impl Clone for RawTestCase {
    fn clone(&self) -> (r: Self)
        ensures
            r@ == self@,
    {
        RawTestCase {
            status: self.status.clone(),
            external_id: clone_text(&self.external_id),
            title: clone_text(&self.title),
            story: match &self.story {
                Some(s) => Some(s.clone()),
                None => None,
            },
            duration_ms: self.duration_ms,
            error: match &self.error {
                Some(e) => Some(e.clone()),
                None => None,
            },
            retry: self.retry,
            retries: self.retries,
            attachments: match &self.attachments {
                Some(items) => {
                    let copy = items.clone();
                    assert(copy.deep_view() =~= items.deep_view());
                    Some(copy)
                },
                None => None,
            },
            step_events: match &self.step_events {
                Some(items) => {
                    let copy = items.clone();
                    assert(copy.deep_view() =~= items.deep_view());
                    Some(copy)
                },
                None => None,
            },
        }
    }
}

impl RawTestCase {
    pub fn to_json(&self) -> (j: Json)
        ensures
            j@ == case_json(self@),
    {
        let mut members: Vec<(String, Json)> = Vec::new();
        push_member(&mut members, "status", Json::Text(self.status.clone()));
        assert(members_view(members@) =~= seq![("status"@, JsonModel::Text(self.status@))]);
        push_optional_text(&mut members, "externalId", &self.external_id);
        push_optional_text(&mut members, "title", &self.title);
        push_optional(
            &mut members,
            "story",
            match &self.story {
                Some(s) => Some(s.to_json()),
                None => None,
            },
        );
        push_optional_millis(&mut members, "durationMs", self.duration_ms);
        push_optional(
            &mut members,
            "error",
            match &self.error {
                Some(e) => Some(e.to_json()),
                None => None,
            },
        );
        let ghost before = members_view(members@);
        push_member(&mut members, "retry", Json::Int(self.retry as i64));
        push_member(&mut members, "retries", Json::Int(self.retries as i64));
        assert(members_view(members@) =~= before + seq![
            ("retry"@, JsonModel::Int(self.retry as i64)),
            ("retries"@, JsonModel::Int(self.retries as i64)),
        ]);
        push_optional(
            &mut members,
            "attachments",
            match &self.attachments {
                Some(a) => Some(attachments_to_json(a)),
                None => None,
            },
        );
        push_optional(
            &mut members,
            "stepEvents",
            match &self.step_events {
                Some(e) => Some(events_to_json(e)),
                None => None,
            },
        );
        Json::Record(members)
    }
}

fn cases_to_json(items: &Vec<RawTestCase>) -> (j: Json)
    ensures
        j@ == cases_json(items.deep_view()),
{
    let mut out: Vec<Json> = Vec::new();
    let mut i: usize = 0;
    while i < items.len()
        invariant
            i <= items.len(),
            out.len() == i,
            forall|k: int| 0 <= k < i ==> out[k]@ == case_json(items[k]@),
        decreases items.len() - i,
    {
        out.push(items[i].to_json());
        i += 1;
    }
    assert(list_view(out@) =~= cases_json(items.deep_view())->List_0);
    Json::List(out)
}

/// Everything one run has to report.
#[derive(Debug)]
pub struct RawRun {
    pub schema_version: u32,
    pub test_cases: Vec<RawTestCase>,
    pub project_root: String,
    pub started_at_ms: Option<Millis>,
    pub finished_at_ms: Option<Millis>,
    pub ci: Option<RawCIInfo>,
}

/// What a `RawRun` stands for.
pub struct RunModel {
    pub schema_version: u32,
    pub test_cases: Seq<TestCaseModel>,
    pub project_root: Seq<char>,
    pub started_at_ms: Option<Millis>,
    pub finished_at_ms: Option<Millis>,
    pub ci: Option<CiModel>,
}

impl DeepView for RawRun {
    type V = RunModel;

    open spec fn deep_view(&self) -> RunModel {
        RunModel {
            schema_version: self.schema_version,
            test_cases: self.test_cases.deep_view(),
            project_root: self.project_root@,
            started_at_ms: self.started_at_ms,
            finished_at_ms: self.finished_at_ms,
            ci: self.ci.deep_view(),
        }
    }
}

impl View for RawRun {
    type V = RunModel;

    open spec fn view(&self) -> RunModel {
        self.deep_view()
    }
}

/// The record that a run is written as: schema version, test cases and
/// project root always; the two times and the build service only where the
/// run has them.
pub open spec fn run_json(r: RunModel) -> JsonModel {
    JsonModel::Record(
        seq![
            ("schemaVersion"@, JsonModel::UInt(r.schema_version as u64)),
            ("testCases"@, cases_json(r.test_cases)),
            ("projectRoot"@, JsonModel::Text(r.project_root)),
        ] + optional_millis("startedAtMs"@, r.started_at_ms) + optional_millis(
            "finishedAtMs"@,
            r.finished_at_ms,
        ) + optional_member(
            "ci"@,
            match r.ci {
                Some(c) => Some(ci_json(c)),
                None => None,
            },
        ),
    )
}

impl Clone for RawRun {
    fn clone(&self) -> (r: Self)
        ensures
            r@ == self@,
    {
        let test_cases = self.test_cases.clone();
        assert(test_cases.deep_view() =~= self.test_cases.deep_view());
        RawRun {
            schema_version: self.schema_version,
            test_cases,
            project_root: self.project_root.clone(),
            started_at_ms: self.started_at_ms,
            finished_at_ms: self.finished_at_ms,
            ci: match &self.ci {
                Some(c) => Some(c.clone()),
                None => None,
            },
        }
    }
}

impl RawRun {
    pub fn to_json(&self) -> (j: Json)
        ensures
            j@ == run_json(self@),
    {
        let mut members: Vec<(String, Json)> = Vec::new();
        push_member(&mut members, "schemaVersion", Json::UInt(self.schema_version as u64));
        push_member(&mut members, "testCases", cases_to_json(&self.test_cases));
        push_member(&mut members, "projectRoot", Json::Text(self.project_root.clone()));
        assert(members_view(members@) =~= seq![
            ("schemaVersion"@, JsonModel::UInt(self.schema_version as u64)),
            ("testCases"@, cases_json(self.test_cases.deep_view())),
            ("projectRoot"@, JsonModel::Text(self.project_root@)),
        ]);
        push_optional_millis(&mut members, "startedAtMs", self.started_at_ms);
        push_optional_millis(&mut members, "finishedAtMs", self.finished_at_ms);
        push_optional(
            &mut members,
            "ci",
            match &self.ci {
                Some(c) => Some(c.to_json()),
                None => None,
            },
        );
        Json::Record(members)
    }
}

} // verus!
