use vstd::prelude::*;
use crate::doc_entry::docs_json;
use crate::json::{
    lemma_member_concat, lemma_member_one, lemma_member_optional, lemma_member_push, member,
    optional_member, text_list, JsonModel, Member,
};
use crate::types::{
    attachment_json, attachments_json, case_json, cases_json, ci_json, error_json, event_json,
    events_json, run_json, step_json, steps_json, story_json, AttachmentModel, CiModel, ErrorModel,
    RunModel, StepEventModel, StepModel, StoryMetaModel, TestCaseModel,
};

verus! {

/// What is read from the record of a step under each key: the field of that
/// name, where the step has it, and nothing under any other key.
pub open spec fn step_member(s: StepModel, key: Seq<char>) -> Option<JsonModel> {
    if key == "keyword"@ {
        Some(JsonModel::Text(s.keyword))
    } else if key == "text"@ {
        Some(JsonModel::Text(s.text))
    } else if key == "id"@ {
        match s.id {
            Some(x) => Some(JsonModel::Text(x)),
            None => None,
        }
    } else if key == "mode"@ {
        match s.mode {
            Some(x) => Some(JsonModel::Text(x)),
            None => None,
        }
    } else if key == "wrapped"@ {
        match s.wrapped {
            Some(x) => Some(JsonModel::Bool(x)),
            None => None,
        }
    } else if key == "durationMs"@ {
        match s.duration_ms {
            Some(x) => Some(JsonModel::Millis(x)),
            None => None,
        }
    } else if key == "docs"@ {
        match s.docs {
            Some(x) => Some(docs_json(x)),
            None => None,
        }
    } else {
        None
    }
}

/// The record of a step holds each field under its key exactly where the
/// field is there, with the field's value, and holds nothing else.
pub proof fn lemma_step_members(s: StepModel, key: Seq<char>)
    ensures
        step_json(s) is Record,
        member(step_json(s)->Record_0, key) == step_member(s, key),
{
    reveal_strlit("keyword");
    reveal_strlit("text");
    reveal_strlit("id");
    reveal_strlit("mode");
    reveal_strlit("wrapped");
    reveal_strlit("durationMs");
    reveal_strlit("docs");
    assert("keyword"@.len() == 7 && "keyword"@[0] == 'k');
    assert("text"@.len() == 4 && "text"@[0] == 't');
    assert("id"@.len() == 2 && "id"@[0] == 'i');
    assert("mode"@.len() == 4 && "mode"@[0] == 'm');
    assert("wrapped"@.len() == 7 && "wrapped"@[0] == 'w');
    assert("durationMs"@.len() == 10 && "durationMs"@[0] == 'd');
    assert("docs"@.len() == 4 && "docs"@[0] == 'd');
    let part0 = seq![("keyword"@, JsonModel::Text(s.keyword))];
    lemma_member_one("keyword"@, JsonModel::Text(s.keyword), key);
    let part1 = part0.push(("text"@, JsonModel::Text(s.text)));
    lemma_member_push(part0, "text"@, JsonModel::Text(s.text), key);
    assert(part1 =~= seq![
        ("keyword"@, JsonModel::Text(s.keyword)),
        ("text"@, JsonModel::Text(s.text)),
    ]);
    let value2 = match s.id {
        Some(x) => Some(JsonModel::Text(x)),
        None => None,
    };
    let part2 = part1 + optional_member("id"@, value2);
    lemma_member_optional(part1, "id"@, value2, key);
    let value3 = match s.mode {
        Some(x) => Some(JsonModel::Text(x)),
        None => None,
    };
    let part3 = part2 + optional_member("mode"@, value3);
    lemma_member_optional(part2, "mode"@, value3, key);
    let value4 = match s.wrapped {
        Some(x) => Some(JsonModel::Bool(x)),
        None => None,
    };
    let part4 = part3 + optional_member("wrapped"@, value4);
    lemma_member_optional(part3, "wrapped"@, value4, key);
    let value5 = match s.duration_ms {
        Some(x) => Some(JsonModel::Millis(x)),
        None => None,
    };
    let part5 = part4 + optional_member("durationMs"@, value5);
    lemma_member_optional(part4, "durationMs"@, value5, key);
    let value6 = match s.docs {
        Some(x) => Some(docs_json(x)),
        None => None,
    };
    let part6 = part5 + optional_member("docs"@, value6);
    lemma_member_optional(part5, "docs"@, value6, key);
    assert(step_json(s)->Record_0 == part6);
}

/// What is read from the record of an error under each key: the field of that
/// name, where the error has it, and nothing under any other key.
pub open spec fn error_member(e: ErrorModel, key: Seq<char>) -> Option<JsonModel> {
    if key == "message"@ {
        match e.message {
            Some(x) => Some(JsonModel::Text(x)),
            None => None,
        }
    } else if key == "stack"@ {
        match e.stack {
            Some(x) => Some(JsonModel::Text(x)),
            None => None,
        }
    } else {
        None
    }
}

/// The record of an error holds each field under its key exactly where the
/// field is there, with the field's value, and holds nothing else.
pub proof fn lemma_error_members(e: ErrorModel, key: Seq<char>)
    ensures
        error_json(e) is Record,
        member(error_json(e)->Record_0, key) == error_member(e, key),
{
    reveal_strlit("message");
    reveal_strlit("stack");
    assert("message"@.len() == 7 && "message"@[0] == 'm');
    assert("stack"@.len() == 5 && "stack"@[0] == 's');
    let part0 = Seq::<Member>::empty();
    let value1 = match e.message {
        Some(x) => Some(JsonModel::Text(x)),
        None => None,
    };
    let part1 = part0 + optional_member("message"@, value1);
    lemma_member_optional(part0, "message"@, value1, key);
    let value2 = match e.stack {
        Some(x) => Some(JsonModel::Text(x)),
        None => None,
    };
    let part2 = part1 + optional_member("stack"@, value2);
    lemma_member_optional(part1, "stack"@, value2, key);
    assert(error_json(e)->Record_0 == part2);
}

/// What is read from the record of an attachment under each key: the field of that
/// name, where the attachment has it, and nothing under any other key.
pub open spec fn attachment_member(a: AttachmentModel, key: Seq<char>) -> Option<JsonModel> {
    if key == "name"@ {
        Some(JsonModel::Text(a.name))
    } else if key == "mediaType"@ {
        Some(JsonModel::Text(a.media_type))
    } else if key == "path"@ {
        match a.path {
            Some(x) => Some(JsonModel::Text(x)),
            None => None,
        }
    } else if key == "body"@ {
        match a.body {
            Some(x) => Some(JsonModel::Text(x)),
            None => None,
        }
    } else if key == "encoding"@ {
        match a.encoding {
            Some(x) => Some(JsonModel::Text(x)),
            None => None,
        }
    } else if key == "charset"@ {
        match a.charset {
            Some(x) => Some(JsonModel::Text(x)),
            None => None,
        }
    } else if key == "fileName"@ {
        match a.file_name {
            Some(x) => Some(JsonModel::Text(x)),
            None => None,
        }
    } else if key == "byteLength"@ {
        match a.byte_length {
            Some(x) => Some(JsonModel::UInt(x as u64)),
            None => None,
        }
    } else if key == "stepIndex"@ {
        match a.step_index {
            Some(x) => Some(JsonModel::UInt(x as u64)),
            None => None,
        }
    } else if key == "stepId"@ {
        match a.step_id {
            Some(x) => Some(JsonModel::Text(x)),
            None => None,
        }
    } else {
        None
    }
}

/// The record of an attachment holds each field under its key exactly where the
/// field is there, with the field's value, and holds nothing else.
pub proof fn lemma_attachment_members(a: AttachmentModel, key: Seq<char>)
    ensures
        attachment_json(a) is Record,
        member(attachment_json(a)->Record_0, key) == attachment_member(a, key),
{
    reveal_strlit("name");
    reveal_strlit("mediaType");
    reveal_strlit("path");
    reveal_strlit("body");
    reveal_strlit("encoding");
    reveal_strlit("charset");
    reveal_strlit("fileName");
    reveal_strlit("byteLength");
    reveal_strlit("stepIndex");
    reveal_strlit("stepId");
    assert("name"@.len() == 4 && "name"@[0] == 'n');
    assert("mediaType"@.len() == 9 && "mediaType"@[0] == 'm');
    assert("path"@.len() == 4 && "path"@[0] == 'p');
    assert("body"@.len() == 4 && "body"@[0] == 'b');
    assert("encoding"@.len() == 8 && "encoding"@[0] == 'e');
    assert("charset"@.len() == 7 && "charset"@[0] == 'c');
    assert("fileName"@.len() == 8 && "fileName"@[0] == 'f');
    assert("byteLength"@.len() == 10 && "byteLength"@[0] == 'b');
    assert("stepIndex"@.len() == 9 && "stepIndex"@[0] == 's');
    assert("stepId"@.len() == 6 && "stepId"@[0] == 's');
    let part0 = seq![("name"@, JsonModel::Text(a.name))];
    lemma_member_one("name"@, JsonModel::Text(a.name), key);
    let part1 = part0.push(("mediaType"@, JsonModel::Text(a.media_type)));
    lemma_member_push(part0, "mediaType"@, JsonModel::Text(a.media_type), key);
    assert(part1 =~= seq![
        ("name"@, JsonModel::Text(a.name)),
        ("mediaType"@, JsonModel::Text(a.media_type)),
    ]);
    let value2 = match a.path {
        Some(x) => Some(JsonModel::Text(x)),
        None => None,
    };
    let part2 = part1 + optional_member("path"@, value2);
    lemma_member_optional(part1, "path"@, value2, key);
    let value3 = match a.body {
        Some(x) => Some(JsonModel::Text(x)),
        None => None,
    };
    let part3 = part2 + optional_member("body"@, value3);
    lemma_member_optional(part2, "body"@, value3, key);
    let value4 = match a.encoding {
        Some(x) => Some(JsonModel::Text(x)),
        None => None,
    };
    let part4 = part3 + optional_member("encoding"@, value4);
    lemma_member_optional(part3, "encoding"@, value4, key);
    let value5 = match a.charset {
        Some(x) => Some(JsonModel::Text(x)),
        None => None,
    };
    let part5 = part4 + optional_member("charset"@, value5);
    lemma_member_optional(part4, "charset"@, value5, key);
    let value6 = match a.file_name {
        Some(x) => Some(JsonModel::Text(x)),
        None => None,
    };
    let part6 = part5 + optional_member("fileName"@, value6);
    lemma_member_optional(part5, "fileName"@, value6, key);
    let value7 = match a.byte_length {
        Some(x) => Some(JsonModel::UInt(x as u64)),
        None => None,
    };
    let part7 = part6 + optional_member("byteLength"@, value7);
    lemma_member_optional(part6, "byteLength"@, value7, key);
    let value8 = match a.step_index {
        Some(x) => Some(JsonModel::UInt(x as u64)),
        None => None,
    };
    let part8 = part7 + optional_member("stepIndex"@, value8);
    lemma_member_optional(part7, "stepIndex"@, value8, key);
    let value9 = match a.step_id {
        Some(x) => Some(JsonModel::Text(x)),
        None => None,
    };
    let part9 = part8 + optional_member("stepId"@, value9);
    lemma_member_optional(part8, "stepId"@, value9, key);
    assert(attachment_json(a)->Record_0 == part9);
}

/// What is read from the record of a step event under each key: the field of that
/// name, where the step event has it, and nothing under any other key.
pub open spec fn event_member(e: StepEventModel, key: Seq<char>) -> Option<JsonModel> {
    if key == "index"@ {
        match e.index {
            Some(x) => Some(JsonModel::UInt(x as u64)),
            None => None,
        }
    } else if key == "title"@ {
        match e.title {
            Some(x) => Some(JsonModel::Text(x)),
            None => None,
        }
    } else if key == "status"@ {
        match e.status {
            Some(x) => Some(JsonModel::Text(x)),
            None => None,
        }
    } else if key == "durationMs"@ {
        match e.duration_ms {
            Some(x) => Some(JsonModel::Millis(x)),
            None => None,
        }
    } else {
        None
    }
}

/// The record of a step event holds each field under its key exactly where the
/// field is there, with the field's value, and holds nothing else.
pub proof fn lemma_event_members(e: StepEventModel, key: Seq<char>)
    ensures
        event_json(e) is Record,
        member(event_json(e)->Record_0, key) == event_member(e, key),
{
    reveal_strlit("index");
    reveal_strlit("title");
    reveal_strlit("status");
    reveal_strlit("durationMs");
    assert("index"@.len() == 5 && "index"@[0] == 'i');
    assert("title"@.len() == 5 && "title"@[0] == 't');
    assert("status"@.len() == 6 && "status"@[0] == 's');
    assert("durationMs"@.len() == 10 && "durationMs"@[0] == 'd');
    let part0 = Seq::<Member>::empty();
    let value1 = match e.index {
        Some(x) => Some(JsonModel::UInt(x as u64)),
        None => None,
    };
    let part1 = part0 + optional_member("index"@, value1);
    lemma_member_optional(part0, "index"@, value1, key);
    let value2 = match e.title {
        Some(x) => Some(JsonModel::Text(x)),
        None => None,
    };
    let part2 = part1 + optional_member("title"@, value2);
    lemma_member_optional(part1, "title"@, value2, key);
    let value3 = match e.status {
        Some(x) => Some(JsonModel::Text(x)),
        None => None,
    };
    let part3 = part2 + optional_member("status"@, value3);
    lemma_member_optional(part2, "status"@, value3, key);
    let value4 = match e.duration_ms {
        Some(x) => Some(JsonModel::Millis(x)),
        None => None,
    };
    let part4 = part3 + optional_member("durationMs"@, value4);
    lemma_member_optional(part3, "durationMs"@, value4, key);
    assert(event_json(e)->Record_0 == part4);
}

/// What is read from the record of a build service under each key: the field of that
/// name, where the build service has it, and nothing under any other key.
pub open spec fn ci_member(c: CiModel, key: Seq<char>) -> Option<JsonModel> {
    if key == "name"@ {
        Some(JsonModel::Text(c.name))
    } else if key == "url"@ {
        match c.url {
            Some(x) => Some(JsonModel::Text(x)),
            None => None,
        }
    } else if key == "buildNumber"@ {
        match c.build_number {
            Some(x) => Some(JsonModel::Text(x)),
            None => None,
        }
    } else {
        None
    }
}

/// The record of a build service holds each field under its key exactly where the
/// field is there, with the field's value, and holds nothing else.
pub proof fn lemma_ci_members(c: CiModel, key: Seq<char>)
    ensures
        ci_json(c) is Record,
        member(ci_json(c)->Record_0, key) == ci_member(c, key),
{
    reveal_strlit("name");
    reveal_strlit("url");
    reveal_strlit("buildNumber");
    assert("name"@.len() == 4 && "name"@[0] == 'n');
    assert("url"@.len() == 3 && "url"@[0] == 'u');
    assert("buildNumber"@.len() == 11 && "buildNumber"@[0] == 'b');
    let part0 = seq![("name"@, JsonModel::Text(c.name))];
    lemma_member_one("name"@, JsonModel::Text(c.name), key);
    assert(part0 =~= seq![("name"@, JsonModel::Text(c.name))]);
    let value1 = match c.url {
        Some(x) => Some(JsonModel::Text(x)),
        None => None,
    };
    let part1 = part0 + optional_member("url"@, value1);
    lemma_member_optional(part0, "url"@, value1, key);
    let value2 = match c.build_number {
        Some(x) => Some(JsonModel::Text(x)),
        None => None,
    };
    let part2 = part1 + optional_member("buildNumber"@, value2);
    lemma_member_optional(part1, "buildNumber"@, value2, key);
    assert(ci_json(c)->Record_0 == part2);
}

/// What is read from the record of a story under each key: the field of that
/// name, where the story has it, and nothing under any other key.
pub open spec fn story_member(s: StoryMetaModel, key: Seq<char>) -> Option<JsonModel> {
    if key == "scenario"@ {
        Some(JsonModel::Text(s.scenario))
    } else if key == "steps"@ {
        Some(steps_json(s.steps))
    } else if key == "tags"@ {
        match s.tags {
            Some(x) => Some(text_list(x)),
            None => None,
        }
    } else if key == "tickets"@ {
        match s.tickets {
            Some(x) => Some(text_list(x)),
            None => None,
        }
    } else if key == "meta"@ {
        s.meta
    } else if key == "docs"@ {
        match s.docs {
            Some(x) => Some(docs_json(x)),
            None => None,
        }
    } else if key == "sourceOrder"@ {
        match s.source_order {
            Some(x) => Some(JsonModel::UInt(x as u64)),
            None => None,
        }
    } else {
        None
    }
}

/// The record of a story holds each field under its key exactly where the
/// field is there, with the field's value, and holds nothing else.
pub proof fn lemma_story_members(s: StoryMetaModel, key: Seq<char>)
    ensures
        story_json(s) is Record,
        member(story_json(s)->Record_0, key) == story_member(s, key),
{
    reveal_strlit("scenario");
    reveal_strlit("steps");
    reveal_strlit("tags");
    reveal_strlit("tickets");
    reveal_strlit("meta");
    reveal_strlit("docs");
    reveal_strlit("sourceOrder");
    assert("scenario"@.len() == 8 && "scenario"@[0] == 's');
    assert("steps"@.len() == 5 && "steps"@[0] == 's');
    assert("tags"@.len() == 4 && "tags"@[0] == 't');
    assert("tickets"@.len() == 7 && "tickets"@[0] == 't');
    assert("meta"@.len() == 4 && "meta"@[0] == 'm');
    assert("docs"@.len() == 4 && "docs"@[0] == 'd');
    assert("sourceOrder"@.len() == 11 && "sourceOrder"@[0] == 's');
    let part0 = seq![("scenario"@, JsonModel::Text(s.scenario))];
    lemma_member_one("scenario"@, JsonModel::Text(s.scenario), key);
    let part1 = part0.push(("steps"@, steps_json(s.steps)));
    lemma_member_push(part0, "steps"@, steps_json(s.steps), key);
    assert(part1 =~= seq![
        ("scenario"@, JsonModel::Text(s.scenario)),
        ("steps"@, steps_json(s.steps)),
    ]);
    let value2 = match s.tags {
        Some(x) => Some(text_list(x)),
        None => None,
    };
    let part2 = part1 + optional_member("tags"@, value2);
    lemma_member_optional(part1, "tags"@, value2, key);
    let value3 = match s.tickets {
        Some(x) => Some(text_list(x)),
        None => None,
    };
    let part3 = part2 + optional_member("tickets"@, value3);
    lemma_member_optional(part2, "tickets"@, value3, key);
    let value4 = s.meta;
    let part4 = part3 + optional_member("meta"@, value4);
    lemma_member_optional(part3, "meta"@, value4, key);
    let value5 = match s.docs {
        Some(x) => Some(docs_json(x)),
        None => None,
    };
    let part5 = part4 + optional_member("docs"@, value5);
    lemma_member_optional(part4, "docs"@, value5, key);
    let value6 = match s.source_order {
        Some(x) => Some(JsonModel::UInt(x as u64)),
        None => None,
    };
    let part6 = part5 + optional_member("sourceOrder"@, value6);
    lemma_member_optional(part5, "sourceOrder"@, value6, key);
    assert(story_json(s)->Record_0 == part6);
}

/// What is read from the record of a test case under each key: the field of that
/// name, where the test case has it, and nothing under any other key.
pub open spec fn case_member(c: TestCaseModel, key: Seq<char>) -> Option<JsonModel> {
    if key == "status"@ {
        Some(JsonModel::Text(c.status))
    } else if key == "externalId"@ {
        match c.external_id {
            Some(x) => Some(JsonModel::Text(x)),
            None => None,
        }
    } else if key == "title"@ {
        match c.title {
            Some(x) => Some(JsonModel::Text(x)),
            None => None,
        }
    } else if key == "story"@ {
        match c.story {
            Some(x) => Some(story_json(x)),
            None => None,
        }
    } else if key == "durationMs"@ {
        match c.duration_ms {
            Some(x) => Some(JsonModel::Millis(x)),
            None => None,
        }
    } else if key == "error"@ {
        match c.error {
            Some(x) => Some(error_json(x)),
            None => None,
        }
    } else if key == "retry"@ {
        Some(JsonModel::Int(c.retry as i64))
    } else if key == "retries"@ {
        Some(JsonModel::Int(c.retries as i64))
    } else if key == "attachments"@ {
        match c.attachments {
            Some(x) => Some(attachments_json(x)),
            None => None,
        }
    } else if key == "stepEvents"@ {
        match c.step_events {
            Some(x) => Some(events_json(x)),
            None => None,
        }
    } else {
        None
    }
}

/// The record of a test case holds each field under its key exactly where the
/// field is there, with the field's value, and holds nothing else.
pub proof fn lemma_case_members(c: TestCaseModel, key: Seq<char>)
    ensures
        case_json(c) is Record,
        member(case_json(c)->Record_0, key) == case_member(c, key),
{
    reveal_strlit("status");
    reveal_strlit("externalId");
    reveal_strlit("title");
    reveal_strlit("story");
    reveal_strlit("durationMs");
    reveal_strlit("error");
    reveal_strlit("retry");
    reveal_strlit("retries");
    reveal_strlit("attachments");
    reveal_strlit("stepEvents");
    assert("status"@.len() == 6 && "status"@[0] == 's');
    assert("externalId"@.len() == 10 && "externalId"@[0] == 'e');
    assert("title"@.len() == 5 && "title"@[0] == 't');
    assert("story"@.len() == 5 && "story"@[0] == 's');
    assert("durationMs"@.len() == 10 && "durationMs"@[0] == 'd');
    assert("error"@.len() == 5 && "error"@[0] == 'e');
    assert("retry"@.len() == 5 && "retry"@[0] == 'r');
    assert("retries"@.len() == 7 && "retries"@[0] == 'r');
    assert("attachments"@.len() == 11 && "attachments"@[0] == 'a');
    assert("stepEvents"@.len() == 10 && "stepEvents"@[0] == 's');
    let part0 = seq![("status"@, JsonModel::Text(c.status))];
    lemma_member_one("status"@, JsonModel::Text(c.status), key);
    assert(part0 =~= seq![("status"@, JsonModel::Text(c.status))]);
    let value1 = match c.external_id {
        Some(x) => Some(JsonModel::Text(x)),
        None => None,
    };
    let part1 = part0 + optional_member("externalId"@, value1);
    lemma_member_optional(part0, "externalId"@, value1, key);
    let value2 = match c.title {
        Some(x) => Some(JsonModel::Text(x)),
        None => None,
    };
    let part2 = part1 + optional_member("title"@, value2);
    lemma_member_optional(part1, "title"@, value2, key);
    let value3 = match c.story {
        Some(x) => Some(story_json(x)),
        None => None,
    };
    let part3 = part2 + optional_member("story"@, value3);
    lemma_member_optional(part2, "story"@, value3, key);
    let value4 = match c.duration_ms {
        Some(x) => Some(JsonModel::Millis(x)),
        None => None,
    };
    let part4 = part3 + optional_member("durationMs"@, value4);
    lemma_member_optional(part3, "durationMs"@, value4, key);
    let value5 = match c.error {
        Some(x) => Some(error_json(x)),
        None => None,
    };
    let part5 = part4 + optional_member("error"@, value5);
    lemma_member_optional(part4, "error"@, value5, key);
    let fixed6 = seq![("retry"@, JsonModel::Int(c.retry as i64))];
    lemma_member_one("retry"@, JsonModel::Int(c.retry as i64), key);
    let fixed7 = fixed6.push(("retries"@, JsonModel::Int(c.retries as i64)));
    lemma_member_push(fixed6, "retries"@, JsonModel::Int(c.retries as i64), key);
    assert(fixed7 =~= seq![
        ("retry"@, JsonModel::Int(c.retry as i64)),
        ("retries"@, JsonModel::Int(c.retries as i64)),
    ]);
    let part8 = part5 + fixed7;
    lemma_member_concat(part5, fixed7, key);
    let value9 = match c.attachments {
        Some(x) => Some(attachments_json(x)),
        None => None,
    };
    let part9 = part8 + optional_member("attachments"@, value9);
    lemma_member_optional(part8, "attachments"@, value9, key);
    let value10 = match c.step_events {
        Some(x) => Some(events_json(x)),
        None => None,
    };
    let part10 = part9 + optional_member("stepEvents"@, value10);
    lemma_member_optional(part9, "stepEvents"@, value10, key);
    assert(case_json(c)->Record_0 == part10);
}

/// What is read from the record of a run under each key: the field of that
/// name, where the run has it, and nothing under any other key.
pub open spec fn run_member(r: RunModel, key: Seq<char>) -> Option<JsonModel> {
    if key == "schemaVersion"@ {
        Some(JsonModel::UInt(r.schema_version as u64))
    } else if key == "testCases"@ {
        Some(cases_json(r.test_cases))
    } else if key == "projectRoot"@ {
        Some(JsonModel::Text(r.project_root))
    } else if key == "startedAtMs"@ {
        match r.started_at_ms {
            Some(x) => Some(JsonModel::Millis(x)),
            None => None,
        }
    } else if key == "finishedAtMs"@ {
        match r.finished_at_ms {
            Some(x) => Some(JsonModel::Millis(x)),
            None => None,
        }
    } else if key == "ci"@ {
        match r.ci {
            Some(x) => Some(ci_json(x)),
            None => None,
        }
    } else {
        None
    }
}

/// The record of a run holds each field under its key exactly where the
/// field is there, with the field's value, and holds nothing else.
pub proof fn lemma_run_members(r: RunModel, key: Seq<char>)
    ensures
        run_json(r) is Record,
        member(run_json(r)->Record_0, key) == run_member(r, key),
{
    reveal_strlit("schemaVersion");
    reveal_strlit("testCases");
    reveal_strlit("projectRoot");
    reveal_strlit("startedAtMs");
    reveal_strlit("finishedAtMs");
    reveal_strlit("ci");
    assert("schemaVersion"@.len() == 13 && "schemaVersion"@[0] == 's');
    assert("testCases"@.len() == 9 && "testCases"@[0] == 't');
    assert("projectRoot"@.len() == 11 && "projectRoot"@[0] == 'p');
    assert("startedAtMs"@.len() == 11 && "startedAtMs"@[0] == 's');
    assert("finishedAtMs"@.len() == 12 && "finishedAtMs"@[0] == 'f');
    assert("ci"@.len() == 2 && "ci"@[0] == 'c');
    let part0 = seq![("schemaVersion"@, JsonModel::UInt(r.schema_version as u64))];
    lemma_member_one("schemaVersion"@, JsonModel::UInt(r.schema_version as u64), key);
    let part1 = part0.push(("testCases"@, cases_json(r.test_cases)));
    lemma_member_push(part0, "testCases"@, cases_json(r.test_cases), key);
    let part2 = part1.push(("projectRoot"@, JsonModel::Text(r.project_root)));
    lemma_member_push(part1, "projectRoot"@, JsonModel::Text(r.project_root), key);
    assert(part2 =~= seq![
        ("schemaVersion"@, JsonModel::UInt(r.schema_version as u64)),
        ("testCases"@, cases_json(r.test_cases)),
        ("projectRoot"@, JsonModel::Text(r.project_root)),
    ]);
    let value3 = match r.started_at_ms {
        Some(x) => Some(JsonModel::Millis(x)),
        None => None,
    };
    let part3 = part2 + optional_member("startedAtMs"@, value3);
    lemma_member_optional(part2, "startedAtMs"@, value3, key);
    let value4 = match r.finished_at_ms {
        Some(x) => Some(JsonModel::Millis(x)),
        None => None,
    };
    let part4 = part3 + optional_member("finishedAtMs"@, value4);
    lemma_member_optional(part3, "finishedAtMs"@, value4, key);
    let value5 = match r.ci {
        Some(x) => Some(ci_json(x)),
        None => None,
    };
    let part5 = part4 + optional_member("ci"@, value5);
    lemma_member_optional(part4, "ci"@, value5, key);
    assert(run_json(r)->Record_0 == part5);
}

} // verus!
