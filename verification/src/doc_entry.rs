use vstd::prelude::*;
use crate::json::{
    clone_members, distinct_keys, lemma_member_concat, list_view, member, members_view,
    pretty_string, pretty_text, push_member, strs_view, text_list, Json, JsonModel, Member,
};

verus! {

/// An annotation on a step or on a story as a whole: a flat record whose
/// members `phase` and `kind` say when it was taken and what it is, followed
/// by the members of its kind. One is made by the constructor of its kind and
/// never changed afterwards. No key occurs twice in it.
#[derive(Debug)]
pub struct DocEntry {
    members: Vec<(String, Json)>,
}

impl DocEntry {
    #[verifier::type_invariant]
    spec fn keys_differ(self) -> bool {
        distinct_keys(members_view(self.members@))
    }
}

/// The keys that entries use are spelled as they read: each has the length
/// and the first letter that tell it from the others of its kind of entry.
proof fn lemma_entry_keys()
    ensures
        "phase"@.len() == 5 && "phase"@[0] == 'p',
        "kind"@.len() == 4 && "kind"@[0] == 'k',
        "text"@.len() == 4 && "text"@[0] == 't',
        "names"@.len() == 5 && "names"@[0] == 'n',
        "label"@.len() == 5 && "label"@[0] == 'l',
        "value"@.len() == 5 && "value"@[0] == 'v',
        "content"@.len() == 7 && "content"@[0] == 'c',
        "lang"@.len() == 4 && "lang"@[0] == 'l',
        "columns"@.len() == 7 && "columns"@[0] == 'c',
        "rows"@.len() == 4 && "rows"@[0] == 'r',
        "url"@.len() == 3 && "url"@[0] == 'u',
        "title"@.len() == 5 && "title"@[0] == 't',
        "markdown"@.len() == 8 && "markdown"@[0] == 'm',
        "code"@.len() == 4 && "code"@[0] == 'c',
        "path"@.len() == 4 && "path"@[0] == 'p',
        "alt"@.len() == 3 && "alt"@[0] == 'a',
        "type"@.len() == 4 && "type"@[0] == 't',
        "data"@.len() == 4 && "data"@[0] == 'd',
{
    reveal_strlit("phase");
    reveal_strlit("kind");
    reveal_strlit("text");
    reveal_strlit("names");
    reveal_strlit("label");
    reveal_strlit("value");
    reveal_strlit("content");
    reveal_strlit("lang");
    reveal_strlit("columns");
    reveal_strlit("rows");
    reveal_strlit("url");
    reveal_strlit("title");
    reveal_strlit("markdown");
    reveal_strlit("code");
    reveal_strlit("path");
    reveal_strlit("alt");
    reveal_strlit("type");
    reveal_strlit("data");
}

/// The two members that every entry starts with.
pub open spec fn entry_head(kind: Seq<char>) -> Seq<Member> {
    seq![("phase"@, JsonModel::Text("runtime"@)), ("kind"@, JsonModel::Text(kind))]
}

/// The members of a code entry.
pub open spec fn code_members(label: Seq<char>, content: Seq<char>, lang: Option<Seq<char>>) -> Seq<
    Member,
> {
    let fixed = entry_head("code"@).push(("label"@, JsonModel::Text(label))).push(
        ("content"@, JsonModel::Text(content)),
    );
    match lang {
        Some(l) => fixed.push(("lang"@, JsonModel::Text(l))),
        None => fixed,
    }
}

/// The rows of a table, each a list of its cells.
pub open spec fn rows_model(rows: Seq<&[&str]>) -> JsonModel {
    JsonModel::List(Seq::new(rows.len(), |i: int| text_list(strs_view(rows[i]@))))
}

/// The characters of an optional string slice.
pub open spec fn opt_str_view(s: Option<&str>) -> Option<Seq<char>> {
    match s {
        Some(t) => Some(t@),
        None => None,
    }
}

impl View for DocEntry {
    type V = Seq<Member>;

    closed spec fn view(&self) -> Seq<Member> {
        members_view(self.members@)
    }
}

impl Clone for DocEntry {
    fn clone(&self) -> (r: Self)
        ensures
            r@ == self@,
    {
        proof {
            use_type_invariant(self);
        }
        DocEntry { members: clone_members(&self.members) }
    }
}

impl DocEntry {
    fn base(kind: &str) -> (members: Vec<(String, Json)>)
        ensures
            members_view(members@) == entry_head(kind@),
    {
        let mut members: Vec<(String, Json)> = Vec::new();
        assert(members_view(members@) =~= Seq::<Member>::empty());
        push_member(&mut members, "phase", Json::Text("runtime".to_string()));
        push_member(&mut members, "kind", Json::Text(kind.to_string()));
        assert(members_view(members@) =~= entry_head(kind@));
        members
    }

    /// A simple text note.
    pub fn note(text: &str) -> (r: DocEntry)
        ensures
            distinct_keys(r@),
            r@ == entry_head("note"@).push(("text"@, JsonModel::Text(text@))),
    {
        let mut members = Self::base("note");
        push_member(&mut members, "text", Json::Text(text.to_string()));
        proof {
            lemma_entry_keys();
        }
        assert(distinct_keys(members_view(members@)));
        DocEntry { members }
    }

    /// Tag annotation with the given tag names, in the order given.
    pub fn tag(names: &[&str]) -> (r: DocEntry)
        ensures
            distinct_keys(r@),
            r@ == entry_head("tag"@).push(("names"@, text_list(strs_view(names@)))),
    {
        let mut members = Self::base("tag");
        push_member(&mut members, "names", Json::from_strs(names));
        proof {
            lemma_entry_keys();
        }
        assert(distinct_keys(members_view(members@)));
        DocEntry { members }
    }

    /// A key-value pair; the value is carried as it is.
    pub fn kv(label: &str, value: serde_json::Value) -> (r: DocEntry)
        ensures
            distinct_keys(r@),
            r@ == entry_head("kv"@).push(("label"@, JsonModel::Text(label@))).push(
                ("value"@, JsonModel::Raw(value)),
            ),
    {
        let mut members = Self::base("kv");
        push_member(&mut members, "label", Json::Text(label.to_string()));
        push_member(&mut members, "value", Json::Raw(value));
        proof {
            lemma_entry_keys();
        }
        assert(distinct_keys(members_view(members@)));
        DocEntry { members }
    }

    /// A code block; the language is a member only where one is given.
    pub fn code(label: &str, content: &str, lang: Option<&str>) -> (r: DocEntry)
        ensures
            distinct_keys(r@),
            r@ == code_members(label@, content@, opt_str_view(lang)),
    {
        let mut members = Self::base("code");
        push_member(&mut members, "label", Json::Text(label.to_string()));
        push_member(&mut members, "content", Json::Text(content.to_string()));
        match lang {
            Some(l) => {
                push_member(&mut members, "lang", Json::Text(l.to_string()));
            },
            None => {},
        }
        proof {
            lemma_entry_keys();
        }
        assert(distinct_keys(members_view(members@)));
        DocEntry { members }
    }

    /// A JSON document shown as a code block in the language `json`: the
    /// content is the indented text of the value.
    pub fn json_doc(label: &str, value: &serde_json::Value) -> (r: DocEntry)
        ensures
            distinct_keys(r@),
            r@ == code_members(
                label@,
                pretty_text(*value),
                Some("json"@),
            ),
    {
        let content = match pretty_string(value) {
            Ok(s) => s,
            Err(_) => String::new(),
        };
        Self::code(label, content.as_str(), Some("json"))
    }

    /// A table with its column names and its rows. Rows are taken as they
    /// come: none is held to the number of columns.
    pub fn table(label: &str, columns: &[&str], rows: &[&[&str]]) -> (r: DocEntry)
        ensures
            distinct_keys(r@),
            r@ == entry_head("table"@).push(("label"@, JsonModel::Text(label@))).push(
                ("columns"@, text_list(strs_view(columns@))),
            ).push(("rows"@, rows_model(rows@))),
    {
        let mut members = Self::base("table");
        push_member(&mut members, "label", Json::Text(label.to_string()));
        push_member(&mut members, "columns", Json::from_strs(columns));
        let mut row_values: Vec<Json> = Vec::new();
        let mut i: usize = 0;
        while i < rows.len()
            invariant
                i <= rows.len(),
                row_values.len() == i,
                forall|k: int| 0 <= k < i ==> row_values[k]@ == text_list(strs_view(rows[k]@)),
            decreases rows.len() - i,
        {
            row_values.push(Json::from_strs(rows[i]));
            i += 1;
        }
        assert(list_view(row_values@) =~= rows_model(rows@)->List_0);
        push_member(&mut members, "rows", Json::List(row_values));
        proof {
            lemma_entry_keys();
        }
        assert(distinct_keys(members_view(members@)));
        DocEntry { members }
    }

    /// A hyperlink.
    pub fn link(label: &str, url: &str) -> (r: DocEntry)
        ensures
            distinct_keys(r@),
            r@ == entry_head("link"@).push(("label"@, JsonModel::Text(label@))).push(
                ("url"@, JsonModel::Text(url@)),
            ),
    {
        let mut members = Self::base("link");
        push_member(&mut members, "label", Json::Text(label.to_string()));
        push_member(&mut members, "url", Json::Text(url.to_string()));
        proof {
            lemma_entry_keys();
        }
        assert(distinct_keys(members_view(members@)));
        DocEntry { members }
    }

    /// A markdown section.
    pub fn section(title: &str, markdown: &str) -> (r: DocEntry)
        ensures
            distinct_keys(r@),
            r@ == entry_head("section"@).push(("title"@, JsonModel::Text(title@))).push(
                ("markdown"@, JsonModel::Text(markdown@)),
            ),
    {
        let mut members = Self::base("section");
        push_member(&mut members, "title", Json::Text(title.to_string()));
        push_member(&mut members, "markdown", Json::Text(markdown.to_string()));
        proof {
            lemma_entry_keys();
        }
        assert(distinct_keys(members_view(members@)));
        DocEntry { members }
    }

    /// A mermaid diagram; the title is a member only where one is given.
    pub fn mermaid(code: &str, title: Option<&str>) -> (r: DocEntry)
        ensures
            distinct_keys(r@),
            r@ == entry_head("mermaid"@).push(("code"@, JsonModel::Text(code@))) + (match title {
                Some(t) => seq![("title"@, JsonModel::Text(t@))],
                None => Seq::empty(),
            }),
    {
        let mut members = Self::base("mermaid");
        push_member(&mut members, "code", Json::Text(code.to_string()));
        let ghost fixed = members_view(members@);
        match title {
            Some(t) => {
                push_member(&mut members, "title", Json::Text(t.to_string()));
                assert(members_view(members@) =~= fixed + seq![("title"@, JsonModel::Text(t@))]);
            },
            None => {
                assert(members_view(members@) =~= fixed + Seq::<Member>::empty());
            },
        }
        proof {
            lemma_entry_keys();
        }
        assert(distinct_keys(members_view(members@)));
        DocEntry { members }
    }

    /// A screenshot reference; the alternative text is a member only where
    /// one is given.
    pub fn screenshot(path: &str, alt: Option<&str>) -> (r: DocEntry)
        ensures
            distinct_keys(r@),
            r@ == entry_head("screenshot"@).push(("path"@, JsonModel::Text(path@))) + (match alt {
                Some(a) => seq![("alt"@, JsonModel::Text(a@))],
                None => Seq::empty(),
            }),
    {
        let mut members = Self::base("screenshot");
        push_member(&mut members, "path", Json::Text(path.to_string()));
        let ghost fixed = members_view(members@);
        match alt {
            Some(a) => {
                push_member(&mut members, "alt", Json::Text(a.to_string()));
                assert(members_view(members@) =~= fixed + seq![("alt"@, JsonModel::Text(a@))]);
            },
            None => {
                assert(members_view(members@) =~= fixed + Seq::<Member>::empty());
            },
        }
        proof {
            lemma_entry_keys();
        }
        assert(distinct_keys(members_view(members@)));
        DocEntry { members }
    }

    /// An entry of a kind of the caller's own, with data carried as it is.
    pub fn custom(custom_type: &str, data: serde_json::Value) -> (r: DocEntry)
        ensures
            distinct_keys(r@),
            r@ == entry_head("custom"@).push(("type"@, JsonModel::Text(custom_type@))).push(
                ("data"@, JsonModel::Raw(data)),
            ),
    {
        let mut members = Self::base("custom");
        push_member(&mut members, "type", Json::Text(custom_type.to_string()));
        push_member(&mut members, "data", Json::Raw(data));
        proof {
            lemma_entry_keys();
        }
        assert(distinct_keys(members_view(members@)));
        DocEntry { members }
    }

    /// The record that the entry is written as; no key occurs twice in it.
    pub fn to_json(&self) -> (j: Json)
        ensures
            j@ == JsonModel::Record(self@),
            distinct_keys(self@),
    {
        proof {
            use_type_invariant(self);
        }
        Json::Record(clone_members(&self.members))
    }
}


impl DeepView for DocEntry {
    type V = Seq<Member>;

    open spec fn deep_view(&self) -> Seq<Member> {
        self@
    }
}

/// The list that a sequence of entries is written as.
pub open spec fn docs_json(docs: Seq<Seq<Member>>) -> JsonModel {
    JsonModel::List(Seq::new(docs.len(), |i: int| JsonModel::Record(docs[i])))
}

/// Writes a sequence of entries as a list of records.
pub fn docs_to_json(docs: &Vec<DocEntry>) -> (j: Json)
    ensures
        j@ == docs_json(docs.deep_view()),
{
    let mut out: Vec<Json> = Vec::new();
    let mut i: usize = 0;
    while i < docs.len()
        invariant
            i <= docs.len(),
            out.len() == i,
            forall|k: int| 0 <= k < i ==> out[k]@ == JsonModel::Record(docs[k]@),
        decreases docs.len() - i,
    {
        out.push(docs[i].to_json());
        i += 1;
    }
    assert(list_view(out@) =~= docs_json(docs.deep_view())->List_0);
    Json::List(out)
}

/// Whatever members follow the head of an entry, the entry reads as taken
/// at run time and as of the kind that its head names.
pub proof fn lemma_entry_head(kind: Seq<char>, rest: Seq<Member>)
    ensures
        member(entry_head(kind) + rest, "phase"@) == Some(JsonModel::Text("runtime"@)),
        member(entry_head(kind) + rest, "kind"@) == Some(JsonModel::Text(kind)),
{
    reveal_strlit("phase");
    reveal_strlit("kind");
    assert("phase"@.len() == 5 && "kind"@.len() == 4);
    let head = entry_head(kind);
    assert(head.drop_first() =~= seq![("kind"@, JsonModel::Text(kind))]);
    assert(head.drop_first().drop_first().len() == 0);
    assert(member(head, "phase"@) == Some(JsonModel::Text("runtime"@)));
    assert(member(head.drop_first(), "kind"@) == Some(JsonModel::Text(kind)));
    assert(member(head, "kind"@) == Some(JsonModel::Text(kind)));
    lemma_member_concat(head, rest, "phase"@);
    lemma_member_concat(head, rest, "kind"@);
}

} // verus!
