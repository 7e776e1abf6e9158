use vstd::prelude::*;
use crate::millis::{millis_text, Millis};

verus! {

/// A JSON value of `serde_json`, carried through as it is: nothing here looks
/// inside one.
#[verifier::external_type_specification]
#[verifier::external_body]
pub struct ExValue(serde_json::Value);

/// The error that `serde_json` reports; only its message is ever read.
#[verifier::external_type_specification]
#[verifier::external_body]
pub struct ExJsonError(serde_json::Error);

/// `Clone` of `serde_json::Value` is derived: the copy is the same value.
pub assume_specification[ <serde_json::Value as Clone>::clone ](v: &serde_json::Value) -> (r:
    serde_json::Value)
    ensures
        r == *v,
;

/// A document as this library lays it out before `serde_json` takes over.
/// Members of a record keep the order in which they were put there.
#[derive(Debug)]
pub enum Json {
    Bool(bool),
    UInt(u64),
    Int(i64),
    Millis(Millis),
    Text(String),
    List(Vec<Json>),
    Record(Vec<(String, Json)>),
    /// A value that came from outside and is passed on unread.
    Raw(serde_json::Value),
}

/// What a `Json` stands for.
pub enum JsonModel {
    Bool(bool),
    UInt(u64),
    Int(i64),
    Millis(Millis),
    Text(Seq<char>),
    List(Seq<JsonModel>),
    Record(Seq<(Seq<char>, JsonModel)>),
    Raw(serde_json::Value),
}

/// One member of a record: its key and its value.
pub type Member = (Seq<char>, JsonModel);

/// The models of a vector of documents, in order.
pub open spec fn list_view(items: Seq<Json>) -> Seq<JsonModel>
    decreases items, 1nat,
{
    Seq::new(
        items.len(),
        |i: int|
            if 0 <= i < items.len() {
                items[i]@
            } else {
                arbitrary()
            },
    )
}

/// The models of a vector of members, in order.
pub open spec fn members_view(members: Seq<(String, Json)>) -> Seq<Member>
    decreases members, 1nat,
{
    Seq::new(
        members.len(),
        |i: int|
            if 0 <= i < members.len() {
                (members[i].0@, members[i].1@)
            } else {
                arbitrary()
            },
    )
}

impl View for Json {
    type V = JsonModel;

    open spec fn view(&self) -> JsonModel
        decreases self, 0nat,
    {
        match self {
            Json::Bool(b) => JsonModel::Bool(*b),
            Json::UInt(n) => JsonModel::UInt(*n),
            Json::Int(n) => JsonModel::Int(*n),
            Json::Millis(m) => JsonModel::Millis(*m),
            Json::Text(s) => JsonModel::Text(s@),
            Json::List(items) => JsonModel::List(list_view(items@)),
            Json::Record(members) => JsonModel::Record(members_view(members@)),
            Json::Raw(v) => JsonModel::Raw(*v),
        }
    }
}

impl DeepView for Json {
    type V = JsonModel;

    open spec fn deep_view(&self) -> JsonModel {
        self@
    }
}

/// Puts one more member at the end of a record under construction.
pub(crate) fn push_member(members: &mut Vec<(String, Json)>, key: &str, value: Json)
    ensures
        members_view(final(members)@) == members_view(old(members)@).push((key@, value@)),
{
    members.push((key.to_string(), value));
    assert(members_view(members@) =~= members_view(old(members)@).push((key@, value@)));
}

/// Puts a member at the end of a record under construction where there is a
/// value for it, and leaves the record as it is where there is none.
pub(crate) fn push_optional(members: &mut Vec<(String, Json)>, key: &str, value: Option<Json>)
    ensures
        members_view(final(members)@) == members_view(old(members)@) + optional_member(
            key@,
            match value {
                Some(v) => Some(v@),
                None => None,
            },
        ),
{
    match value {
        Some(v) => {
            push_member(members, key, v);
            assert(members_view(members@) =~= members_view(old(members)@) + seq![(key@, v@)]);
        },
        None => {
            assert(members_view(members@) =~= members_view(old(members)@) + Seq::<Member>::empty());
        },
    }
}

/// No two members of a record have the same key.
pub open spec fn distinct_keys(members: Seq<Member>) -> bool {
    forall|i: int, j: int| 0 <= i < j < members.len() ==> members[i].0 != members[j].0
}

/// The members that an optional value adds to a record: one, or none.
pub open spec fn optional_member(key: Seq<char>, value: Option<JsonModel>) -> Seq<Member> {
    match value {
        Some(v) => seq![(key, v)],
        None => Seq::empty(),
    }
}

/// A list of strings.
pub open spec fn text_list(items: Seq<Seq<char>>) -> JsonModel {
    JsonModel::List(Seq::new(items.len(), |i: int| JsonModel::Text(items[i])))
}

/// The characters of each string slice, in order.
pub open spec fn strs_view(items: Seq<&str>) -> Seq<Seq<char>> {
    Seq::new(items.len(), |i: int| items[i]@)
}

/// The characters of each string, in order.
pub open spec fn strings_view(items: Seq<String>) -> Seq<Seq<char>> {
    Seq::new(items.len(), |i: int| items[i]@)
}

/// Copies the members of a record.
pub(crate) fn clone_members(members: &Vec<(String, Json)>) -> (out: Vec<(String, Json)>)
    ensures
        members_view(out@) == members_view(members@),
{
    let mut out: Vec<(String, Json)> = Vec::new();
    let mut i: usize = 0;
    while i < members.len()
        invariant
            i <= members.len(),
            out.len() == i,
            forall|j: int| 0 <= j < i ==> out[j].0@ == members[j].0@ && out[j].1@ == members[j].1@,
        decreases members.len() - i,
    {
        out.push((members[i].0.clone(), members[i].1.clone()));
        i += 1;
    }
    assert(members_view(out@) =~= members_view(members@));
    out
}

impl Clone for Json {
    #[verifier::loop_isolation(false)]
    fn clone(&self) -> (r: Self)
        ensures
            r@ == self@,
        decreases self,
    {
        match self {
            Json::Bool(b) => Json::Bool(*b),
            Json::UInt(n) => Json::UInt(*n),
            Json::Int(n) => Json::Int(*n),
            Json::Millis(m) => Json::Millis(*m),
            Json::Text(s) => Json::Text(s.clone()),
            Json::List(items) => {
                let mut out: Vec<Json> = Vec::new();
                let mut i: usize = 0;
                while i < items.len()
                    invariant
                        i <= items.len(),
                        out.len() == i,
                        forall|j: int| 0 <= j < i ==> out[j]@ == items[j]@,
                    decreases items.len() - i,
                {
                    assert(decreases_to!(*items => items[i as int]));
                    out.push(items[i].clone());
                    i += 1;
                }
                proof {
                    assert(list_view(out@) =~= list_view(items@));
                }
                Json::List(out)
            },
            Json::Record(members) => {
                let mut out: Vec<(String, Json)> = Vec::new();
                let mut i: usize = 0;
                while i < members.len()
                    invariant
                        i <= members.len(),
                        out.len() == i,
                        forall|j: int|
                            0 <= j < i ==> out[j].0@ == members[j].0@ && out[j].1@ == members[j].1@,
                    decreases members.len() - i,
                {
                    assert(decreases_to!(*members => members[i as int]));
                    out.push((members[i].0.clone(), members[i].1.clone()));
                    i += 1;
                }
                proof {
                    assert(members_view(out@) =~= members_view(members@));
                }
                Json::Record(out)
            },
            Json::Raw(v) => Json::Raw(v.clone()),
        }
    }
}

/// The `serde_json` value that holds the boolean `b`.
pub uninterp spec fn bool_value(b: bool) -> serde_json::Value;

/// The `serde_json` value that holds the number `n`.
pub uninterp spec fn u64_value(n: u64) -> serde_json::Value;

/// The `serde_json` value that holds the number `n`.
pub uninterp spec fn i64_value(n: i64) -> serde_json::Value;

/// The `serde_json` value that holds the string `s`.
pub uninterp spec fn string_value(s: Seq<char>) -> serde_json::Value;

/// The `serde_json` array made of `items`.
pub uninterp spec fn array_value(items: Seq<serde_json::Value>) -> serde_json::Value;

/// The `serde_json` object collected from `members`, given in this order.
pub uninterp spec fn object_value(members: Seq<(Seq<char>, serde_json::Value)>) -> serde_json::Value;

/// What `serde_json` reads out of `text`, where it reads it as one JSON value.
pub uninterp spec fn parsed_value(text: Seq<char>) -> Option<serde_json::Value>;

/// The indented text that `serde_json` writes for `v`.
pub uninterp spec fn pretty_text(v: serde_json::Value) -> Seq<char>;

/// `serde_json::Value::Bool`: the result is a function of the boolean.
#[verifier::external_body]
fn value_bool(b: bool) -> (v: serde_json::Value)
    ensures
        v == bool_value(b),
{
    serde_json::Value::Bool(b)
}

/// `From<u64>` for `serde_json::Value`: the result is a function of the number.
#[verifier::external_body]
fn value_u64(n: u64) -> (v: serde_json::Value)
    ensures
        v == u64_value(n),
{
    serde_json::Value::from(n)
}

/// `From<i64>` for `serde_json::Value`: the result is a function of the number.
#[verifier::external_body]
fn value_i64(n: i64) -> (v: serde_json::Value)
    ensures
        v == i64_value(n),
{
    serde_json::Value::from(n)
}

/// `serde_json::Value::String`: the result is a function of the characters.
#[verifier::external_body]
pub(crate) fn value_string(s: String) -> (v: serde_json::Value)
    ensures
        v == string_value(s@),
{
    serde_json::Value::String(s)
}

/// `serde_json::Value::Array`: the result is a function of the items in order.
#[verifier::external_body]
fn value_array(items: Vec<serde_json::Value>) -> (v: serde_json::Value)
    ensures
        v == array_value(items@),
{
    serde_json::Value::Array(items)
}

/// `FromIterator<(String, Value)>` for `serde_json::Map`, wrapped in
/// `Value::Object`: the result is a function of the members in the order given.
#[verifier::external_body]
fn value_object(members: Vec<(String, serde_json::Value)>) -> (v: serde_json::Value)
    ensures
        v == object_value(Seq::new(members@.len(), |i: int| (members@[i].0@, members@[i].1))),
{
    serde_json::Value::Object(members.into_iter().collect())
}

/// `serde_json::from_str` at `Value`: the result is a function of the text; an
/// error is handed back as `None`.
#[verifier::external_body]
fn parse_value(text: &str) -> (r: Option<serde_json::Value>)
    ensures
        r == parsed_value(text@),
{
    serde_json::from_str(text).ok()
}

/// `serde_json::to_string_pretty` at `Value`. It writes into a vector, which
/// takes every byte, and a `Value` has strings for keys and no number that
/// JSON cannot hold, so no step of the writing can fail: the call succeeds,
/// and the text is a function of the value.
#[verifier::external_body]
fn pretty(v: &serde_json::Value) -> (r: Result<String, serde_json::Error>)
    ensures
        r is Ok,
        r matches Ok(s) ==> s@ == pretty_text(*v),
{
    serde_json::to_string_pretty(v)
}

/// The `serde_json` value of a document: each part goes through the
/// constructor of its kind. A `Millis` is written out in decimal and read back
/// as a number; were that reading refused, its whole milliseconds stand in.
pub open spec fn value_of(j: JsonModel) -> serde_json::Value
    decreases j, 0nat,
{
    match j {
        JsonModel::Bool(b) => bool_value(b),
        JsonModel::UInt(n) => u64_value(n),
        JsonModel::Int(n) => i64_value(n),
        JsonModel::Millis(m) => match parsed_value(millis_text(m.micros as nat)) {
            Some(v) => v,
            None => u64_value((m.micros / 1000) as u64),
        },
        JsonModel::Text(s) => string_value(s),
        JsonModel::List(items) => array_value(values_of(items)),
        JsonModel::Record(members) => object_value(member_values_of(members)),
        JsonModel::Raw(v) => v,
    }
}

/// The `serde_json` values of the items of a list, in order.
pub open spec fn values_of(items: Seq<JsonModel>) -> Seq<serde_json::Value>
    decreases items, 1nat,
{
    Seq::new(
        items.len(),
        |i: int|
            if 0 <= i < items.len() {
                value_of(items[i])
            } else {
                arbitrary()
            },
    )
}

/// The members of a record, each with the `serde_json` value of its value.
pub open spec fn member_values_of(members: Seq<Member>) -> Seq<(Seq<char>, serde_json::Value)>
    decreases members, 1nat,
{
    Seq::new(
        members.len(),
        |i: int|
            if 0 <= i < members.len() {
                (members[i].0, value_of(members[i].1))
            } else {
                arbitrary()
            },
    )
}

/// Why a document could not be written out.
#[derive(Debug)]
pub struct RenderError {
    pub message: String,
}

impl Json {
    /// Hands the document to `serde_json`, part by part.
    #[verifier::loop_isolation(false)]
    pub fn to_value(&self) -> (v: serde_json::Value)
        ensures
            v == value_of(self@),
        decreases self,
    {
        match self {
            Json::Bool(b) => value_bool(*b),
            Json::UInt(n) => value_u64(*n),
            Json::Int(n) => value_i64(*n),
            Json::Millis(m) => {
                let text = m.to_decimal();
                match parse_value(text.as_str()) {
                    Some(v) => v,
                    None => value_u64(m.whole_millis()),
                }
            },
            Json::Text(s) => value_string(s.clone()),
            Json::List(items) => {
                let mut out: Vec<serde_json::Value> = Vec::new();
                let mut i: usize = 0;
                while i < items.len()
                    invariant
                        i <= items.len(),
                        out.len() == i,
                        forall|j: int| 0 <= j < i ==> out[j] == value_of(items[j]@),
                    decreases items.len() - i,
                {
                    assert(decreases_to!(*items => items[i as int]));
                    out.push(items[i].to_value());
                    i += 1;
                }
                proof {
                    assert(out@ =~= values_of(list_view(items@)));
                }
                value_array(out)
            },
            Json::Record(members) => {
                let mut out: Vec<(String, serde_json::Value)> = Vec::new();
                let mut i: usize = 0;
                while i < members.len()
                    invariant
                        i <= members.len(),
                        out.len() == i,
                        forall|j: int|
                            0 <= j < i ==> out[j].0@ == members[j].0@ && out[j].1 == value_of(
                                members[j].1@,
                            ),
                    decreases members.len() - i,
                {
                    assert(decreases_to!(*members => members[i as int]));
                    out.push((members[i].0.clone(), members[i].1.to_value()));
                    i += 1;
                }
                proof {
                    assert(Seq::new(out@.len(), |i: int| (out@[i].0@, out@[i].1))
                        =~= member_values_of(members_view(members@)));
                }
                value_object(out)
            },
            Json::Raw(v) => v.clone(),
        }
    }

    /// Writes the document as indented JSON text. This always succeeds.
    pub fn to_pretty_string(&self) -> (r: Result<String, RenderError>)
        ensures
            r matches Ok(s) && s@ == pretty_text(value_of(self@)),
    {
        let value = self.to_value();
        pretty_string(&value)
    }
}

/// Writes a `serde_json` value as indented JSON text. This always succeeds.
pub fn pretty_string(value: &serde_json::Value) -> (r: Result<String, RenderError>)
    ensures
        r matches Ok(s) && s@ == pretty_text(*value),
{
    match pretty(value) {
        Ok(s) => Ok(s),
        Err(e) => Err(RenderError { message: e.to_string() }),
    }
}


impl Json {
    /// The list of the given strings.
    pub fn from_strs(items: &[&str]) -> (j: Json)
        ensures
            j@ == text_list(strs_view(items@)),
    {
        let mut out: Vec<Json> = Vec::new();
        let mut i: usize = 0;
        while i < items.len()
            invariant
                i <= items.len(),
                out.len() == i,
                forall|k: int| 0 <= k < i ==> out[k]@ == JsonModel::Text(items[k]@),
            decreases items.len() - i,
        {
            out.push(Json::Text(items[i].to_string()));
            i += 1;
        }
        assert(list_view(out@) =~= text_list(strs_view(items@))->List_0);
        Json::List(out)
    }

    /// The list of the given strings.
    pub fn from_strings(items: &Vec<String>) -> (j: Json)
        ensures
            j@ == text_list(strings_view(items@)),
    {
        let mut out: Vec<Json> = Vec::new();
        let mut i: usize = 0;
        while i < items.len()
            invariant
                i <= items.len(),
                out.len() == i,
                forall|k: int| 0 <= k < i ==> out[k]@ == JsonModel::Text(items[k]@),
            decreases items.len() - i,
        {
            out.push(Json::Text(items[i].clone()));
            i += 1;
        }
        assert(list_view(out@) =~= text_list(strings_view(items@))->List_0);
        Json::List(out)
    }
}


/// The value that a record holds under `key`: that of the first member with
/// this key, or none where no member has it.
pub open spec fn member(members: Seq<Member>, key: Seq<char>) -> Option<JsonModel>
    decreases members.len(),
{
    if members.len() == 0 {
        None
    } else if members.first().0 == key {
        Some(members.first().1)
    } else {
        member(members.drop_first(), key)
    }
}

/// Under a key, members put behind others are found only where the others
/// have none.
pub proof fn lemma_member_concat(a: Seq<Member>, b: Seq<Member>, key: Seq<char>)
    ensures
        member(a + b, key) == (if member(a, key) is Some {
            member(a, key)
        } else {
            member(b, key)
        }),
    decreases a.len(),
{
    if a.len() == 0 {
        assert(a + b =~= b);
    } else {
        assert((a + b).drop_first() =~= a.drop_first() + b);
        lemma_member_concat(a.drop_first(), b, key);
    }
}

/// A record of one member holds its value under its key and nothing else.
pub proof fn lemma_member_one(k: Seq<char>, v: JsonModel, key: Seq<char>)
    ensures
        member(seq![(k, v)], key) == (if k == key {
            Some(v)
        } else {
            None
        }),
{
    let one = seq![(k, v)];
    assert(one.len() == 1);
    assert(one.first() == (k, v));
    assert(one.drop_first().len() == 0);
    assert(member(one.drop_first(), key) is None);
}

/// What a record holds under a key once one more member is put at its end.
pub proof fn lemma_member_push(a: Seq<Member>, k: Seq<char>, v: JsonModel, key: Seq<char>)
    ensures
        member(a.push((k, v)), key) == (if member(a, key) is Some {
            member(a, key)
        } else if k == key {
            Some(v)
        } else {
            None
        }),
{
    assert(a.push((k, v)) =~= a + seq![(k, v)]);
    lemma_member_concat(a, seq![(k, v)], key);
    lemma_member_one(k, v, key);
}

/// What a record holds under a key once an optional member is put at its
/// end: under that member's key, its value only where there is one.
pub proof fn lemma_member_optional(
    a: Seq<Member>,
    k: Seq<char>,
    v: Option<JsonModel>,
    key: Seq<char>,
)
    ensures
        member(a + optional_member(k, v), key) == (if member(a, key) is Some {
            member(a, key)
        } else if k == key {
            v
        } else {
            None
        }),
{
    lemma_member_concat(a, optional_member(k, v), key);
    match v {
        Some(x) => {
            lemma_member_one(k, x, key);
        },
        None => {},
    }
}

} // verus!
