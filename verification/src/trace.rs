use vstd::prelude::*;
use vstd::string::StrSliceExecFns;

verus! {

/// What `format!("{:?}", ..)` writes for a list of strings.
pub uninterp spec fn debug_text(items: Seq<Seq<char>>) -> Seq<char>;

/// The text with every occurrence of `from` replaced by `to`, read from the
/// left, an occurrence never reaching into the one before it. Without a
/// pattern there is nothing to look for, and the text stays as it is.
pub open spec fn replaced(text: Seq<char>, from: Seq<char>, to: Seq<char>) -> Seq<char>
    decreases text.len(),
{
    if from.len() == 0 || text.len() < from.len() {
        text
    } else if text.subrange(0, from.len() as int) == from {
        to + replaced(text.subrange(from.len() as int, text.len() as int), from, to)
    } else {
        seq![text[0]] + replaced(text.subrange(1, text.len() as int), from, to)
    }
}

/// Tells whether a text holds no character but the digit zero, as the id of
/// a trace that is not there does. The empty text counts as well.
pub open spec fn all_zeros(text: Seq<char>) -> bool {
    forall|i: int| 0 <= i < text.len() ==> text[i] == '0'
}

/// Tells whether `text` holds no character but the digit zero.
pub fn is_all_zeros(text: &str) -> (r: bool)
    ensures
        r == all_zeros(text@),
{
    let n = text.unicode_len();
    let mut i: usize = 0;
    while i < n
        invariant
            n == text@.len(),
            i <= n,
            forall|k: int| 0 <= k < i ==> text@[k] == '0',
        decreases n - i,
    {
        if text.get_char(i) != '0' {
            return false;
        }
        i += 1;
    }
    true
}

/// The trace id and the span id of the span that is active on this thread:
/// `opentelemetry::Context::current`, then `TraceContextExt::span` and
/// `SpanRef::span_context`, and the two ids as their `Display` prints them.
/// They depend on what the surrounding program has set up, so nothing is
/// claimed of them.
#[verifier::external_body]
pub(crate) fn active_trace_ids() -> (ids: (String, String)) {
    let context = opentelemetry::Context::current();
    let span = opentelemetry::trace::TraceContextExt::span(&context);
    let span_context = span.span_context();
    (span_context.trace_id().to_string(), span_context.span_id().to_string())
}

/// Sets one attribute on the span that is active on this thread:
/// `opentelemetry::Context::current`, `TraceContextExt::span` and
/// `SpanRef::set_attribute` with a `KeyValue` of the two strings. Nothing
/// comes back, and nothing is claimed.
#[verifier::external_body]
pub(crate) fn set_span_attribute(key: &str, value: &str) {
    let context = opentelemetry::Context::current();
    let span = opentelemetry::trace::TraceContextExt::span(&context);
    span.set_attribute(opentelemetry::KeyValue::new(key.to_string(), value.to_string()));
}

/// `format!("{:?}", ..)` on a vector of strings, which is std's `Debug` for
/// it: the text is a function of the strings.
#[verifier::external_body]
pub(crate) fn debug_list(items: &Vec<String>) -> (s: String)
    ensures
        s@ == debug_text(items.deep_view()),
{
    format!("{:?}", items)
}

/// `str::replace` with a string as the pattern. For a pattern that is not
/// empty std documents that every match, found from the left and not
/// overlapping an earlier one, gives way to `to`; `replaced` says the same.
#[verifier::external_body]
pub(crate) fn replace_all(text: &str, from: &str, to: &str) -> (s: String)
    requires
        from@.len() > 0,
    ensures
        s@ == replaced(text@, from@, to@),
{
    text.replace(from, to)
}

} // verus!
