use vstd::prelude::*;

verus! {

/// Which of the three primary keywords a story has used so far.
#[derive(Clone, Copy, Debug, PartialEq, Eq, Structural)]
pub struct Seen {
    pub seen_given: bool,
    pub seen_when: bool,
    pub seen_then: bool,
}

/// Given, When and Then are the primary keywords; no other word is.
pub open spec fn is_primary(keyword: Seq<char>) -> bool {
    keyword == "Given"@ || keyword == "When"@ || keyword == "Then"@
}

/// Tells whether `keyword` is a primary keyword that was used before.
pub open spec fn has_seen(seen: Seen, keyword: Seq<char>) -> bool {
    ||| keyword == "Given"@ && seen.seen_given
    ||| keyword == "When"@ && seen.seen_when
    ||| keyword == "Then"@ && seen.seen_then
}

/// The keyword that a step is recorded under when `keyword` is asked for: a
/// primary keyword that was used before gives way to `And`; every other word
/// stands as it is.
pub open spec fn effective_keyword(seen: Seen, keyword: Seq<char>) -> Seq<char> {
    if has_seen(seen, keyword) {
        "And"@
    } else {
        keyword
    }
}

/// What has been used once `keyword` was asked for: a primary keyword counts
/// from then on, any other word changes nothing.
pub open spec fn mark_seen(seen: Seen, keyword: Seq<char>) -> Seen {
    Seen {
        seen_given: seen.seen_given || keyword == "Given"@,
        seen_when: seen.seen_when || keyword == "When"@,
        seen_then: seen.seen_then || keyword == "Then"@,
    }
}

/// The keywords that a story records, from what it has used so far, for a
/// run of requests.
pub open spec fn infer(seen: Seen, requests: Seq<Seq<char>>) -> Seq<Seq<char>>
    decreases requests.len(),
{
    if requests.len() == 0 {
        Seq::empty()
    } else {
        seq![effective_keyword(seen, requests[0])] + infer(
            mark_seen(seen, requests[0]),
            requests.subrange(1, requests.len() as int),
        )
    }
}

/// What a story has used after a run of requests.
pub open spec fn seen_after(seen: Seen, requests: Seq<Seq<char>>) -> Seen
    decreases requests.len(),
{
    if requests.len() == 0 {
        seen
    } else {
        seen_after(mark_seen(seen, requests[0]), requests.subrange(1, requests.len() as int))
    }
}

/// The five keywords are five different words, spelled as they read.
pub proof fn lemma_keyword_texts()
    ensures
        "Given"@ == seq!['G', 'i', 'v', 'e', 'n'],
        "When"@ == seq!['W', 'h', 'e', 'n'],
        "Then"@ == seq!['T', 'h', 'e', 'n'],
        "And"@ == seq!['A', 'n', 'd'],
        "But"@ == seq!['B', 'u', 't'],
        !is_primary("And"@),
        !is_primary("But"@),
        "Given"@ != "When"@,
        "Given"@ != "Then"@,
        "When"@ != "Then"@,
{
    reveal_strlit("Given");
    reveal_strlit("When");
    reveal_strlit("Then");
    reveal_strlit("And");
    reveal_strlit("But");
    assert("Given"@ =~= seq!['G', 'i', 'v', 'e', 'n']);
    assert("When"@ =~= seq!['W', 'h', 'e', 'n']);
    assert("Then"@ =~= seq!['T', 'h', 'e', 'n']);
    assert("And"@ =~= seq!['A', 'n', 'd']);
    assert("But"@ =~= seq!['B', 'u', 't']);
    assert("Given"@[0] == 'G');
    assert("When"@[0] == 'W');
    assert("Then"@[0] == 'T');
    assert("And"@[0] == 'A');
    assert("But"@[0] == 'B');
}

impl Seen {
    /// Nothing used yet.
    pub fn none() -> (s: Seen)
        ensures
            s == (Seen { seen_given: false, seen_when: false, seen_then: false }),
    {
        Seen { seen_given: false, seen_when: false, seen_then: false }
    }

    /// Takes a request for `keyword`: hands back the keyword to record the
    /// step under and notes a primary keyword as used.
    pub fn take<'a>(&mut self, keyword: &'a str) -> (effective: &'a str)
        ensures
            effective@ == effective_keyword(*old(self), keyword@),
            *final(self) == mark_seen(*old(self), keyword@),
    {
        proof {
            lemma_keyword_texts();
        }
        if keyword.eq("Given") {
            if self.seen_given {
                "And"
            } else {
                self.seen_given = true;
                keyword
            }
        } else if keyword.eq("When") {
            if self.seen_when {
                "And"
            } else {
                self.seen_when = true;
                keyword
            }
        } else if keyword.eq("Then") {
            if self.seen_then {
                "And"
            } else {
                self.seen_then = true;
                keyword
            }
        } else {
            keyword
        }
    }
}

/// As many keywords are recorded as were asked for.
pub proof fn lemma_infer_len(seen: Seen, requests: Seq<Seq<char>>)
    ensures
        infer(seen, requests).len() == requests.len(),
    decreases requests.len(),
{
    if requests.len() > 0 {
        lemma_infer_len(
            mark_seen(seen, requests[0]),
            requests.subrange(1, requests.len() as int),
        );
    }
}

/// The keyword recorded for the request at place `i` is the one that the
/// story's use of the primary keywords up to that request gives it.
pub proof fn lemma_infer_at(seen: Seen, requests: Seq<Seq<char>>, i: int)
    requires
        0 <= i < requests.len(),
    ensures
        infer(seen, requests).len() == requests.len(),
        infer(seen, requests)[i] == effective_keyword(
            seen_after(seen, requests.subrange(0, i)),
            requests[i],
        ),
    decreases requests.len(),
{
    lemma_infer_len(seen, requests);
    let rest = requests.subrange(1, requests.len() as int);
    lemma_infer_len(mark_seen(seen, requests[0]), rest);
    if i == 0 {
        assert(requests.subrange(0, 0).len() == 0);
    } else {
        lemma_infer_at(mark_seen(seen, requests[0]), rest, i - 1);
        let before = requests.subrange(0, i);
        assert(before[0] == requests[0]);
        assert(before.subrange(1, before.len() as int) =~= rest.subrange(0, i - 1));
        assert(rest[i - 1] == requests[i]);
    }
}

/// A primary keyword counts as used after a run of requests exactly if it
/// was used before or one of the requests asked for it.
pub proof fn lemma_seen_after(seen: Seen, requests: Seq<Seq<char>>, keyword: Seq<char>)
    requires
        is_primary(keyword),
    ensures
        has_seen(seen_after(seen, requests), keyword) <==> has_seen(seen, keyword) || exists|
            j: int,
        |
            0 <= j < requests.len() && requests[j] == keyword,
    decreases requests.len(),
{
    lemma_keyword_texts();
    if requests.len() > 0 {
        let rest = requests.subrange(1, requests.len() as int);
        let next = mark_seen(seen, requests[0]);
        lemma_seen_after(next, rest, keyword);
        if has_seen(seen_after(seen, requests), keyword) {
            if !has_seen(seen, keyword) {
                if has_seen(next, keyword) {
                    assert(requests[0] == keyword);
                } else {
                    let j = choose|j: int| 0 <= j < rest.len() && rest[j] == keyword;
                    assert(requests[j + 1] == keyword);
                }
            }
        }
        if exists|j: int| 0 <= j < requests.len() && requests[j] == keyword {
            let j = choose|j: int| 0 <= j < requests.len() && requests[j] == keyword;
            if j > 0 {
                assert(rest[j - 1] == keyword);
            }
        }
    }
}

/// A fresh story records a request under `And` exactly if it asks for `And`
/// itself, or for a primary keyword that an earlier request asked for; every
/// other request is recorded under its own word.
pub proof fn lemma_and_only_for_repeats(requests: Seq<Seq<char>>, i: int)
    requires
        0 <= i < requests.len(),
    ensures
        infer(Seen { seen_given: false, seen_when: false, seen_then: false }, requests).len()
            == requests.len(),
        infer(Seen { seen_given: false, seen_when: false, seen_then: false }, requests)[i] == (if {
            &&& is_primary(requests[i])
            &&& exists|j: int| 0 <= j < i && requests[j] == requests[i]
        } {
            "And"@
        } else {
            requests[i]
        }),
{
    let fresh = Seen { seen_given: false, seen_when: false, seen_then: false };
    lemma_keyword_texts();
    lemma_infer_at(fresh, requests, i);
    let before = requests.subrange(0, i);
    if is_primary(requests[i]) {
        lemma_seen_after(fresh, before, requests[i]);
        if exists|j: int| 0 <= j < i && requests[j] == requests[i] {
            let j = choose|j: int| 0 <= j < i && requests[j] == requests[i];
            assert(before[j] == requests[i]);
        }
        if exists|j: int| 0 <= j < before.len() && before[j] == requests[i] {
            let j = choose|j: int| 0 <= j < before.len() && before[j] == requests[i];
            assert(requests[j] == requests[i]);
        }
    }
}

/// Of requests that all ask for one primary keyword, a story that has not
/// used that keyword records the first under it and every later one under
/// `And`.
pub proof fn lemma_repeated_primary(seen: Seen, keyword: Seq<char>, requests: Seq<Seq<char>>)
    requires
        is_primary(keyword),
        !has_seen(seen, keyword),
        requests.len() > 0,
        forall|i: int| 0 <= i < requests.len() ==> requests[i] == keyword,
    ensures
        infer(seen, requests).len() == requests.len(),
        infer(seen, requests)[0] == keyword,
        forall|i: int| 1 <= i < requests.len() ==> infer(seen, requests)[i] == "And"@,
{
    lemma_infer_len(seen, requests);
    lemma_infer_at(seen, requests, 0);
    assert(requests.subrange(0, 0).len() == 0);
    assert forall|i: int| 1 <= i < requests.len() implies infer(seen, requests)[i] == "And"@ by {
        lemma_infer_at(seen, requests, i);
        let before = requests.subrange(0, i);
        lemma_seen_after(seen, before, keyword);
        assert(before[0] == keyword);
    }
}

/// A request for `And` or for `But` is recorded under its own word, whatever
/// the story has used, and uses up nothing.
pub proof fn lemma_and_but_stand(seen: Seen, keyword: Seq<char>)
    requires
        keyword == "And"@ || keyword == "But"@,
    ensures
        effective_keyword(seen, keyword) == keyword,
        mark_seen(seen, keyword) == seen,
{
    lemma_keyword_texts();
}

} // verus!
