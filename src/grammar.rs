//! The grammar checker's answer: the upstream service's JSON mapped onto the
//! matches that the editor shows.
use vstd::prelude::*;
use crate::json::{
    elements, json_elements, json_member, json_parsed, json_text, json_unsigned, member,
    parse_text, text, unsigned,
};
use crate::text::{chars_of, texts};

verus! {

/// One issue in the checked text: a message, the span it covers and the
/// suggested replacements, best first.
#[derive(Debug)]
pub struct GrammarMatch {
    pub message: String,
    pub offset: usize,
    pub length: usize,
    pub replacements: Vec<String>,
}

#[derive(Debug)]
pub struct GrammarResponse {
    pub matches: Vec<GrammarMatch>,
}

#[derive(Debug)]
pub enum GrammarError {
    Unavailable,
}

/// A match as plain values: message, offset, length, replacements.
pub type MatchModel = (Seq<char>, int, int, Seq<Seq<char>>);

pub open spec fn model_of(m: GrammarMatch) -> MatchModel {
    (m.message@, m.offset as int, m.length as int, texts(m.replacements@))
}

pub open spec fn models_of(ms: Seq<GrammarMatch>) -> Seq<MatchModel> {
    ms.map_values(|m: GrammarMatch| model_of(m))
}

/// A number of the upstream answer that fits a `usize`.
pub open spec fn size_of_member(v: serde_json::Value, key: Seq<char>) -> Option<int> {
    match json_member(v, key) {
        Some(x) => match json_unsigned(x) {
            Some(n) => if n <= usize::MAX {
                Some(n as int)
            } else {
                None
            },
            None => None,
        },
        None => None,
    }
}

/// The string member `key` of `v`.
pub open spec fn text_member(v: serde_json::Value, key: Seq<char>) -> Option<Seq<char>> {
    match json_member(v, key) {
        Some(x) => json_text(x),
        None => None,
    }
}

/// The replacement texts of a list of `{ value }` objects, when each has one.
pub open spec fn replacement_values(items: Seq<serde_json::Value>) -> Option<Seq<Seq<char>>>
    decreases items.len(),
{
    if items.len() == 0 {
        Some(Seq::empty())
    } else {
        match (replacement_values(items.drop_last()), text_member(items.last(), seq!['v', 'a', 'l', 'u', 'e'])) {
            (Some(init), Some(t)) => Some(init.push(t)),
            _ => None,
        }
    }
}

/// One upstream match, when it has the expected shape.
pub open spec fn upstream_match(v: serde_json::Value) -> Option<MatchModel> {
    let message = text_member(v, seq!['m', 'e', 's', 's', 'a', 'g', 'e']);
    let offset = size_of_member(v, seq!['o', 'f', 'f', 's', 'e', 't']);
    let length = size_of_member(v, seq!['l', 'e', 'n', 'g', 't', 'h']);
    let reps = match json_member(v, seq!['r', 'e', 'p', 'l', 'a', 'c', 'e', 'm', 'e', 'n', 't', 's']) {
        Some(x) => match json_elements(x) {
            Some(items) => replacement_values(items),
            None => None,
        },
        None => None,
    };
    match (message, offset, length, reps) {
        (Some(m), Some(o), Some(l), Some(r)) => Some((m, o, l, r)),
        _ => None,
    }
}

/// The upstream matches of a list, in order, when each has the expected shape
/// and its span lies within a text of `n` characters.
pub open spec fn upstream_matches(items: Seq<serde_json::Value>, n: int) -> Option<Seq<MatchModel>>
    decreases items.len(),
{
    if items.len() == 0 {
        Some(Seq::empty())
    } else {
        match (upstream_matches(items.drop_last(), n), upstream_match(items.last())) {
            (Some(init), Some(m)) => if m.1 + m.2 <= n {
                Some(init.push(m))
            } else {
                None
            },
            _ => None,
        }
    }
}

/// The matches of an upstream answer on a text of `n` characters, when it has
/// the expected shape.
pub open spec fn upstream_answer(v: serde_json::Value, n: int) -> Option<Seq<MatchModel>> {
    match json_member(v, seq!['m', 'a', 't', 'c', 'h', 'e', 's']) {
        Some(x) => match json_elements(x) {
            Some(items) => upstream_matches(items, n),
            None => None,
        },
        None => None,
    }
}

proof fn lemma_replacements_prefix(items: Seq<serde_json::Value>, k: int)
    requires
        0 <= k <= items.len(),
        replacement_values(items.subrange(0, k)) is None,
    ensures
        replacement_values(items) is None,
    decreases items.len(),
{
    if items.len() == k {
        assert(items.subrange(0, k) =~= items);
    } else {
        assert(items.drop_last().subrange(0, k) =~= items.subrange(0, k));
        lemma_replacements_prefix(items.drop_last(), k);
    }
}

proof fn lemma_matches_prefix(items: Seq<serde_json::Value>, n: int, k: int)
    requires
        0 <= k <= items.len(),
        upstream_matches(items.subrange(0, k), n) is None,
    ensures
        upstream_matches(items, n) is None,
    decreases items.len(),
{
    if items.len() == k {
        assert(items.subrange(0, k) =~= items);
    } else {
        assert(items.drop_last().subrange(0, k) =~= items.subrange(0, k));
        lemma_matches_prefix(items.drop_last(), n, k);
    }
}

fn read_size(v: &serde_json::Value, key: &str) -> (r: Option<usize>)
    ensures
        match r {
            Some(n) => size_of_member(*v, key@) == Some(n as int),
            None => size_of_member(*v, key@) is None,
        },
{
    match member(v, key) {
        Some(x) => match unsigned(&x) {
            Some(n) => if n <= usize::MAX as u64 {
                Some(n as usize)
            } else {
                None
            },
            None => None,
        },
        None => None,
    }
}

fn read_text(v: &serde_json::Value, key: &str) -> (r: Option<String>)
    ensures
        match r {
            Some(s) => text_member(*v, key@) == Some(s@),
            None => text_member(*v, key@) is None,
        },
{
    match member(v, key) {
        Some(x) => text(&x),
        None => None,
    }
}

fn read_replacements(items: &Vec<serde_json::Value>) -> (r: Option<Vec<String>>)
    ensures
        match r {
            Some(out) => replacement_values(items@) == Some(texts(out@)),
            None => replacement_values(items@) is None,
        },
{
    proof {
        reveal_strlit("value");
    }
    assert("value"@ =~= seq!['v', 'a', 'l', 'u', 'e']);
    let mut out: Vec<String> = Vec::new();
    let mut i: usize = 0;
    while i < items.len()
        invariant
            i <= items@.len(),
            "value"@ == seq!['v', 'a', 'l', 'u', 'e'],
            replacement_values(items@.subrange(0, i as int)) == Some(texts(out@)),
        decreases items@.len() - i,
    {
        assert(items@.subrange(0, i + 1).drop_last() =~= items@.subrange(0, i as int));
        match read_text(&items[i], "value") {
            Some(t) => {
                out.push(t);
                assert(texts(out@) =~= texts(out@).drop_last().push(out@.last()@));
            },
            None => {
                assert(replacement_values(items@.subrange(0, i + 1)) is None);
                proof {
                    lemma_replacements_prefix(items@, i + 1);
                }
                return None;
            },
        }
        i += 1;
    }
    assert(items@.subrange(0, items@.len() as int) =~= items@);
    Some(out)
}

fn read_match(v: &serde_json::Value) -> (r: Option<GrammarMatch>)
    ensures
        match r {
            Some(m) => upstream_match(*v) == Some(model_of(m)),
            None => upstream_match(*v) is None,
        },
{
    proof {
        reveal_strlit("message");
        reveal_strlit("offset");
        reveal_strlit("length");
        reveal_strlit("replacements");
    }
    assert("message"@ =~= seq!['m', 'e', 's', 's', 'a', 'g', 'e']);
    assert("offset"@ =~= seq!['o', 'f', 'f', 's', 'e', 't']);
    assert("length"@ =~= seq!['l', 'e', 'n', 'g', 't', 'h']);
    assert("replacements"@ =~= seq!['r', 'e', 'p', 'l', 'a', 'c', 'e', 'm', 'e', 'n', 't', 's']);
    let message = read_text(v, "message");
    let offset = read_size(v, "offset");
    let length = read_size(v, "length");
    let replacements = match member(v, "replacements") {
        Some(x) => match elements(&x) {
            Some(items) => read_replacements(&items),
            None => None,
        },
        None => None,
    };
    match (message, offset, length, replacements) {
        (Some(message), Some(offset), Some(length), Some(replacements)) => Some(
            GrammarMatch { message, offset, length, replacements },
        ),
        _ => None,
    }
}

/// Whether every match's span lies within a text of `n` characters.
pub open spec fn spans_within(ms: Seq<GrammarMatch>, n: int) -> bool {
    forall|i: int| 0 <= i < ms.len() ==> #[trigger] ms[i].offset + ms[i].length <= n
}

/// The grammar response for an upstream answer, given as a JSON tree, on a
/// text of `text_len` characters: each upstream match's message, span and
/// replacement values, in order, other fields dropped; `Unavailable` when the
/// answer lacks the expected shape or a span reaches past the text.
pub fn response_from_value(v: &serde_json::Value, text_len: usize) -> (r: Result<
    GrammarResponse,
    GrammarError,
>)
    ensures
        match r {
            Ok(resp) => upstream_answer(*v, text_len as int) == Some(models_of(resp.matches@))
                && spans_within(resp.matches@, text_len as int),
            Err(_) => upstream_answer(*v, text_len as int) is None,
        },
{
    proof {
        reveal_strlit("matches");
    }
    assert("matches"@ =~= seq!['m', 'a', 't', 'c', 'h', 'e', 's']);
    let ghost n = text_len as int;
    let items = match member(v, "matches") {
        Some(x) => match elements(&x) {
            Some(items) => items,
            None => return Err(GrammarError::Unavailable),
        },
        None => return Err(GrammarError::Unavailable),
    };
    assert(upstream_answer(*v, n) == upstream_matches(items@, n));
    let mut out: Vec<GrammarMatch> = Vec::new();
    let mut i: usize = 0;
    while i < items.len()
        invariant
            i <= items@.len(),
            n == text_len as int,
            upstream_answer(*v, n) == upstream_matches(items@, n),
            upstream_matches(items@.subrange(0, i as int), n) == Some(models_of(out@)),
            spans_within(out@, n),
        decreases items@.len() - i,
    {
        assert(items@.subrange(0, i + 1).drop_last() =~= items@.subrange(0, i as int));
        match read_match(&items[i]) {
            Some(m) => {
                if m.offset > text_len || m.length > text_len - m.offset {
                    proof {
                        lemma_matches_prefix(items@, n, i + 1);
                    }
                    return Err(GrammarError::Unavailable);
                }
                out.push(m);
                assert(models_of(out@) =~= models_of(out@).drop_last().push(model_of(out@.last())));
            },
            None => {
                proof {
                    lemma_matches_prefix(items@, n, i + 1);
                }
                return Err(GrammarError::Unavailable);
            },
        }
        i += 1;
    }
    assert(items@.subrange(0, items@.len() as int) =~= items@);
    Ok(GrammarResponse { matches: out })
}

/// The grammar response for the upstream service's reply `body` to a check of
/// `text`; a body that is not JSON, not of the expected shape, or with a span
/// past the end of `text` makes the service unavailable.
pub fn response_from_body(text: &str, body: &str) -> (r: Result<GrammarResponse, GrammarError>)
    ensures
        match r {
            Ok(resp) => (json_parsed(body@) matches Some(v) && upstream_answer(v, text@.len() as int)
                == Some(models_of(resp.matches@))) && spans_within(resp.matches@, text@.len() as int),
            Err(_) => !(json_parsed(body@) matches Some(v) && upstream_answer(v, text@.len() as int) is Some),
        },
{
    let n = chars_of(text).len();
    match parse_text(body) {
        Ok(v) => response_from_value(&v, n),
        Err(_) => Err(GrammarError::Unavailable),
    }
}

} // verus!
