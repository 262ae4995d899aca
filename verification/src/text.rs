//! Helpers on strings and sequences: verified ones, and the standard
//! library's own where the verifier has no account of them.

use vstd::prelude::*;
use vstd::string::*;

verus! {

/// The upper-case form of a text, as the standard library computes it.
pub uninterp spec fn uppercased(text: Seq<char>) -> Seq<char>;

/// A text with every match of `from` replaced by `to`, as the standard
/// library computes it.
pub uninterp spec fn replaced(text: Seq<char>, from: Seq<char>, to: Seq<char>) -> Seq<char>;

/// Calls `str::to_uppercase`. The contract gives the result its name and
/// says nothing else of it.
#[verifier::external_body]
pub(crate) fn to_uppercase(text: &str) -> (upper: String)
    ensures
        upper@ == uppercased(text@),
{
    text.to_uppercase()
}

/// Calls `str::replace` with a string as the pattern. The contract gives
/// the result its name and says nothing else of it.
#[verifier::external_body]
pub(crate) fn replace(text: &str, from: &str, to: &str) -> (out: String)
    ensures
        out@ == replaced(text@, from@, to@),
{
    text.replace(from, to)
}

/// Tells whether two strings hold the same characters.
pub fn same_text(a: &str, b: &str) -> (same: bool)
    ensures
        same == (a@ == b@),
{
    let left = String::from_str(a);
    let right = String::from_str(b);
    left == right
}

/// The text that an optional string holds, if it holds one.
pub open spec fn text_of(value: Option<String>) -> Option<Seq<char>> {
    match value {
        Some(text) => Some(text@),
        None => None,
    }
}

/// The text that an optional text holds, or a default.
pub open spec fn text_or(value: Option<Seq<char>>, default: Seq<char>) -> Seq<char> {
    match value {
        Some(text) => text,
        None => default,
    }
}

/// Returns a copy of the string that an option holds, or of a default.
pub fn string_or(value: &Option<String>, default: &str) -> (text: String)
    ensures
        text@ == text_or(text_of(*value), default@),
{
    match value {
        Some(text) => text.clone(),
        None => String::from_str(default),
    }
}

/// The first `count` characters of a text, or all of it where it is
/// shorter.
pub open spec fn prefix(text: Seq<char>, count: int) -> Seq<char> {
    if text.len() >= count {
        text.subrange(0, count)
    } else {
        text
    }
}

/// Returns the first `count` characters of a string, or all of it where
/// it is shorter.
pub fn leading(text: &str, count: usize) -> (head: String)
    ensures
        head@ == prefix(text@, count as int),
{
    if text.unicode_len() >= count {
        String::from_str(text.substring_char(0, count))
    } else {
        String::from_str(text)
    }
}

/// A filtered listing grows by the next item exactly when the item passes
/// the filter.
pub proof fn lemma_filter_step<A>(items: Seq<A>, at: int, pred: spec_fn(A) -> bool)
    requires
        0 <= at < items.len(),
    ensures
        items.take(at + 1).filter(pred) == if pred(items[at]) {
            items.take(at).filter(pred).push(items[at])
        } else {
            items.take(at).filter(pred)
        },
{
    let next = items.take(at + 1);
    assert(next.drop_last() =~= items.take(at));
    assert(next.last() == items[at]);
    reveal_with_fuel(Seq::filter, 2);
}

} // verus!
