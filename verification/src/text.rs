//! Small operations on text that the rest of the library shares.

use vstd::prelude::*;
use vstd::string::*;

verus! {

/// The view of a text that may be absent.
pub open spec fn option_text(text: Option<String>) -> Option<Seq<char>> {
    match text {
        Some(text) => Some(text@),
        None => None,
    }
}

/// `text` with every occurrence of `pattern` replaced by `with`, found from
/// the left, one after the end of the other.
pub open spec fn replaced(text: Seq<char>, pattern: Seq<char>, with: Seq<char>) -> Seq<char>
    recommends
        pattern.len() > 0,
    decreases text.len(),
{
    if pattern.len() == 0 || text.len() < pattern.len() {
        text
    } else if text.subrange(0, pattern.len() as int) == pattern {
        with + replaced(text.subrange(pattern.len() as int, text.len() as int), pattern, with)
    } else {
        seq![text[0]] + replaced(text.subrange(1, text.len() as int), pattern, with)
    }
}

/// `str::replace` of std, for a pattern that is not empty. Trusted: the
/// matches are found from the left and do not overlap, each is replaced by
/// `with`, and the rest of the text is kept.
#[verifier::external_body]
pub(crate) fn replace_all(text: &str, pattern: &str, with: &str) -> (result: String)
    requires
        pattern@.len() > 0,
    ensures
        result@ == replaced(text@, pattern@, with@),
{
    text.replace(pattern, with)
}

/// Where `wanted` first stands in `text`, the length of the text if it
/// stands nowhere.
pub open spec fn first_index_of(text: Seq<char>, wanted: char) -> int
    decreases text.len(),
{
    if text.len() == 0 {
        0
    } else if text[0] == wanted {
        0
    } else {
        1 + first_index_of(text.drop_first(), wanted)
    }
}

/// [`first_index_of`] is the first index at which `wanted` stands.
pub proof fn lemma_first_index_of(text: Seq<char>, wanted: char)
    ensures
        0 <= first_index_of(text, wanted) <= text.len(),
        first_index_of(text, wanted) < text.len() ==> text[first_index_of(text, wanted)] == wanted,
        forall|i: int| 0 <= i < first_index_of(text, wanted) ==> text[i] != wanted,
    decreases text.len(),
{
    if text.len() > 0 && text[0] != wanted {
        let rest = text.drop_first();
        lemma_first_index_of(rest, wanted);
        assert forall|i: int| 0 <= i < first_index_of(text, wanted) implies text[i] != wanted by {
            if i > 0 {
                assert(text[i] == rest[i - 1]);
            }
        }
    }
}

/// The first index at which `wanted` stands is the only one that has
/// `wanted` on it and nowhere before it.
pub proof fn lemma_first_index_is(text: Seq<char>, wanted: char, at: int)
    requires
        0 <= at <= text.len(),
        at < text.len() ==> text[at] == wanted,
        forall|i: int| 0 <= i < at ==> text[i] != wanted,
    ensures
        first_index_of(text, wanted) == at,
{
    lemma_first_index_of(text, wanted);
}

} // verus!
