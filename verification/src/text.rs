//! Text: prefix tests, character by character, and bytes read as text.

use vstd::prelude::*;

verus! {

/// Whether `text` begins with `prefix`.
pub fn starts_with(text: &str, prefix: &str) -> (found: bool)
    ensures
        found == prefix@.is_prefix_of(text@),
{
    let wanted: usize = prefix.unicode_len();
    if text.unicode_len() < wanted {
        return false;
    }
    let mut at: usize = 0;
    while at < wanted
        invariant
            wanted == prefix@.len(),
            wanted <= text@.len(),
            at <= wanted,
            forall|k: int| 0 <= k < at ==> text@[k] == prefix@[k],
        decreases wanted - at,
    {
        if text.get_char(at) != prefix.get_char(at) {
            assert(text@.subrange(0, wanted as int)[at as int] != prefix@[at as int]);
            return false;
        }
        at += 1;
    }
    assert(prefix@ =~= text@.subrange(0, wanted as int));
    true
}

/// What is left of `text` once `prefix` is taken from its front.
pub open spec fn without_prefix(text: Seq<char>, prefix: Seq<char>) -> Option<Seq<char>> {
    if prefix.is_prefix_of(text) {
        Some(text.skip(prefix.len() as int))
    } else {
        None
    }
}

/// Takes `prefix` from the front of `text`, once; `None` where `text` does
/// not begin with it.
pub fn strip_prefix<'a>(text: &'a str, prefix: &str) -> (rest: Option<&'a str>)
    ensures
        match rest {
            Some(tail) => without_prefix(text@, prefix@) == Some(tail@),
            None => without_prefix(text@, prefix@).is_none(),
        },
{
    if starts_with(text, prefix) {
        let from: usize = prefix.unicode_len();
        let to: usize = text.unicode_len();
        let tail = text.substring_char(from, to);
        assert(tail@ =~= text@.skip(from as int));
        Some(tail)
    } else {
        None
    }
}

/// Whether the two texts are the same, character for character.
pub fn same_text(left: &str, right: &str) -> (same: bool)
    ensures
        same == (left@ == right@),
{
    if left.unicode_len() != right.unicode_len() {
        return false;
    }
    let same = starts_with(left, right);
    assert(right@.is_prefix_of(left@) ==> right@ =~= left@);
    same
}

/// Whether `text` begins with `prefix` and goes on after it.
pub open spec fn extends(text: Seq<char>, prefix: Seq<char>) -> bool {
    prefix.is_prefix_of(text) && prefix.len() < text.len()
}

/// Whether `text` begins with `prefix` and goes on after it.
pub fn is_under(text: &str, prefix: &str) -> (under: bool)
    ensures
        under == extends(text@, prefix@),
{
    starts_with(text, prefix) && prefix.unicode_len() < text.unicode_len()
}

/// The text that `bytes` decode to as UTF-8, each ill-formed part replaced by
/// U+FFFD: what `String::from_utf8_lossy` returns.
pub uninterp spec fn lossy_text(bytes: Seq<u8>) -> Seq<char>;

/// Calls `String::from_utf8_lossy` and copies the text out. The contract
/// claims that the text is the one that `lossy_text` names for these bytes.
#[verifier::external_body]
pub(crate) fn decode_lossy(bytes: &[u8]) -> (text: String)
    ensures
        text@ == lossy_text(bytes@),
{
    String::from_utf8_lossy(bytes).into_owned()
}

} // verus!
