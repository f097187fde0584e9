//! Small helpers for working with owned strings and lists of them.

use vstd::prelude::*;
use vstd::string::*;
use vstd::utf8::encode_utf8;

verus! {

/// The characters of each string of `list`, in order.
pub open spec fn texts(list: Seq<String>) -> Seq<Seq<char>> {
    Seq::new(list.len(), |i: int| list[i]@)
}

/// The characters of an optional string.
pub open spec fn option_text(s: Option<String>) -> Option<Seq<char>> {
    match s {
        Some(t) => Some(t@),
        None => None,
    }
}

/// Appending one string to a list appends its characters to the list's texts.
proof fn lemma_texts_push(list: Seq<String>, s: String)
    ensures
        texts(list.push(s)) == texts(list).push(s@),
{
    assert(texts(list.push(s)) =~= texts(list).push(s@));
}

/// Whether `s` holds exactly the characters of `literal`.
pub(crate) fn text_is(s: &String, literal: &str) -> (same: bool)
    ensures
        same == (s@ == literal@),
{
    let other = String::from_str(literal);
    *s == other
}

/// Appends a copy of `s` to `list`.
pub(crate) fn push_text(list: &mut Vec<String>, s: &str)
    ensures
        texts(final(list)@) == texts(old(list)@).push(s@),
        final(list)@.len() == old(list)@.len() + 1,
{
    let owned = String::from_str(s);
    proof {
        lemma_texts_push(list@, owned);
    }
    list.push(owned);
}

/// The text that lossy UTF-8 decoding makes of `bytes`: every ill-formed part
/// of the input replaced by U+FFFD, everything else decoded as it stands.
pub uninterp spec fn utf8_lossy(bytes: Seq<u8>) -> Seq<char>;

/// Decodes `bytes` as UTF-8, replacing what is ill-formed.
///
/// Trusted: calls `String::from_utf8_lossy`. The contract names the result
/// and claims one thing of it: bytes that are the UTF-8 encoding of a text
/// decode to that text.
#[verifier::external_body]
pub(crate) fn decode_lossy(bytes: &[u8]) -> (decoded: String)
    ensures
        decoded@ == utf8_lossy(bytes@),
        forall|t: Seq<char>| #[trigger] encode_utf8(t) == bytes@ ==> decoded@ == t,
{
    String::from_utf8_lossy(bytes).into_owned()
}

} // verus!
