//! Texts as sequences of characters, and the string operations of the standard
//! library that lookup leans on: lowering, replacing a character, and finding
//! one text in another.

use vstd::prelude::*;

verus! {

/// The lower-case form of a text, as `str::to_lowercase` gives it.
///
/// Unicode case mapping fills tables, so the mapping is named here and not
/// written out. Nothing is assumed of it but that it is a function of the text.
pub uninterp spec fn lowercase_of(text: Seq<char>) -> Seq<char>;

/// The text with every `from` turned into `to`.
pub open spec fn swapped(text: Seq<char>, from: char, to: char) -> Seq<char> {
    Seq::new(
        text.len(),
        |i: int|
            if text[i] == from {
                to
            } else {
                text[i]
            },
    )
}

/// Whether `needle` stands in `hay` from position `at` on.
pub open spec fn occurs_at(needle: Seq<char>, hay: Seq<char>, at: int) -> bool {
    &&& 0 <= at
    &&& at + needle.len() <= hay.len()
    &&& hay.subrange(at, at + needle.len()) == needle
}

/// Whether `needle` stands somewhere in `hay` as one unbroken run.
pub open spec fn is_infix(needle: Seq<char>, hay: Seq<char>) -> bool {
    exists|at: int| occurs_at(needle, hay, at)
}

/// Whether `text` begins with `prefix`.
pub open spec fn has_prefix(text: Seq<char>, prefix: Seq<char>) -> bool {
    occurs_at(prefix, text, 0)
}

/// Calls `str::to_lowercase`. Trusted: the result is the lower-case form of the
/// argument, which `lowercase_of` names.
#[verifier::external_body]
pub(crate) fn lowercase(text: &str) -> (lowered: String)
    ensures
        lowered@ == lowercase_of(text@),
{
    text.to_lowercase()
}

/// Calls `str::replace` with a character as the pattern. Trusted: every `from`
/// of the text is replaced by the one character of `to`, and nothing else
/// changes.
#[verifier::external_body]
pub(crate) fn replace_char(text: &str, from: char, to: &str) -> (replaced: String)
    requires
        to@.len() == 1,
    ensures
        replaced@ == swapped(text@, from, to@[0]),
{
    text.replace(from, to)
}

/// Calls `str::contains` with a string as the pattern. Trusted: the answer is
/// whether `needle` stands in `hay` as one unbroken run of characters.
#[verifier::external_body]
pub(crate) fn contains(hay: &str, needle: &str) -> (found: bool)
    ensures
        found == is_infix(needle@, hay@),
{
    hay.contains(needle)
}

/// A text that holds `token` holds none of the characters that it lacks: if
/// `token` stands in `hay` and `hay` has no `absent`, neither has `token`.
pub proof fn infix_lacks_what_hay_lacks(token: Seq<char>, hay: Seq<char>, absent: char)
    requires
        is_infix(token, hay),
        !hay.contains(absent),
    ensures
        !token.contains(absent),
{
    let at = choose|at: int| occurs_at(token, hay, at);
    if token.contains(absent) {
        let i = choose|i: int| 0 <= i < token.len() && token[i] == absent;
        assert(hay.subrange(at, at + token.len())[i] == hay[at + i]);
        assert(hay.contains(absent));
    }
}

/// Swapping a character away leaves a text without it, and leaves a text that
/// never had it as it was.
pub proof fn swapped_has_no_from(text: Seq<char>, from: char, to: char)
    requires
        from != to,
    ensures
        !swapped(text, from, to).contains(from),
        !text.contains(from) ==> swapped(text, from, to) == text,
{
    let result = swapped(text, from, to);
    if result.contains(from) {
        let i = choose|i: int| 0 <= i < result.len() && result[i] == from;
        assert(result[i] != from);
    }
    if !text.contains(from) {
        assert forall|i: int| 0 <= i < text.len() implies result[i] == text[i] by {
            if text[i] == from {
                assert(text.contains(from));
            }
        }
        assert(result =~= text);
    }
}

/// Every text stands in itself.
pub proof fn infix_of_itself(text: Seq<char>)
    ensures
        is_infix(text, text),
{
    assert(text.subrange(0, text.len() as int) =~= text);
    assert(occurs_at(text, text, 0));
}

} // verus!
