//! Characters: which of them separate words, when two words are the same up
//! to ASCII case, and how a word is quoted in a message.

use vstd::prelude::*;

verus! {

/// Whether `c` separates words: the characters with the Unicode property
/// `White_Space`.
pub open spec fn is_space(c: char) -> bool {
    ||| '\u{9}' <= c <= '\u{d}'
    ||| c == ' '
    ||| c == '\u{85}'
    ||| c == '\u{a0}'
    ||| c == '\u{1680}'
    ||| '\u{2000}' <= c <= '\u{200a}'
    ||| c == '\u{2028}'
    ||| c == '\u{2029}'
    ||| c == '\u{202f}'
    ||| c == '\u{205f}'
    ||| c == '\u{3000}'
}

/// Tells whether `c` separates words.
pub fn is_whitespace(c: char) -> (space: bool)
    ensures
        space == is_space(c),
{
    ('\u{9}' <= c && c <= '\u{d}') || c == ' ' || c == '\u{85}' || c == '\u{a0}' || c == '\u{1680}'
        || ('\u{2000}' <= c && c <= '\u{200a}') || c == '\u{2028}' || c == '\u{2029}'
        || c == '\u{202f}' || c == '\u{205f}' || c == '\u{3000}'
}

/// Whether `text` ends with a line break.
pub open spec fn ends_with_break(text: Seq<char>) -> bool {
    text.len() > 0 && text.last() == '\n'
}

/// `c` with the ASCII capitals `A` to `Z` replaced by `a` to `z`.
pub open spec fn lower(c: char) -> char {
    if 'A' <= c <= 'Z' {
        ((c as u32) + 32) as char
    } else {
        c
    }
}

/// Whether `a` and `b` are the same word up to ASCII case: they have the same
/// length, and at each position the same character once capitals are lowered.
pub open spec fn same_word(a: Seq<char>, b: Seq<char>) -> bool {
    &&& a.len() == b.len()
    &&& forall|i: int| 0 <= i < a.len() ==> lower(#[trigger] a[i]) == lower(b[i])
}

/// Compares two words as the keys `unicase::UniCase::ascii(a)` and
/// `unicase::UniCase::ascii(b)` compare. Both keys hold the ASCII encoding, so
/// the comparison is `str::eq_ignore_ascii_case`: equal lengths, and the same
/// characters once the ASCII capitals are lowered. This contract is believed,
/// not proved.
#[verifier::external_body]
pub(crate) fn eq_ignoring_case(a: &str, b: &str) -> (same: bool)
    ensures
        same == same_word(a@, b@),
{
    unicase::UniCase::ascii(a) == unicase::UniCase::ascii(b)
}

/// The text that `{:?}` writes for the string `s`: `s` between double quotes,
/// with the characters that the standard library escapes written as escapes.
pub uninterp spec fn debug_text(s: Seq<char>) -> Seq<char>;

/// Formats `s` with the standard library's `Debug` for `str`. The result is a
/// function of the characters of `s` alone; this contract gives it its name
/// and claims nothing else of it.
#[verifier::external_body]
pub(crate) fn debug_string(s: &str) -> (quoted: String)
    ensures
        quoted@ == debug_text(s@),
{
    format!("{:?}", s)
}

/// Being the same word up to case is reflexive, symmetric and transitive.
pub proof fn lemma_same_word_is_equivalence(a: Seq<char>, b: Seq<char>, c: Seq<char>)
    ensures
        same_word(a, a),
        same_word(a, b) ==> same_word(b, a),
        same_word(a, b) && same_word(b, c) ==> same_word(a, c),
{
    if same_word(a, b) {
        assert forall|i: int| 0 <= i < b.len() implies lower(#[trigger] b[i]) == lower(a[i]) by {
            assert(lower(a[i]) == lower(b[i]));
        }
        if same_word(b, c) {
            assert forall|i: int| 0 <= i < a.len() implies lower(#[trigger] a[i]) == lower(c[i]) by {
                assert(lower(b[i]) == lower(c[i]));
            }
        }
    }
}

} // verus!
