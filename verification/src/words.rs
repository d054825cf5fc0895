//! Lines and their words: a line splits at white space into words, and words
//! join into a line with a space between them.

use vstd::prelude::*;
use crate::text::{is_space, is_whitespace};

verus! {

/// The length of the longest prefix of `s` that holds no white space.
pub open spec fn word_len(s: Seq<char>) -> nat
    decreases s.len(),
{
    if s.len() == 0 || is_space(s[0]) {
        0
    } else {
        1 + word_len(s.drop_first())
    }
}

/// The words of `s`: its longest runs of characters that are not white space,
/// from left to right.
pub open spec fn split_words(s: Seq<char>) -> Seq<Seq<char>>
    decreases s.len(),
    via split_words_ends
{
    if s.len() == 0 {
        Seq::empty()
    } else if is_space(s[0]) {
        split_words(s.drop_first())
    } else {
        seq![s.take(word_len(s) as int)] + split_words(s.skip(word_len(s) as int))
    }
}

/// The first word has a character, so what follows it is shorter than the text.
#[via_fn]
proof fn split_words_ends(s: Seq<char>) {
    if s.len() > 0 && !is_space(s[0]) {
        lemma_word_len_bounds(s);
    }
}

/// What each of `words` spells.
pub open spec fn spellings(words: Seq<&str>) -> Seq<Seq<char>> {
    Seq::new(words.len(), |i: int| words[i]@)
}

/// A run of `n` characters without white space that ends the text, or that a
/// white-space character follows, is the first word's whole length.
pub proof fn lemma_word_len_of_run(s: Seq<char>, n: int)
    requires
        0 <= n <= s.len(),
        forall|k: int| 0 <= k < n ==> !is_space(#[trigger] s[k]),
        n == s.len() || is_space(s[n]),
    ensures
        word_len(s) == n,
    decreases n,
{
    if n > 0 {
        let rest = s.drop_first();
        assert forall|k: int| 0 <= k < n - 1 implies !is_space(#[trigger] rest[k]) by {
            assert(rest[k] == s[k + 1]);
        }
        lemma_word_len_of_run(rest, n - 1);
    }
}

/// A word has at least one character and none of them is white space.
pub proof fn lemma_words_hold_no_space(s: Seq<char>, i: int)
    requires
        0 <= i < split_words(s).len(),
    ensures
        split_words(s)[i].len() > 0,
        forall|k: int| 0 <= k < split_words(s)[i].len() ==> !is_space(#[trigger] split_words(s)[i][k]),
    decreases s.len(),
{
    if is_space(s[0]) {
        lemma_words_hold_no_space(s.drop_first(), i);
    } else {
        let n = word_len(s) as int;
        lemma_word_len_bounds(s);
        if i == 0 {
            assert(split_words(s)[0] == s.take(n));
        } else {
            assert(split_words(s)[i] == split_words(s.skip(n))[i - 1]);
            lemma_words_hold_no_space(s.skip(n), i - 1);
        }
    }
}

/// The first word's length is within the text, covers no white space, and
/// stops at the text's end or at white space; it is positive where the text
/// starts with a character that is not white space.
pub proof fn lemma_word_len_bounds(s: Seq<char>)
    ensures
        word_len(s) <= s.len(),
        forall|k: int| 0 <= k < word_len(s) ==> !is_space(#[trigger] s[k]),
        word_len(s) == s.len() || is_space(s[word_len(s) as int]),
        s.len() > 0 && !is_space(s[0]) ==> word_len(s) > 0,
    decreases s.len(),
{
    if s.len() > 0 && !is_space(s[0]) {
        let rest = s.drop_first();
        lemma_word_len_bounds(rest);
        assert forall|k: int| 0 <= k < word_len(s) implies !is_space(#[trigger] s[k]) by {
            if k > 0 {
                assert(s[k] == rest[k - 1]);
            }
        }
        if word_len(s) != s.len() {
            assert(s[word_len(s) as int] == rest[word_len(rest) as int]);
        }
    }
}

/// The words written out in a line, with one space between neighbours.
pub open spec fn join_words(words: Seq<Seq<char>>) -> Seq<char>
    decreases words.len(),
{
    if words.len() == 0 {
        Seq::empty()
    } else if words.len() == 1 {
        words[0]
    } else {
        words[0] + seq![' '] + join_words(words.drop_first())
    }
}

/// Splitting undoes joining: words that each hold a character and no white
/// space, written out with a space between them, split into those same words.
pub proof fn lemma_split_undoes_join(words: Seq<Seq<char>>)
    requires
        forall|i: int| 0 <= i < words.len() ==> (#[trigger] words[i]).len() > 0,
        forall|i: int, k: int|
            0 <= i < words.len() && 0 <= k < words[i].len() ==> !is_space(#[trigger] words[i][k]),
    ensures
        split_words(join_words(words)) == words,
    decreases words.len(),
{
    let line = join_words(words);
    if words.len() == 0 {
        assert(split_words(line) =~= words);
    } else {
        let first = words[0];
        let n = first.len() as int;
        assert(first.len() > 0);
        assert forall|k: int| 0 <= k < n implies !is_space(#[trigger] line[k]) by {
            assert(line[k] == first[k]);
            assert(!is_space(words[0][k]));
        }
        if words.len() == 1 {
            lemma_word_len_of_run(line, n);
            assert(line.take(n) =~= first);
            assert(line.skip(n).len() == 0);
            assert(!is_space(line[0]));
            assert(split_words(line) == seq![first] + split_words(line.skip(n)));
            assert(split_words(line) =~= words);
        } else {
            let rest = words.drop_first();
            assert(line[n] == ' ');
            lemma_word_len_of_run(line, n);
            assert(line.take(n) =~= first);
            let tail = line.skip(n);
            assert(tail[0] == ' ');
            assert(tail.drop_first() =~= join_words(rest));
            assert forall|i: int| 0 <= i < rest.len() implies (#[trigger] rest[i]).len() > 0 by {
                assert(rest[i] == words[i + 1]);
            }
            assert forall|i: int, k: int|
                0 <= i < rest.len() && 0 <= k < rest[i].len() implies !is_space(
                #[trigger] rest[i][k],
            ) by {
                assert(rest[i] == words[i + 1]);
                assert(!is_space(words[i + 1][k]));
            }
            lemma_split_undoes_join(rest);
            assert(!is_space(line[0]));
            assert(split_words(tail) == split_words(tail.drop_first()));
            assert(split_words(line) == seq![first] + split_words(tail));
            assert(split_words(line) =~= words);
        }
    }
}

/// The characters of `s`, one by one.
pub fn chars_of(s: &str) -> (chars: Vec<char>)
    ensures
        chars@ == s@,
{
    let mut chars: Vec<char> = Vec::new();
    for c in it: s.chars()
        invariant
            it.seq() == s@,
            chars@ == s@.take(it.index()),
    {
        chars.push(c);
    }
    chars
}

/// Splits a line at white space into its words, from left to right. White
/// space before, between and after the words is dropped; a line of white
/// space alone has no words.
pub fn words_of<'a>(line: &'a str) -> (words: Vec<&'a str>)
    ensures
        spellings(words@) == split_words(line@),
{
    let chars = chars_of(line);
    let n = chars.len();
    let mut words: Vec<&'a str> = Vec::new();
    let mut i: usize = 0;
    assert(line@.skip(0) =~= line@);
    assert(spellings(words@) + split_words(line@) =~= split_words(line@));
    while i < n
        invariant
            i <= n,
            n == line@.len(),
            chars@ == line@,
            split_words(line@) == spellings(words@) + split_words(line@.skip(i as int)),
        decreases n - i,
    {
        let ghost rest = line@.skip(i as int);
        assert(rest[0] == chars@[i as int]);
        if is_whitespace(chars[i]) {
            assert(rest.drop_first() =~= line@.skip(i as int + 1));
            i = i + 1;
        } else {
            let mut j: usize = i + 1;
            while j < n && !is_whitespace(chars[j])
                invariant
                    i < j <= n,
                    n == chars@.len(),
                    forall|k: int| i <= k < j ==> !is_space(#[trigger] chars@[k]),
                decreases n - j,
            {
                j = j + 1;
            }
            let word = line.substring_char(i, j);
            proof {
                assert forall|k: int| 0 <= k < j - i implies !is_space(#[trigger] rest[k]) by {
                    assert(rest[k] == chars@[i + k]);
                }
                if j < n {
                    assert(rest[j - i] == chars@[j as int]);
                }
                lemma_word_len_of_run(rest, j - i);
                assert(rest.take(j - i) =~= line@.subrange(i as int, j as int));
                assert(rest.skip(j - i) =~= line@.skip(j as int));
                assert(spellings(words@.push(word)) =~= spellings(words@) + seq![word@]);
                assert(spellings(words@) + (seq![word@] + split_words(line@.skip(j as int)))
                    =~= spellings(words@) + seq![word@] + split_words(line@.skip(j as int)));
            }
            words.push(word);
            i = j;
        }
    }
    assert(line@.skip(n as int).len() == 0);
    assert(spellings(words@) + Seq::<Seq<char>>::empty() =~= spellings(words@));
    words
}

} // verus!
