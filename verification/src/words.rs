//! Word counting: a word is a maximal run of non-whitespace characters.

use vstd::prelude::*;
use vstd::std_specs::iter::IteratorSpec;

verus! {

/// Whether `c` is a whitespace character: exactly the code points with
/// the Unicode `White_Space` property.
pub open spec fn is_space(c: char) -> bool {
    let u = c as u32;
    u == 0x09 || u == 0x0A || u == 0x0B || u == 0x0C || u == 0x0D || u == 0x20 || u == 0x85
        || u == 0xA0 || u == 0x1680 || (0x2000 <= u && u <= 0x200A) || u == 0x2028 || u == 0x2029
        || u == 0x202F || u == 0x205F || u == 0x3000
}

/// Decides [`is_space`].
pub fn is_space_char(c: char) -> (r: bool)
    ensures
        r == is_space(c),
{
    let u = c as u32;
    u == 0x09 || u == 0x0A || u == 0x0B || u == 0x0C || u == 0x0D || u == 0x20 || u == 0x85
        || u == 0xA0 || u == 0x1680 || (0x2000 <= u && u <= 0x200A) || u == 0x2028 || u == 0x2029
        || u == 0x202F || u == 0x205F || u == 0x3000
}

/// The number of words that start at position `i` or later, given whether
/// position `i` sits inside a word that began earlier.
pub open spec fn word_count_from(s: Seq<char>, i: int, in_word: bool) -> nat
    decreases s.len() - i when 0 <= i <= s.len()
{
    if i >= s.len() {
        0
    } else if is_space(s[i]) {
        word_count_from(s, i + 1, false)
    } else if in_word {
        word_count_from(s, i + 1, true)
    } else {
        1 + word_count_from(s, i + 1, true)
    }
}

/// The number of maximal runs of non-whitespace characters in `s`.
pub open spec fn word_count(s: Seq<char>) -> nat {
    word_count_from(s, 0, false)
}

/// A line consisting solely of whitespace contains no word.
pub proof fn lemma_all_space_no_words(s: Seq<char>)
    requires
        forall|i: int| 0 <= i < s.len() ==> is_space(#[trigger] s[i]),
    ensures
        word_count(s) == 0,
{
    lemma_all_space_no_words_from(s, 0);
}

proof fn lemma_all_space_no_words_from(s: Seq<char>, i: int)
    requires
        0 <= i <= s.len(),
        forall|j: int| 0 <= j < s.len() ==> is_space(#[trigger] s[j]),
    ensures
        word_count_from(s, i, false) == 0,
    decreases s.len() - i,
{
    if i < s.len() {
        lemma_all_space_no_words_from(s, i + 1);
    }
}

/// Counts the words of one line, walking its characters once.
pub fn line_words(line: &str) -> (n: usize)
    ensures
        n as nat == word_count(line@),
{
    let ghost s = line@;
    let len = line.unicode_len();
    let mut it = line.chars();
    let mut n: usize = 0;
    let mut in_word = false;
    let ghost mut i: int = 0;
    proof {
        assert(s.skip(0) =~= s);
    }
    loop
        invariant
            0 <= i <= s.len(),
            s.len() == len,
            it.remaining() =~= s.skip(i),
            n + word_count_from(s, i, in_word) == word_count(s),
            n <= i,
        ensures
            n as nat == word_count(s),
        decreases s.len() - i,
    {
        match it.next() {
            Some(c) => {
                proof {
                    assert(s.skip(i)[0] == s[i]);
                    assert(s.skip(i).drop_first() =~= s.skip(i + 1));
                }
                if is_space_char(c) {
                    in_word = false;
                } else if !in_word {
                    n = n + 1;
                    in_word = true;
                }
                proof {
                    i = i + 1;
                }
            },
            None => {
                break;
            },
        }
    }
    n
}

} // verus!
