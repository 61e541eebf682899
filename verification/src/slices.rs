//! Slices: the first word of a text is the prefix before the first space.

use vstd::prelude::*;
use vstd::string::StrSliceExecFns;

verus! {

/// The number of characters before the first space in `s` (all of them if
/// `s` has no space).
pub open spec fn word_end(s: Seq<char>) -> int
    decreases s.len(),
{
    if s.len() == 0 {
        0
    } else if s[0] == ' ' {
        0
    } else {
        1 + word_end(s.drop_first())
    }
}

/// The first word of `s`: everything before the first space.
pub open spec fn first_word_spec(s: Seq<char>) -> Seq<char> {
    s.subrange(0, word_end(s))
}

/// `word_end` is the position of the first space, or the length when there
/// is none.
pub proof fn lemma_word_end(s: Seq<char>)
    ensures
        0 <= word_end(s) <= s.len(),
        forall|k: int| 0 <= k < word_end(s) ==> s[k] != ' ',
        word_end(s) < s.len() ==> s[word_end(s)] == ' ',
    decreases s.len(),
{
    if s.len() == 0 {
    } else if s[0] == ' ' {
    } else {
        lemma_word_end(s.drop_first());
        assert forall|k: int| 0 <= k < word_end(s) implies s[k] != ' ' by {
            if k > 0 {
                assert(s.drop_first()[k - 1] == s[k]);
            }
        }
        if word_end(s) < s.len() {
            assert(s.drop_first()[word_end(s) - 1] == s[word_end(s)]);
        }
    }
}

/// Positions before the first space hold no space, and the first space is at
/// `word_end`; so any cut with the same shape is `word_end`.
proof fn lemma_word_end_unique(s: Seq<char>, i: int)
    requires
        0 <= i <= s.len(),
        forall|k: int| 0 <= k < i ==> s[k] != ' ',
        i < s.len() ==> s[i] == ' ',
    ensures
        i == word_end(s),
{
    lemma_word_end(s);
    if i < word_end(s) {
        assert(s[i] != ' ');
    }
    if word_end(s) < i {
        assert(s[word_end(s)] == ' ');
    }
}

/// The first word of `s`: the prefix that ends at the first space, or all of
/// `s` when it has no space.
pub fn first_word(s: &String) -> (r: &str)
    ensures
        r@ == first_word_spec(s@),
{
    first_word_slice_param(s.as_str())
}

/// The first word, taken from a string slice instead of an owned string.
pub fn first_word_slice_param(s: &str) -> (r: &str)
    ensures
        r@ == first_word_spec(s@),
{
    let n = s.unicode_len();
    let mut i: usize = 0;
    while i < n
        invariant
            n == s@.len(),
            i <= n,
            forall|k: int| 0 <= k < i ==> s@[k] != ' ',
        decreases n - i,
    {
        if s.get_char(i) == ' ' {
            proof {
                lemma_word_end_unique(s@, i as int);
            }
            return s.substring_char(0, i);
        }
        i += 1;
    }
    proof {
        lemma_word_end_unique(s@, n as int);
        assert(s@.subrange(0, n as int) =~= s@);
    }
    s.substring_char(0, n)
}

} // verus!
