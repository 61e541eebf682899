//! Verified text primitives shared by the line-search modules: substring
//! containment, splitting text into lines the way `str::lines` does, and a
//! trusted lowercase conversion.

use vstd::prelude::*;
use vstd::string::StrSliceExecFns;

verus! {

/// The length of a piece of text in bytes, once encoded as UTF-8.
pub open spec fn byte_len(s: Seq<char>) -> nat {
    vstd::utf8::encode_utf8(s).len()
}

/// `needle` occurs in `hay` starting at position `i`.
pub open spec fn matches_at(hay: Seq<char>, needle: Seq<char>, i: int) -> bool {
    0 <= i && i + needle.len() <= hay.len() && hay.subrange(i, i + needle.len() as int)
        == needle
}

/// `needle` occurs somewhere in `hay`; the empty needle occurs in everything.
pub open spec fn contains_seq(hay: Seq<char>, needle: Seq<char>) -> bool {
    exists|i: int| matches_at(hay, needle, i)
}

/// Collects the characters of `s` into a vector.
pub fn chars_vec(s: &str) -> (r: Vec<char>)
    ensures
        r@ == s@,
{
    let n = s.unicode_len();
    let mut r: Vec<char> = Vec::new();
    let mut i: usize = 0;
    while i < n
        invariant
            n == s@.len(),
            i <= n,
            r@ == s@.subrange(0, i as int),
        decreases n - i,
    {
        let c = s.get_char(i);
        r.push(c);
        proof {
            assert(s@.subrange(0, i as int).push(s@[i as int]) =~= s@.subrange(
                0,
                i as int + 1,
            ));
        }
        i += 1;
    }
    proof {
        assert(r@ =~= s@);
    }
    r
}

/// Tests whether `needle` occurs in `hay` at exactly position `i`.
fn matches_at_exec(hay: &Vec<char>, needle: &Vec<char>, i: usize) -> (r: bool)
    requires
        i + needle@.len() <= hay@.len(),
    ensures
        r == matches_at(hay@, needle@, i as int),
{
    let hlen = hay.len();
    let mut j: usize = 0;
    while j < needle.len()
        invariant
            hlen == hay@.len(),
            i + needle@.len() <= hay@.len(),
            j <= needle@.len(),
            forall|k: int| 0 <= k < j ==> hay@[i + k] == needle@[k],
        decreases needle@.len() - j,
    {
        if hay[i + j] != needle[j] {
            proof {
                if matches_at(hay@, needle@, i as int) {
                    assert(hay@.subrange(i as int, i + needle@.len() as int)[j as int]
                        == needle@[j as int]);
                }
            }
            return false;
        }
        j += 1;
    }
    proof {
        assert(hay@.subrange(i as int, i + needle@.len() as int) =~= needle@);
    }
    true
}

/// Containment restricted to a range of `hay` equals containment in the
/// corresponding subrange.
proof fn lemma_matches_at_shift(hay: Seq<char>, needle: Seq<char>, start: int, end: int, i: int)
    requires
        0 <= start <= end <= hay.len(),
        0 <= i,
        i + needle.len() <= end - start,
    ensures
        matches_at(hay.subrange(start, end), needle, i) == matches_at(hay, needle, start + i),
{
    let sub = hay.subrange(start, end);
    assert(sub.subrange(i, i + needle.len() as int) =~= hay.subrange(
        start + i,
        start + i + needle.len() as int,
    ));
}

/// Tests whether `needle` occurs in `hay[start..end]`.
pub fn range_contains(hay: &Vec<char>, start: usize, end: usize, needle: &Vec<char>) -> (r:
    bool)
    requires
        start <= end <= hay@.len(),
    ensures
        r == contains_seq(hay@.subrange(start as int, end as int), needle@),
{
    let ghost sub = hay@.subrange(start as int, end as int);
    let nlen = needle.len();
    let wid = end - start;
    if nlen > wid {
        proof {
            assert(forall|i: int| !matches_at(sub, needle@, i));
        }
        return false;
    }
    if nlen == 0 {
        proof {
            assert(sub.subrange(0, 0) =~= needle@);
            assert(matches_at(sub, needle@, 0));
        }
        return true;
    }
    let mut i: usize = 0;
    while i <= wid - nlen
        invariant
            start <= end <= hay@.len(),
            1 <= nlen,
            nlen == needle@.len(),
            wid == end - start,
            nlen <= wid,
            i <= wid - nlen + 1,
            sub == hay@.subrange(start as int, end as int),
            forall|k: int| 0 <= k < i ==> !matches_at(sub, needle@, k),
        decreases wid - nlen - i + 1,
    {
        let hit = matches_at_exec(hay, needle, start + i);
        proof {
            lemma_matches_at_shift(hay@, needle@, start as int, end as int, i as int);
        }
        if hit {
            return true;
        }
        i += 1;
    }
    proof {
        assert forall|k: int| !matches_at(sub, needle@, k) by {
            if 0 <= k < i {
            } else {
                assert(!(0 <= k && k + needle@.len() <= sub.len()));
            }
        }
    }
    false
}

/// Tests whether `needle` occurs anywhere in `hay`.
pub fn vec_contains(hay: &Vec<char>, needle: &Vec<char>) -> (r: bool)
    ensures
        r == contains_seq(hay@, needle@),
{
    let r = range_contains(hay, 0, hay.len(), needle);
    proof {
        assert(hay@.subrange(0, hay@.len() as int) =~= hay@);
    }
    r
}

/// Tests whether `needle` occurs anywhere in `hay`.
pub fn contains_substr(hay: &str, needle: &str) -> (r: bool)
    ensures
        r == contains_seq(hay@, needle@),
{
    let h = chars_vec(hay);
    let n = chars_vec(needle);
    vec_contains(&h, &n)
}

/// A line with its single trailing carriage return removed, if it has one.
pub open spec fn strip_cr(l: Seq<char>) -> Seq<char> {
    if l.len() > 0 && l.last() == '\r' {
        l.drop_last()
    } else {
        l
    }
}

/// The lines of `rest` when the characters of `cur` have already been read
/// from the current line: each newline ends a line (whose trailing carriage
/// return is dropped), and a non-empty final segment is a line of its own.
pub open spec fn lines_from(rest: Seq<char>, cur: Seq<char>) -> Seq<Seq<char>>
    decreases rest.len(),
{
    if rest.len() == 0 {
        if cur.len() == 0 {
            Seq::empty()
        } else {
            seq![cur]
        }
    } else if rest[0] == '\n' {
        seq![strip_cr(cur)] + lines_from(rest.drop_first(), Seq::empty())
    } else {
        lines_from(rest.drop_first(), cur.push(rest[0]))
    }
}

/// The lines of `s`, as `str::lines` yields them: terminated by a newline or
/// by the end of the text, with a carriage return before a newline removed.
pub open spec fn lines_of(s: Seq<char>) -> Seq<Seq<char>> {
    lines_from(s, Seq::empty())
}

/// The test a case-sensitive search applies to each line.
pub open spec fn match_pred(q: Seq<char>) -> spec_fn(Seq<char>) -> bool {
    |l: Seq<char>| contains_seq(l, q)
}

/// The test a case-insensitive search applies to each line.
pub open spec fn match_ci_pred(q: Seq<char>) -> spec_fn(Seq<char>) -> bool {
    |l: Seq<char>| contains_seq(lower_of(l), lower_of(q))
}

/// The lines among `lines` that contain `q`.
pub open spec fn matching(lines: Seq<Seq<char>>, q: Seq<char>) -> Seq<Seq<char>> {
    lines.filter(match_pred(q))
}

/// The lines among `lines` whose lowercase form contains the lowercase form
/// of `q`.
pub open spec fn matching_ci(lines: Seq<Seq<char>>, q: Seq<char>) -> Seq<Seq<char>> {
    lines.filter(match_ci_pred(q))
}

/// Filtering a one-element sequence keeps or drops that element.
pub proof fn lemma_filter_one<A>(x: A, pred: spec_fn(A) -> bool)
    ensures
        seq![x].filter(pred) == if pred(x) {
            seq![x]
        } else {
            Seq::<A>::empty()
        },
{
    reveal_with_fuel(Seq::filter, 3);
    let s = seq![x];
    assert(s.drop_last() =~= Seq::<A>::empty());
    assert(Seq::<A>::empty().filter(pred) =~= Seq::<A>::empty());
    if pred(x) {
        assert(s.filter(pred) =~= seq![x]);
    } else {
        assert(s.filter(pred) =~= Seq::<A>::empty());
    }
}

/// Filtering after a push appends the new element exactly when it satisfies
/// the predicate.
pub proof fn lemma_filter_push<A>(s: Seq<A>, x: A, pred: spec_fn(A) -> bool)
    ensures
        s.push(x).filter(pred) == if pred(x) {
            s.filter(pred).push(x)
        } else {
            s.filter(pred)
        },
{
    assert(s.push(x) =~= s + seq![x]);
    Seq::filter_distributes_over_add(s, seq![x], pred);
    lemma_filter_one(x, pred);
    if pred(x) {
        assert(s.filter(pred) + seq![x] =~= s.filter(pred).push(x));
    } else {
        assert(s.filter(pred) + Seq::<A>::empty() =~= s.filter(pred));
    }
}

/// Splits `contents` into its lines, as `str::lines` yields them.
pub fn split_lines<'a>(contents: &'a str) -> (r: Vec<&'a str>)
    ensures
        r.deep_view() == lines_of(contents@),
{
    let cs = chars_vec(contents);
    let n = cs.len();
    let mut r: Vec<&'a str> = Vec::new();
    let mut i: usize = 0;
    let mut start: usize = 0;
    proof {
        assert(cs@.subrange(0, n as int) =~= cs@);
        assert(cs@.subrange(0, 0) =~= Seq::<char>::empty());
        assert(r.deep_view() =~= Seq::<Seq<char>>::empty());
        assert(Seq::<Seq<char>>::empty() + lines_from(cs@, Seq::empty()) =~= lines_from(
            cs@,
            Seq::empty(),
        ));
    }
    while i < n
        invariant
            cs@ == contents@,
            n == cs@.len(),
            start <= i <= n,
            lines_of(contents@) == r.deep_view() + lines_from(
                cs@.subrange(i as int, n as int),
                cs@.subrange(start as int, i as int),
            ),
        decreases n - i,
    {
        let ghost rest = cs@.subrange(i as int, n as int);
        let ghost cur = cs@.subrange(start as int, i as int);
        let c = cs[i];
        if c == '\n' {
            let end = if i > start && cs[i - 1] == '\r' {
                i - 1
            } else {
                i
            };
            proof {
                if i > start && cs@[i - 1] == '\r' {
                    assert(cur.last() == cs@[i - 1]);
                    assert(strip_cr(cur) =~= cs@.subrange(start as int, i - 1));
                } else {
                    assert(strip_cr(cur) == cur);
                }
                assert(rest[0] == '\n');
                assert(rest.drop_first() =~= cs@.subrange(i + 1, n as int));
                assert(lines_from(rest, cur) == seq![strip_cr(cur)] + lines_from(
                    cs@.subrange(i + 1, n as int),
                    Seq::empty(),
                ));
            }
            let line = contents.substring_char(start, end);
            let ghost before = r.deep_view();
            r.push(line);
            proof {
                assert(r.deep_view() =~= before.push(strip_cr(cur)));
                assert(before + (seq![strip_cr(cur)] + lines_from(
                    cs@.subrange(i + 1, n as int),
                    Seq::empty(),
                )) =~= r.deep_view() + lines_from(cs@.subrange(i + 1, n as int), Seq::empty()));
                assert(cs@.subrange(i + 1, i + 1) =~= Seq::<char>::empty());
            }
            start = i + 1;
        } else {
            proof {
                assert(rest[0] == c);
                assert(cur.push(c) =~= cs@.subrange(start as int, i + 1));
                assert(rest.drop_first() =~= cs@.subrange(i + 1, n as int));
                assert(lines_from(rest, cur) == lines_from(
                    cs@.subrange(i + 1, n as int),
                    cs@.subrange(start as int, i + 1),
                ));
            }
        }
        i += 1;
    }
    let ghost cur = cs@.subrange(start as int, n as int);
    proof {
        assert(cs@.subrange(n as int, n as int) =~= Seq::<char>::empty());
    }
    if start < n {
        let line = contents.substring_char(start, n);
        let ghost before = r.deep_view();
        r.push(line);
        proof {
            assert(lines_from(Seq::empty(), cur) == seq![cur]);
            assert(r.deep_view() =~= before.push(cur));
            assert(before + seq![cur] =~= r.deep_view());
        }
    } else {
        proof {
            assert(cur =~= Seq::<char>::empty());
            assert(lines_from(Seq::empty(), Seq::empty()) == Seq::<Seq<char>>::empty());
            assert(r.deep_view() + Seq::<Seq<char>>::empty() =~= r.deep_view());
        }
    }
    r
}

/// The characters `str::split_whitespace` splits on: the Unicode
/// white-space characters.
pub open spec fn is_space(c: char) -> bool {
    c == ' ' || c == '\t' || c == '\n' || c == '\u{0B}' || c == '\u{0C}' || c == '\r'
        || c == '\u{85}' || c == '\u{A0}' || c == '\u{1680}' || c == '\u{2000}'
        || c == '\u{2001}' || c == '\u{2002}' || c == '\u{2003}' || c == '\u{2004}'
        || c == '\u{2005}' || c == '\u{2006}' || c == '\u{2007}' || c == '\u{2008}'
        || c == '\u{2009}' || c == '\u{200A}' || c == '\u{2028}' || c == '\u{2029}'
        || c == '\u{202F}' || c == '\u{205F}' || c == '\u{3000}'
}

/// Whether `c` is one of the white-space characters words are split on.
pub fn is_space_char(c: char) -> (r: bool)
    ensures
        r == is_space(c),
{
    c == ' ' || c == '\t' || c == '\n' || c == '\u{0B}' || c == '\u{0C}' || c == '\r'
        || c == '\u{85}' || c == '\u{A0}' || c == '\u{1680}' || c == '\u{2000}'
        || c == '\u{2001}' || c == '\u{2002}' || c == '\u{2003}' || c == '\u{2004}'
        || c == '\u{2005}' || c == '\u{2006}' || c == '\u{2007}' || c == '\u{2008}'
        || c == '\u{2009}' || c == '\u{200A}' || c == '\u{2028}' || c == '\u{2029}'
        || c == '\u{202F}' || c == '\u{205F}' || c == '\u{3000}'
}

/// The words of `rest` when the characters of `cur` have already been read
/// from the current word: white space ends a word, and empty words are
/// dropped.
pub open spec fn words_from(rest: Seq<char>, cur: Seq<char>) -> Seq<Seq<char>>
    decreases rest.len(),
{
    if rest.len() == 0 {
        if cur.len() == 0 {
            Seq::empty()
        } else {
            seq![cur]
        }
    } else if is_space(rest[0]) {
        if cur.len() == 0 {
            words_from(rest.drop_first(), Seq::empty())
        } else {
            seq![cur] + words_from(rest.drop_first(), Seq::empty())
        }
    } else {
        words_from(rest.drop_first(), cur.push(rest[0]))
    }
}

/// The words of `s`, as `str::split_whitespace` yields them: the maximal
/// runs of non-white-space characters, in order.
pub open spec fn words_of(s: Seq<char>) -> Seq<Seq<char>> {
    words_from(s, Seq::empty())
}

/// Splits `s` into its words, as `str::split_whitespace` yields them.
pub fn split_words<'a>(s: &'a str) -> (r: Vec<&'a str>)
    ensures
        r.deep_view() == words_of(s@),
{
    let cs = chars_vec(s);
    let n = cs.len();
    let mut r: Vec<&'a str> = Vec::new();
    let mut i: usize = 0;
    let mut start: usize = 0;
    proof {
        assert(cs@.subrange(0, n as int) =~= cs@);
        assert(cs@.subrange(0, 0) =~= Seq::<char>::empty());
        assert(r.deep_view() =~= Seq::<Seq<char>>::empty());
        assert(Seq::<Seq<char>>::empty() + words_from(cs@, Seq::empty()) =~= words_from(
            cs@,
            Seq::empty(),
        ));
    }
    while i < n
        invariant
            cs@ == s@,
            n == cs@.len(),
            start <= i <= n,
            words_of(s@) == r.deep_view() + words_from(
                cs@.subrange(i as int, n as int),
                cs@.subrange(start as int, i as int),
            ),
        decreases n - i,
    {
        let ghost rest = cs@.subrange(i as int, n as int);
        let ghost cur = cs@.subrange(start as int, i as int);
        let c = cs[i];
        proof {
            assert(rest[0] == c);
            assert(rest.drop_first() =~= cs@.subrange(i + 1, n as int));
            assert(cs@.subrange(i + 1, i + 1) =~= Seq::<char>::empty());
        }
        if is_space_char(c) {
            if start < i {
                let word = s.substring_char(start, i);
                let ghost before = r.deep_view();
                r.push(word);
                proof {
                    assert(r.deep_view() =~= before.push(cur));
                    assert(before + (seq![cur] + words_from(rest.drop_first(), Seq::empty()))
                        =~= r.deep_view() + words_from(rest.drop_first(), Seq::empty()));
                }
            } else {
                proof {
                    assert(cur =~= Seq::<char>::empty());
                }
            }
            start = i + 1;
        } else {
            proof {
                assert(cur.push(c) =~= cs@.subrange(start as int, i + 1));
            }
        }
        i += 1;
    }
    let ghost cur = cs@.subrange(start as int, n as int);
    proof {
        assert(cs@.subrange(n as int, n as int) =~= Seq::<char>::empty());
    }
    if start < n {
        let word = s.substring_char(start, n);
        let ghost before = r.deep_view();
        r.push(word);
        proof {
            assert(words_from(Seq::empty(), cur) == seq![cur]);
            assert(r.deep_view() =~= before.push(cur));
            assert(before + seq![cur] =~= r.deep_view());
        }
    } else {
        proof {
            assert(cur =~= Seq::<char>::empty());
            assert(words_from(Seq::empty(), Seq::empty()) == Seq::<Seq<char>>::empty());
            assert(r.deep_view() + Seq::<Seq<char>>::empty() =~= r.deep_view());
        }
    }
    r
}

/// The result of lowercasing a piece of text, as `str::to_lowercase` maps it.
pub uninterp spec fn lower_of(s: Seq<char>) -> Seq<char>;

/// Relies on str::to_lowercase: the lowercase form of a string depends on its
/// characters alone.
#[verifier::external_body]
pub(crate) fn to_lowercase(s: &str) -> (r: String)
    ensures
        r@ == lower_of(s@),
{
    s.to_lowercase()
}

} // verus!
