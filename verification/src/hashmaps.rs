//! Keyed collections: moving owned strings into a hash map, and counting
//! the words of a text, each word mapped to how often it occurs.

use std::collections::HashMap;
use vstd::prelude::*;
use vstd::string::StringExecFns;

verus! {

/// Moving a key and a value into a hash map passes their ownership to it.
pub fn hashmap_ownership() {
    let field_name = String::from_str("Favorite color");
    let field_value = String::from_str("Blue");
    let mut map: HashMap<String, String> = HashMap::new();
    map.insert(field_name, field_value);
    let _ = map;
}

/// How often the word `w` occurs among `ws`.
pub open spec fn occurrences(ws: Seq<Seq<char>>, w: Seq<char>) -> nat
    decreases ws.len(),
{
    if ws.len() == 0 {
        0
    } else {
        occurrences(ws.drop_last(), w) + if ws.last() == w {
            1nat
        } else {
            0nat
        }
    }
}

/// Counts how often each word occurs: the result pairs every distinct word
/// of `words` with its number of occurrences, each word exactly once.
pub fn word_count(words: &Vec<String>) -> (r: Vec<(String, usize)>)
    ensures
        forall|p: int, q: int|
            0 <= p < q < r@.len() ==> r@[p].0@ != r@[q].0@,
        forall|p: int|
            0 <= p < r@.len() ==> r@[p].1 == occurrences(words.deep_view(), r@[p].0@),
        forall|p: int| 0 <= p < r@.len() ==> occurrences(words.deep_view(), r@[p].0@) > 0,
        forall|k: int|
            0 <= k < words@.len() ==> exists|p: int|
                0 <= p < r@.len() && r@[p].0@ == #[trigger] words.deep_view()[k],
{
    let ghost ws = words.deep_view();
    let mut r: Vec<(String, usize)> = Vec::new();
    let mut i: usize = 0;
    proof {
        assert(ws.subrange(0, 0) =~= Seq::<Seq<char>>::empty());
    }
    while i < words.len()
        invariant
            ws == words.deep_view(),
            ws.len() == words@.len(),
            i <= words@.len(),
            forall|p: int, q: int| 0 <= p < q < r@.len() ==> r@[p].0@ != r@[q].0@,
            forall|p: int|
                0 <= p < r@.len() ==> r@[p].1 == occurrences(ws.subrange(0, i as int), r@[p].0@),
            forall|p: int|
                0 <= p < r@.len() ==> occurrences(ws.subrange(0, i as int), r@[p].0@) > 0,
            forall|k: int|
                0 <= k < i ==> exists|p: int| 0 <= p < r@.len() && r@[p].0@ == #[trigger] ws[k],
            forall|p: int| 0 <= p < r@.len() ==> r@[p].1 <= i,
        decreases words@.len() - i,
    {
        let w = words[i].clone();
        proof {
            assert(w@ == ws[i as int]);
            assert(ws.subrange(0, i + 1).drop_last() =~= ws.subrange(0, i as int));
            assert(ws.subrange(0, i + 1).last() == ws[i as int]);
        }
        if let Some(j) = find_key(&r, &w) {
            let ghost old_r = r@;
            let entry = r.remove(j);
            let key = entry.0;
            let count = entry.1;
            r.insert(j, (key, count + 1));
            proof {
                assert(r@ =~= old_r.update(j as int, (old_r[j as int].0, (old_r[j as int].1
                    + 1) as usize)));
                assert forall|p: int| 0 <= p < r@.len() implies r@[p].1 == occurrences(
                    ws.subrange(0, i + 1),
                    r@[p].0@,
                ) by {
                    if p == j {
                        assert(r@[p].0@ == w@);
                    } else {
                        assert(r@[p].0@ != w@);
                    }
                }
                assert forall|k: int| 0 <= k < i + 1 implies exists|p: int|
                    0 <= p < r@.len() && r@[p].0@ == #[trigger] ws[k] by {
                    if k == i {
                        assert(r@[j as int].0@ == w@);
                    } else {
                        let p0 = choose|p: int| 0 <= p < old_r.len() && old_r[p].0@ == ws[k];
                        assert(r@[p0].0@ == old_r[p0].0@);
                    }
                }
            }
        } else {
            let ghost old_r = r@;
            r.push((w, 1));
            proof {
                assert(r@ =~= old_r.push((r@[old_r.len() as int].0, 1usize)));
                // the new word was not counted before: no entry held it, and
                // every earlier word has an entry
                if occurrences(ws.subrange(0, i as int), w@) > 0 {
                    lemma_occurrences_member(ws.subrange(0, i as int), w@);
                    let k = choose|k: int|
                        0 <= k < ws.subrange(0, i as int).len() && ws.subrange(0, i as int)[k]
                            == w@;
                    assert(ws[k] == w@);
                    assert(exists|p: int| 0 <= p < old_r.len() && old_r[p].0@ == w@);
                }
                assert forall|p: int| 0 <= p < r@.len() implies r@[p].1 == occurrences(
                    ws.subrange(0, i + 1),
                    r@[p].0@,
                ) by {
                    if p < old_r.len() {
                        assert(r@[p].0@ != w@);
                    }
                }
                assert forall|k: int| 0 <= k < i + 1 implies exists|p: int|
                    0 <= p < r@.len() && r@[p].0@ == #[trigger] ws[k] by {
                    if k == i {
                        assert(r@[old_r.len() as int].0@ == w@);
                    } else {
                        let p0 = choose|p: int| 0 <= p < old_r.len() && old_r[p].0@ == ws[k];
                        assert(r@[p0].0@ == old_r[p0].0@);
                    }
                }
            }
        }
        i += 1;
    }
    proof {
        assert(ws.subrange(0, ws.len() as int) =~= ws);
    }
    r
}

/// The position of the entry whose key is `w`, if there is one.
fn find_key(r: &Vec<(String, usize)>, w: &String) -> (res: Option<usize>)
    ensures
        res matches Some(j) ==> 0 <= j < r@.len() && r@[j as int].0@ == w@,
        res is None ==> forall|jj: int| 0 <= jj < r@.len() ==> r@[jj].0@ != w@,
{
    let mut j: usize = 0;
    while j < r.len()
        invariant
            j <= r@.len(),
            forall|jj: int| 0 <= jj < j ==> r@[jj].0@ != w@,
        decreases r@.len() - j,
    {
        if r[j].0 == *w {
            return Some(j);
        }
        j += 1;
    }
    None
}

/// A word that occurs among `ws` stands at some position of `ws`.
proof fn lemma_occurrences_member(ws: Seq<Seq<char>>, w: Seq<char>)
    requires
        occurrences(ws, w) > 0,
    ensures
        exists|k: int| 0 <= k < ws.len() && ws[k] == w,
    decreases ws.len(),
{
    if ws.len() > 0 {
        if ws.last() == w {
            assert(ws[ws.len() - 1] == w);
        } else {
            lemma_occurrences_member(ws.drop_last(), w);
            let k = choose|k: int| 0 <= k < ws.drop_last().len() && ws.drop_last()[k] == w;
            assert(ws[k] == w);
        }
    }
}

} // verus!
