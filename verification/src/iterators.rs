//! Hand-rolled iteration: walking a vector one element at a time, summing
//! and mapping it, filtering shoes by size, and a counter that yields the
//! numbers one to five.

use vstd::prelude::*;
use vstd::string::StringExecFns;
use crate::text::lemma_filter_push;

verus! {

/// A three-element vector holding one, two, three.
fn one_two_three() -> (v: Vec<i32>)
    ensures
        v@ =~= seq![1i32, 2i32, 3i32],
{
    let mut v: Vec<i32> = Vec::new();
    v.push(1);
    v.push(2);
    v.push(3);
    v
}

/// Reads the elements of a three-element vector one at a time and checks each
/// against the value it was built from.
pub fn iterator_next() {
    let v = one_two_three();
    let mut pos: usize = 0;
    let first = v[pos];
    pos += 1;
    assert(first == 1);
    let second = v[pos];
    pos += 1;
    assert(second == 2);
    let third = v[pos];
    pos += 1;
    assert(third == 3);
    assert(pos == v@.len());
}

/// Sums a three-element vector and checks the total.
pub fn iterator_sum() {
    let v = one_two_three();
    let mut total: i32 = 0;
    let mut i: usize = 0;
    while i < v.len()
        invariant
            v@ =~= seq![1i32, 2i32, 3i32],
            i <= 3,
            total == if i == 0 {
                0int
            } else if i == 1 {
                1int
            } else if i == 2 {
                3int
            } else {
                6int
            },
        decreases v@.len() - i,
    {
        total = total + v[i];
        i += 1;
    }
    assert(total == 6);
}

/// Adds one to each element of a vector and checks the result.
pub fn produce_other_iterator() {
    let v1 = one_two_three();
    let mut v2: Vec<i32> = Vec::new();
    let mut i: usize = 0;
    while i < v1.len()
        invariant
            v1@ =~= seq![1i32, 2i32, 3i32],
            i <= 3,
            v2@ =~= v1@.subrange(0, i as int).map_values(|x: i32| (x + 1) as i32),
        decreases v1@.len() - i,
    {
        proof {
            assert(v1@.subrange(0, i + 1) =~= v1@.subrange(0, i as int).push(v1@[i as int]));
        }
        v2.push(v1[i] + 1);
        i += 1;
    }
    proof {
        assert(v1@.subrange(0, 3) =~= v1@);
    }
    assert(v2@ =~= seq![2i32, 3i32, 4i32]);
}

/// A shoe: its size and its style.
#[derive(Debug, PartialEq)]
pub struct Shoe {
    pub size: u32,
    pub style: String,
}

/// The test that keeps the shoes of size `size`.
pub open spec fn size_pred(size: u32) -> spec_fn(Shoe) -> bool {
    |s: Shoe| s.size == size
}

/// The shoes of exactly size `shoe_size`, in their original order.
pub fn shoes_in_my_size(shoes: Vec<Shoe>, shoe_size: u32) -> (r: Vec<Shoe>)
    ensures
        r@ == shoes@.filter(size_pred(shoe_size)),
{
    let ghost orig = shoes@;
    let mut shoes = shoes;
    let mut r: Vec<Shoe> = Vec::new();
    proof {
        assert(orig.subrange(0, 0) =~= Seq::<Shoe>::empty());
        assert(r@ =~= orig.subrange(0, 0).filter(size_pred(shoe_size)));
    }
    while shoes.len() > 0
        invariant
            shoes@.len() <= orig.len(),
            shoes@ =~= orig.subrange(orig.len() - shoes@.len(), orig.len() as int),
            r@ == orig.subrange(0, orig.len() - shoes@.len()).filter(size_pred(shoe_size)),
        decreases shoes@.len(),
    {
        let ghost done = orig.len() - shoes@.len();
        let s = shoes.remove(0);
        proof {
            assert(s == orig[done]);
            assert(shoes@ =~= orig.subrange(orig.len() - shoes@.len(), orig.len() as int));
            assert(orig.subrange(0, done + 1) =~= orig.subrange(0, done).push(s));
            lemma_filter_push(orig.subrange(0, done), s, size_pred(shoe_size));
            assert(size_pred(shoe_size)(s) == (s.size == shoe_size));
        }
        if s.size == shoe_size {
            r.push(s);
        }
    }
    proof {
        assert(orig.subrange(0, orig.len() as int) =~= orig);
    }
    r
}

/// Builds three shoes, keeps those of size ten, and checks that exactly the
/// sneaker and the boot remain, in that order.
pub fn test_filters_by_size() {
    let mut shoes: Vec<Shoe> = Vec::new();
    shoes.push(Shoe { size: 10, style: String::from_str("sneaker") });
    shoes.push(Shoe { size: 13, style: String::from_str("sandal") });
    shoes.push(Shoe { size: 10, style: String::from_str("boot") });
    let ghost s0 = shoes@[0];
    let ghost s1 = shoes@[1];
    let ghost s2 = shoes@[2];
    let ghost all = shoes@;
    let in_my_size = shoes_in_my_size(shoes, 10);
    proof {
        reveal_with_fuel(Seq::filter, 5);
        assert(all =~= seq![s0, s1, s2]);
        assert(seq![s0, s1, s2].drop_last() =~= seq![s0, s1]);
        assert(seq![s0, s1].drop_last() =~= seq![s0]);
        assert(seq![s0].drop_last() =~= Seq::<Shoe>::empty());
        assert(in_my_size@ =~= seq![s0, s2]);
    }
    assert(in_my_size@.len() == 2);
    assert(in_my_size@[0].size == 10 && in_my_size@[0].style@ == "sneaker"@);
    assert(in_my_size@[1].size == 10 && in_my_size@[1].style@ == "boot"@);
}

/// Counts from one to five, then stops.
pub struct Counter {
    count: u32,
}

impl Counter {
    /// How many values this counter has yielded so far.
    pub closed spec fn spec_count(&self) -> u32 {
        self.count
    }

    /// A fresh counter that has yielded nothing yet.
    pub fn new() -> (r: Counter)
        ensures
            r.spec_count() == 0,
    {
        Counter { count: 0 }
    }

    /// The next value: the numbers one to five in turn, then nothing.
    pub fn next(&mut self) -> (r: Option<u32>)
        ensures
            old(self).spec_count() < 5 ==> r == Some((old(self).spec_count() + 1) as u32)
                && final(self).spec_count() == old(self).spec_count() + 1,
            old(self).spec_count() >= 5 ==> r is None && final(self).spec_count() == old(
                self,
            ).spec_count(),
    {
        if self.count < 5 {
            self.count += 1;
            Some(self.count)
        } else {
            None
        }
    }
}

/// Draws from a counter six times and checks that it yields one to five and
/// then nothing.
pub fn calling_next_counter() {
    let mut counter = Counter::new();
    let a = counter.next();
    assert(a == Some(1u32));
    let b = counter.next();
    assert(b == Some(2u32));
    let c = counter.next();
    assert(c == Some(3u32));
    let d = counter.next();
    assert(d == Some(4u32));
    let e = counter.next();
    assert(e == Some(5u32));
    let f = counter.next();
    assert(f is None);
}

/// Pairs one counter with another that skipped its first value, multiplies
/// each pair, keeps the products divisible by three, and sums them: the
/// pairs are one with two up to four with five, and the total is eighteen.
pub fn using_other_iterator_trait_methods() -> (sum: u32)
    ensures
        sum == 18,
{
    let mut c1 = Counter::new();
    let mut c2 = Counter::new();
    let skipped = c2.next();
    assert(skipped == Some(1u32));
    let mut sum: u32 = 0;
    let p1 = c1.next().unwrap() * c2.next().unwrap();
    if p1 % 3 == 0 {
        sum = sum + p1;
    }
    let p2 = c1.next().unwrap() * c2.next().unwrap();
    if p2 % 3 == 0 {
        sum = sum + p2;
    }
    let p3 = c1.next().unwrap() * c2.next().unwrap();
    if p3 % 3 == 0 {
        sum = sum + p3;
    }
    let p4 = c1.next().unwrap() * c2.next().unwrap();
    if p4 % 3 == 0 {
        sum = sum + p4;
    }
    let last = c1.next();
    assert(last == Some(5u32));
    let stopped = c2.next();
    assert(stopped is None);
    assert(sum == 18);
    sum
}

} // verus!
