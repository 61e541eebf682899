//! Traits: things that can summarize themselves, and a search for the
//! largest element of a slice of any ordered type.

use vstd::prelude::*;
use vstd::std_specs::cmp::PartialOrdSpec;
use vstd::string::StringExecFns;

verus! {

/// Anything that can describe itself in one line.
pub trait Summary {
    /// The one-line summary.
    fn summarize(&self) -> String;

    /// The summary shown when a type gives none of its own.
    fn summarize_default(&self) -> (r: String)
        default_ensures
            r@ == "(Read more...)"@,
    {
        String::from_str("(Read more...)")
    }
}

/// A news article.
pub struct NewsArticle {
    pub headline: String,
    pub location: String,
    pub author: String,
    pub content: String,
}

impl Summary for NewsArticle {
    /// `<headline>, by <author> (<location>)`.
    fn summarize(&self) -> (r: String)
        ensures
            r@ == self.headline@ + ", by "@ + self.author@ + " ("@ + self.location@ + ")"@,
    {
        let mut s = self.headline.clone();
        s.append(", by ");
        s.append(self.author.as_str());
        s.append(" (");
        s.append(self.location.as_str());
        s.append(")");
        s
    }
}

/// A short message and its flags.
pub struct Tweet {
    pub username: String,
    pub content: String,
    pub reply: bool,
    pub retweet: bool,
}

impl Summary for Tweet {
    /// `<username>: <content>`.
    fn summarize(&self) -> (r: String)
        ensures
            r@ == self.username@ + ": "@ + self.content@,
    {
        let mut s = self.username.clone();
        s.append(": ");
        s.append(self.content.as_str());
        s
    }
}

/// Some value that can summarize itself.
pub fn returns_summarizable() -> (r: Tweet)
    ensures
        r.username@ == "horse_ebooks"@,
        r.content@ == "of course, as you probably already know, people"@,
        !r.reply,
        !r.retweet,
{
    Tweet {
        username: String::from_str("horse_ebooks"),
        content: String::from_str("of course, as you probably already know, people"),
        reply: false,
        retweet: false,
    }
}

/// Whether `a` orders strictly above `b`.
pub open spec fn spec_gt<T: PartialOrdSpec>(a: T, b: T) -> bool {
    a.partial_cmp_spec(&b) == Some(core::cmp::Ordering::Greater)
}

/// The best element from position `i` on, starting from the best seen so
/// far: each later element replaces it exactly when it orders strictly
/// above it.
pub open spec fn largest_from<T: PartialOrdSpec>(s: Seq<T>, i: int, acc: T) -> T
    decreases s.len() - i,
{
    if i < 0 || i >= s.len() {
        acc
    } else {
        largest_from(
            s,
            i + 1,
            if spec_gt(s[i], acc) {
                s[i]
            } else {
                acc
            },
        )
    }
}

/// Scans the slice once, keeping whichever element orders strictly above the
/// best seen so far; for a total order this is the largest element.
pub fn largest<T: PartialOrd + Copy>(list: &[T]) -> (r: T)
    requires
        list@.len() > 0,
        T::obeys_partial_cmp_spec(),
    ensures
        r == largest_from(list@, 0, list@[0]),
{
    let mut largest = list[0];
    let mut i: usize = 0;
    while i < list.len()
        invariant
            list@.len() > 0,
            T::obeys_partial_cmp_spec(),
            i <= list@.len(),
            largest_from(list@, 0, list@[0]) == largest_from(list@, i as int, largest),
        decreases list@.len() - i,
    {
        let item = list[i];
        if item > largest {
            largest = item;
        }
        i += 1;
    }
    largest
}

} // verus!
