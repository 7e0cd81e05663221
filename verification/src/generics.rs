use vstd::prelude::*;
use std::cmp::Ordering;
use vstd::std_specs::cmp::PartialOrdSpec;

verus! {

/// The largest of the numbers.
pub fn max_elem_i32(l: &[i32]) -> (largest: i32)
    requires
        l@.len() > 0,
    ensures
        forall|i: int| 0 <= i < l@.len() ==> l@[i] <= largest,
        exists|i: int| 0 <= i < l@.len() && l@[i] == largest,
{
    let mut curr_max: i32 = l[0];
    let mut i: usize = 0;
    while i < l.len()
        invariant
            i <= l@.len(),
            l@.len() > 0,
            forall|j: int| 0 <= j < i ==> l@[j] <= curr_max,
            exists|j: int| 0 <= j < l@.len() && l@[j] == curr_max,
        decreases l@.len() - i,
    {
        if l[i] > curr_max {
            curr_max = l[i];
        }
        i = i + 1;
    }
    curr_max
}

/// The last of the characters in the order of their code points.
pub fn max_elem_char(l: &[char]) -> (largest: char)
    requires
        l@.len() > 0,
    ensures
        forall|i: int| 0 <= i < l@.len() ==> l@[i] <= largest,
        exists|i: int| 0 <= i < l@.len() && l@[i] == largest,
{
    let mut curr_max: char = l[0];
    let mut i: usize = 0;
    while i < l.len()
        invariant
            i <= l@.len(),
            l@.len() > 0,
            forall|j: int| 0 <= j < i ==> l@[j] <= curr_max,
            exists|j: int| 0 <= j < l@.len() && l@[j] == curr_max,
        decreases l@.len() - i,
    {
        if l[i] > curr_max {
            curr_max = l[i];
        }
        i = i + 1;
    }
    curr_max
}

/// Whether the type's comparisons are those that its order says.
pub open spec fn ordered<T: PartialOrd>() -> bool {
    T::obeys_partial_cmp_spec()
}

/// Whether `a` comes after `b` in the order of their type.
pub open spec fn exceeds<T: PartialOrd>(a: T, b: T) -> bool {
    a.partial_cmp_spec(&b) == Some(Ordering::Greater)
}

/// Whether `a` comes before `b` in the order of their type.
pub open spec fn precedes<T: PartialOrd>(a: T, b: T) -> bool {
    a.partial_cmp_spec(&b) == Some(Ordering::Less)
}

/// Where the largest of the first `n` items stands: an item takes the place
/// of the largest so far only if it comes after it in the order.
pub open spec fn index_of_max<T: PartialOrd>(l: Seq<T>, n: int) -> int
    decreases n,
{
    if n <= 1 {
        0
    } else if exceeds(l[n - 1], l[index_of_max(l, n - 1)]) {
        n - 1
    } else {
        index_of_max(l, n - 1)
    }
}

pub proof fn lemma_index_of_max_in_range<T: PartialOrd>(l: Seq<T>, n: int)
    requires
        0 < n <= l.len(),
    ensures
        0 <= index_of_max(l, n) < n,
    decreases n,
{
    if n > 1 {
        lemma_index_of_max_in_range(l, n - 1);
    }
}

/// The largest of the items, by the order of their type: the first of them,
/// unless a later one comes after every candidate before it.
pub fn max_elem<T: PartialOrd>(l: &[T]) -> (largest: &T)
    requires
        l@.len() > 0,
    ensures
        exists|i: int| 0 <= i < l@.len() && l@[i] == *largest,
        ordered::<T>() ==> *largest == l@[index_of_max(l@, l@.len() as int)],
{
    let mut curr_max: &T = &l[0];
    let mut best: Ghost<int> = Ghost(0);
    let mut i: usize = 0;
    while i < l.len()
        invariant
            i <= l@.len(),
            l@.len() > 0,
            0 <= best@ < l@.len(),
            *curr_max == l@[best@],
            ordered::<T>() ==> best@ == index_of_max(l@, i as int),
        decreases l@.len() - i,
    {
        proof {
            if i > 0 {
                lemma_index_of_max_in_range(l@, i as int);
            }
        }
        if l[i] > *curr_max {
            curr_max = &l[i];
            proof {
                best@ = i as int;
            }
        }
        i = i + 1;
    }
    curr_max
}

#[derive(Debug)]
pub struct Point<T> {
    pub x: T,
    pub y: T,
}

impl<T> Point<T> {
    pub fn x(&self) -> (x: &T)
        ensures
            *x == self.x,
    {
        &self.x
    }
}

#[derive(Debug)]
pub struct MixPoint<T, U> {
    pub x: T,
    pub y: U,
}

impl<T1, U1> MixPoint<T1, U1> {
    /// A point with this point's `x` and the other's `y`.
    pub fn mixup<T2, U2>(self, other: MixPoint<T2, U2>) -> (mixed: MixPoint<T1, U2>)
        ensures
            mixed.x == self.x,
            mixed.y == other.y,
    {
        MixPoint { x: self.x, y: other.y }
    }
}

impl<T1> Point<T1> {
    /// A point with this point's `x` and the other's `y`.
    pub fn mixup<T2>(self, other: Point<T2>) -> (mixed: MixPoint<T1, T2>)
        ensures
            mixed.x == self.x,
            mixed.y == other.y,
    {
        MixPoint { x: self.x, y: other.y }
    }
}

pub struct Pair<T> {
    pub first: T,
    pub second: T,
}

#[derive(Clone, Copy, Debug, PartialEq, Eq, Structural)]
pub enum PairElementComparisonResult {
    FirstGtSecond,
    SecondGtFirst,
    BothEqual,
}

impl<T> Pair<T> {
    pub fn new(first: T, second: T) -> (pair: Pair<T>)
        ensures
            pair.first == first,
            pair.second == second,
    {
        Self { first, second }
    }
}

impl<T: PartialOrd> Pair<T> {
    /// Which of the two comes after the other, if either does.
    pub fn cmp(&self) -> (result: PairElementComparisonResult)
        ensures
            ordered::<T>() ==> result == if exceeds(self.first, self.second) {
                PairElementComparisonResult::FirstGtSecond
            } else if precedes(self.first, self.second) {
                PairElementComparisonResult::SecondGtFirst
            } else {
                PairElementComparisonResult::BothEqual
            },
    {
        if self.first > self.second {
            PairElementComparisonResult::FirstGtSecond
        } else if self.first < self.second {
            PairElementComparisonResult::SecondGtFirst
        } else {
            PairElementComparisonResult::BothEqual
        }
    }
}

/// The longer of two texts, by their bytes; the second where neither is longer.
pub fn longest<'a>(x: &'a str, y: &'a str) -> (longer: &'a str)
    ensures
        longer == if x.len() > y.len() {
            x
        } else {
            y
        },
{
    if x.len() > y.len() {
        x
    } else {
        y
    }
}

/// How many characters stand before the first space of a text.
pub open spec fn first_space(s: Seq<char>) -> int
    decreases s.len(),
{
    if s.len() == 0 || s[0] == ' ' {
        0
    } else {
        1 + first_space(s.drop_first())
    }
}

/// The first space of a text is the first of its characters that is a space.
pub proof fn lemma_first_space(s: Seq<char>, i: int)
    requires
        0 <= i <= s.len(),
        forall|j: int| 0 <= j < i ==> s[j] != ' ',
        i < s.len() ==> s[i] == ' ',
    ensures
        first_space(s) == i,
    decreases s.len(),
{
    if i > 0 {
        let rest = s.drop_first();
        assert forall|j: int| 0 <= j < i - 1 implies rest[j] != ' ' by {
            assert(rest[j] == s[j + 1]);
        }
        lemma_first_space(rest, i - 1);
    }
}

/// What stands before the first space of a text: the whole text where it
/// has no space.
pub fn first_word(s: &str) -> (word: &str)
    ensures
        word@ == s@.subrange(0, first_space(s@)),
{
    let len: usize = s.unicode_len();
    let mut i: usize = 0;
    while i < len
        invariant
            i <= len,
            len == s@.len(),
            forall|j: int| 0 <= j < i ==> s@[j] != ' ',
        decreases len - i,
    {
        if s.get_char(i) == ' ' {
            proof {
                lemma_first_space(s@, i as int);
            }
            return s.substring_char(0, i);
        }
        i = i + 1;
    }
    proof {
        lemma_first_space(s@, len as int);
    }
    s.substring_char(0, len)
}

} // verus!
