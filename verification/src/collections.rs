use vstd::prelude::*;
use crate::text::string_of;
use std::collections::HashMap;
use vstd::std_specs::iter::IteratorSpec;

verus! {

broadcast use vstd::std_specs::hash::group_hash_axioms;

/// The letters that follow a number when it counts a place: always "th"
/// below a hundred, and from there on by the last digit.
pub fn get_ordinal_suffix(n: usize) -> (suffix: &'static str)
    ensures
        suffix@ == if n / 10 <= 9 {
            "th"@
        } else if n % 10 == 1 {
            "st"@
        } else if n % 10 == 2 {
            "nd"@
        } else if n % 10 == 3 {
            "rd"@
        } else {
            "th"@
        },
{
    if n / 10 <= 9 {
        "th"
    } else {
        match n % 10 {
            1 => "st",
            2 => "nd",
            3 => "rd",
            _ => "th",
        }
    }
}

/// No number is smaller than one before it.
pub open spec fn ascending(s: Seq<i32>) -> bool {
    forall|i: int, j: int| 0 <= i <= j < s.len() ==> s[i] <= s[j]
}

/// `slice::sort` on numbers: the same numbers, as often as before, in
/// ascending order.
#[verifier::external_body]
fn sort_numbers(v: &mut Vec<i32>)
    ensures
        final(v)@.len() == old(v)@.len(),
        final(v)@.to_multiset() == old(v)@.to_multiset(),
        ascending(final(v)@),
{
    v.sort();
}

/// The number in the middle when the numbers stand in ascending order; of an
/// even count, the upper of the two in the middle.
pub fn vec_med(v: &Vec<i32>) -> (median: i32)
    requires
        v@.len() > 0,
    ensures
        exists|sorted: Seq<i32>|
            #![trigger ascending(sorted)]
            {
                &&& ascending(sorted)
                &&& sorted.len() == v@.len()
                &&& sorted.to_multiset() == v@.to_multiset()
                &&& median == sorted[sorted.len() as int / 2]
            },
{
    let mut v_clone = v.clone();
    assert(v_clone@ =~= v@);
    sort_numbers(&mut v_clone);
    let median = v_clone[v_clone.len() / 2];
    assert(ascending(v_clone@));
    median
}

/// How often each number occurs among the numbers.
pub open spec fn occurrences(v: Seq<i32>) -> Map<i32, i32>
    decreases v.len(),
{
    if v.len() == 0 {
        Map::empty()
    } else {
        let before = occurrences(v.drop_last());
        let x = v.last();
        if before.contains_key(x) {
            before.insert(x, (before[x] + 1) as i32)
        } else {
            before.insert(x, 1)
        }
    }
}

/// What the scan for the mode leaves when it goes through pairs of a number
/// and its count in the given order. It starts from zero, and a pair whose
/// count is above what it holds leaves the pair's number.
pub open spec fn mode_of(entries: Seq<(i32, i32)>) -> i32
    decreases entries.len(),
{
    if entries.len() == 0 {
        0
    } else if entries.last().1 > mode_of(entries.drop_last()) {
        entries.last().0
    } else {
        mode_of(entries.drop_last())
    }
}

/// The scan for the mode over pairs of a number and its count.
pub fn mode_of_entries(entries: &Vec<(i32, i32)>) -> (best: i32)
    ensures
        best == mode_of(entries@),
{
    let mut best: i32 = 0;
    let mut i: usize = 0;
    while i < entries.len()
        invariant
            i <= entries.len(),
            best == mode_of(entries@.take(i as int)),
        decreases entries.len() - i,
    {
        assert(entries@.take(i + 1).drop_last() =~= entries@.take(i as int));
        let (x, num_occ) = entries[i];
        if num_occ > best {
            best = x;
        }
        i = i + 1;
    }
    assert(entries@.take(i as int) =~= entries@);
    best
}

/// The pairs are those of the map, each once, in some order.
pub open spec fn walks(entries: Seq<(i32, i32)>, counts: Map<i32, i32>) -> bool {
    &&& entries.no_duplicates()
    &&& entries.to_set() == counts.kv_pairs()
}

/// How often each number occurs.
pub fn count_occurrences(v: &Vec<i32>) -> (counts: HashMap<i32, i32>)
    requires
        v@.len() <= i32::MAX,
    ensures
        counts@ == occurrences(v@),
{
    let mut mode_map: HashMap<i32, i32> = HashMap::new();
    let mut i: usize = 0;
    while i < v.len()
        invariant
            i <= v@.len(),
            v@.len() <= i32::MAX,
            mode_map@ == occurrences(v@.take(i as int)),
            forall|k: i32| mode_map@.contains_key(k) ==> 0 < #[trigger] mode_map@[k] <= i,
        decreases v@.len() - i,
    {
        assert(v@.take(i + 1).drop_last() =~= v@.take(i as int));
        let x: i32 = v[i];
        let seen: i32 = match mode_map.get(&x) {
            Some(n) => *n,
            None => 0,
        };
        mode_map.insert(x, seen + 1);
        i = i + 1;
    }
    assert(v@.take(i as int) =~= v@);
    mode_map
}

/// The scan for the mode over the numbers and their counts, in whatever
/// order the map of the counts is walked.
pub fn vec_mode(v: &Vec<i32>) -> (mode: i32)
    requires
        v@.len() <= i32::MAX,
    ensures
        exists|entries: Seq<(i32, i32)>|
            #![trigger walks(entries, occurrences(v@))]
            walks(entries, occurrences(v@)) && mode == mode_of(entries),
{
    let mode_map = count_occurrences(v);
    let mut entries: Vec<(i32, i32)> = Vec::new();
    for pair in it: mode_map.iter()
        invariant
            entries@.len() == it.index(),
            forall|k: int|
                0 <= k < entries@.len() ==> #[trigger] entries@[k] == (
                    *it.seq()[k].0,
                    *it.seq()[k].1,
                ),
    {
        entries.push((*pair.0, *pair.1));
    }
    let mode = mode_of_entries(&entries);
    assert(walks(entries@, occurrences(v@))) by {
        let seen = mode_map.iter().remaining();
        assert(entries@ =~= seen.unref());
    }
    mode
}

/// What `str::split_whitespace` yields for a text, each piece as its
/// characters: the parts of the text that white space separates.
pub uninterp spec fn whitespace_words(s: Seq<char>) -> Seq<Seq<char>>;

/// `str::split_whitespace`, each piece collected as its characters. No piece
/// is empty.
#[verifier::external_body]
fn words_of(s: &str) -> (words: Vec<Vec<char>>)
    ensures
        words.deep_view() == whitespace_words(s@),
        forall|i: int| 0 <= i < words@.len() ==> (#[trigger] words@[i])@.len() > 0,
{
    s.split_whitespace().map(|word| word.chars().collect()).collect()
}

/// A word with its first letter moved to the end, after a hyphen and before
/// "ay" and a space.
pub open spec fn pig_word(word: Seq<char>) -> Seq<char> {
    word.drop_first() + seq!['-', word[0], 'a', 'y', ' ']
}

/// The words, each turned and followed by a space, one after the other.
pub open spec fn pig_text(words: Seq<Seq<char>>) -> Seq<char>
    decreases words.len(),
{
    if words.len() == 0 {
        Seq::empty()
    } else {
        pig_text(words.drop_last()) + pig_word(words.last())
    }
}

/// The words in pig latin, each followed by a space.
pub fn pig_words(words: &Vec<Vec<char>>) -> (result: String)
    requires
        forall|k: int| 0 <= k < words@.len() ==> (#[trigger] words@[k])@.len() > 0,
    ensures
        result@ == pig_text(words.deep_view()),
{
    let mut letters: Vec<char> = Vec::new();
    let mut i: usize = 0;
    while i < words.len()
        invariant
            i <= words@.len(),
            forall|k: int| 0 <= k < words@.len() ==> (#[trigger] words@[k])@.len() > 0,
            letters@ == pig_text(words.deep_view().take(i as int)),
        decreases words@.len() - i,
    {
        let word: &Vec<char> = &words[i];
        let ghost before = letters@;
        assert(words.deep_view().take(i + 1).drop_last() =~= words.deep_view().take(i as int));
        assert(words.deep_view().take(i + 1).last() == word@);
        let mut j: usize = 1;
        while j < word.len()
            invariant
                1 <= j <= word@.len(),
                letters@ == before + word@.subrange(1, j as int),
            decreases word@.len() - j,
        {
            letters.push(word[j]);
            j = j + 1;
        }
        letters.push('-');
        letters.push(word[0]);
        letters.push('a');
        letters.push('y');
        letters.push(' ');
        assert(letters@ =~= before + pig_word(word@));
        i = i + 1;
    }
    assert(words.deep_view().take(i as int) =~= words.deep_view());
    string_of(&letters)
}

/// The words of the text in pig latin, each followed by a space. The words
/// are what white space separates.
pub fn pig_latin(s: &str) -> (result: String)
    ensures
        result@ == pig_text(whitespace_words(s@)),
{
    let words = words_of(s);
    pig_words(&words)
}

} // verus!
