use vstd::prelude::*;
use vstd::utf8::encode_utf8;

verus! {

/// The text, and how many bytes it has.
pub fn compute_length(s: String) -> (out: (String, usize))
    ensures
        out.0 == s,
        out.1 == encode_utf8(s@).len() as usize,
{
    let length = s.as_str().len();
    (s, length)
}

/// How many bytes the text has.
pub fn borrow_string(s: &String) -> (length: usize)
    ensures
        length == encode_utf8(s@).len() as usize,
{
    s.as_str().len()
}

pub fn borrow_and_modify_string(s: &mut String)
    ensures
        final(s)@ == old(s)@ + " you and hello everybody!!"@,
{
    s.append(" you and hello everybody!!");
}

/// How many spaces stand among the first `upto` characters of a text.
pub open spec fn space_count(s: Seq<char>, upto: int) -> int
    decreases upto,
{
    if upto <= 0 {
        0
    } else {
        space_count(s, upto - 1) + if s[upto - 1] == ' ' {
            1int
        } else {
            0int
        }
    }
}

/// Where the word that ends before position `end` starts: after the last
/// space before `end`, or at the start of the text.
pub open spec fn word_start(s: Seq<char>, end: int) -> int
    decreases end,
{
    if end <= 0 {
        0
    } else if s[end - 1] == ' ' {
        end
    } else {
        word_start(s, end - 1)
    }
}

/// Whether the space that ends word `n` stands at position `end`: words are
/// counted from zero, and each ends with a space.
pub open spec fn ends_word(s: Seq<char>, n: int, end: int) -> bool {
    0 <= end < s.len() && s[end] == ' ' && space_count(s, end) == n
}

/// Word `n` of a text, counted from zero, where a word is what stands before
/// a space. A text with too few spaces is given back whole.
pub fn find_nth_word(s: &String, n: u32) -> (word: &str)
    ensures
        (exists|end: int| ends_word(s@, n as int, end) && word@ == s@.subrange(word_start(s@, end), end))
            || ((forall|end: int| !ends_word(s@, n as int, end)) && word@ == s@),
{
    let text: &str = s.as_str();
    let len: usize = text.unicode_len();
    let mut first: usize = 0;
    let mut count: u32 = 0;
    let mut idx: usize = 0;
    while idx < len
        invariant
            idx <= len,
            len == s@.len(),
            text@ == s@,
            first <= idx,
            first == word_start(s@, idx as int),
            count == space_count(s@, idx as int),
            count <= n,
            forall|end: int| 0 <= end < idx ==> !ends_word(s@, n as int, end),
        decreases len - idx,
    {
        if text.get_char(idx) == ' ' {
            if count == n {
                assert(ends_word(s@, n as int, idx as int));
                return text.substring_char(first, idx);
            }
            count = count + 1;
            first = idx + 1;
        }
        idx = idx + 1;
    }
    assert(text@.subrange(0, len as int) =~= s@);
    text.substring_char(0, len)
}

} // verus!
