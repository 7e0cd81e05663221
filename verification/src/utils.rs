use vstd::prelude::*;

verus! {

/// The pairs of a pair of lists: the first items of both, the second items
/// of both, and so on, for as long as both lists have an item.
pub fn zip<'a, A, B>(t: (&'a [A], &'a [B])) -> (pairs: Vec<(&'a A, &'a B)>)
    ensures
        pairs@.len() == if t.0@.len() <= t.1@.len() {
            t.0@.len()
        } else {
            t.1@.len()
        },
        forall|i: int|
            0 <= i < pairs@.len() ==> *(#[trigger] pairs@[i]).0 == t.0@[i] && *pairs@[i].1 == t.1@[i],
{
    let left = t.0;
    let right = t.1;
    let len: usize = if left.len() <= right.len() {
        left.len()
    } else {
        right.len()
    };
    let mut pairs: Vec<(&'a A, &'a B)> = Vec::new();
    let mut i: usize = 0;
    while i < len
        invariant
            i <= len,
            len <= left@.len(),
            len <= right@.len(),
            pairs@.len() == i,
            forall|j: int|
                0 <= j < i ==> *(#[trigger] pairs@[j]).0 == left@[j] && *pairs@[j].1 == right@[j],
        decreases len - i,
    {
        pairs.push((&left[i], &right[i]));
        i = i + 1;
    }
    pairs
}

} // verus!
