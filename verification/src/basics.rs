use vstd::prelude::*;

verus! {

/// The length of a text of five spaces.
pub fn shadow2() -> (spaces: usize)
    ensures
        spaces == 5,
{
    let spaces = "     ";
    proof {
        reveal_strlit("     ");
    }
    let spaces = spaces.unicode_len();
    spaces
}

/// The number that a text spells, as `str::parse` reads it; none where the
/// text spells no number of this type.
pub uninterp spec fn parsed_i32(text: Seq<char>) -> Option<i32>;

/// `str::parse` for `i32`.
#[verifier::external_body]
fn parse_i32(x: &str) -> (number: Option<i32>)
    ensures
        number == parsed_i32(x@),
{
    x.parse().ok()
}

/// The number that the text spells.
pub fn parse_ex(x: &str) -> (number: i32)
    requires
        parsed_i32(x@) is Some,
    ensures
        Some(number) == parsed_i32(x@),
{
    match parse_i32(x) {
        Some(number) => number,
        None => 0,
    }
}

/// The number that the text spells, if it spells one.
pub fn parse_if_number(x: &str) -> (number: Option<i32>)
    ensures
        number == parsed_i32(x@),
{
    match parse_i32(x) {
        Some(_) => Some(parse_ex(x)),
        None => None,
    }
}

pub fn add(x: i32, y: i32) -> (sum: i32)
    requires
        i32::MIN <= x + y <= i32::MAX,
    ensures
        sum == x + y,
{
    x + y
}

pub fn plus_one(x: i32) -> (next: i32)
    requires
        x < i32::MAX,
    ensures
        next == x + 1,
{
    x + 1
}

} // verus!
