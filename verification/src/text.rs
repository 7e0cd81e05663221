use vstd::prelude::*;

verus! {

/// `String::from_iter` over characters: the text that the characters spell.
#[verifier::external_body]
pub(crate) fn string_of(chars: &Vec<char>) -> (text: String)
    ensures
        text@ == chars@,
{
    chars.iter().collect()
}

/// The character of a digit.
pub open spec fn digit_char(d: int) -> char {
    if d == 0 {
        '0'
    } else if d == 1 {
        '1'
    } else if d == 2 {
        '2'
    } else if d == 3 {
        '3'
    } else if d == 4 {
        '4'
    } else if d == 5 {
        '5'
    } else if d == 6 {
        '6'
    } else if d == 7 {
        '7'
    } else if d == 8 {
        '8'
    } else {
        '9'
    }
}

/// A number as it is written in decimal digits.
pub open spec fn decimal(n: nat) -> Seq<char>
    decreases n,
{
    if n < 10 {
        seq![digit_char(n as int)]
    } else {
        decimal(n / 10).push(digit_char((n % 10) as int))
    }
}

fn digit_of(d: usize) -> (c: char)
    requires
        d < 10,
    ensures
        c == digit_char(d as int),
{
    if d == 0 {
        '0'
    } else if d == 1 {
        '1'
    } else if d == 2 {
        '2'
    } else if d == 3 {
        '3'
    } else if d == 4 {
        '4'
    } else if d == 5 {
        '5'
    } else if d == 6 {
        '6'
    } else if d == 7 {
        '7'
    } else if d == 8 {
        '8'
    } else {
        '9'
    }
}

/// The decimal digits of a number, the first digit first.
pub fn decimal_digits(n: usize) -> (digits: Vec<char>)
    ensures
        digits@ == decimal(n as nat),
    decreases n,
{
    if n < 10 {
        let mut digits: Vec<char> = Vec::new();
        digits.push(digit_of(n));
        digits
    } else {
        let mut digits = decimal_digits(n / 10);
        digits.push(digit_of(n % 10));
        digits
    }
}

/// A number written in decimal digits.
pub fn decimal_text(n: usize) -> (text: String)
    ensures
        text@ == decimal(n as nat),
{
    let digits = decimal_digits(n);
    string_of(&digits)
}

/// A text that is `count` times the same character.
pub fn repeat_char(c: char, count: usize) -> (text: String)
    ensures
        text@ == Seq::new(count as nat, |i: int| c),
{
    let mut chars: Vec<char> = Vec::new();
    let mut i: usize = 0;
    while i < count
        invariant
            i <= count,
            chars@ == Seq::new(i as nat, |k: int| c),
        decreases count - i,
    {
        chars.push(c);
        assert(chars@ =~= Seq::new((i + 1) as nat, |k: int| c));
        i = i + 1;
    }
    string_of(&chars)
}

} // verus!
