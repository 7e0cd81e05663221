use vstd::prelude::*;

verus! {

#[derive(Debug)]
pub struct Rectangle {
    pub width: u32,
    pub height: u32,
}

impl Rectangle {
    /// Whether `other` fits inside with room to spare on both sides.
    pub fn can_hold(&self, other: &Rectangle) -> (fits: bool)
        ensures
            fits == (self.width > other.width && self.height > other.height),
    {
        self.width > other.width && self.height > other.height
    }
}

pub fn add_two(a: i32) -> (sum: i32)
    requires
        a + 2 <= i32::MAX,
    ensures
        sum == a + 2,
{
    a + 2
}

pub fn greet(name: &str) -> (greeting: String)
    ensures
        greeting@ == "Hello "@ + name@,
{
    let mut greeting = String::from_str("Hello ");
    greeting.append(name);
    greeting
}

/// A guess in the range `1..=100`.
pub struct Guess {
    value: i32,
}

impl View for Guess {
    type V = int;

    closed spec fn view(&self) -> int {
        self.value as int
    }
}

impl Guess {
    pub fn new(value: i32) -> (guess: Guess)
        requires
            1 <= value <= 100,
        ensures
            guess@ == value,
    {
        Guess { value }
    }

    pub fn value(&self) -> (value: i32)
        ensures
            value == self@,
    {
        self.value
    }
}

} // verus!
