use vstd::prelude::*;

verus! {

#[derive(Clone, Copy, Debug, PartialEq, Eq, Structural)]
pub enum Coin {
    Penny,
    Nickel,
    Dime,
    Quarter,
}

impl Coin {
    pub open spec fn cents(self) -> int {
        match self {
            Coin::Penny => 1,
            Coin::Nickel => 5,
            Coin::Dime => 10,
            Coin::Quarter => 25,
        }
    }

    pub fn value_in_cents(&self) -> (cents: u8)
        ensures
            cents == self.cents(),
    {
        match self {
            Coin::Penny => 1,
            Coin::Nickel => 5,
            Coin::Dime => 10,
            Coin::Quarter => 25,
        }
    }
}

/// The number after the given one, where one is given.
pub fn plus_one(num: Option<i32>) -> (next: Option<i32>)
    requires
        num matches Some(i) ==> i < i32::MAX,
    ensures
        next == match num {
            Some(i) => Some((i + 1) as i32),
            None => None,
        },
{
    match num {
        Some(i) => Some(i + 1),
        None => None,
    }
}

} // verus!
