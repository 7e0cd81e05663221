use vstd::prelude::*;

verus! {

pub fn matching_literal(x: i32) -> (name: &'static str)
    ensures
        name@ == if x == 1 {
            "one"@
        } else if x == 2 {
            "two"@
        } else if x == 3 {
            "three"@
        } else {
            "anything"@
        },
{
    match x {
        1 => "one",
        2 => "two",
        3 => "three",
        _ => "anything",
    }
}

pub fn matching_literal2(x: i32) -> (name: &'static str)
    ensures
        name@ == if x == 1 || x == 2 {
            "one or two"@
        } else if x == 3 {
            "three"@
        } else {
            "anything"@
        },
{
    match x {
        1 | 2 => "one or two",
        3 => "three",
        _ => "anything",
    }
}

pub fn matching_literal3(x: i32) -> (name: &'static str)
    ensures
        name@ == if 1 <= x <= 5 {
            "one through two"@
        } else {
            "anything"@
        },
{
    if 1 <= x && x <= 5 {
        "one through two"
    } else {
        "anything"
    }
}

pub fn ascii_letter_lateness(x: char) -> (name: &'static str)
    ensures
        name@ == if 'a' <= x <= 'j' {
            "early ASCII letter"@
        } else if 'k' <= x <= 'z' {
            "late ASCII letter"@
        } else {
            "not an ASCII letter"@
        },
{
    if 'a' <= x && x <= 'j' {
        "early ASCII letter"
    } else if 'k' <= x && x <= 'z' {
        "late ASCII letter"
    } else {
        "not an ASCII letter"
    }
}

#[derive(Clone, Copy, Debug, PartialEq, Eq, Structural)]
pub struct Point3d {
    pub x: i32,
    pub y: i32,
    pub z: i32,
}

impl Point3d {
    pub fn origin() -> (p: Point3d)
        ensures
            p == (Point3d { x: 0, y: 0, z: 0 }),
    {
        Point3d { x: 0, y: 0, z: 0 }
    }
}

} // verus!
