use vstd::prelude::*;
use vstd::std_specs::ops::AddSpecImpl;
use crate::text::repeat_char;

verus! {

/// The two parts of a slice, before and from position `mid`.
pub fn split_at_mut<T>(slice: &mut [T], mid: usize) -> (parts: (&mut [T], &mut [T]))
    requires
        mid <= old(slice)@.len(),
    ensures
        parts.0@ == old(slice)@.subrange(0, mid as int),
        parts.1@ == old(slice)@.subrange(mid as int, old(slice)@.len() as int),
        final(slice)@ == final(parts.0)@ + final(parts.1)@,
{
    slice.split_at_mut(mid)
}

#[derive(Clone, Copy, Debug, PartialEq, Eq, Structural)]
pub struct Point {
    pub x: i32,
    pub y: i32,
}

impl core::ops::Add for Point {
    type Output = Point;

    fn add(self, other: Point) -> Point {
        Point { x: self.x + other.x, y: self.y + other.y }
    }
}

impl AddSpecImpl for Point {
    open spec fn obeys_add_spec() -> bool {
        true
    }

    open spec fn add_req(self, other: Point) -> bool {
        &&& i32::MIN <= self.x + other.x <= i32::MAX
        &&& i32::MIN <= self.y + other.y <= i32::MAX
    }

    open spec fn add_spec(self, other: Point) -> Point {
        Point { x: (self.x + other.x) as i32, y: (self.y + other.y) as i32 }
    }
}

#[derive(Clone, Copy, Debug, PartialEq, Eq, Structural)]
pub struct Millimeters(pub u32);

#[derive(Clone, Copy, Debug, PartialEq, Eq, Structural)]
pub struct Meters(pub u32);

impl core::ops::Add<Meters> for Millimeters {
    type Output = Millimeters;

    fn add(self, other: Meters) -> Millimeters {
        Millimeters(self.0 + (other.0 * 1000))
    }
}

impl AddSpecImpl<Meters> for Millimeters {
    open spec fn obeys_add_spec() -> bool {
        true
    }

    open spec fn add_req(self, other: Meters) -> bool {
        self.0 + other.0 * 1000 <= u32::MAX
    }

    open spec fn add_spec(self, other: Meters) -> Millimeters {
        Millimeters((self.0 + other.0 * 1000) as u32)
    }
}

/// An animal that has a name for its young.
pub trait Animal {
    fn baby_name() -> String;
}

/// Something that barks in a small way.
pub trait Small {
    fn bark(&self) -> &'static str;
}

/// Something that barks in a big way.
pub trait Big {
    fn bark(&self) -> &'static str;
}

pub struct Doggo;

impl Small for Doggo {
    fn bark(&self) -> (sound: &'static str)
        ensures
            sound@ == "*bork bork*"@,
    {
        "*bork bork*"
    }
}

impl Big for Doggo {
    fn bark(&self) -> (sound: &'static str)
        ensures
            sound@ == "*BARK*"@,
    {
        "*BARK*"
    }
}

impl Doggo {
    pub fn bark(&self) -> (sound: &'static str)
        ensures
            sound@ == "*bark bark*"@,
    {
        "*bark bark*"
    }

    pub fn baby_name() -> (name: String)
        ensures
            name@ == "Spot"@,
    {
        String::from_str("Spot")
    }
}

impl Animal for Doggo {
    fn baby_name() -> (name: String)
        ensures
            name@ == "puppy"@,
    {
        String::from_str("puppy")
    }
}

/// A row of `count` times the same character.
pub open spec fn row(c: char, count: int) -> Seq<char> {
    Seq::new(count as nat, |i: int| c)
}

/// The five lines that frame a text with asterisks: a full row, a hollow
/// row, the text between asterisks, a hollow row and a full row. The frame is
/// as wide as the text has bytes, and four more.
pub fn outline_print(output: &str) -> (lines: Vec<String>)
    requires
        output.len() + 4 <= usize::MAX,
    ensures
        lines@.len() == 5,
        lines@[0]@ == row('*', output.len() + 4),
        lines@[1]@ == "*"@ + row(' ', output.len() + 2) + "*"@,
        lines@[2]@ == "* "@ + output@ + " *"@,
        lines@[3]@ == lines@[1]@,
        lines@[4]@ == lines@[0]@,
{
    let len: usize = output.len();
    let full = repeat_char('*', len + 4);
    let mut hollow = String::from_str("*");
    let gap = repeat_char(' ', len + 2);
    hollow.append(gap.as_str());
    hollow.append("*");
    let mut middle = String::from_str("* ");
    middle.append(output);
    middle.append(" *");
    let mut lines: Vec<String> = Vec::new();
    lines.push(full.clone());
    lines.push(hollow.clone());
    lines.push(middle);
    lines.push(hollow);
    lines.push(full);
    lines
}

pub fn takes_long_type<F: Fn()>(f: F)
    requires
        call_requires(f, ()),
{
    f();
}

pub fn add_one(x: i32) -> (next: i32)
    requires
        x < i32::MAX,
    ensures
        next == x + 1,
{
    x + 1
}

/// A function that adds one.
pub fn returns_closure() -> (f: impl Fn(i32) -> i32)
    ensures
        forall|x: i32| x < i32::MAX ==> call_requires(f, (x,)),
        forall|x: i32, y: i32| call_ensures(f, (x,), y) ==> y == x + 1,
{
    |x: i32| -> (y: i32)
        requires
            x < i32::MAX,
        ensures
            y == x + 1,
        { x + 1 }
}

/// The sum of what the function gives for the argument when it is asked twice.
pub fn do_twice<F: Fn(i32) -> i32>(f: F, arg: i32) -> (sum: i32)
    requires
        call_requires(f, (arg,)),
        forall|a: i32, b: i32|
            call_ensures(f, (arg,), a) && call_ensures(f, (arg,), b) ==> i32::MIN <= a + b
                <= i32::MAX,
    ensures
        exists|a: i32, b: i32|
            #![trigger call_ensures(f, (arg,), a), call_ensures(f, (arg,), b)]
            call_ensures(f, (arg,), a) && call_ensures(f, (arg,), b) && sum == a + b,
{
    let a = f(arg);
    let b = f(arg);
    a + b
}

} // verus!
