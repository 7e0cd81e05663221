use vstd::prelude::*;
use vstd::string::to_string_from_display_ensures;
use std::fmt::Display;
use std::rc::Rc;

verus! {

/// A list of the kind that is built from its head: an item and the rest, or
/// the end.
pub enum List<T> {
    Cons(T, Box<List<T>>),
    Nil,
}

/// The texts one after the other, each followed by a comma and a space.
pub open spec fn joined(parts: Seq<String>) -> Seq<char>
    decreases parts.len(),
{
    if parts.len() == 0 {
        Seq::empty()
    } else {
        parts[0]@ + ", "@ + joined(parts.drop_first())
    }
}

/// `parts` are the items of the list written out, one text for each item and
/// in the list's order.
pub open spec fn written<T: Display>(list: List<T>, parts: Seq<String>) -> bool
    decreases list,
{
    match list {
        List::Cons(val, next) => {
            &&& parts.len() > 0
            &&& to_string_from_display_ensures::<T>(&val, parts[0])
            &&& written(*next, parts.drop_first())
        },
        List::Nil => parts.len() == 0,
    }
}

impl<T: Display> List<T> {
    fn write_out(&self) -> (out: (String, Ghost<Seq<String>>))
        ensures
            written(*self, out.1@),
            out.0@ == joined(out.1@),
        decreases self,
    {
        let mut s = String::new();
        match self {
            List::Cons(val, next) => {
                let head = val.to_string();
                let (tail, Ghost(rest)) = next.write_out();
                s.append(head.as_str());
                s.append(", ");
                s.append(tail.as_str());
                let ghost parts = seq![head] + rest;
                assert(parts.drop_first() =~= rest);
                assert(s@ =~= joined(parts));
                (s, Ghost(parts))
            },
            List::Nil => (s, Ghost(Seq::empty())),
        }
    }

    /// The items written out, each followed by a comma and a space.
    pub fn to_string(&self) -> (s: String)
        ensures
            exists|parts: Seq<String>| #[trigger] written(*self, parts) && s@ == joined(parts),
    {
        let (s, Ghost(parts)) = self.write_out();
        s
    }
}

/// A list whose rest can be shared with other lists.
pub enum List2<T> {
    Cons(T, Rc<List2<T>>),
    Nil,
}

/// `parts` are the items of the list written out, one text for each item and
/// in the list's order.
pub open spec fn written_shared<T: Display>(list: List2<T>, parts: Seq<String>) -> bool
    decreases list,
{
    match list {
        List2::Cons(val, next) => {
            &&& parts.len() > 0
            &&& to_string_from_display_ensures::<T>(&val, parts[0])
            &&& written_shared(*next, parts.drop_first())
        },
        List2::Nil => parts.len() == 0,
    }
}

impl<T: Display> List2<T> {
    fn write_out(&self) -> (out: (String, Ghost<Seq<String>>))
        ensures
            written_shared(*self, out.1@),
            out.0@ == joined(out.1@),
        decreases self,
    {
        let mut s = String::new();
        match self {
            List2::Cons(val, next) => {
                let head = val.to_string();
                let (tail, Ghost(rest)) = next.write_out();
                s.append(head.as_str());
                s.append(", ");
                s.append(tail.as_str());
                let ghost parts = seq![head] + rest;
                assert(parts.drop_first() =~= rest);
                assert(s@ =~= joined(parts));
                (s, Ghost(parts))
            },
            List2::Nil => (s, Ghost(Seq::empty())),
        }
    }

    /// The items written out, each followed by a comma and a space.
    pub fn to_string(&self) -> (s: String)
        ensures
            exists|parts: Seq<String>|
                #[trigger] written_shared(*self, parts) && s@ == joined(parts),
    {
        let (s, Ghost(parts)) = self.write_out();
        s
    }

    /// The rest of the list, where it has one.
    pub fn tail(&self) -> (rest: Option<&Rc<List2<T>>>)
        ensures
            match *self {
                List2::Cons(_, next) => rest == Some(&next),
                List2::Nil => rest is None,
            },
    {
        match self {
            List2::Cons(_, t) => Some(t),
            List2::Nil => None,
        }
    }
}

/// A value in a box that cannot be opened.
pub struct BadBox<T>(pub T);

impl<T> BadBox<T> {
    pub fn new(x: T) -> (b: BadBox<T>)
        ensures
            b.0 == x,
    {
        BadBox(x)
    }
}

/// A value in a box that gives the value to whoever asks.
pub struct GoodBox<T>(pub T);

impl<T> GoodBox<T> {
    pub fn new(x: T) -> (b: GoodBox<T>)
        ensures
            b.0 == x,
    {
        GoodBox(x)
    }

    pub fn deref(&self) -> (inner: &T)
        ensures
            *inner == self.0,
    {
        &self.0
    }
}

} // verus!
