//! A read-only container that holds either a borrow of a value or the value
//! itself in a box, and hands the value out as owned on request.
//!
//! The two states are told apart by the container's own representation, a
//! reference or a box, not by a tag packed into a raw address. The
//! container is therefore two words wide where a packed one would be one.
//! In exchange the lifetime of the reference and the ownership of the box
//! settle what a packed container has to promise by hand: a borrowed
//! container cannot outlive its referent, an owned value is released exactly
//! once, and a value that was handed out is not released by the container it
//! left.

use vstd::prelude::*;

verus! {

/// What a `Cow` holds: a reference whose referent someone else keeps alive,
/// or an allocation that the container is responsible for.
enum Slot<'a, T: ?Sized> {
    Borrowed(&'a T),
    Owned(Box<T>),
}

/// An object that holds either a borrow (`&'a T`) or a boxed value
/// (`Box<T>`), and reads the same way in both states.
pub struct Cow<'a, T: ?Sized> {
    slot: Slot<'a, T>,
}

/// `Box::<[T]>::from` allocates a boxed slice and copies the elements of
/// the given slice into it, in order.
#[verifier::external_body]
fn boxed_copy<T: Copy>(s: &[T]) -> (b: Box<[T]>)
    ensures
        b@ == s@,
{
    Box::from(s)
}

impl<'a, T: ?Sized> Cow<'a, T> {
    /// Whether the container owns its value.
    pub closed spec fn spec_is_owned(&self) -> bool {
        self.slot is Owned
    }

    /// The value that the container reads as.
    pub closed spec fn target(&self) -> &T {
        match self.slot {
            Slot::Borrowed(v) => v,
            Slot::Owned(b) => &*b,
        }
    }

    /// Creates a new `Cow` representing a borrowed value.
    pub fn borrowed(v: &'a T) -> (c: Cow<'a, T>)
        ensures
            !c.is_owned(),
            c.target() == v,
    {
        Cow { slot: Slot::Borrowed(v) }
    }

    /// Creates a new `Cow` holding a boxed value.
    pub fn owned(v: Box<T>) -> (c: Cow<'a, T>)
        ensures
            c.is_owned(),
            c.target() == &*v,
    {
        Cow { slot: Slot::Owned(v) }
    }

    /// Tells whether the container owns its value.
    #[verifier::when_used_as_spec(spec_is_owned)]
    pub fn is_owned(&self) -> (b: bool)
        ensures
            b == self.spec_is_owned(),
    {
        match &self.slot {
            Slot::Borrowed(_) => false,
            Slot::Owned(_) => true,
        }
    }
}

impl<'a, T: Clone> Cow<'a, T> {
    /// Converts this `Cow` into a `Box<T>`. If this `Cow` is a borrow, clones
    /// the value and boxes it.
    pub fn into_owned(self) -> (b: Box<T>)
        ensures
            self.is_owned() ==> *b == *self.target(),
            !self.is_owned() ==> cloned(*self.target(), *b),
    {
        match self.slot {
            Slot::Owned(b) => b,
            Slot::Borrowed(v) => Box::new(v.clone()),
        }
    }

    /// Converts this `Cow` into an owned `Cow` by cloning the value and
    /// boxing it, if it is borrowed.
    pub fn into_owned_cow<'b>(self) -> (c: Cow<'b, T>)
        ensures
            c.is_owned(),
            self.is_owned() ==> *c.target() == *self.target(),
            !self.is_owned() ==> cloned(*self.target(), *c.target()),
    {
        match self.slot {
            Slot::Owned(b) => Cow { slot: Slot::Owned(b) },
            Slot::Borrowed(v) => Cow::owned(Box::new(v.clone())),
        }
    }
}

impl<'a, T: Copy> Cow<'a, [T]> {
    /// Converts this `Cow` into a boxed slice. If this `Cow` is a borrow,
    /// copies the elements into a new allocation.
    pub fn into_owned(self) -> (b: Box<[T]>)
        ensures
            b@ == self.target()@,
    {
        match self.slot {
            Slot::Owned(b) => b,
            Slot::Borrowed(v) => boxed_copy(v),
        }
    }

    /// Converts this `Cow` into an owned `Cow` by copying the elements into
    /// a new allocation, if it is borrowed.
    pub fn into_owned_cow<'b>(self) -> (c: Cow<'b, [T]>)
        ensures
            c.is_owned(),
            c.target()@ == self.target()@,
    {
        match self.slot {
            Slot::Owned(b) => Cow { slot: Slot::Owned(b) },
            Slot::Borrowed(v) => Cow::owned(boxed_copy(v)),
        }
    }
}

impl<'a, T: ?Sized> core::ops::Deref for Cow<'a, T> {
    type Target = T;

    fn deref(&self) -> (r: &T)
        ensures
            r == self.target(),
    {
        match &self.slot {
            Slot::Borrowed(v) => v,
            Slot::Owned(b) => &**b,
        }
    }
}

} // verus!
