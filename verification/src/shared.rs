//! A `Person` value under shared ownership.
//!
//! The value sits in a cell together with a live count of outstanding
//! handles.  The count starts at one when the cell is made, `share`
//! hands out a further handle and raises it by one, and `release`
//! consumes a handle and lowers it by one.  The value is dropped exactly
//! once, at the release that takes the count from one to zero; every read
//! before that point sees the identical, unmodified value.  A handle is
//! consumed by `release`, so a use after its release is rejected at
//! compile time.

use vstd::prelude::*;
use crate::person::Person;

verus! {

/// A handle to the value held in a [`SharedPerson`] cell.  Handles come
/// only from [`SharedPerson::new`] and [`SharedPerson::share`], and
/// [`SharedPerson::release`] consumes one, so a released handle cannot be
/// used again.
pub struct Handle {
    token: (),
}

/// A shared-ownership cell: the wrapped person, while it is alive, and
/// the live count of outstanding handles.
pub struct SharedPerson {
    value: Option<Person>,
    count: u64,
}

impl SharedPerson {
    /// The current live count: how many handles are outstanding.
    pub closed spec fn spec_count(&self) -> u64 {
        self.count
    }

    /// Whether any handle is still outstanding, that is, whether the
    /// wrapped value has not been dropped yet.
    pub open spec fn is_live(&self) -> bool {
        self.spec_count() > 0
    }

    /// The wrapped value: `Some` while the cell is live, `None` once the
    /// last handle has been released and the value dropped.
    pub closed spec fn spec_value(&self) -> Option<Person> {
        self.value
    }

    /// The cell's invariant: it holds a value exactly as long as at least
    /// one handle is outstanding.  Every constructor establishes it and
    /// every method preserves it, so the value is dropped exactly once —
    /// at the release that ends the last handle — and never earlier.
    pub open spec fn wf(&self) -> bool {
        self.spec_count() > 0 <==> self.spec_value() is Some
    }

    /// Wraps a person in a fresh cell.  The count starts at one: the
    /// returned handle is the only one outstanding.
    pub fn new(person: Person) -> (r: (SharedPerson, Handle))
        ensures
            r.0.wf(),
            r.0.spec_count() == 1,
            r.0.spec_value() == Some(person),
    {
        (SharedPerson { value: Some(person), count: 1 }, Handle { token: () })
    }

    /// Hands out one more handle to the same value: the live count rises
    /// by exactly one and the wrapped value is untouched.
    pub fn share(&mut self) -> (h: Handle)
        requires
            old(self).wf(),
            old(self).is_live(),
            old(self).spec_count() < u64::MAX,
        ensures
            final(self).wf(),
            final(self).spec_count() == old(self).spec_count() + 1,
            final(self).spec_value() == old(self).spec_value(),
    {
        self.count = self.count + 1;
        Handle { token: () }
    }

    /// The exact number of outstanding handles.
    pub fn count(&self) -> (n: u64)
        ensures
            n == self.spec_count(),
    {
        self.count
    }

    /// Whether the wrapped value is still alive.
    pub fn live(&self) -> (b: bool)
        ensures
            b == self.is_live(),
    {
        self.count > 0
    }

    /// Ends one handle: the live count falls by exactly one.  When the
    /// released handle was the last one the wrapped value is dropped, and
    /// only then; otherwise it is untouched.  The handle is consumed, so
    /// it cannot be used, or released a second time, afterwards.
    pub fn release(&mut self, handle: Handle)
        requires
            old(self).wf(),
            old(self).is_live(),
        ensures
            final(self).wf(),
            final(self).spec_count() == old(self).spec_count() - 1,
            old(self).spec_count() == 1 ==> final(self).spec_value() is None,
            old(self).spec_count() > 1 ==> final(self).spec_value() == old(self).spec_value(),
    {
        let Handle { token: () } = handle;
        self.count = self.count - 1;
        if self.count == 0 {
            self.value = None;
        }
    }

    /// Reads the wrapped value through a live cell.  The borrow is
    /// read-only: every read before the last release observes the
    /// identical, unmodified person.
    pub fn read(&self) -> (p: &Person)
        requires
            self.wf(),
            self.is_live(),
        ensures
            self.spec_value() == Some(*p),
    {
        match &self.value {
            Some(p) => p,
            None => vstd::pervasive::unreached(),
        }
    }

    /// The live count tracks the handles exactly: while the cell is live
    /// there is at least one outstanding handle, and the wrapped value is
    /// dropped precisely when the count reaches zero.
    pub proof fn lemma_live_count(&self)
        requires
            self.wf(),
        ensures
            self.is_live() <==> self.spec_count() >= 1,
            self.is_live() <==> self.spec_value() is Some,
    {
    }
}

} // verus!
