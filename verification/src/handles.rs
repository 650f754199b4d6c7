//! Ownership handles over objects of the model runtime.
//!
//! An [`Id`] stands for exactly one retain-count claim on a live, initialized
//! object; an [`Allocated`] stands for the single claim on raw storage that
//! has not completed initialization. Neither can be duplicated implicitly:
//! a second claim takes an explicit retain, and giving a claim up is an
//! explicit release that consumes the handle.

use vstd::prelude::*;

use crate::runtime::spec_release;
use crate::runtime::spec_retain;
use crate::runtime::Runtime;
use crate::runtime::RuntimeModel;

verus! {

/// The view of an optional handle: the index of the object it claims.
pub open spec fn opt_handle_index<T: View<V = int>>(o: Option<T>) -> Option<int> {
    match o {
        Some(h) => Some(h@),
        None => None,
    }
}

/// One retain-count claim on a live, initialized object.
#[derive(Debug)]
pub struct Id {
    obj: usize,
}

impl View for Id {
    type V = int;

    closed spec fn view(&self) -> int {
        self.obj as int
    }
}

impl Id {
    /// The handle claims a live, initialized object of the model.
    pub open spec fn valid_in(&self, m: RuntimeModel) -> bool {
        &&& 0 <= self@ < m.objects.len()
        &&& m.objects[self@].retain_count > 0
        &&& m.objects[self@].initialized
    }

    /// Wraps a raw object index as a +1 handle. No retain is performed: the
    /// claim must already be owed to the caller.
    pub(crate) fn from_raw(obj: usize) -> (r: Id)
        ensures
            r@ == obj as int,
    {
        Id { obj }
    }

    /// The index of the object this handle claims.
    pub fn index(&self) -> (r: usize)
        ensures
            r as int == self@,
    {
        self.obj
    }

    /// Explicitly duplicates the ownership claim: retains the object once and
    /// hands back a second handle to it.
    pub fn retain(&self, rt: &mut Runtime) -> (r: Id)
        requires
            old(rt)@.wf(),
            self.valid_in(old(rt)@),
            old(rt)@.objects[self@].retain_count < u64::MAX,
            old(rt)@.counters.can_increment(),
        ensures
            final(rt)@ == spec_retain(old(rt)@, self@),
            r@ == self@,
            r.valid_in(final(rt)@),
            self.valid_in(final(rt)@),
    {
        rt.retain_at(self.obj);
        Id { obj: self.obj }
    }

    /// Gives the claim up: releases the object once, consuming the handle;
    /// the release deallocates the object when the claim was the last.
    pub fn release(self, rt: &mut Runtime)
        requires
            old(rt)@.wf(),
            self.valid_in(old(rt)@),
            old(rt)@.counters.can_increment(),
        ensures
            final(rt)@ == spec_release(old(rt)@, self@),
    {
        rt.release_at(self.obj);
    }
}

/// The single claim on an allocated but not yet initialized object. It may
/// only be passed to an `init`-family dispatch or given up.
#[derive(Debug)]
pub struct Allocated {
    obj: usize,
}

impl View for Allocated {
    type V = int;

    closed spec fn view(&self) -> int {
        self.obj as int
    }
}

impl Allocated {
    /// The handle claims a live allocation that is not initialized yet.
    pub open spec fn valid_in(&self, m: RuntimeModel) -> bool {
        &&& 0 <= self@ < m.objects.len()
        &&& m.objects[self@].retain_count > 0
        &&& !m.objects[self@].initialized
    }

    /// Wraps a raw allocation index as the allocation's single claim.
    pub(crate) fn from_raw(obj: usize) -> (r: Allocated)
        ensures
            r@ == obj as int,
    {
        Allocated { obj }
    }

    /// The index of the allocation this handle claims.
    pub fn index(&self) -> (r: usize)
        ensures
            r as int == self@,
    {
        self.obj
    }

    /// The raw index, consuming the handle; the claim passes to the caller.
    pub(crate) fn into_raw(self) -> (r: usize)
        ensures
            r as int == self@,
    {
        self.obj
    }

    /// Gives the allocation up without initializing it: releases it once, so
    /// that dropping an allocation does not leak it.
    pub fn release(self, rt: &mut Runtime)
        requires
            old(rt)@.wf(),
            0 <= self@ < old(rt)@.objects.len(),
            old(rt)@.objects[self@].retain_count > 0,
            old(rt)@.counters.can_increment(),
        ensures
            final(rt)@ == spec_release(old(rt)@, self@),
    {
        rt.release_at(self.obj);
    }
}

} // verus!
