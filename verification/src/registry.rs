//! The resource registry the browser backend keeps between integer handles
//! and live backend objects.
//!
//! The browser's graphics API returns language-level objects for every
//! created resource, while the unified API promises integer-like handles.
//! The registry synthesizes those handles: a monotonically increasing counter
//! assigns each created resource a fresh integer, and a table maps every
//! handle that has been handed out and not yet deleted to its live object.
//! Handles are never reused, so creating any number of resources yields
//! pairwise distinct handles for the lifetime of the registry.

use vstd::prelude::*;
use std::collections::HashMap;
use crate::handle::Reference;

verus! {

broadcast use vstd::std_specs::hash::group_hash_axioms;

/// The kind of resource a handle stands for.  Entries are tagged with their
/// kind so that resolving a handle as the wrong kind is detected and
/// rejected instead of silently yielding the wrong object.
#[derive(Clone, Copy, PartialEq, Eq, Structural, Debug)]
pub enum ResourceKind {
    Buffer,
    Shader,
    Program,
    Texture,
    VertexArray,
    Framebuffer,
    UniformLocation,
}

/// One live entry of the registry: the resource's kind and the backend's
/// live object.
#[derive(Debug)]
pub struct Slot<T> {
    pub kind: ResourceKind,
    pub obj: T,
}

/// The handle table itself: a fresh-handle counter, the mapping from each
/// live handle to its entry, and the (ghost) history of every handle ever
/// assigned, in order of assignment.
pub struct ResourceTable<T> {
    next: Reference,
    entries: HashMap<Reference, Slot<T>>,
    assigned: Ghost<Seq<Reference>>,
}

impl<T> View for ResourceTable<T> {
    type V = Map<Reference, Slot<T>>;

    /// The registry's contents: which live handle is mapped to which entry.
    closed spec fn view(&self) -> Map<Reference, Slot<T>> {
        self.entries@
    }
}

impl<T> ResourceTable<T> {
    /// The handle the next creation will assign.
    pub closed spec fn next_handle(&self) -> Reference {
        self.next
    }

    /// Every handle the registry has ever assigned, in order of assignment.
    /// Deletion retires a handle but never strikes it from this history, so
    /// its distinctness outlives the resource.
    pub closed spec fn handles_ever(&self) -> Seq<Reference> {
        self.assigned@
    }

    /// Well-formedness: handles start at 1; every live handle and every
    /// handle ever assigned was assigned before the counter reached its
    /// current value; and the assignment history is strictly increasing.
    pub open spec fn wf(&self) -> bool {
        &&& 1 <= self.next_handle()
        &&& forall|h: Reference| self@.contains_key(h) ==> 1 <= h < self.next_handle()
        &&& forall|i: int|
            0 <= i < self.handles_ever().len() ==> self.handles_ever()[i] < self.next_handle()
        &&& forall|i: int, j: int|
            0 <= i < j < self.handles_ever().len() ==> self.handles_ever()[i]
                < self.handles_ever()[j]
    }

    /// An empty registry; the first handle it assigns is 1.
    pub fn new() -> (t: Self)
        ensures
            t.wf(),
            t@ == Map::<Reference, Slot<T>>::empty(),
            t.next_handle() == 1,
            t.handles_ever() == Seq::<Reference>::empty(),
    {
        ResourceTable { next: 1, entries: HashMap::new(), assigned: Ghost(Seq::empty()) }
    }

    /// The handle the next creation will assign.
    pub fn next_handle_value(&self) -> (h: Reference)
        ensures
            h == self.next_handle(),
    {
        self.next
    }

    /// How many handles are live.
    pub fn len(&self) -> (n: usize)
        ensures
            n == self@.len(),
    {
        self.entries.len()
    }

    /// Register a freshly created backend object: assign it the next handle
    /// and record it under that handle.  The handle is fresh: it was not
    /// live before the call, and no earlier or later creation ever returns
    /// the same handle again.
    pub fn insert(&mut self, kind: ResourceKind, obj: T) -> (h: Reference)
        requires
            old(self).wf(),
            old(self).next_handle() < Reference::MAX,
        ensures
            final(self).wf(),
            h == old(self).next_handle(),
            !old(self)@.contains_key(h),
            final(self)@ == old(self)@.insert(h, (Slot { kind, obj })),
            final(self).next_handle() == old(self).next_handle() + 1,
            final(self).handles_ever() == old(self).handles_ever().push(h),
    {
        let h = self.next;
        self.next = self.next + 1;
        self.entries.insert(h, Slot { kind, obj });
        proof {
            self.assigned@ = self.assigned@.push(h);
            assert forall|x: Reference| self@.contains_key(x) implies 1 <= x < self.next_handle()
            by {
                if x != h {
                    assert(old(self)@.contains_key(x));
                }
            }
            assert forall|i: int, j: int|
                0 <= i < j < self.handles_ever().len() implies self.handles_ever()[i]
                < self.handles_ever()[j] by {
                if j < old(self).handles_ever().len() {
                    assert(old(self).handles_ever()[i] < old(self).handles_ever()[j]);
                } else {
                    assert(old(self).handles_ever()[i] < old(self).next_handle());
                }
            }
        }
        h
    }

    /// Assign a fresh handle without recording an entry.  Used when a
    /// creation is gated off on the active backend revision and no live
    /// object exists, but the unified API still owes the caller a handle
    /// distinct from every other one.
    pub fn reserve_handle(&mut self) -> (h: Reference)
        requires
            old(self).wf(),
            old(self).next_handle() < Reference::MAX,
        ensures
            final(self).wf(),
            h == old(self).next_handle(),
            !old(self)@.contains_key(h),
            final(self)@ == old(self)@,
            final(self).next_handle() == old(self).next_handle() + 1,
            final(self).handles_ever() == old(self).handles_ever().push(h),
    {
        let h = self.next;
        self.next = self.next + 1;
        proof {
            self.assigned@ = self.assigned@.push(h);
            assert forall|x: Reference| self@.contains_key(x) implies 1 <= x < self.next_handle()
            by {
                assert(old(self)@.contains_key(x));
            }
            assert forall|i: int, j: int|
                0 <= i < j < self.handles_ever().len() implies self.handles_ever()[i]
                < self.handles_ever()[j] by {
                if j < old(self).handles_ever().len() {
                    assert(old(self).handles_ever()[i] < old(self).handles_ever()[j]);
                } else {
                    assert(old(self).handles_ever()[i] < old(self).next_handle());
                }
            }
        }
        h
    }

    /// Resolve a handle back to the live object it was assigned to.  A
    /// handle that is not live (never assigned, or already deleted) or that
    /// is resolved as the wrong kind yields nothing rather than a wrong
    /// object.
    pub fn resolve(&self, kind: ResourceKind, h: Reference) -> (r: Option<&T>)
        ensures
            match r {
                Some(obj) => self@.contains_key(h) && self@[h].kind == kind && self@[h].obj
                    == *obj,
                None => !self@.contains_key(h) || self@[h].kind != kind,
            },
    {
        match self.entries.get(&h) {
            Some(slot) => if slot.kind == kind {
                Some(&slot.obj)
            } else {
                None
            },
            None => None,
        }
    }

    /// Delete a handle: the entry leaves the table and the live object is
    /// handed back so the backend's own delete call can consume it.  A
    /// handle that is not live, or whose entry is of another kind, leaves
    /// the table unchanged and yields nothing.
    pub fn remove(&mut self, kind: ResourceKind, h: Reference) -> (r: Option<T>)
        requires
            old(self).wf(),
        ensures
            final(self).wf(),
            final(self).next_handle() == old(self).next_handle(),
            final(self).handles_ever() == old(self).handles_ever(),
            match r {
                Some(obj) => old(self)@.contains_key(h) && old(self)@[h].kind == kind && obj
                    == old(self)@[h].obj && final(self)@ == old(self)@.remove(h),
                None => (!old(self)@.contains_key(h) || old(self)@[h].kind != kind)
                    && final(self)@ == old(self)@,
            },
    {
        let matches_kind = match self.entries.get(&h) {
            Some(slot) => slot.kind == kind,
            None => false,
        };
        let r = if matches_kind {
            match self.entries.remove(&h) {
                Some(slot) => Some(slot.obj),
                None => None,
            }
        } else {
            None
        };
        proof {
            assert forall|x: Reference| self@.contains_key(x) implies 1 <= x < self.next_handle()
            by {
                assert(old(self)@.contains_key(x));
            }
            assert forall|i: int|
                0 <= i < self.handles_ever().len() implies self.handles_ever()[i]
                < self.next_handle() by {
                assert(old(self).handles_ever()[i] < old(self).next_handle());
            }
            assert forall|i: int, j: int|
                0 <= i < j < self.handles_ever().len() implies self.handles_ever()[i]
                < self.handles_ever()[j] by {
                assert(old(self).handles_ever()[i] < old(self).handles_ever()[j]);
            }
        }
        r
    }
}

/// Creating a resource and then deleting its handle restores the registry's
/// contents exactly: no stale entry remains for that handle, and every other
/// handle is untouched.
pub proof fn lemma_create_then_delete_clean<T>(m: Map<Reference, Slot<T>>, h: Reference, s: Slot<T>)
    requires
        !m.contains_key(h),
    ensures
        m.insert(h, s).remove(h) == m,
        !m.insert(h, s).remove(h).contains_key(h),
{
    assert(m.insert(h, s).remove(h) =~= m);
}

/// Every live handle is below the handle the next creation will assign, so
/// a freshly assigned handle differs from every handle that is still live.
pub proof fn lemma_next_handle_fresh<T>(t: ResourceTable<T>)
    requires
        t.wf(),
    ensures
        forall|h: Reference| t@.contains_key(h) ==> h != t.next_handle(),
{
}

/// Handle uniqueness: any two handles a registry assigned at two distinct
/// points in its lifetime are distinct.  The assignment history only ever
/// grows, and deletion retires a handle without striking or reusing it, so
/// creating any number of resources, of any mix of kinds, yields pairwise
/// distinct handles for the lifetime of the registry.
pub proof fn lemma_assigned_handles_distinct<T>(t: ResourceTable<T>, i: int, j: int)
    requires
        t.wf(),
        0 <= i < t.handles_ever().len(),
        0 <= j < t.handles_ever().len(),
        i != j,
    ensures
        t.handles_ever()[i] != t.handles_ever()[j],
{
}

} // verus!
