//! Ownership protocol for resources that outlive a frame.
//!
//! A [`Temporal`] owns one persistent GPU resource. Each frame the resource
//! is lent into the frame's graph (`import`), taken back once all passes
//! that touch it have been declared (`export`), and its graph-side
//! bookkeeping is reclaimed after submission (`retire`). The three phases
//! form a strict bracket: import is only possible when the registry owns the
//! resource, export only while it is lent, retire only after export. The
//! contracts here make a double import or a missing export unsatisfiable
//! rather than merely detectable.

use vstd::prelude::*;

use crate::graph::{Buffer, Handle, RenderGraph, RetiredRenderGraph};

verus! {

/// Where a temporal resource currently stands in the frame bracket.
#[derive(Clone, Copy, Debug, PartialEq, Eq, Structural)]
pub enum TemporalPhase {
    /// Owned by the registry; no frame holds it.
    Resident,
    /// Lent into the current frame's graph between import and export.
    Lent,
    /// Handed back by export; graph-side bookkeeping not yet reclaimed.
    Returned,
}

enum TemporalState<T> {
    Resident { resource: T, generation: u64 },
    Lent { handle_id: usize, generation: u64 },
    Returned { resource: T, generation: u64 },
}

/// A resource whose identity and content persist across frames.
pub struct Temporal<T> {
    state: TemporalState<T>,
}

impl<T> Temporal<T> {
    /// The current bracket phase.
    pub closed spec fn phase(self) -> TemporalPhase {
        match self.state {
            TemporalState::Resident { .. } => TemporalPhase::Resident,
            TemporalState::Lent { .. } => TemporalPhase::Lent,
            TemporalState::Returned { .. } => TemporalPhase::Returned,
        }
    }

    /// The owned resource; meaningful outside the lent phase.
    pub closed spec fn resource(self) -> T
        recommends
            self.phase() != TemporalPhase::Lent,
    {
        match self.state {
            TemporalState::Resident { resource, .. } => resource,
            TemporalState::Lent { handle_id, .. } => arbitrary(),
            TemporalState::Returned { resource, .. } => resource,
        }
    }

    /// The id of the frame-local handle this resource was imported under;
    /// meaningful only while lent.
    pub closed spec fn lent_handle(self) -> usize
        recommends
            self.phase() == TemporalPhase::Lent,
    {
        match self.state {
            TemporalState::Lent { handle_id, .. } => handle_id,
            _ => arbitrary(),
        }
    }

    /// How many frame brackets this resource has completed (bumped by
    /// retire, never by import or export).
    pub closed spec fn generation(self) -> u64 {
        match self.state {
            TemporalState::Resident { generation, .. } => generation,
            TemporalState::Lent { generation, .. } => generation,
            TemporalState::Returned { generation, .. } => generation,
        }
    }

    /// Takes ownership of a freshly created resource.
    pub fn new(resource: T) -> (t: Temporal<T>)
        ensures
            t.phase() == TemporalPhase::Resident,
            t.resource() == resource,
            t.generation() == 0,
    {
        Temporal { state: TemporalState::Resident { resource, generation: 0 } }
    }

    /// Runtime view of the bracket phase, for callers that must detect a
    /// protocol violation instead of relying on the contracts.
    pub fn current_phase(&self) -> (p: TemporalPhase)
        ensures
            p == self.phase(),
    {
        match &self.state {
            TemporalState::Resident { .. } => TemporalPhase::Resident,
            TemporalState::Lent { .. } => TemporalPhase::Lent,
            TemporalState::Returned { .. } => TemporalPhase::Returned,
        }
    }

    /// Borrows the owned resource.
    pub fn resource_ref(&self) -> (r: &T)
        requires
            self.phase() != TemporalPhase::Lent,
        ensures
            *r == self.resource(),
    {
        match &self.state {
            TemporalState::Resident { resource, .. } => resource,
            TemporalState::Returned { resource, .. } => resource,
            TemporalState::Lent { .. } => unreached(),
        }
    }

    /// Moves the resource out for the duration of a frame, remembering the
    /// frame-local handle it travels under. Used by the graph's import.
    pub(crate) fn lend(&mut self, handle_id: usize) -> (r: T)
        requires
            old(self).phase() == TemporalPhase::Resident,
        ensures
            r == old(self).resource(),
            final(self).phase() == TemporalPhase::Lent,
            final(self).lent_handle() == handle_id,
            final(self).generation() == old(self).generation(),
    {
        let generation = match &self.state {
            TemporalState::Resident { generation, .. } => *generation,
            _ => unreached(),
        };
        let mut prior = TemporalState::Lent { handle_id, generation };
        core::mem::swap(&mut self.state, &mut prior);
        match prior {
            TemporalState::Resident { resource, .. } => resource,
            _ => unreached(),
        }
    }

    /// Accepts the (possibly pass-mutated) resource back from the frame.
    /// Used by the graph's export.
    pub(crate) fn accept(&mut self, resource: T)
        requires
            old(self).phase() == TemporalPhase::Lent,
        ensures
            final(self).phase() == TemporalPhase::Returned,
            final(self).resource() == resource,
            final(self).generation() == old(self).generation(),
    {
        let generation = match &self.state {
            TemporalState::Lent { generation, .. } => *generation,
            _ => unreached(),
        };
        self.state = TemporalState::Returned { resource, generation };
    }

    /// Reclaims the frame's graph-side bookkeeping once submission is done,
    /// completing the bracket. Never touches the resource itself.
    pub(crate) fn reclaim(&mut self)
        requires
            old(self).phase() == TemporalPhase::Returned,
            old(self).generation() < u64::MAX,
        ensures
            final(self).phase() == TemporalPhase::Resident,
            final(self).resource() == old(self).resource(),
            final(self).generation() == old(self).generation() + 1,
    {
        let mut prior = TemporalState::Lent { handle_id: 0, generation: 0 };
        core::mem::swap(&mut self.state, &mut prior);
        let (resource, generation) = match prior {
            TemporalState::Returned { resource, generation } => (resource, generation),
            _ => unreached(),
        };
        self.state = TemporalState::Resident { resource, generation: generation + 1 };
    }
}

/// All the temporal resources of one renderer, in one homogeneous, indexed
/// collection: `begin`, `end` and `retire` are one iteration over it, so
/// the number of temporal resources never again decides how much lifecycle
/// code there is.
pub struct TemporalRegistry {
    entries: Vec<Temporal<Buffer>>,
}

impl View for TemporalRegistry {
    type V = Seq<Temporal<Buffer>>;

    closed spec fn view(&self) -> Seq<Temporal<Buffer>> {
        self.entries@
    }
}

impl TemporalRegistry {
    /// An empty registry.
    pub fn new() -> (r: TemporalRegistry)
        ensures
            r@ =~= Seq::<Temporal<Buffer>>::empty(),
    {
        TemporalRegistry { entries: Vec::new() }
    }

    /// Adds a temporal resource; its index is its name from here on.
    pub fn register(&mut self, t: Temporal<Buffer>) -> (i: usize)
        ensures
            i == old(self)@.len(),
            final(self)@ == old(self)@.push(t),
    {
        let i = self.entries.len();
        self.entries.push(t);
        i
    }

    /// How many resources the registry owns.
    pub fn len(&self) -> (n: usize)
        ensures
            n == self@.len(),
    {
        self.entries.len()
    }

    /// Borrows one resource.
    pub fn entry(&self, i: usize) -> (t: &Temporal<Buffer>)
        requires
            i < self@.len(),
        ensures
            *t == self@[i as int],
    {
        &self.entries[i]
    }

    /// Opens the frame bracket for every resource: imports each into the
    /// graph, in registry order, and returns the frame-local handles, one
    /// per entry.
    pub fn begin(&mut self, rg: &mut RenderGraph) -> (handles: Vec<Handle<Buffer>>)
        requires
            forall|i: int|
                0 <= i < old(self)@.len() ==> (#[trigger] old(self)@[i]).phase()
                    == TemporalPhase::Resident,
        ensures
            handles@.len() == old(self)@.len(),
            final(self)@.len() == old(self)@.len(),
            forall|i: int|
                0 <= i < old(self)@.len() ==> {
                    &&& (#[trigger] final(self)@[i]).phase() == TemporalPhase::Lent
                    &&& final(self)@[i].lent_handle() == handles@[i].id
                    &&& final(self)@[i].generation() == old(self)@[i].generation()
                    &&& handles@[i].id == old(rg)@.buffers.len() + i
                },
            final(rg)@.buffers.len() == old(rg)@.buffers.len() + old(self)@.len(),
            forall|j: int|
                0 <= j < old(rg)@.buffers.len() ==> final(rg)@.buffers[j] == old(rg)@.buffers[j],
            forall|i: int|
                0 <= i < old(self)@.len() ==> {
                    &&& (#[trigger] final(rg)@.buffers[old(rg)@.buffers.len() + i]).desc == old(
                        self,
                    )@[i].resource().desc
                    &&& final(rg)@.buffers[old(rg)@.buffers.len() + i].data@ == old(
                        self,
                    )@[i].resource().data@
                },
            final(rg)@.images == old(rg)@.images,
            final(rg)@.accels == old(rg)@.accels,
            final(rg)@.pipelines == old(rg)@.pipelines,
            final(rg)@.passes == old(rg)@.passes,
    {
        let ghost pre_entries = self.entries@;
        let ghost pre_g = rg@;
        let n = self.entries.len();
        proof {
            assert forall|k: int|
                0 <= k < n implies (#[trigger] pre_entries[k]).phase()
                == TemporalPhase::Resident by {
                assert(old(self)@[k].phase() == TemporalPhase::Resident);
            }
        }
        let mut handles: Vec<Handle<Buffer>> = Vec::new();
        let mut i: usize = 0;
        while i < n
            invariant
                i <= n,
                n == pre_entries.len(),
                self.entries@.len() == n,
                handles@.len() == i,
                forall|k: int|
                    0 <= k < n ==> (#[trigger] pre_entries[k]).phase() == TemporalPhase::Resident,
                forall|k: int| i <= k < n ==> #[trigger] self.entries@[k] == pre_entries[k],
                forall|k: int|
                    0 <= k < i ==> {
                        &&& (#[trigger] self.entries@[k]).phase() == TemporalPhase::Lent
                        &&& self.entries@[k].lent_handle() == handles@[k].id
                        &&& self.entries@[k].generation() == pre_entries[k].generation()
                        &&& handles@[k].id == pre_g.buffers.len() + k
                    },
                rg@.buffers.len() == pre_g.buffers.len() + i,
                forall|j: int| 0 <= j < pre_g.buffers.len() ==> rg@.buffers[j] == pre_g.buffers[j],
                forall|k: int|
                    0 <= k < i ==> {
                        &&& (#[trigger] rg@.buffers[pre_g.buffers.len() + k]).desc
                            == pre_entries[k].resource().desc
                        &&& rg@.buffers[pre_g.buffers.len() + k].data@
                            == pre_entries[k].resource().data@
                    },
                rg@.images == pre_g.images,
                rg@.accels == pre_g.accels,
                rg@.pipelines == pre_g.pipelines,
                rg@.passes == pre_g.passes,
            decreases n - i,
        {
            proof {
                assert(pre_entries[i as int].phase() == TemporalPhase::Resident);
            }
            let h = rg.import_temporal(&mut self.entries[i]);
            handles.push(h);
            i = i + 1;
        }
        handles
    }

    /// Closes the frame bracket for every resource: exports each handle
    /// back to its entry, in registry order. The handles must be the ones
    /// `begin` issued, entry for entry.
    pub fn end(&mut self, rg: &mut RenderGraph, handles: Vec<Handle<Buffer>>)
        requires
            handles@.len() == old(self)@.len(),
            forall|i: int|
                0 <= i < old(self)@.len() ==> {
                    &&& (#[trigger] old(self)@[i]).phase() == TemporalPhase::Lent
                    &&& old(self)@[i].lent_handle() == handles@[i].id
                    &&& handles@[i].id < old(rg)@.buffers.len()
                },
            forall|i: int, j: int|
                0 <= i < j < handles@.len() ==> handles@[i].id != handles@[j].id,
        ensures
            final(self)@.len() == old(self)@.len(),
            forall|i: int|
                0 <= i < old(self)@.len() ==> {
                    &&& (#[trigger] final(self)@[i]).phase() == TemporalPhase::Returned
                    &&& final(self)@[i].resource().desc == old(rg)@.buffers[
                        handles@[i].id as int
                    ].desc
                    &&& final(self)@[i].resource().data@ == old(rg)@.buffers[
                        handles@[i].id as int
                    ].data@
                    &&& final(self)@[i].generation() == old(self)@[i].generation()
                },
            final(rg)@.buffers.len() == old(rg)@.buffers.len(),
            forall|j: int|
                0 <= j < old(rg)@.buffers.len() && (forall|i: int|
                    0 <= i < handles@.len() ==> (#[trigger] handles@[i]).id != j)
                    ==> final(rg)@.buffers[j] == old(rg)@.buffers[j],
            forall|i: int|
                0 <= i < handles@.len() ==> (#[trigger] final(rg)@.buffers[
                    handles@[i].id as int
                ].data@) =~= Seq::<u8>::empty(),
            final(rg)@.images == old(rg)@.images,
            final(rg)@.accels == old(rg)@.accels,
            final(rg)@.pipelines == old(rg)@.pipelines,
            final(rg)@.passes == old(rg)@.passes,
    {
        let ghost pre_entries = self.entries@;
        let ghost pre_g = rg@;
        let ghost pre_handles = handles@;
        let n = self.entries.len();
        proof {
            assert forall|k: int|
                0 <= k < n implies (#[trigger] pre_entries[k]).phase() == TemporalPhase::Lent
                && pre_entries[k].lent_handle() == pre_handles[k].id by {
                assert(old(self)@[k].phase() == TemporalPhase::Lent);
            }
            assert forall|k: int|
                0 <= k < n implies (#[trigger] pre_handles[k]).id < pre_g.buffers.len() by {
                assert(old(self)@[k].phase() == TemporalPhase::Lent);
            }
        }
        let mut handles = handles;
        let mut i: usize = 0;
        while i < n
            invariant
                i <= n,
                n == pre_entries.len(),
                self.entries@.len() == n,
                pre_handles.len() == n,
                handles@ =~= pre_handles.skip(i as int),
                forall|k: int, l: int|
                    0 <= k < l < n ==> pre_handles[k].id != pre_handles[l].id,
                forall|k: int|
                    0 <= k < n ==> (#[trigger] pre_handles[k]).id < pre_g.buffers.len(),
                forall|k: int|
                    0 <= k < n ==> (#[trigger] pre_entries[k]).phase() == TemporalPhase::Lent
                        && pre_entries[k].lent_handle() == pre_handles[k].id,
                forall|k: int| i <= k < n ==> #[trigger] self.entries@[k] == pre_entries[k],
                forall|k: int|
                    0 <= k < i ==> {
                        &&& (#[trigger] self.entries@[k]).phase() == TemporalPhase::Returned
                        &&& self.entries@[k].resource().desc == pre_g.buffers[
                            pre_handles[k].id as int
                        ].desc
                        &&& self.entries@[k].resource().data@ == pre_g.buffers[
                            pre_handles[k].id as int
                        ].data@
                        &&& self.entries@[k].generation() == pre_entries[k].generation()
                    },
                rg@.buffers.len() == pre_g.buffers.len(),
                forall|j: int|
                    0 <= j < pre_g.buffers.len() && (forall|k: int|
                        0 <= k < i ==> (#[trigger] pre_handles[k]).id != j) ==> rg@.buffers[j]
                        == pre_g.buffers[j],
                forall|k: int|
                    0 <= k < i ==> (#[trigger] rg@.buffers[pre_handles[k].id as int].data@)
                        =~= Seq::<u8>::empty(),
                rg@.images == pre_g.images,
                rg@.accels == pre_g.accels,
                rg@.pipelines == pre_g.pipelines,
                rg@.passes == pre_g.passes,
            decreases n - i,
        {
            let h = handles.remove(0);
            proof {
                assert(h == pre_handles[i as int]);
                assert(pre_entries[i as int].phase() == TemporalPhase::Lent);
                assert forall|k: int| 0 <= k < i implies (#[trigger] pre_handles[k]).id
                    != h.id by {}
                assert(rg@.buffers[h.id as int] == pre_g.buffers[h.id as int]);
            }
            rg.export_temporal(h, &mut self.entries[i]);
            i = i + 1;
            proof {
                assert(handles@ =~= pre_handles.skip(i as int));
            }
        }
    }

    /// Reclaims every resource's graph-side bookkeeping once the frame has
    /// been submitted, completing the brackets.
    pub fn retire(&mut self, rg: &RetiredRenderGraph)
        requires
            forall|i: int|
                0 <= i < old(self)@.len() ==> (#[trigger] old(self)@[i]).phase()
                    == TemporalPhase::Returned && old(self)@[i].generation() < u64::MAX,
        ensures
            final(self)@.len() == old(self)@.len(),
            forall|i: int|
                0 <= i < old(self)@.len() ==> {
                    &&& (#[trigger] final(self)@[i]).phase() == TemporalPhase::Resident
                    &&& final(self)@[i].resource() == old(self)@[i].resource()
                    &&& final(self)@[i].generation() == old(self)@[i].generation() + 1
                },
    {
        let ghost pre_entries = self.entries@;
        let n = self.entries.len();
        proof {
            assert forall|k: int|
                0 <= k < n implies (#[trigger] pre_entries[k]).phase() == TemporalPhase::Returned
                && pre_entries[k].generation() < u64::MAX by {
                assert(old(self)@[k].phase() == TemporalPhase::Returned);
            }
        }
        let mut i: usize = 0;
        while i < n
            invariant
                i <= n,
                n == pre_entries.len(),
                self.entries@.len() == n,
                forall|k: int|
                    0 <= k < n ==> (#[trigger] pre_entries[k]).phase() == TemporalPhase::Returned
                        && pre_entries[k].generation() < u64::MAX,
                forall|k: int| i <= k < n ==> #[trigger] self.entries@[k] == pre_entries[k],
                forall|k: int|
                    0 <= k < i ==> {
                        &&& (#[trigger] self.entries@[k]).phase() == TemporalPhase::Resident
                        &&& self.entries@[k].resource() == pre_entries[k].resource()
                        &&& self.entries@[k].generation() == pre_entries[k].generation() + 1
                    },
            decreases n - i,
        {
            proof {
                assert(pre_entries[i as int].phase() == TemporalPhase::Returned);
            }
            rg.retire_temporal(&mut self.entries[i]);
            i = i + 1;
        }
    }
}

} // verus!
