//! Revision counters that let snapshots and scans detect that the arena or a
//! query changed underneath them.
use vstd::prelude::*;
use crate::explorer::ids::SlotId;

verus! {

/// Arena-wide revision: advances on every root insertion or root change.
#[derive(Clone, Copy, Debug, PartialEq, Eq, Structural, PartialOrd, Ord, Hash)]
pub struct ArenaRevision(pub u64);

/// Revision of one root: the arena revision of its last insertion or change.
#[derive(Clone, Copy, Debug, PartialEq, Eq, Structural, PartialOrd, Ord, Hash)]
pub struct RootRevision(pub u64);

impl Default for RootRevision {
    fn default() -> (revision: RootRevision)
        ensures
            revision.0 == 0,
    {
        RootRevision(0)
    }
}

/// Revision of a tab's query program.
#[derive(Clone, Copy, Debug, PartialEq, Eq, Structural, PartialOrd, Ord, Hash)]
pub struct QueryRevision(pub u64);

impl Default for QueryRevision {
    fn default() -> (revision: QueryRevision)
        ensures
            revision.0 == 0,
    {
        QueryRevision(0)
    }
}

impl QueryRevision {
    /// The revision after this one.
    pub fn next(self) -> (next: QueryRevision)
        requires
            self.0 < u64::MAX,
        ensures
            next.0 == self.0 + 1,
    {
        QueryRevision(self.0 + 1)
    }
}

/// The pair of revisions a scan was started against.
#[derive(Clone, Copy, Debug, PartialEq, Eq, Structural, Hash)]
pub struct ScanRevisionStamp {
    pub arena: ArenaRevision,
    pub query: QueryRevision,
}

#[derive(Clone, Copy, Debug, PartialEq, Eq, Structural)]
pub enum RevisionError {
    /// The arena revision counter cannot advance any further.
    Exhausted,
}

impl RevisionError {
    /// The error as a sentence.
    pub fn message(&self) -> (message: String)
        ensures
            message@ == "the arena revision counter cannot advance any further"@,
    {
        String::from_str("the arena revision counter cannot advance any further")
    }
}

/// Arena revision plus the revision of every root, indexed by slot identity.
#[derive(Clone, Debug)]
pub struct ArenaRevisions {
    arena: ArenaRevision,
    roots: Vec<RootRevision>,
}

impl Default for ArenaRevisions {
    fn default() -> (revisions: ArenaRevisions)
        ensures
            revisions.arena_value() == 0,
            revisions.root_values() == Seq::<u64>::empty(),
            revisions.wf(),
    {
        let revisions = ArenaRevisions { arena: ArenaRevision(0), roots: Vec::new() };
        assert(revisions.root_values() =~= Seq::<u64>::empty());
        revisions
    }
}

impl ArenaRevisions {
    pub closed spec fn arena_value(&self) -> u64 {
        self.arena.0
    }

    /// Revision of each root, indexed by slot identity.
    pub closed spec fn root_values(&self) -> Seq<u64> {
        self.roots@.map_values(|revision: RootRevision| revision.0)
    }

    /// No root is newer than the arena.
    pub closed spec fn wf(&self) -> bool {
        forall|i: int| 0 <= i < self.roots@.len() ==> #[trigger] self.roots@[i].0 <= self.arena.0
    }

    pub fn arena_revision(&self) -> (revision: ArenaRevision)
        ensures
            revision.0 == self.arena_value(),
    {
        self.arena
    }

    pub fn root_revision(&self, slot: SlotId) -> (revision: Option<RootRevision>)
        ensures
            slot.0 < self.root_values().len() ==> revision == Some(
                RootRevision(self.root_values()[slot.0 as int]),
            ),
            slot.0 >= self.root_values().len() ==> revision is None,
    {
        if slot.0 < self.roots.len() as u64 {
            Some(self.roots[slot.0 as usize])
        } else {
            None
        }
    }

    /// The stamp a scan of `query` over the current arena carries.
    pub fn scan_stamp(&self, query: QueryRevision) -> (stamp: ScanRevisionStamp)
        ensures
            stamp.arena.0 == self.arena_value(),
            stamp.query == query,
    {
        ScanRevisionStamp { arena: self.arena, query }
    }

    /// Records the insertion of root `slot`, which must be the next identity.
    pub fn ingest_root_insert(&mut self, slot: SlotId) -> (result: Result<(), RevisionError>)
        requires
            old(self).wf(),
            slot.0 == old(self).root_values().len(),
        ensures
            final(self).wf(),
            old(self).arena_value() == u64::MAX ==> {
                &&& result == Err::<(), RevisionError>(RevisionError::Exhausted)
                &&& final(self).arena_value() == old(self).arena_value()
                &&& final(self).root_values() == old(self).root_values()
            },
            old(self).arena_value() < u64::MAX ==> {
                &&& result is Ok
                &&& final(self).arena_value() == old(self).arena_value() + 1
                &&& final(self).root_values() == old(self).root_values().push(
                    final(self).arena_value(),
                )
            },
    {
        if self.arena.0 == u64::MAX {
            return Err(RevisionError::Exhausted);
        }
        let ghost before = self.root_values();
        self.arena = ArenaRevision(self.arena.0 + 1);
        self.roots.push(RootRevision(self.arena.0));
        assert(self.root_values() =~= before.push(self.arena.0));
        Ok(())
    }

    /// Records a change of root `slot`: the arena and that root advance,
    /// every other root keeps its revision.
    pub fn ingest_root_change(&mut self, slot: SlotId) -> (result: Result<(), RevisionError>)
        requires
            old(self).wf(),
            slot.0 < old(self).root_values().len(),
        ensures
            final(self).wf(),
            old(self).arena_value() == u64::MAX ==> {
                &&& result == Err::<(), RevisionError>(RevisionError::Exhausted)
                &&& final(self).arena_value() == old(self).arena_value()
                &&& final(self).root_values() == old(self).root_values()
            },
            old(self).arena_value() < u64::MAX ==> {
                &&& result is Ok
                &&& final(self).arena_value() == old(self).arena_value() + 1
                &&& final(self).root_values() == old(self).root_values().update(
                    slot.0 as int,
                    final(self).arena_value(),
                )
            },
    {
        if self.arena.0 == u64::MAX {
            return Err(RevisionError::Exhausted);
        }
        let ghost before = self.root_values();
        self.arena = ArenaRevision(self.arena.0 + 1);
        assert(before == old(self).root_values());
        assert(before.len() == self.roots@.len());
        assert(slot.0 < self.roots.len());
        let index = slot.0 as usize;
        assert(index as int == slot.0 as int);
        let ghost old_roots = self.roots@;
        self.roots.set(index, RootRevision(self.arena.0));
        assert(self.roots@ == old_roots.update(index as int, RootRevision(self.arena.0)));
        assert forall|i: int| 0 <= i < before.len() implies #[trigger] self.root_values()[i]
            == before.update(slot.0 as int, self.arena.0)[i] by {
            assert(self.root_values()[i] == self.roots@[i].0);
            assert(before[i] == old_roots[i].0);
            if i != index as int {
                assert(self.roots@[i] == old_roots[i]);
            }
        }
        assert(self.root_values() =~= before.update(slot.0 as int, self.arena.0));
        Ok(())
    }
}

} // verus!
