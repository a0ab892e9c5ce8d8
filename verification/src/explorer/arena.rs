//! The arena: instance-owned source of truth for ownership-bearing roots.
//!
//! Every root has a lifecycle (`Building`, `Pending`, `Ready`, `Failed`,
//! `Cancelled`, `Consumed`, `Tombstone`). Identities are handed out in
//! increasing order and never reused; a deleted root stays as a tombstone so
//! that stale identities keep resolving to a typed error. Each accepted
//! change advances the arena revision and the revision of the changed root
//! only. The arena is generic over the value type it owns and never looks
//! inside a value.
use vstd::prelude::*;
use crate::explorer::ids::SlotId;
use crate::text::{decimal, push_decimal, push_text};
use crate::explorer::revision::{ArenaRevision, ArenaRevisions, RevisionError, RootRevision};

verus! {

/// The lifecycle stage of a root, without its payload.
#[derive(Clone, Copy, Debug, PartialEq, Eq, Structural)]
pub enum SlotStateKind {
    Building,
    Ready,
    Pending,
    Failed,
    Cancelled,
    Consumed,
    Tombstone,
}

impl SlotStateKind {
    /// Display name of the stage.
    pub fn label(self) -> (label: &'static str)
        ensures
            self == SlotStateKind::Building ==> label@ == "Building"@,
            self == SlotStateKind::Ready ==> label@ == "Ready"@,
            self == SlotStateKind::Pending ==> label@ == "Pending"@,
            self == SlotStateKind::Failed ==> label@ == "Failed"@,
            self == SlotStateKind::Cancelled ==> label@ == "Cancelled"@,
            self == SlotStateKind::Consumed ==> label@ == "Consumed"@,
            self == SlotStateKind::Tombstone ==> label@ == "Tombstone"@,
    {
        match self {
            SlotStateKind::Building => "Building",
            SlotStateKind::Ready => "Ready",
            SlotStateKind::Pending => "Pending",
            SlotStateKind::Failed => "Failed",
            SlotStateKind::Cancelled => "Cancelled",
            SlotStateKind::Consumed => "Consumed",
            SlotStateKind::Tombstone => "Tombstone",
        }
    }
}

/// Lifecycle of one ownership-bearing root, with its payload.
pub enum ArenaSlotState<V> {
    Building,
    Ready(V),
    Pending,
    Failed(String),
    Cancelled,
    Consumed,
    Tombstone { previous: SlotStateKind },
}

pub open spec fn kind_of<V>(state: ArenaSlotState<V>) -> SlotStateKind {
    match state {
        ArenaSlotState::Building => SlotStateKind::Building,
        ArenaSlotState::Ready(_) => SlotStateKind::Ready,
        ArenaSlotState::Pending => SlotStateKind::Pending,
        ArenaSlotState::Failed(_) => SlotStateKind::Failed,
        ArenaSlotState::Cancelled => SlotStateKind::Cancelled,
        ArenaSlotState::Consumed => SlotStateKind::Consumed,
        ArenaSlotState::Tombstone { .. } => SlotStateKind::Tombstone,
    }
}

impl<V> ArenaSlotState<V> {
    pub fn kind(&self) -> (kind: SlotStateKind)
        ensures
            kind == kind_of(*self),
    {
        match self {
            ArenaSlotState::Building => SlotStateKind::Building,
            ArenaSlotState::Ready(_) => SlotStateKind::Ready,
            ArenaSlotState::Pending => SlotStateKind::Pending,
            ArenaSlotState::Failed(_) => SlotStateKind::Failed,
            ArenaSlotState::Cancelled => SlotStateKind::Cancelled,
            ArenaSlotState::Consumed => SlotStateKind::Consumed,
            ArenaSlotState::Tombstone { .. } => SlotStateKind::Tombstone,
        }
    }

    /// Display name of the stage.
    pub fn label(&self) -> (label: &'static str)
        ensures
            label@ == self.kind_label_spec(),
    {
        self.kind().label()
    }

    pub open spec fn kind_label_spec(&self) -> Seq<char> {
        match kind_of(*self) {
            SlotStateKind::Building => "Building"@,
            SlotStateKind::Ready => "Ready"@,
            SlotStateKind::Pending => "Pending"@,
            SlotStateKind::Failed => "Failed"@,
            SlotStateKind::Cancelled => "Cancelled"@,
            SlotStateKind::Consumed => "Consumed"@,
            SlotStateKind::Tombstone => "Tombstone"@,
        }
    }

    pub fn ready_value(&self) -> (value: Option<&V>)
        ensures
            match *self {
                ArenaSlotState::Ready(v) => value == Some(&v),
                _ => value is None,
            },
    {
        match self {
            ArenaSlotState::Ready(value) => Some(value),
            _ => None,
        }
    }
}

#[derive(Clone, Copy, Debug, PartialEq, Eq, Structural)]
pub enum ArenaError {
    UnknownSlot(SlotId),
    RootNotReady { slot: SlotId, state: SlotStateKind },
    Tombstone { slot: SlotId, previous: SlotStateKind },
    InvalidTransition { slot: SlotId, from: SlotStateKind, to: SlotStateKind },
    Revision(RevisionError),
}

/// Display name of a lifecycle stage.
pub open spec fn state_label(kind: SlotStateKind) -> Seq<char> {
    match kind {
        SlotStateKind::Building => "Building"@,
        SlotStateKind::Ready => "Ready"@,
        SlotStateKind::Pending => "Pending"@,
        SlotStateKind::Failed => "Failed"@,
        SlotStateKind::Cancelled => "Cancelled"@,
        SlotStateKind::Consumed => "Consumed"@,
        SlotStateKind::Tombstone => "Tombstone"@,
    }
}

impl ArenaError {
    /// The error as a sentence, naming the slot and the states involved.
    pub fn message(&self) -> (message: String)
        ensures
            message@ == match *self {
                ArenaError::UnknownSlot(slot) => "slot "@ + decimal(slot.0 as nat)
                    + " does not exist"@,
                ArenaError::RootNotReady { slot, state } => "slot "@ + decimal(slot.0 as nat)
                    + " is "@ + state_label(state) + ", not Ready"@,
                ArenaError::Tombstone { slot, previous } => "slot "@ + decimal(slot.0 as nat)
                    + " is a tombstone (previous state: "@ + state_label(previous) + ")"@,
                ArenaError::InvalidTransition { slot, from, to } => "slot "@ + decimal(
                    slot.0 as nat,
                ) + " cannot transition from "@ + state_label(from) + " to "@ + state_label(to),
                ArenaError::Revision(_) => "the arena revision counter cannot advance any further"@,
            },
    {
        let mut text = String::new();
        match self {
            ArenaError::UnknownSlot(slot) => {
                push_text(&mut text, "slot ");
                push_decimal(&mut text, slot.0);
                push_text(&mut text, " does not exist");
            },
            ArenaError::RootNotReady { slot, state } => {
                push_text(&mut text, "slot ");
                push_decimal(&mut text, slot.0);
                push_text(&mut text, " is ");
                push_text(&mut text, state.label());
                push_text(&mut text, ", not Ready");
            },
            ArenaError::Tombstone { slot, previous } => {
                push_text(&mut text, "slot ");
                push_decimal(&mut text, slot.0);
                push_text(&mut text, " is a tombstone (previous state: ");
                push_text(&mut text, previous.label());
                push_text(&mut text, ")");
            },
            ArenaError::InvalidTransition { slot, from, to } => {
                push_text(&mut text, "slot ");
                push_decimal(&mut text, slot.0);
                push_text(&mut text, " cannot transition from ");
                push_text(&mut text, from.label());
                push_text(&mut text, " to ");
                push_text(&mut text, to.label());
            },
            ArenaError::Revision(error) => {
                let message = error.message();
                push_text(&mut text, message.as_str());
            },
        }
        assert(text@ =~= match *self {
            ArenaError::UnknownSlot(slot) => "slot "@ + decimal(slot.0 as nat) + " does not exist"@,
            ArenaError::RootNotReady { slot, state } => "slot "@ + decimal(slot.0 as nat) + " is "@
                + state_label(state) + ", not Ready"@,
            ArenaError::Tombstone { slot, previous } => "slot "@ + decimal(slot.0 as nat)
                + " is a tombstone (previous state: "@ + state_label(previous) + ")"@,
            ArenaError::InvalidTransition { slot, from, to } => "slot "@ + decimal(slot.0 as nat)
                + " cannot transition from "@ + state_label(from) + " to "@ + state_label(to),
            ArenaError::Revision(_) => "the arena revision counter cannot advance any further"@,
        });
        text
    }
}

/// One root: its identity and its lifecycle state.
pub struct ArenaSlot<V> {
    pub id: SlotId,
    pub state: ArenaSlotState<V>,
}

impl<V> ArenaSlot<V> {
    pub fn new(id: SlotId, state: ArenaSlotState<V>) -> (slot: ArenaSlot<V>)
        ensures
            slot.id == id,
            slot.state == state,
    {
        ArenaSlot { id, state }
    }

    pub fn id(&self) -> (id: SlotId)
        ensures
            id == self.id,
    {
        self.id
    }

    pub fn state(&self) -> (state: &ArenaSlotState<V>)
        ensures
            *state == self.state,
    {
        &self.state
    }

    pub fn replace_state(&mut self, state: ArenaSlotState<V>) -> (previous: ArenaSlotState<V>)
        ensures
            final(self).id == old(self).id,
            final(self).state == state,
            previous == old(self).state,
    {
        let mut previous = state;
        std::mem::swap(&mut self.state, &mut previous);
        previous
    }
}

/// Mathematical state of an arena: the state of every root (indexed by
/// identity), the arena revision, and the revision of every root.
pub struct ArenaView<V> {
    pub states: Seq<ArenaSlotState<V>>,
    pub arena_revision: u64,
    pub root_revisions: Seq<u64>,
}

/// Why `slot` cannot move to stage `to` when its current stage must satisfy
/// `allowed`; `None` when it can.
pub open spec fn transition_error<V>(
    arena: ArenaView<V>,
    slot: SlotId,
    allowed: spec_fn(SlotStateKind) -> bool,
    to: SlotStateKind,
) -> Option<ArenaError> {
    if slot.0 >= arena.states.len() {
        Some(ArenaError::UnknownSlot(slot))
    } else if !allowed(kind_of(arena.states[slot.0 as int])) {
        Some(
            ArenaError::InvalidTransition {
                slot,
                from: kind_of(arena.states[slot.0 as int]),
                to,
            },
        )
    } else {
        None
    }
}

/// `after` is `before` with root `slot` moved to `state`; the arena and that
/// root advance their revisions unless the revision space is exhausted.
pub open spec fn root_changed<V>(
    before: ArenaView<V>,
    after: ArenaView<V>,
    slot: int,
    state: ArenaSlotState<V>,
) -> bool {
    &&& after.states == before.states.update(slot, state)
    &&& before.arena_revision < u64::MAX ==> {
        &&& after.arena_revision == before.arena_revision + 1
        &&& after.root_revisions == before.root_revisions.update(slot, after.arena_revision)
    }
    &&& before.arena_revision == u64::MAX ==> {
        &&& after.arena_revision == before.arena_revision
        &&& after.root_revisions == before.root_revisions
    }
}

/// `after` is `before` with a new root in `state` appended, unless the
/// revision space is exhausted (then nothing changes).
pub open spec fn root_inserted<V>(
    before: ArenaView<V>,
    after: ArenaView<V>,
    state: ArenaSlotState<V>,
) -> bool {
    &&& before.arena_revision < u64::MAX ==> {
        &&& after.states == before.states.push(state)
        &&& after.arena_revision == before.arena_revision + 1
        &&& after.root_revisions == before.root_revisions.push(after.arena_revision)
    }
    &&& before.arena_revision == u64::MAX ==> after == before
}

pub open spec fn is_building_or_pending(kind: SlotStateKind) -> bool {
    kind == SlotStateKind::Building || kind == SlotStateKind::Pending
}

pub open spec fn is_ready(kind: SlotStateKind) -> bool {
    kind == SlotStateKind::Ready
}

pub open spec fn is_deletable(kind: SlotStateKind) -> bool {
    kind == SlotStateKind::Ready || kind == SlotStateKind::Failed || kind
        == SlotStateKind::Cancelled
}

pub open spec fn is_building(kind: SlotStateKind) -> bool {
    kind == SlotStateKind::Building
}

pub open spec fn is_pending(kind: SlotStateKind) -> bool {
    kind == SlotStateKind::Pending
}

pub struct Arena<V> {
    slots: Vec<ArenaSlot<V>>,
    revisions: ArenaRevisions,
}

impl<V> View for Arena<V> {
    type V = ArenaView<V>;

    closed spec fn view(&self) -> ArenaView<V> {
        ArenaView {
            states: self.slots@.map_values(|slot: ArenaSlot<V>| slot.state),
            arena_revision: self.revisions.arena_value(),
            root_revisions: self.revisions.root_values(),
        }
    }
}

impl<V> Default for Arena<V> {
    fn default() -> (arena: Arena<V>)
        ensures
            arena.wf(),
            arena@.states == Seq::<ArenaSlotState<V>>::empty(),
            arena@.arena_revision == 0,
            arena@.root_revisions == Seq::<u64>::empty(),
    {
        let arena = Arena { slots: Vec::new(), revisions: ArenaRevisions::default() };
        assert(arena@.states =~= Seq::<ArenaSlotState<V>>::empty());
        arena
    }
}

impl<V> Arena<V> {
    /// Slots sit at their identity, one revision per root, and the arena has
    /// advanced at least once per root.
    pub closed spec fn wf(&self) -> bool {
        &&& forall|i: int| 0 <= i < self.slots@.len() ==> #[trigger] self.slots@[i].id.0 == i
        &&& self.revisions.wf()
        &&& self.revisions.root_values().len() == self.slots@.len()
        &&& self.slots@.len() <= self.revisions.arena_value()
    }

    /// A well-formed arena records exactly one revision per root.
    pub proof fn lemma_one_revision_per_root(&self)
        requires
            self.wf(),
        ensures
            self@.root_revisions.len() == self@.states.len(),
            self@.states.len() <= u64::MAX,
    {
    }

    proof fn lemma_view(&self, i: int)
        requires
            0 <= i < self.slots@.len(),
        ensures
            self@.states.len() == self.slots@.len(),
            self@.states[i] == self.slots@[i].state,
    {
    }

    fn locate(&self, slot_id: SlotId) -> (index: Option<usize>)
        requires
            self.wf(),
        ensures
            self@.states.len() == self.slots@.len(),
            match index {
                Some(i) => i == slot_id.0 && i < self.slots@.len(),
                None => slot_id.0 >= self@.states.len(),
            },
    {
        if slot_id.0 < self.slots.len() as u64 {
            Some(slot_id.0 as usize)
        } else {
            None
        }
    }

    /// Replaces the state of the root at `index` and records the change.
    fn change_root(&mut self, index: usize, state: ArenaSlotState<V>) -> (result: (
        ArenaSlotState<V>,
        Result<(), ArenaError>,
    ))
        requires
            old(self).wf(),
            index < old(self)@.states.len(),
        ensures
            final(self).wf(),
            root_changed(old(self)@, final(self)@, index as int, state),
            result.0 == old(self)@.states[index as int],
            result.1 is Ok <==> old(self)@.arena_revision < u64::MAX,
            result.1 is Err ==> result.1 == Err::<(), ArenaError>(
                ArenaError::Revision(RevisionError::Exhausted),
            ),
    {
        proof {
            self.lemma_view(index as int);
        }
        let ghost before = self.slots@;
        let id = self.slots[index].id;
        let mut slot = ArenaSlot { id, state };
        self.slots.set_and_swap(index, &mut slot);
        proof {
            assert(self@.states =~= old(self)@.states.update(index as int, state));
            assert forall|i: int| 0 <= i < self.slots@.len() implies #[trigger] self.slots@[i].id.0
                == i by {
                if i != index as int {
                    assert(self.slots@[i] == before[i]);
                }
            }
        }
        let result = match self.revisions.ingest_root_change(id) {
            Ok(()) => Ok(()),
            Err(error) => Err(ArenaError::Revision(error)),
        };
        (slot.state, result)
    }

    fn insert_state(&mut self, state: ArenaSlotState<V>) -> (result: Result<SlotId, ArenaError>)
        requires
            old(self).wf(),
        ensures
            final(self).wf(),
            root_inserted(old(self)@, final(self)@, state),
            old(self)@.arena_revision < u64::MAX ==> result == Ok::<SlotId, ArenaError>(
                SlotId(old(self)@.states.len() as u64),
            ),
            old(self)@.arena_revision == u64::MAX ==> result == Err::<SlotId, ArenaError>(
                ArenaError::Revision(RevisionError::Exhausted),
            ),
    {
        let ghost before = self.slots@;
        let slot_id = SlotId::new(self.slots.len() as u64);
        match self.revisions.ingest_root_insert(slot_id) {
            Ok(()) => {},
            Err(error) => {
                return Err(ArenaError::Revision(error));
            },
        }
        self.slots.push(ArenaSlot::new(slot_id, state));
        proof {
            assert(self@.states =~= old(self)@.states.push(state));
            assert forall|i: int| 0 <= i < self.slots@.len() implies #[trigger] self.slots@[i].id.0
                == i by {
                if i < before.len() {
                    assert(self.slots@[i] == before[i]);
                }
            }
        }
        Ok(slot_id)
    }

    /// Reserves a root whose value is still being built.
    pub fn reserve_builder(&mut self) -> (result: Result<SlotId, ArenaError>)
        requires
            old(self).wf(),
        ensures
            final(self).wf(),
            root_inserted(old(self)@, final(self)@, ArenaSlotState::Building),
            old(self)@.arena_revision < u64::MAX ==> result == Ok::<SlotId, ArenaError>(
                SlotId(old(self)@.states.len() as u64),
            ),
            old(self)@.arena_revision == u64::MAX ==> result == Err::<SlotId, ArenaError>(
                ArenaError::Revision(RevisionError::Exhausted),
            ),
    {
        self.insert_state(ArenaSlotState::Building)
    }

    /// Inserts a root whose value an invocation will produce.
    pub fn insert_pending(&mut self) -> (result: Result<SlotId, ArenaError>)
        requires
            old(self).wf(),
        ensures
            final(self).wf(),
            root_inserted(old(self)@, final(self)@, ArenaSlotState::Pending),
            old(self)@.arena_revision < u64::MAX ==> result == Ok::<SlotId, ArenaError>(
                SlotId(old(self)@.states.len() as u64),
            ),
            old(self)@.arena_revision == u64::MAX ==> result == Err::<SlotId, ArenaError>(
                ArenaError::Revision(RevisionError::Exhausted),
            ),
    {
        self.insert_state(ArenaSlotState::Pending)
    }

    /// Inserts a root that owns `value`.
    pub fn insert_ready(&mut self, value: V) -> (result: Result<SlotId, ArenaError>)
        requires
            old(self).wf(),
        ensures
            final(self).wf(),
            root_inserted(old(self)@, final(self)@, ArenaSlotState::Ready(value)),
            old(self)@.arena_revision < u64::MAX ==> result == Ok::<SlotId, ArenaError>(
                SlotId(old(self)@.states.len() as u64),
            ),
            old(self)@.arena_revision == u64::MAX ==> result == Err::<SlotId, ArenaError>(
                ArenaError::Revision(RevisionError::Exhausted),
            ),
    {
        self.insert_state(ArenaSlotState::Ready(value))
    }

    /// Completes a building or pending root with `value`.
    pub fn set_ready(&mut self, slot_id: SlotId, value: V) -> (result: Result<(), ArenaError>)
        requires
            old(self).wf(),
        ensures
            final(self).wf(),
            match transition_error(
                old(self)@,
                slot_id,
                |k: SlotStateKind| is_building_or_pending(k),
                SlotStateKind::Ready,
            ) {
                Some(error) => result == Err::<(), ArenaError>(error) && final(self)@ == old(self)@,
                None => {
                    &&& root_changed(old(self)@, final(self)@, slot_id.0 as int, ArenaSlotState::Ready(value))
                    &&& result is Ok <==> old(self)@.arena_revision < u64::MAX
                    &&& result is Err ==> result == Err::<(), ArenaError>(
                        ArenaError::Revision(RevisionError::Exhausted),
                    )
                },
            },
    {
        let index = match self.locate(slot_id) {
            Some(index) => index,
            None => return Err(ArenaError::UnknownSlot(slot_id)),
        };
        proof {
            self.lemma_view(index as int);
        }
        let kind = self.slots[index].state.kind();
        if !is_building_or_pending_exec(kind) {
            return Err(ArenaError::InvalidTransition { slot: slot_id, from: kind, to: SlotStateKind::Ready });
        }
        let (_previous, result) = self.change_root(index, ArenaSlotState::Ready(value));
        result
    }

    /// Records that a building or pending root failed with `message`.
    pub fn set_failed(&mut self, slot_id: SlotId, message: String) -> (result: Result<(), ArenaError>)
        requires
            old(self).wf(),
        ensures
            final(self).wf(),
            match transition_error(
                old(self)@,
                slot_id,
                |k: SlotStateKind| is_building_or_pending(k),
                SlotStateKind::Failed,
            ) {
                Some(error) => result == Err::<(), ArenaError>(error) && final(self)@ == old(self)@,
                None => {
                    &&& root_changed(old(self)@, final(self)@, slot_id.0 as int, ArenaSlotState::Failed(message))
                    &&& result is Ok <==> old(self)@.arena_revision < u64::MAX
                    &&& result is Err ==> result == Err::<(), ArenaError>(
                        ArenaError::Revision(RevisionError::Exhausted),
                    )
                },
            },
    {
        let index = match self.locate(slot_id) {
            Some(index) => index,
            None => return Err(ArenaError::UnknownSlot(slot_id)),
        };
        proof {
            self.lemma_view(index as int);
        }
        let kind = self.slots[index].state.kind();
        if !is_building_or_pending_exec(kind) {
            return Err(ArenaError::InvalidTransition { slot: slot_id, from: kind, to: SlotStateKind::Failed });
        }
        let (_previous, result) = self.change_root(index, ArenaSlotState::Failed(message));
        result
    }

    /// Cancels a pending root.
    pub fn cancel_pending(&mut self, slot_id: SlotId) -> (result: Result<(), ArenaError>)
        requires
            old(self).wf(),
        ensures
            final(self).wf(),
            match transition_error(
                old(self)@,
                slot_id,
                |k: SlotStateKind| is_pending(k),
                SlotStateKind::Cancelled,
            ) {
                Some(error) => result == Err::<(), ArenaError>(error) && final(self)@ == old(self)@,
                None => {
                    &&& root_changed(old(self)@, final(self)@, slot_id.0 as int, ArenaSlotState::Cancelled)
                    &&& result is Ok <==> old(self)@.arena_revision < u64::MAX
                    &&& result is Err ==> result == Err::<(), ArenaError>(
                        ArenaError::Revision(RevisionError::Exhausted),
                    )
                },
            },
    {
        let index = match self.locate(slot_id) {
            Some(index) => index,
            None => return Err(ArenaError::UnknownSlot(slot_id)),
        };
        proof {
            self.lemma_view(index as int);
        }
        let kind = self.slots[index].state.kind();
        if !is_pending_exec(kind) {
            return Err(ArenaError::InvalidTransition { slot: slot_id, from: kind, to: SlotStateKind::Cancelled });
        }
        let (_previous, result) = self.change_root(index, ArenaSlotState::Cancelled);
        result
    }

    /// Tombstones an incomplete root after its builder is dropped; only a
    /// building root can be abandoned.
    pub fn abandon_builder(&mut self, slot_id: SlotId) -> (result: Result<(), ArenaError>)
        requires
            old(self).wf(),
        ensures
            final(self).wf(),
            match transition_error(
                old(self)@,
                slot_id,
                |k: SlotStateKind| is_building(k),
                SlotStateKind::Tombstone,
            ) {
                Some(error) => result == Err::<(), ArenaError>(error) && final(self)@ == old(self)@,
                None => {
                    &&& root_changed(old(self)@, final(self)@, slot_id.0 as int, ArenaSlotState::Tombstone { previous: SlotStateKind::Building })
                    &&& result is Ok <==> old(self)@.arena_revision < u64::MAX
                    &&& result is Err ==> result == Err::<(), ArenaError>(
                        ArenaError::Revision(RevisionError::Exhausted),
                    )
                },
            },
    {
        let index = match self.locate(slot_id) {
            Some(index) => index,
            None => return Err(ArenaError::UnknownSlot(slot_id)),
        };
        proof {
            self.lemma_view(index as int);
        }
        let kind = self.slots[index].state.kind();
        if !is_building_exec(kind) {
            return Err(ArenaError::InvalidTransition { slot: slot_id, from: kind, to: SlotStateKind::Tombstone });
        }
        let (_previous, result) = self.change_root(index, ArenaSlotState::Tombstone { previous: SlotStateKind::Building });
        result
    }

    /// Tombstones a ready, failed or cancelled root. The identity stays
    /// allocated and keeps resolving to a tombstone error.
    pub fn delete(&mut self, slot_id: SlotId) -> (result: Result<(), ArenaError>)
        requires
            old(self).wf(),
        ensures
            final(self).wf(),
            match transition_error(
                old(self)@,
                slot_id,
                |k: SlotStateKind| is_deletable(k),
                SlotStateKind::Tombstone,
            ) {
                Some(error) => result == Err::<(), ArenaError>(error) && final(self)@ == old(self)@,
                None => {
                    &&& root_changed(
                        old(self)@,
                        final(self)@,
                        slot_id.0 as int,
                        ArenaSlotState::Tombstone {
                            previous: kind_of(old(self)@.states[slot_id.0 as int]),
                        },
                    )
                    &&& result is Ok <==> old(self)@.arena_revision < u64::MAX
                    &&& result is Err ==> result == Err::<(), ArenaError>(
                        ArenaError::Revision(RevisionError::Exhausted),
                    )
                },
            },
    {
        let index = match self.locate(slot_id) {
            Some(index) => index,
            None => return Err(ArenaError::UnknownSlot(slot_id)),
        };
        proof {
            self.lemma_view(index as int);
        }
        let kind = self.slots[index].state.kind();
        if !is_deletable_exec(kind) {
            return Err(
                ArenaError::InvalidTransition {
                    slot: slot_id,
                    from: kind,
                    to: SlotStateKind::Tombstone,
                },
            );
        }
        let (_previous, result) = self.change_root(
            index,
            ArenaSlotState::Tombstone { previous: kind },
        );
        result
    }

    /// Replaces the value of a ready root after an explicit in-place
    /// mutation, returning the previous value.
    pub fn replace_ready(&mut self, slot_id: SlotId, value: V) -> (result: Result<V, ArenaError>)
        requires
            old(self).wf(),
        ensures
            final(self).wf(),
            match transition_error(
                old(self)@,
                slot_id,
                |k: SlotStateKind| is_ready(k),
                SlotStateKind::Ready,
            ) {
                Some(error) => result == Err::<V, ArenaError>(error) && final(self)@ == old(self)@,
                None => {
                    &&& root_changed(
                        old(self)@,
                        final(self)@,
                        slot_id.0 as int,
                        ArenaSlotState::Ready(value),
                    )
                    &&& old(self)@.arena_revision < u64::MAX ==> old(
                        self,
                    )@.states[slot_id.0 as int] == ArenaSlotState::Ready(result->Ok_0)
                    &&& result is Ok <==> old(self)@.arena_revision < u64::MAX
                    &&& result is Err ==> result == Err::<V, ArenaError>(
                        ArenaError::Revision(RevisionError::Exhausted),
                    )
                },
            },
    {
        let index = match self.locate(slot_id) {
            Some(index) => index,
            None => return Err(ArenaError::UnknownSlot(slot_id)),
        };
        proof {
            self.lemma_view(index as int);
        }
        let kind = self.slots[index].state.kind();
        if !is_ready_exec(kind) {
            return Err(
                ArenaError::InvalidTransition { slot: slot_id, from: kind, to: SlotStateKind::Ready },
            );
        }
        let (previous, result) = self.change_root(index, ArenaSlotState::Ready(value));
        match previous {
            ArenaSlotState::Ready(previous) => match result {
                Ok(()) => Ok(previous),
                Err(error) => Err(error),
            },
            _ => {
                proof {
                    assert(false);
                }
                Err(ArenaError::UnknownSlot(slot_id))
            },
        }
    }

    /// Moves the value out of a ready root, which becomes consumed.
    pub fn consume(&mut self, slot_id: SlotId) -> (result: Result<V, ArenaError>)
        requires
            old(self).wf(),
        ensures
            final(self).wf(),
            match transition_error(
                old(self)@,
                slot_id,
                |k: SlotStateKind| is_ready(k),
                SlotStateKind::Consumed,
            ) {
                Some(error) => result == Err::<V, ArenaError>(error) && final(self)@ == old(self)@,
                None => {
                    &&& root_changed(
                        old(self)@,
                        final(self)@,
                        slot_id.0 as int,
                        ArenaSlotState::Consumed,
                    )
                    &&& old(self)@.arena_revision < u64::MAX ==> old(
                        self,
                    )@.states[slot_id.0 as int] == ArenaSlotState::Ready(result->Ok_0)
                    &&& result is Ok <==> old(self)@.arena_revision < u64::MAX
                    &&& result is Err ==> result == Err::<V, ArenaError>(
                        ArenaError::Revision(RevisionError::Exhausted),
                    )
                },
            },
    {
        let index = match self.locate(slot_id) {
            Some(index) => index,
            None => return Err(ArenaError::UnknownSlot(slot_id)),
        };
        proof {
            self.lemma_view(index as int);
        }
        let kind = self.slots[index].state.kind();
        if !is_ready_exec(kind) {
            return Err(
                ArenaError::InvalidTransition {
                    slot: slot_id,
                    from: kind,
                    to: SlotStateKind::Consumed,
                },
            );
        }
        let (previous, result) = self.change_root(index, ArenaSlotState::Consumed);
        match previous {
            ArenaSlotState::Ready(value) => match result {
                Ok(()) => Ok(value),
                Err(error) => Err(error),
            },
            _ => {
                proof {
                    assert(false);
                }
                Err(ArenaError::UnknownSlot(slot_id))
            },
        }
    }

    /// The root with identity `slot_id`, tombstones included.
    pub fn slot(&self, slot_id: SlotId) -> (slot: Option<&ArenaSlot<V>>)
        requires
            self.wf(),
        ensures
            slot_id.0 < self@.states.len() ==> (slot matches Some(s) && s.id == slot_id && s.state
                == self@.states[slot_id.0 as int]),
            slot_id.0 >= self@.states.len() ==> slot is None,
    {
        match self.locate(slot_id) {
            Some(index) => {
                proof {
                    self.lemma_view(index as int);
                    assert(self.slots@[index as int].id.0 == index as int);
                }
                Some(&self.slots[index])
            },
            None => None,
        }
    }

    /// The value a ready root owns.
    pub fn resolve_root(&self, slot_id: SlotId) -> (result: Result<&V, ArenaError>)
        requires
            self.wf(),
        ensures
            slot_id.0 >= self@.states.len() ==> result == Err::<&V, ArenaError>(
                ArenaError::UnknownSlot(slot_id),
            ),
            slot_id.0 < self@.states.len() ==> match self@.states[slot_id.0 as int] {
                ArenaSlotState::Ready(v) => result == Ok::<&V, ArenaError>(&v),
                ArenaSlotState::Tombstone { previous } => result == Err::<&V, ArenaError>(
                    ArenaError::Tombstone { slot: slot_id, previous },
                ),
                state => result == Err::<&V, ArenaError>(
                    ArenaError::RootNotReady { slot: slot_id, state: kind_of(state) },
                ),
            },
    {
        let index = match self.locate(slot_id) {
            Some(index) => index,
            None => return Err(ArenaError::UnknownSlot(slot_id)),
        };
        proof {
            self.lemma_view(index as int);
        }
        match &self.slots[index].state {
            ArenaSlotState::Ready(value) => Ok(value),
            ArenaSlotState::Tombstone { previous } => Err(
                ArenaError::Tombstone { slot: slot_id, previous: *previous },
            ),
            state => Err(ArenaError::RootNotReady { slot: slot_id, state: state.kind() }),
        }
    }

    /// The value of `slot_id` when it is a ready root.
    pub fn ready_value(&self, slot_id: SlotId) -> (value: Option<&V>)
        requires
            self.wf(),
        ensures
            slot_id.0 < self@.states.len() && self@.states[slot_id.0 as int] is Ready ==> value
                == Some(&self@.states[slot_id.0 as int]->Ready_0),
            !(slot_id.0 < self@.states.len() && self@.states[slot_id.0 as int] is Ready)
                ==> value is None,
    {
        match self.resolve_root(slot_id) {
            Ok(value) => Some(value),
            Err(_) => None,
        }
    }

    /// Identities of the ready roots, in increasing order.
    pub fn ready_slot_ids(&self) -> (ids: Vec<SlotId>)
        requires
            self.wf(),
        ensures
            ids@ == ids_where(self@.states, true),
            forall|i: int| 0 <= i < self@.states.len() ==> (ids@.contains(SlotId(i as u64))
                <==> self@.states[i] is Ready),
            forall|k: int| 0 <= k < ids@.len() ==> ids@[k].0 < self@.states.len(),
            forall|a: int, b: int| 0 <= a < b < ids@.len() ==> ids@[a].0 < ids@[b].0,
    {
        proof {
            self.lemma_one_revision_per_root();
            law_listed_roots(self@.states, true);
        }
        self.ids_matching(true)
    }

    /// Identities of the roots the object pool shows: every root but
    /// tombstones, in increasing order.
    pub fn object_pool_slot_ids(&self) -> (ids: Vec<SlotId>)
        requires
            self.wf(),
        ensures
            ids@ == ids_where(self@.states, false),
            forall|i: int| 0 <= i < self@.states.len() ==> (ids@.contains(SlotId(i as u64))
                <==> !(self@.states[i] is Tombstone)),
            forall|k: int| 0 <= k < ids@.len() ==> ids@[k].0 < self@.states.len(),
            forall|a: int, b: int| 0 <= a < b < ids@.len() ==> ids@[a].0 < ids@[b].0,
    {
        proof {
            self.lemma_one_revision_per_root();
            law_listed_roots(self@.states, false);
        }
        self.ids_matching(false)
    }

    fn ids_matching(&self, ready_only: bool) -> (ids: Vec<SlotId>)
        requires
            self.wf(),
        ensures
            ids@ == ids_where(self@.states, ready_only),
    {
        let mut ids: Vec<SlotId> = Vec::new();
        let mut i: usize = 0;
        while i < self.slots.len()
            invariant
                self.wf(),
                i <= self.slots@.len(),
                self@.states.len() == self.slots@.len(),
                ids@ == ids_where(self@.states.take(i as int), ready_only),
            decreases self.slots.len() - i,
        {
            proof {
                self.lemma_view(i as int);
                assert(self@.states.take(i + 1).drop_last() =~= self@.states.take(i as int));
                assert(self@.states.take(i + 1).last() == self.slots@[i as int].state);
                assert(self.slots@[i as int].id.0 == i as int);
            }
            let kind = self.slots[i].state.kind();
            let wanted = if ready_only {
                is_ready_exec(kind)
            } else {
                kind != SlotStateKind::Tombstone
            };
            if wanted {
                ids.push(self.slots[i].id);
            }
            i = i + 1;
        }
        assert(self@.states.take(i as int) =~= self@.states);
        ids
    }

    /// Number of identities handed out, tombstones included.
    pub fn allocated_slot_count(&self) -> (count: usize)
        requires
            self.wf(),
        ensures
            count == self@.states.len(),
    {
        self.slots.len()
    }

    pub fn arena_revision(&self) -> (revision: ArenaRevision)
        ensures
            revision.0 == self@.arena_revision,
    {
        self.revisions.arena_revision()
    }

    pub fn root_revision(&self, slot_id: SlotId) -> (revision: Option<RootRevision>)
        ensures
            slot_id.0 < self@.root_revisions.len() ==> revision == Some(
                RootRevision(self@.root_revisions[slot_id.0 as int]),
            ),
            slot_id.0 >= self@.root_revisions.len() ==> revision is None,
    {
        self.revisions.root_revision(slot_id)
    }

    /// The revisions this arena records.
    pub fn revisions(&self) -> (revisions: &ArenaRevisions)
        ensures
            revisions.arena_value() == self@.arena_revision,
            revisions.root_values() == self@.root_revisions,
    {
        &self.revisions
    }
}

/// Whether a root in stage `kind` is listed: only ready roots when
/// `ready_only`, otherwise every root but tombstones.
pub open spec fn listed(kind: SlotStateKind, ready_only: bool) -> bool {
    if ready_only {
        kind == SlotStateKind::Ready
    } else {
        kind != SlotStateKind::Tombstone
    }
}

/// Identities, in increasing order, of the listed roots.
pub open spec fn ids_where<V>(states: Seq<ArenaSlotState<V>>, ready_only: bool) -> Seq<SlotId>
    decreases states.len(),
{
    if states.len() == 0 {
        Seq::empty()
    } else {
        let rest = ids_where(states.drop_last(), ready_only);
        if listed(kind_of(states.last()), ready_only) {
            rest.push(SlotId((states.len() - 1) as u64))
        } else {
            rest
        }
    }
}

/// The object pool lists every root that is not a tombstone (building,
/// pending, ready, failed, cancelled and consumed roots alike), the ready
/// list exactly the ready roots; each root at most once, by its own
/// identity, in increasing order.
pub proof fn law_listed_roots<V>(states: Seq<ArenaSlotState<V>>, ready_only: bool)
    requires
        states.len() <= u64::MAX,
    ensures
        forall|i: int| 0 <= i < states.len() ==> (ids_where(states, false).contains(SlotId(i as u64))
            <==> !(states[i] is Tombstone)),
        forall|i: int| 0 <= i < states.len() ==> (ids_where(states, true).contains(SlotId(i as u64))
            <==> states[i] is Ready),
        forall|k: int| 0 <= k < ids_where(states, ready_only).len() ==> ids_where(states, ready_only)[k].0
            < states.len(),
        forall|a: int, b: int| 0 <= a < b < ids_where(states, ready_only).len() ==> ids_where(
            states,
            ready_only,
        )[a].0 < ids_where(states, ready_only)[b].0,
{
    lemma_ids_where(states, false);
    lemma_ids_where(states, true);
}

proof fn lemma_ids_where<V>(states: Seq<ArenaSlotState<V>>, ready_only: bool)
    requires
        states.len() <= u64::MAX,
    ensures
        forall|i: int| 0 <= i < states.len() ==> (ids_where(states, ready_only).contains(SlotId(i as u64))
            <==> (if ready_only { states[i] is Ready } else { !(states[i] is Tombstone) })),
        forall|k: int| 0 <= k < ids_where(states, ready_only).len() ==> ids_where(states, ready_only)[k].0
            < states.len(),
        forall|a: int, b: int| 0 <= a < b < ids_where(states, ready_only).len() ==> ids_where(
            states,
            ready_only,
        )[a].0 < ids_where(states, ready_only)[b].0,
    decreases states.len(),
{
    if states.len() > 0 {
        let front = states.drop_last();
        lemma_ids_where(front, ready_only);
        let rest = ids_where(front, ready_only);
        let n = states.len() - 1;
        let whole = ids_where(states, ready_only);
        assert forall|i: int| 0 <= i < states.len() implies (whole.contains(SlotId(i as u64)) <==> (
        if ready_only { states[i] is Ready } else { !(states[i] is Tombstone) })) by {
            if i < n {
                assert(front[i] == states[i]);
                if whole.contains(SlotId(i as u64)) {
                    let k = choose|k: int| 0 <= k < whole.len() && whole[k] == SlotId(i as u64);
                    if k < rest.len() {
                        assert(rest[k] == whole[k]);
                    }
                }
                if rest.contains(SlotId(i as u64)) {
                    let k = choose|k: int| 0 <= k < rest.len() && rest[k] == SlotId(i as u64);
                    assert(whole[k] == rest[k]);
                }
            } else {
                if rest.contains(SlotId(i as u64)) {
                    let k = choose|k: int| 0 <= k < rest.len() && rest[k] == SlotId(i as u64);
                    assert(rest[k].0 < front.len());
                }
                if listed(kind_of(states.last()), ready_only) {
                    assert(whole[whole.len() - 1] == SlotId(n as u64));
                } else if whole.contains(SlotId(i as u64)) {
                    let k = choose|k: int| 0 <= k < whole.len() && whole[k] == SlotId(i as u64);
                    assert(rest[k].0 < front.len());
                }
            }
        }
    }
}

fn is_building_or_pending_exec(kind: SlotStateKind) -> (r: bool)
    ensures
        r == is_building_or_pending(kind),
{
    kind == SlotStateKind::Building || kind == SlotStateKind::Pending
}

fn is_ready_exec(kind: SlotStateKind) -> (r: bool)
    ensures
        r == is_ready(kind),
{
    kind == SlotStateKind::Ready
}

fn is_deletable_exec(kind: SlotStateKind) -> (r: bool)
    ensures
        r == is_deletable(kind),
{
    kind == SlotStateKind::Ready || kind == SlotStateKind::Failed || kind == SlotStateKind::Cancelled
}

fn is_building_exec(kind: SlotStateKind) -> (r: bool)
    ensures
        r == is_building(kind),
{
    kind == SlotStateKind::Building
}

fn is_pending_exec(kind: SlotStateKind) -> (r: bool)
    ensures
        r == is_pending(kind),
{
    kind == SlotStateKind::Pending
}

/// Law: a newly inserted root gets an identity no existing root has (the
/// next one in order), and every existing root keeps its state and revision.
pub proof fn law_inserted_identity_is_fresh<V>(
    before: ArenaView<V>,
    after: ArenaView<V>,
    state: ArenaSlotState<V>,
)
    requires
        root_inserted(before, after, state),
        before.arena_revision < u64::MAX,
    ensures
        after.states.len() == before.states.len() + 1,
        after.states[before.states.len() as int] == state,
        forall|i: int| 0 <= i < before.states.len() ==> #[trigger] after.states[i] == before.states[i],
        forall|i: int|
            0 <= i < before.root_revisions.len() ==> #[trigger] after.root_revisions[i]
                == before.root_revisions[i],
        after.arena_revision > before.arena_revision,
{
}

/// Law: an accepted change advances the arena revision and the revision of
/// the changed root; every other root keeps its state and revision.
pub proof fn law_change_advances_only_the_addressed_root<V>(
    before: ArenaView<V>,
    after: ArenaView<V>,
    slot: int,
    state: ArenaSlotState<V>,
)
    requires
        0 <= slot < before.states.len(),
        before.root_revisions.len() == before.states.len(),
        forall|i: int| 0 <= i < before.root_revisions.len() ==> #[trigger] before.root_revisions[i] <= before.arena_revision,
        root_changed(before, after, slot, state),
        before.arena_revision < u64::MAX,
    ensures
        after.arena_revision > before.arena_revision,
        after.root_revisions[slot] > before.root_revisions[slot],
        forall|i: int|
            0 <= i < before.states.len() && i != slot ==> #[trigger] after.states[i] == before.states[i]
                && after.root_revisions[i] == before.root_revisions[i],
{
}

/// Law: a tombstone is terminal; no lifecycle operation accepts it, and
/// each refuses with a typed transition error naming the tombstone.
pub proof fn law_tombstones_are_terminal<V>(arena: ArenaView<V>, slot: SlotId)
    requires
        slot.0 < arena.states.len(),
        arena.states[slot.0 as int] is Tombstone,
    ensures
        transition_error(arena, slot, |k: SlotStateKind| is_building_or_pending(k), SlotStateKind::Ready)
            == Some(ArenaError::InvalidTransition { slot, from: SlotStateKind::Tombstone, to: SlotStateKind::Ready }),
        transition_error(arena, slot, |k: SlotStateKind| is_building_or_pending(k), SlotStateKind::Failed) is Some,
        transition_error(arena, slot, |k: SlotStateKind| is_pending(k), SlotStateKind::Cancelled) is Some,
        transition_error(arena, slot, |k: SlotStateKind| is_building(k), SlotStateKind::Tombstone) is Some,
        transition_error(arena, slot, |k: SlotStateKind| is_deletable(k), SlotStateKind::Tombstone)
            == Some(ArenaError::InvalidTransition { slot, from: SlotStateKind::Tombstone, to: SlotStateKind::Tombstone }),
        transition_error(arena, slot, |k: SlotStateKind| is_ready(k), SlotStateKind::Ready) is Some,
        transition_error(arena, slot, |k: SlotStateKind| is_ready(k), SlotStateKind::Consumed) is Some,
{
}

/// Law: a ready value is never silently replaced by completion; only the
/// explicit replacement operation may change it.
pub proof fn law_ready_values_are_not_silently_replaced<V>(arena: ArenaView<V>, slot: SlotId)
    requires
        slot.0 < arena.states.len(),
        arena.states[slot.0 as int] is Ready,
    ensures
        transition_error(arena, slot, |k: SlotStateKind| is_building_or_pending(k), SlotStateKind::Ready)
            == Some(ArenaError::InvalidTransition { slot, from: SlotStateKind::Ready, to: SlotStateKind::Ready }),
        transition_error(arena, slot, |k: SlotStateKind| is_ready(k), SlotStateKind::Ready) is None,
{
}

/// Which lifecycle step each state of a known root accepts: completion and
/// failure only while it is building or pending, cancellation only while
/// pending, abandoning only while building, deletion only once it is
/// ready, failed or cancelled, and consuming or replacing only while ready.
pub proof fn law_lifecycle_steps_accept_exactly_their_states<V>(arena: ArenaView<V>, slot: SlotId)
    requires
        slot.0 < arena.states.len(),
    ensures
        ({
            let s = arena.states[slot.0 as int];
            &&& transition_error(arena, slot, |k: SlotStateKind| is_building_or_pending(k), SlotStateKind::Ready)
                is None <==> (s is Building || s is Pending)
            &&& transition_error(arena, slot, |k: SlotStateKind| is_building_or_pending(k), SlotStateKind::Failed)
                is None <==> (s is Building || s is Pending)
            &&& transition_error(arena, slot, |k: SlotStateKind| is_pending(k), SlotStateKind::Cancelled)
                is None <==> s is Pending
            &&& transition_error(arena, slot, |k: SlotStateKind| is_building(k), SlotStateKind::Tombstone)
                is None <==> s is Building
            &&& transition_error(arena, slot, |k: SlotStateKind| is_deletable(k), SlotStateKind::Tombstone)
                is None <==> (s is Ready || s is Failed || s is Cancelled)
            &&& transition_error(arena, slot, |k: SlotStateKind| is_ready(k), SlotStateKind::Ready)
                is None <==> s is Ready
            &&& transition_error(arena, slot, |k: SlotStateKind| is_ready(k), SlotStateKind::Consumed)
                is None <==> s is Ready
        }),
{
}

} // verus!
