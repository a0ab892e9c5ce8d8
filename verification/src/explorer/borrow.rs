//! Borrow leases and the graph of live borrow edges.
//!
//! A borrow edge records that a builder, a ready value or a pending
//! invocation borrows a reflected value. While any edge points into a root,
//! that root is protected from mutation, move and deletion. Leases are unique
//! tokens: moving one between holders transfers the duty to release its edge.
use vstd::prelude::*;
use crate::explorer::ids::{BorrowId, SlotId};
use crate::explorer::value_address::{AddressView, ValueAddress, address_text};
use crate::text::{decimal, push_decimal, push_text};

verus! {

#[derive(Clone, Copy, Debug, PartialEq, Eq, Structural)]
pub enum BorrowHolder {
    Builder(SlotId),
    ReadyValue(SlotId),
    PendingInvocation(SlotId),
}

#[derive(Clone, Debug, PartialEq, Eq)]
pub enum BorrowError {
    SourceNotReady(ValueAddress),
    SourceProtected { root: SlotId, leases: usize },
    UnknownLease(BorrowId),
}

impl BorrowError {
    /// The error as a sentence: the source that does not resolve (by its
    /// address text), the protected root and its lease count, or the
    /// unknown lease.
    pub fn message(&self) -> (message: String)
        ensures
            message@ == match *self {
                BorrowError::SourceNotReady(source) => "borrow source "@ + address_text(source@)
                    + " is not a resolved value"@,
                BorrowError::SourceProtected { root, leases } => "slot "@ + decimal(root.0 as nat)
                    + " cannot be mutated while protected by "@ + decimal(leases as nat)
                    + " borrow lease(s)"@,
                BorrowError::UnknownLease(id) => "borrow lease BorrowId("@ + decimal(id.0 as nat)
                    + ") does not exist"@,
            },
    {
        let mut text = String::new();
        match self {
            BorrowError::SourceNotReady(source) => {
                push_text(&mut text, "borrow source ");
                let address = source.text();
                push_text(&mut text, address.as_str());
                push_text(&mut text, " is not a resolved value");
            },
            BorrowError::SourceProtected { root, leases } => {
                push_text(&mut text, "slot ");
                push_decimal(&mut text, root.0);
                push_text(&mut text, " cannot be mutated while protected by ");
                push_decimal(&mut text, *leases as u64);
                push_text(&mut text, " borrow lease(s)");
            },
            BorrowError::UnknownLease(id) => {
                push_text(&mut text, "borrow lease BorrowId(");
                push_decimal(&mut text, id.0);
                push_text(&mut text, ") does not exist");
            },
        }
        assert(text@ =~= match *self {
            BorrowError::SourceNotReady(source) => "borrow source "@ + address_text(source@)
                + " is not a resolved value"@,
            BorrowError::SourceProtected { root, leases } => "slot "@ + decimal(root.0 as nat)
                + " cannot be mutated while protected by "@ + decimal(leases as nat)
                + " borrow lease(s)"@,
            BorrowError::UnknownLease(id) => "borrow lease BorrowId("@ + decimal(id.0 as nat)
                + ") does not exist"@,
        });
        text
    }
}

/// Mathematical form of a lease or edge.
pub struct LeaseView {
    pub id: u64,
    pub source: AddressView,
    pub holder: BorrowHolder,
    pub field: Seq<char>,
}

/// Unique engine-owned token retaining one borrow relationship. It is
/// deliberately not `Clone`.
#[derive(Debug)]
pub struct BorrowLease {
    id: BorrowId,
    source: ValueAddress,
    holder: BorrowHolder,
    field: String,
}

impl View for BorrowLease {
    type V = LeaseView;

    closed spec fn view(&self) -> LeaseView {
        LeaseView { id: self.id.0, source: self.source@, holder: self.holder, field: self.field@ }
    }
}

impl BorrowLease {
    pub fn new(id: BorrowId, source: ValueAddress, holder: BorrowHolder, field: String) -> (lease:
        BorrowLease)
        ensures
            lease@ == (LeaseView { id: id.0, source: source@, holder, field: field@ }),
    {
        BorrowLease { id, source, holder, field }
    }

    pub fn id(&self) -> (id: BorrowId)
        ensures
            id.0 == self@.id,
    {
        self.id
    }

    pub fn source(&self) -> (source: &ValueAddress)
        ensures
            source@ == self@.source,
    {
        &self.source
    }

    pub fn holder(&self) -> (holder: BorrowHolder)
        ensures
            holder == self@.holder,
    {
        self.holder
    }

    pub fn field(&self) -> (field: &str)
        ensures
            field@ == self@.field,
    {
        self.field.as_str()
    }

    /// Hands the lease to another holder.
    pub fn transfer(&mut self, holder: BorrowHolder)
        ensures
            final(self)@ == (LeaseView { holder, ..old(self)@ }),
    {
        self.holder = holder;
    }
}

/// Mathematical state of the graph: the next identity to hand out and the
/// live edges in increasing identity order.
pub struct GraphModel {
    pub next_id: u64,
    pub edges: Seq<LeaseView>,
}

/// Edge identities are strictly increasing and all below `next_id`.
pub open spec fn graph_wf(graph: GraphModel) -> bool {
    &&& forall|i: int, j: int|
        0 <= i < j < graph.edges.len() ==> #[trigger] graph.edges[i].id < #[trigger] graph.edges[j].id
    &&& forall|i: int| 0 <= i < graph.edges.len() ==> #[trigger] graph.edges[i].id < graph.next_id
}

/// Index of the edge with identity `id`, if any.
pub open spec fn has_edge(edges: Seq<LeaseView>, id: u64) -> bool {
    exists|i: int| 0 <= i < edges.len() && #[trigger] edges[i].id == id
}

/// Number of edges whose source lies under `root`.
pub open spec fn root_leases(edges: Seq<LeaseView>, root: u64) -> nat
    decreases edges.len(),
{
    if edges.len() == 0 {
        0
    } else {
        root_leases(edges.drop_last(), root) + if edges.last().source.root == root {
            1nat
        } else {
            0nat
        }
    }
}

/// Number of edges currently held by `holder`.
pub open spec fn holder_edges(edges: Seq<LeaseView>, holder: BorrowHolder) -> nat
    decreases edges.len(),
{
    if edges.len() == 0 {
        0
    } else {
        holder_edges(edges.drop_last(), holder) + if edges.last().holder == holder {
            1nat
        } else {
            0nat
        }
    }
}

/// `borrow` on a resolvable source: a fresh edge with the next identity.
pub open spec fn model_borrow(
    graph: GraphModel,
    source: AddressView,
    borrower: SlotId,
    field: Seq<char>,
) -> (GraphModel, LeaseView) {
    let lease = LeaseView {
        id: graph.next_id,
        source,
        holder: BorrowHolder::Builder(borrower),
        field,
    };
    (GraphModel { next_id: (graph.next_id + 1) as u64, edges: graph.edges.push(lease) }, lease)
}

/// `release` of the edge at `index`.
pub open spec fn model_release(graph: GraphModel, index: int) -> GraphModel {
    GraphModel { next_id: graph.next_id, edges: graph.edges.remove(index) }
}

pub proof fn lemma_root_leases_push(edges: Seq<LeaseView>, edge: LeaseView, root: u64)
    ensures
        root_leases(edges.push(edge), root) == root_leases(edges, root) + if edge.source.root
            == root {
            1nat
        } else {
            0nat
        },
        holder_edges(edges.push(edge), edge.holder) == holder_edges(edges, edge.holder) + 1,
{
    assert(edges.push(edge).drop_last() =~= edges);
}

pub proof fn lemma_root_leases_remove(edges: Seq<LeaseView>, index: int, root: u64)
    requires
        0 <= index < edges.len(),
    ensures
        root_leases(edges, root) == root_leases(edges.remove(index), root) + if edges[index].source.root
            == root {
            1nat
        } else {
            0nat
        },
    decreases edges.len(),
{
    if index < edges.len() - 1 {
        lemma_root_leases_remove(edges.drop_last(), index, root);
        assert(edges.remove(index).drop_last() =~= edges.drop_last().remove(index));
        assert(edges.remove(index).last() == edges.last());
    } else {
        assert(edges.remove(index) =~= edges.drop_last());
    }
}

pub proof fn lemma_holder_edges_update(
    edges: Seq<LeaseView>,
    index: int,
    edge: LeaseView,
    holder: BorrowHolder,
)
    requires
        0 <= index < edges.len(),
    ensures
        holder_edges(edges.update(index, edge), holder) + (if edges[index].holder == holder {
            1nat
        } else {
            0nat
        }) == holder_edges(edges, holder) + (if edge.holder == holder {
            1nat
        } else {
            0nat
        }),
    decreases edges.len(),
{
    if index < edges.len() - 1 {
        lemma_holder_edges_update(edges.drop_last(), index, edge, holder);
        assert(edges.update(index, edge).drop_last() =~= edges.drop_last().update(index, edge));
    } else {
        assert(edges.update(index, edge).drop_last() =~= edges.drop_last());
    }
}

pub proof fn lemma_root_leases_update_holder(
    edges: Seq<LeaseView>,
    index: int,
    holder: BorrowHolder,
    root: u64,
)
    requires
        0 <= index < edges.len(),
    ensures
        root_leases(edges.update(index, LeaseView { holder, ..edges[index] }), root)
            == root_leases(edges, root),
    decreases edges.len(),
{
    if index < edges.len() - 1 {
        lemma_root_leases_update_holder(edges.drop_last(), index, holder, root);
        assert(edges.update(index, LeaseView { holder, ..edges[index] }).drop_last()
            =~= edges.drop_last().update(index, LeaseView { holder, ..edges[index] }));
    } else {
        assert(edges.update(index, LeaseView { holder, ..edges[index] }).drop_last()
            =~= edges.drop_last());
    }
}

pub proof fn lemma_root_leases_positive(edges: Seq<LeaseView>, root: u64)
    ensures
        root_leases(edges, root) > 0 <==> exists|i: int|
            0 <= i < edges.len() && #[trigger] edges[i].source.root == root,
    decreases edges.len(),
{
    if edges.len() > 0 {
        lemma_root_leases_positive(edges.drop_last(), root);
        if root_leases(edges.drop_last(), root) > 0 {
            let i = choose|i: int|
                0 <= i < edges.drop_last().len() && #[trigger] edges.drop_last()[i].source.root
                    == root;
            assert(edges[i].source.root == root);
        }
        if exists|i: int| 0 <= i < edges.len() && #[trigger] edges[i].source.root == root {
            let i = choose|i: int| 0 <= i < edges.len() && #[trigger] edges[i].source.root == root;
            if i < edges.len() - 1 {
                assert(edges.drop_last()[i].source.root == root);
            }
        }
    }
}

struct BorrowEdge {
    id: BorrowId,
    source: ValueAddress,
    holder: BorrowHolder,
    field: String,
}

impl View for BorrowEdge {
    type V = LeaseView;

    closed spec fn view(&self) -> LeaseView {
        LeaseView { id: self.id.0, source: self.source@, holder: self.holder, field: self.field@ }
    }
}

/// The live borrow edges, in increasing identity order.
pub struct BorrowGraph {
    next_id: u64,
    edges: Vec<BorrowEdge>,
}

impl View for BorrowGraph {
    type V = GraphModel;

    closed spec fn view(&self) -> GraphModel {
        GraphModel {
            next_id: self.next_id,
            edges: self.edges@.map_values(|edge: BorrowEdge| edge@),
        }
    }
}

impl Default for BorrowGraph {
    fn default() -> (graph: BorrowGraph)
        ensures
            graph@.next_id == 0,
            graph@.edges == Seq::<LeaseView>::empty(),
            graph_wf(graph@),
    {
        let graph = BorrowGraph { next_id: 0, edges: Vec::new() };
        assert(graph@.edges =~= Seq::<LeaseView>::empty());
        graph
    }
}

impl BorrowGraph {
    proof fn lemma_view_index(&self, i: int)
        requires
            0 <= i < self.edges@.len(),
        ensures
            self@.edges.len() == self.edges@.len(),
            self@.edges[i] == self.edges@[i]@,
    {
    }

    /// Position of the edge with identity `id`.
    fn find(&self, id: BorrowId) -> (index: Option<usize>)
        ensures
            self@.edges.len() == self.edges@.len(),
            match index {
                Some(i) => i < self.edges@.len() && self@.edges[i as int].id == id.0,
                None => !has_edge(self@.edges, id.0),
            },
    {
        let mut i: usize = 0;
        while i < self.edges.len()
            invariant
                i <= self.edges@.len(),
                self@.edges.len() == self.edges@.len(),
                forall|k: int| 0 <= k < i ==> #[trigger] self@.edges[k].id != id.0,
            decreases self.edges.len() - i,
        {
            proof {
                self.lemma_view_index(i as int);
            }
            if self.edges[i].id.0 == id.0 {
                return Some(i);
            }
            i = i + 1;
        }
        assert forall|k: int| 0 <= k < self@.edges.len() implies #[trigger] self@.edges[k].id
            != id.0 by {
            assert(k < i);
        }
        None
    }

    /// Records that `borrower` borrows `source` through its field `field`.
    ///
    /// `source_resolves` is the outcome of resolving `source` in the arena:
    /// an unresolvable source is refused, and nothing changes.
    pub fn borrow(
        &mut self,
        source_resolves: bool,
        source: ValueAddress,
        borrower: SlotId,
        field: String,
    ) -> (result: Result<BorrowLease, BorrowError>)
        requires
            graph_wf(old(self)@),
            source_resolves ==> old(self)@.next_id < u64::MAX,
        ensures
            graph_wf(final(self)@),
            !source_resolves ==> {
                &&& final(self)@ == old(self)@
                &&& result matches Err(BorrowError::SourceNotReady(s)) && s@ == source@
            },
            source_resolves ==> {
                let (graph, lease) = model_borrow(old(self)@, source@, borrower, field@);
                &&& final(self)@ == graph
                &&& result matches Ok(l) && l@ == lease
            },
    {
        if !source_resolves {
            return Err(BorrowError::SourceNotReady(source));
        }
        let id = BorrowId::new(self.next_id);
        self.next_id = self.next_id + 1;
        let holder = BorrowHolder::Builder(borrower);
        let ghost before = self.edges@;
        let lease = BorrowLease::new(id, source.duplicate(), holder, field.clone());
        self.edges.push(BorrowEdge { id, source, holder, field });
        assert(self.edges@.map_values(|edge: BorrowEdge| edge@) =~= before.map_values(
            |edge: BorrowEdge| edge@,
        ).push(lease@));
        Ok(lease)
    }

    /// A further lease on the source of `lease` for `borrower`; refused
    /// when `lease` is not live in this graph.
    pub fn duplicate_for_builder(
        &mut self,
        source_resolves: bool,
        lease: &BorrowLease,
        borrower: SlotId,
        field: String,
    ) -> (result: Result<BorrowLease, BorrowError>)
        requires
            graph_wf(old(self)@),
            source_resolves ==> old(self)@.next_id < u64::MAX,
        ensures
            graph_wf(final(self)@),
            !(exists|i: int| 0 <= i < old(self)@.edges.len() && #[trigger] old(self)@.edges[i] == lease@) ==> {
                &&& final(self)@ == old(self)@
                &&& result == Err::<BorrowLease, BorrowError>(BorrowError::UnknownLease(BorrowId(lease@.id)))
            },
            (exists|i: int| 0 <= i < old(self)@.edges.len() && #[trigger] old(self)@.edges[i] == lease@) ==> {
                &&& !source_resolves ==> {
                    &&& final(self)@ == old(self)@
                    &&& result matches Err(BorrowError::SourceNotReady(s)) && s@ == lease@.source
                }
                &&& source_resolves ==> {
                    let (graph, new_lease) = model_borrow(old(self)@, lease@.source, borrower, field@);
                    &&& final(self)@ == graph
                    &&& result matches Ok(l) && l@ == new_lease
                }
            },
    {
        if !self.contains(lease) {
            return Err(BorrowError::UnknownLease(lease.id()));
        }
        self.borrow(source_resolves, lease.source().duplicate(), borrower, field)
    }

    /// A further lease on the source of `lease`, held by the pending
    /// invocation in `pending_slot`.
    pub fn duplicate_for_pending(
        &mut self,
        source_resolves: bool,
        lease: &BorrowLease,
        pending_slot: SlotId,
        field: String,
    ) -> (result: Result<BorrowLease, BorrowError>)
        requires
            graph_wf(old(self)@),
            source_resolves ==> old(self)@.next_id < u64::MAX,
        ensures
            graph_wf(final(self)@),
            !(exists|i: int| 0 <= i < old(self)@.edges.len() && #[trigger] old(self)@.edges[i] == lease@) ==> {
                &&& final(self)@ == old(self)@
                &&& result == Err::<BorrowLease, BorrowError>(BorrowError::UnknownLease(BorrowId(lease@.id)))
            },
            (exists|i: int| 0 <= i < old(self)@.edges.len() && #[trigger] old(self)@.edges[i] == lease@) ==> {
                &&& !source_resolves ==> {
                    &&& final(self)@ == old(self)@
                    &&& result matches Err(BorrowError::SourceNotReady(s)) && s@ == lease@.source
                }
                &&& source_resolves ==> {
                    let new_lease = LeaseView {
                        id: old(self)@.next_id,
                        source: lease@.source,
                        holder: BorrowHolder::PendingInvocation(pending_slot),
                        field: field@,
                    };
                    &&& final(self)@ == (GraphModel {
                        next_id: (old(self)@.next_id + 1) as u64,
                        edges: old(self)@.edges.push(new_lease),
                    })
                    &&& result matches Ok(l) && l@ == new_lease
                }
            },
    {
        let mut duplicate = match self.duplicate_for_builder(source_resolves, lease, pending_slot, field) {
            Ok(duplicate) => duplicate,
            Err(error) => return Err(error),
        };
        let ghost after_borrow = self@;
        proof {
            assert(after_borrow.edges[after_borrow.edges.len() - 1].id == duplicate@.id);
        }
        match self.transfer_to_pending(&mut duplicate, pending_slot) {
            Ok(()) => {},
            Err(error) => {
                let _ = self.release(duplicate);
                return Err(error);
            },
        }
        proof {
            let i = choose|i: int|
                0 <= i < after_borrow.edges.len() && after_borrow.edges[i].id == duplicate@.id
                    && self@.edges == after_borrow.edges.update(
                    i,
                    LeaseView { holder: BorrowHolder::PendingInvocation(pending_slot), ..after_borrow.edges[i] },
                );
            if i != after_borrow.edges.len() - 1 {
                assert(after_borrow.edges[i].id < after_borrow.edges[after_borrow.edges.len() - 1].id);
            }
            assert(self@.edges =~= old(self)@.edges.push(duplicate@));
        }
        Ok(duplicate)
    }

    /// Hands `lease` and its edge to `holder`.
    pub fn transfer(&mut self, lease: &mut BorrowLease, holder: BorrowHolder) -> (result: Result<
        (),
        BorrowError,
    >)
        requires
            graph_wf(old(self)@),
        ensures
            graph_wf(final(self)@),
            final(self)@.next_id == old(self)@.next_id,
            !has_edge(old(self)@.edges, old(lease)@.id) ==> {
                &&& result == Err::<(), BorrowError>(
                    BorrowError::UnknownLease(BorrowId(old(lease)@.id)),
                )
                &&& final(self)@ == old(self)@
                &&& final(lease)@ == old(lease)@
            },
            has_edge(old(self)@.edges, old(lease)@.id) ==> {
                &&& result is Ok
                &&& final(lease)@ == (LeaseView { holder, ..old(lease)@ })
                &&& exists|i: int|
                    0 <= i < old(self)@.edges.len() && old(self)@.edges[i].id == old(lease)@.id
                        && final(self)@.edges == old(self)@.edges.update(
                        i,
                        LeaseView { holder, ..old(self)@.edges[i] },
                    )
            },
    {
        match self.find(lease.id()) {
            None => Err(BorrowError::UnknownLease(lease.id())),
            Some(index) => {
                let ghost before = self@.edges;
                let ghost old_edges = self.edges@;
                let mut edge = self.edges.remove(index);
                edge.holder = holder;
                self.edges.insert(index, edge);
                lease.transfer(holder);
                proof {
                    assert(self.edges@ == old_edges.update(index as int, self.edges@[index as int]));
                    assert(self@.edges =~= before.update(
                        index as int,
                        LeaseView { holder, ..before[index as int] },
                    ));
                }
                Ok(())
            },
        }
    }

    /// Hands `lease` to the pending invocation in `pending_slot`.
    pub fn transfer_to_pending(&mut self, lease: &mut BorrowLease, pending_slot: SlotId) -> (result:
        Result<(), BorrowError>)
        requires
            graph_wf(old(self)@),
        ensures
            graph_wf(final(self)@),
            final(self)@.next_id == old(self)@.next_id,
            result is Ok <==> has_edge(old(self)@.edges, old(lease)@.id),
            result is Ok ==> final(lease)@ == (LeaseView {
                holder: BorrowHolder::PendingInvocation(pending_slot),
                ..old(lease)@
            }),
            result is Ok ==> exists|i: int|
                0 <= i < old(self)@.edges.len() && old(self)@.edges[i].id == old(lease)@.id
                    && final(self)@.edges == old(self)@.edges.update(
                    i,
                    LeaseView { holder: BorrowHolder::PendingInvocation(pending_slot), ..old(self)@.edges[i] },
                ),
            result is Err ==> final(self)@ == old(self)@ && final(lease)@ == old(lease)@,
    {
        self.transfer(lease, BorrowHolder::PendingInvocation(pending_slot))
    }

    /// Hands `lease` to the ready value in `ready_slot`.
    pub fn transfer_to_ready(&mut self, lease: &mut BorrowLease, ready_slot: SlotId) -> (result:
        Result<(), BorrowError>)
        requires
            graph_wf(old(self)@),
        ensures
            graph_wf(final(self)@),
            final(self)@.next_id == old(self)@.next_id,
            result is Ok <==> has_edge(old(self)@.edges, old(lease)@.id),
            result is Ok ==> final(lease)@ == (LeaseView {
                holder: BorrowHolder::ReadyValue(ready_slot),
                ..old(lease)@
            }),
            result is Ok ==> exists|i: int|
                0 <= i < old(self)@.edges.len() && old(self)@.edges[i].id == old(lease)@.id
                    && final(self)@.edges == old(self)@.edges.update(
                    i,
                    LeaseView { holder: BorrowHolder::ReadyValue(ready_slot), ..old(self)@.edges[i] },
                ),
            result is Err ==> final(self)@ == old(self)@ && final(lease)@ == old(lease)@,
    {
        self.transfer(lease, BorrowHolder::ReadyValue(ready_slot))
    }

    /// Ends the borrow that `lease` retains.
    pub fn release(&mut self, lease: BorrowLease) -> (result: Result<(), BorrowError>)
        requires
            graph_wf(old(self)@),
        ensures
            graph_wf(final(self)@),
            final(self)@.next_id == old(self)@.next_id,
            !has_edge(old(self)@.edges, lease@.id) ==> {
                &&& result == Err::<(), BorrowError>(BorrowError::UnknownLease(BorrowId(lease@.id)))
                &&& final(self)@ == old(self)@
            },
            has_edge(old(self)@.edges, lease@.id) ==> {
                &&& result is Ok
                &&& exists|i: int|
                    0 <= i < old(self)@.edges.len() && old(self)@.edges[i].id == lease@.id
                        && final(self)@ == model_release(old(self)@, i)
            },
    {
        match self.find(lease.id()) {
            None => Err(BorrowError::UnknownLease(lease.id())),
            Some(index) => {
                let ghost before = self@.edges;
                let ghost old_edges = self.edges@;
                self.edges.remove(index);
                proof {
                    assert(self@.edges =~= before.remove(index as int));
                    let edges = self@.edges;
                    assert forall|i: int, j: int| 0 <= i < j < edges.len() implies #[trigger] edges[i].id
                        < #[trigger] edges[j].id by {
                        let oi = if i < index { i } else { i + 1 };
                        let oj = if j < index { j } else { j + 1 };
                        assert(edges[i] == before[oi]);
                        assert(edges[j] == before[oj]);
                    }
                    assert forall|i: int| 0 <= i < edges.len() implies #[trigger] edges[i].id
                        < self@.next_id by {
                        let oi = if i < index { i } else { i + 1 };
                        assert(edges[i] == before[oi]);
                    }
                    assert(before == old(self)@.edges);
                    assert(self@ == model_release(old(self)@, index as int));
                }
                Ok(())
            },
        }
    }

    fn count_root_leases(&self, root: SlotId) -> (count: usize)
        ensures
            count == root_leases(self@.edges, root.0),
    {
        let mut count: usize = 0;
        let mut i: usize = 0;
        while i < self.edges.len()
            invariant
                i <= self.edges@.len(),
                self@.edges.len() == self.edges@.len(),
                count == root_leases(self@.edges.take(i as int), root.0),
                count <= i,
            decreases self.edges.len() - i,
        {
            proof {
                self.lemma_view_index(i as int);
                assert(self@.edges.take(i + 1) =~= self@.edges.take(i as int).push(
                    self@.edges[i as int],
                ));
                lemma_root_leases_push(self@.edges.take(i as int), self@.edges[i as int], root.0);
            }
            if self.edges[i].source.root.0 == root.0 {
                count = count + 1;
            }
            i = i + 1;
        }
        assert(self@.edges.take(i as int) =~= self@.edges);
        count
    }

    /// Whether any live borrow points into `root`.
    pub fn protects_root(&self, root: SlotId) -> (protected: bool)
        ensures
            protected == (root_leases(self@.edges, root.0) > 0),
            protected == exists|i: int|
                0 <= i < self@.edges.len() && #[trigger] self@.edges[i].source.root == root.0,
    {
        proof {
            lemma_root_leases_positive(self@.edges, root.0);
        }
        self.count_root_leases(root) > 0
    }

    /// Refuses with the number of live leases when `root` is borrowed.
    pub fn ensure_root_unprotected(&self, root: SlotId) -> (result: Result<(), BorrowError>)
        ensures
            root_leases(self@.edges, root.0) == 0 ==> result is Ok,
            root_leases(self@.edges, root.0) > 0 ==> result == Err::<(), BorrowError>(
                BorrowError::SourceProtected {
                    root,
                    leases: root_leases(self@.edges, root.0) as usize,
                },
            ),
    {
        let leases = self.count_root_leases(root);
        if leases == 0 {
            Ok(())
        } else {
            Err(BorrowError::SourceProtected { root, leases })
        }
    }

    /// Whether the graph holds exactly the edge that `lease` describes.
    pub fn contains(&self, lease: &BorrowLease) -> (present: bool)
        requires
            graph_wf(self@),
        ensures
            present == exists|i: int|
                0 <= i < self@.edges.len() && #[trigger] self@.edges[i] == lease@,
    {
        match self.find(lease.id()) {
            None => false,
            Some(index) => {
                proof {
                    self.lemma_view_index(index as int);
                }
                let edge = &self.edges[index];
                let same = edge.source.same_as(&lease.source) && edge.holder == lease.holder
                    && edge.field == lease.field;
                proof {
                    if !same {
                        assert forall|i: int| 0 <= i < self@.edges.len() implies #[trigger] self@.edges[i]
                            != lease@ by {
                            if i != index as int && self@.edges[i] == lease@ {
                                if i < index as int {
                                    assert(self@.edges[i].id < self@.edges[index as int].id);
                                } else {
                                    assert(self@.edges[index as int].id < self@.edges[i].id);
                                }
                            }
                        }
                    } else {
                        assert(self@.edges[index as int] == lease@);
                    }
                }
                same
            },
        }
    }

    /// Number of live edges held by `holder`.
    pub fn holder_edge_count(&self, holder: BorrowHolder) -> (count: usize)
        ensures
            count == holder_edges(self@.edges, holder),
    {
        let mut count: usize = 0;
        let mut i: usize = 0;
        while i < self.edges.len()
            invariant
                i <= self.edges@.len(),
                self@.edges.len() == self.edges@.len(),
                count == holder_edges(self@.edges.take(i as int), holder),
                count <= i,
            decreases self.edges.len() - i,
        {
            proof {
                self.lemma_view_index(i as int);
                assert(self@.edges.take(i + 1) =~= self@.edges.take(i as int).push(
                    self@.edges[i as int],
                ));
                assert(self@.edges.take(i + 1).drop_last() =~= self@.edges.take(i as int));
            }
            if self.edges[i].holder == holder {
                count = count + 1;
            }
            i = i + 1;
        }
        assert(self@.edges.take(i as int) =~= self@.edges);
        count
    }

    /// Number of live edges.
    pub fn edge_count(&self) -> (count: usize)
        ensures
            count == self@.edges.len(),
    {
        self.edges.len()
    }
}

/// Law: a successful borrow protects the root of its source with one more
/// lease, leaves every other root's protection as it was, and hands out an
/// identity larger than any live one.
pub proof fn law_borrow_protects_the_source_root(
    graph: GraphModel,
    source: AddressView,
    borrower: SlotId,
    field: Seq<char>,
    root: u64,
)
    requires
        graph_wf(graph),
        graph.next_id < u64::MAX,
    ensures
        graph_wf(model_borrow(graph, source, borrower, field).0),
        root_leases(model_borrow(graph, source, borrower, field).0.edges, root) == root_leases(
            graph.edges,
            root,
        ) + if source.root == root {
            1nat
        } else {
            0nat
        },
        forall|i: int|
            0 <= i < graph.edges.len() ==> #[trigger] graph.edges[i].id < model_borrow(
                graph,
                source,
                borrower,
                field,
            ).1.id,
{
    let lease = model_borrow(graph, source, borrower, field).1;
    lemma_root_leases_push(graph.edges, lease, root);
}

/// Law: releasing an edge removes exactly its protection: the root of its
/// source loses one lease, every other root keeps its count.
pub proof fn law_release_removes_exactly_one_protection(graph: GraphModel, index: int, root: u64)
    requires
        graph_wf(graph),
        0 <= index < graph.edges.len(),
    ensures
        root_leases(model_release(graph, index).edges, root) + (if graph.edges[index].source.root
            == root {
            1nat
        } else {
            0nat
        }) == root_leases(graph.edges, root),
{
    lemma_root_leases_remove(graph.edges, index, root);
}

/// Law: borrowing and then releasing that same lease leaves every root
/// exactly as protected as before; only the identity counter has moved on,
/// so the released identity is never handed out again.
pub proof fn law_borrow_then_release_restores_protection(
    graph: GraphModel,
    source: AddressView,
    borrower: SlotId,
    field: Seq<char>,
    root: u64,
)
    requires
        graph_wf(graph),
        graph.next_id < u64::MAX,
    ensures
        ({
            let (borrowed, lease) = model_borrow(graph, source, borrower, field);
            let released = model_release(borrowed, graph.edges.len() as int);
            &&& borrowed.edges[graph.edges.len() as int] == lease
            &&& released.edges == graph.edges
            &&& root_leases(released.edges, root) == root_leases(graph.edges, root)
            &&& released.next_id > lease.id
        }),
{
    let (borrowed, lease) = model_borrow(graph, source, borrower, field);
    assert(borrowed.edges.remove(graph.edges.len() as int) =~= graph.edges);
}

/// Law: handing a lease to another holder never changes which roots are
/// protected, nor by how many leases.
pub proof fn law_transfer_preserves_protection(
    graph: GraphModel,
    index: int,
    holder: BorrowHolder,
    root: u64,
)
    requires
        graph_wf(graph),
        0 <= index < graph.edges.len(),
    ensures
        root_leases(graph.edges.update(index, LeaseView { holder, ..graph.edges[index] }), root)
            == root_leases(graph.edges, root),
{
    lemma_root_leases_update_holder(graph.edges, index, holder, root);
}

} // verus!
