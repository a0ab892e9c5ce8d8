use vstd::prelude::*;

verus! {

/// Identity of one ownership-bearing arena root. Identities are allocated in
/// increasing order and never reused, so a stale identity keeps naming its
/// (possibly tombstoned) root.
#[derive(Clone, Copy, Debug, PartialEq, Eq, Structural, Hash, PartialOrd, Ord)]
pub struct SlotId(pub u64);

impl SlotId {
    pub fn new(raw: u64) -> (id: SlotId)
        ensures
            id.0 == raw,
    {
        SlotId(raw)
    }

    pub fn get(self) -> (raw: u64)
        ensures
            raw == self.0,
    {
        self.0
    }
}

/// Identity of one bounded export (JSON query) session.
#[derive(Clone, Copy, Debug, PartialEq, Eq, Structural, Hash)]
pub struct QuerySessionId(pub u64);

impl QuerySessionId {
    pub fn new(raw: u64) -> (id: QuerySessionId)
        ensures
            id.0 == raw,
    {
        QuerySessionId(raw)
    }

    pub fn get(self) -> (raw: u64)
        ensures
            raw == self.0,
    {
        self.0
    }
}

/// Identity of one browse (card window) session.
#[derive(Clone, Copy, Debug, PartialEq, Eq, Structural, Hash)]
pub struct BrowseSessionId(pub u64);

impl BrowseSessionId {
    pub fn new(raw: u64) -> (id: BrowseSessionId)
        ensures
            id.0 == raw,
    {
        BrowseSessionId(raw)
    }

    pub fn get(self) -> (raw: u64)
        ensures
            raw == self.0,
    {
        self.0
    }
}

/// Identity of one borrow edge of the borrow graph.
#[derive(Clone, Copy, Debug, PartialEq, Eq, Structural, Hash, PartialOrd, Ord)]
pub struct BorrowId(pub u64);

impl BorrowId {
    pub fn new(raw: u64) -> (id: BorrowId)
        ensures
            id.0 == raw,
    {
        BorrowId(raw)
    }
}

/// Hands out the next query session identity and advances the counter, so
/// that identities are never reused. The identity space must not be
/// exhausted.
pub fn allocate_query_session(next_query_session: &mut u64) -> (session: QuerySessionId)
    requires
        *old(next_query_session) < u64::MAX,
    ensures
        session == QuerySessionId(*old(next_query_session)),
        *final(next_query_session) == *old(next_query_session) + 1,
{
    let session = QuerySessionId::new(*next_query_session);
    *next_query_session = *next_query_session + 1;
    session
}

} // verus!
