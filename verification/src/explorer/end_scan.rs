//! Cooperative complete-stream scan used when a query cannot seek directly to
//! its final match: the scan advances only as far as each work budget allows
//! and publishes its result (the last match and the exact total) atomically,
//! once the candidate stream is exhausted.
use vstd::prelude::*;
use crate::explorer::card_address::{CardAddress, CardAddressView};
use crate::explorer::revision::ScanRevisionStamp;
use crate::explorer::value_address::{AddressView, ValueAddress};
use crate::explorer::work_budget::WorkBudget;

verus! {

#[derive(Clone, Copy, Debug, PartialEq, Eq, Structural)]
pub struct ScanProgress {
    pub inspected: usize,
    pub matched: usize,
}

impl Default for ScanProgress {
    fn default() -> (progress: ScanProgress)
        ensures
            progress.inspected == 0,
            progress.matched == 0,
    {
        ScanProgress { inspected: 0, matched: 0 }
    }
}

/// What is known about the number of results of a query.
#[derive(Clone, Copy, Debug, PartialEq, Eq, Structural)]
pub enum QueryTotal {
    Unknown,
    Scanning(ScanProgress),
    Exact(usize),
}

impl Default for QueryTotal {
    /// Ordinary navigation never asks for an exact total.
    fn default() -> (total: QueryTotal)
        ensures
            total == QueryTotal::Unknown,
    {
        QueryTotal::Unknown
    }
}

/// One candidate of the scanned stream: a matching address or a non-match.
#[derive(Clone, Debug, PartialEq, Eq)]
pub enum ScanCandidate {
    Match(ValueAddress),
    NoMatch,
}

pub enum ScanCandidateView {
    Match(AddressView),
    NoMatch,
}

impl View for ScanCandidate {
    type V = ScanCandidateView;

    open spec fn view(&self) -> ScanCandidateView {
        match self {
            ScanCandidate::Match(address) => ScanCandidateView::Match(address@),
            ScanCandidate::NoMatch => ScanCandidateView::NoMatch,
        }
    }
}

impl ScanCandidate {
    /// An equal copy of this candidate.
    pub fn duplicate(&self) -> (copy: ScanCandidate)
        ensures
            copy@ == self@,
    {
        match self {
            ScanCandidate::Match(address) => ScanCandidate::Match(address.duplicate()),
            ScanCandidate::NoMatch => ScanCandidate::NoMatch,
        }
    }
}

/// A finite, lazily produced stream of scan candidates.
pub trait CandidateStream {
    /// The candidates this stream has yet to produce, in order.
    spec fn remaining(&self) -> Seq<ScanCandidateView>;

    /// Produces the next candidate, or `None` once the stream is exhausted.
    fn next_candidate(&mut self) -> (next: Option<ScanCandidate>)
        ensures
            old(self).remaining().len() == 0 ==> {
                &&& next is None
                &&& final(self).remaining() == old(self).remaining()
            },
            old(self).remaining().len() > 0 ==> {
                &&& next is Some
                &&& next->0@ == old(self).remaining()[0]
                &&& final(self).remaining() == old(self).remaining().drop_first()
            },
    ;
}

/// Candidates held in memory, produced front to back.
pub struct CandidateList {
    items: Vec<ScanCandidate>,
    position: usize,
}

impl CandidateList {
    pub fn new(items: Vec<ScanCandidate>) -> (list: CandidateList)
        ensures
            list.remaining() == items@.map_values(|c: ScanCandidate| c@),
    {
        let list = CandidateList { items, position: 0 };
        assert(list.items@.subrange(0, list.items@.len() as int) =~= list.items@);
        list
    }
}

impl CandidateStream for CandidateList {
    closed spec fn remaining(&self) -> Seq<ScanCandidateView> {
        if self.position <= self.items@.len() {
            self.items@.subrange(self.position as int, self.items@.len() as int).map_values(
                |c: ScanCandidate| c@,
            )
        } else {
            Seq::empty()
        }
    }

    fn next_candidate(&mut self) -> (next: Option<ScanCandidate>) {
        if self.position < self.items.len() {
            let candidate = self.items[self.position].duplicate();
            let ghost before = self.remaining();
            self.position = self.position + 1;
            assert(self.remaining() =~= before.drop_first());
            Some(candidate)
        } else {
            None
        }
    }
}

/// The same candidate produced a fixed number of times.
pub struct RepeatedCandidate {
    candidate: ScanCandidate,
    count: usize,
}

impl RepeatedCandidate {
    pub fn new(candidate: ScanCandidate, count: usize) -> (stream: RepeatedCandidate)
        ensures
            stream.remaining() == Seq::new(count as nat, |i: int| candidate@),
    {
        RepeatedCandidate { candidate, count }
    }
}

impl CandidateStream for RepeatedCandidate {
    closed spec fn remaining(&self) -> Seq<ScanCandidateView> {
        Seq::new(self.count as nat, |i: int| self.candidate@)
    }

    fn next_candidate(&mut self) -> (next: Option<ScanCandidate>) {
        if self.count > 0 {
            let ghost before = self.remaining();
            self.count = self.count - 1;
            assert(self.remaining() =~= before.drop_first());
            Some(self.candidate.duplicate())
        } else {
            None
        }
    }
}

/// Number of matches among `candidates`.
pub open spec fn match_count(candidates: Seq<ScanCandidateView>) -> nat
    decreases candidates.len(),
{
    if candidates.len() == 0 {
        0
    } else {
        match_count(candidates.drop_last()) + match candidates.last() {
            ScanCandidateView::Match(_) => 1nat,
            ScanCandidateView::NoMatch => 0nat,
        }
    }
}

/// The last matching address among `candidates`, if any.
pub open spec fn last_match(candidates: Seq<ScanCandidateView>) -> Option<AddressView>
    decreases candidates.len(),
{
    if candidates.len() == 0 {
        None
    } else {
        match candidates.last() {
            ScanCandidateView::Match(address) => Some(address),
            ScanCandidateView::NoMatch => last_match(candidates.drop_last()),
        }
    }
}

/// The selection a completed scan publishes: its last match, or the
/// create-object card when nothing matched.
pub open spec fn completed_selection(candidates: Seq<ScanCandidateView>) -> CardAddressView {
    match last_match(candidates) {
        Some(address) => CardAddressView::Value(address),
        None => CardAddressView::NewSlot,
    }
}

pub proof fn lemma_match_count_push(candidates: Seq<ScanCandidateView>, c: ScanCandidateView)
    ensures
        match_count(candidates.push(c)) == match_count(candidates) + match c {
            ScanCandidateView::Match(_) => 1nat,
            ScanCandidateView::NoMatch => 0nat,
        },
        last_match(candidates.push(c)) == match c {
            ScanCandidateView::Match(address) => Some(address),
            ScanCandidateView::NoMatch => last_match(candidates),
        },
{
    assert(candidates.push(c).drop_last() =~= candidates);
}

pub proof fn lemma_match_count_bounded(candidates: Seq<ScanCandidateView>)
    ensures
        match_count(candidates) <= candidates.len(),
    decreases candidates.len(),
{
    if candidates.len() > 0 {
        lemma_match_count_bounded(candidates.drop_last());
    }
}

#[derive(Clone, Copy, Debug, PartialEq, Eq, Structural)]
pub enum EndScanState {
    Running,
    Complete,
    Cancelled,
    Stale,
}

#[derive(Clone, Copy, Debug, PartialEq, Eq, Structural)]
pub enum EndScanPoll {
    Pending(ScanProgress),
    Complete(ScanProgress),
    Cancelled,
    Stale,
}

/// Cooperative scan of a candidate stream toward its final match.
///
/// The previously published selection is stored apart from the last match:
/// no partial scan result ever becomes visible.
pub struct EndScan<S: CandidateStream> {
    candidates: S,
    stamp: ScanRevisionStamp,
    progress: ScanProgress,
    last_match: Option<ValueAddress>,
    selection: CardAddress,
    total: QueryTotal,
    state: EndScanState,
    consumed: Ghost<Seq<ScanCandidateView>>,
    initial_selection: Ghost<CardAddressView>,
}

impl<S: CandidateStream> EndScan<S> {
    /// Candidates inspected so far, in stream order.
    pub closed spec fn consumed(&self) -> Seq<ScanCandidateView> {
        self.consumed@
    }

    /// Candidates not yet inspected.
    pub closed spec fn remaining(&self) -> Seq<ScanCandidateView> {
        self.candidates.remaining()
    }

    pub closed spec fn stamp_value(&self) -> ScanRevisionStamp {
        self.stamp
    }

    pub closed spec fn state(&self) -> EndScanState {
        self.state
    }

    pub closed spec fn progress_value(&self) -> ScanProgress {
        self.progress
    }

    pub closed spec fn total_value(&self) -> QueryTotal {
        self.total
    }

    /// The published selection.
    pub closed spec fn selection_view(&self) -> CardAddressView {
        self.selection@
    }

    /// The selection that was published when the scan started.
    pub closed spec fn initial_selection(&self) -> CardAddressView {
        self.initial_selection@
    }

    pub closed spec fn wf(&self) -> bool {
        &&& self.progress.inspected == self.consumed@.len()
        &&& self.progress.matched == match_count(self.consumed@)
        &&& self.last_match matches Some(a) ==> last_match(self.consumed@) == Some(a@)
        &&& self.last_match is None ==> last_match(self.consumed@) is None
        &&& self.consumed@.len() + self.candidates.remaining().len() <= usize::MAX
        &&& self.state == EndScanState::Running ==> {
            &&& self.total == QueryTotal::Scanning(self.progress)
            &&& self.selection@ == self.initial_selection@
        }
        &&& self.state == EndScanState::Complete ==> {
            &&& self.candidates.remaining().len() == 0
            &&& self.total == QueryTotal::Exact(self.progress.matched)
            &&& self.selection@ == completed_selection(self.consumed@)
        }
        &&& (self.state == EndScanState::Cancelled || self.state == EndScanState::Stale) ==> {
            &&& self.total == QueryTotal::Unknown
            &&& self.selection@ == self.initial_selection@
        }
    }

    /// What a well-formed scan publishes: its progress counts the inspected
    /// candidates and their matches; a running scan reports that progress
    /// as its total and keeps the selection it started with; a complete
    /// scan has inspected every candidate, reports the exact number of
    /// matches and selects the last match (or the create-object card); a
    /// cancelled or stale scan knows no total and keeps the selection it
    /// started with.
    pub proof fn lemma_published(&self)
        requires
            self.wf(),
        ensures
            self.progress_value() == (ScanProgress {
                inspected: self.consumed().len() as usize,
                matched: match_count(self.consumed()) as usize,
            }),
            self.state() == EndScanState::Running ==> {
                &&& self.total_value() == QueryTotal::Scanning(self.progress_value())
                &&& self.selection_view() == self.initial_selection()
            },
            self.state() == EndScanState::Complete ==> {
                &&& self.remaining().len() == 0
                &&& self.total_value() == QueryTotal::Exact(match_count(self.consumed()) as usize)
                &&& self.selection_view() == completed_selection(self.consumed())
            },
            (self.state() == EndScanState::Cancelled || self.state() == EndScanState::Stale) ==> {
                &&& self.total_value() == QueryTotal::Unknown
                &&& self.selection_view() == self.initial_selection()
            },
    {
    }

    /// Starts a scan of `candidates` under `stamp`, keeping `selection`
    /// published until the scan completes.
    pub fn new(candidates: S, stamp: ScanRevisionStamp, selection: CardAddress) -> (scan: Self)
        requires
            candidates.remaining().len() <= usize::MAX,
        ensures
            scan.wf(),
            scan.consumed() == Seq::<ScanCandidateView>::empty(),
            scan.remaining() == candidates.remaining(),
            scan.stamp_value() == stamp,
            scan.state() == EndScanState::Running,
            scan.selection_view() == selection@,
            scan.initial_selection() == selection@,
            scan.total_value() == QueryTotal::Scanning(ScanProgress { inspected: 0, matched: 0 }),
            scan.progress_value() == (ScanProgress { inspected: 0, matched: 0 }),
    {
        let ghost initial = selection@;
        EndScan {
            candidates,
            stamp,
            progress: ScanProgress { inspected: 0, matched: 0 },
            last_match: None,
            selection,
            total: QueryTotal::Scanning(ScanProgress { inspected: 0, matched: 0 }),
            state: EndScanState::Running,
            consumed: Ghost(Seq::empty()),
            initial_selection: Ghost(initial),
        }
    }

    /// The published selection.
    pub fn selection(&self) -> (selection: &CardAddress)
        ensures
            selection@ == self.selection_view(),
    {
        &self.selection
    }

    /// The published total.
    pub fn total(&self) -> (total: QueryTotal)
        ensures
            total == self.total_value(),
    {
        self.total
    }

    /// Cancels a running scan; a finished scan is left as it is.
    pub fn cancel(&mut self)
        requires
            old(self).wf(),
        ensures
            final(self).wf(),
            final(self).consumed() == old(self).consumed(),
            final(self).remaining() == old(self).remaining(),
            final(self).stamp_value() == old(self).stamp_value(),
            final(self).selection_view() == old(self).selection_view(),
            final(self).initial_selection() == old(self).initial_selection(),
            final(self).progress_value() == old(self).progress_value(),
            old(self).state() == EndScanState::Running ==> {
                &&& final(self).state() == EndScanState::Cancelled
                &&& final(self).total_value() == QueryTotal::Unknown
                &&& final(self).selection_view() == final(self).initial_selection()
            },
            old(self).state() != EndScanState::Running ==> {
                &&& final(self).state() == old(self).state()
                &&& final(self).total_value() == old(self).total_value()
            },
    {
        if self.state == EndScanState::Running {
            self.state = EndScanState::Cancelled;
            self.total = QueryTotal::Unknown;
        }
    }

    /// Advances the scan by at most the work left in `budget`.
    ///
    /// A finished scan reports its outcome again and spends nothing. A running
    /// scan whose stamp differs from `current_stamp` becomes stale and spends
    /// nothing. Otherwise each unit of work inspects one candidate; observing
    /// the end of the stream costs one more unit and completes the scan, which
    /// then publishes its last match (or the create-object card) and the exact
    /// number of matches.
    pub fn poll(&mut self, current_stamp: ScanRevisionStamp, budget: &mut WorkBudget) -> (poll:
        EndScanPoll)
        requires
            old(self).wf(),
            old(budget).wf(),
        ensures
            final(self).wf(),
            final(budget).wf(),
            final(budget).limit == old(budget).limit,
            final(self).stamp_value() == old(self).stamp_value(),
            final(self).initial_selection() == old(self).initial_selection(),
            final(self).progress_value() == (ScanProgress {
                inspected: final(self).consumed().len() as usize,
                matched: match_count(final(self).consumed()) as usize,
            }),
            poll is Pending ==> {
                &&& poll == EndScanPoll::Pending(final(self).progress_value())
                &&& final(self).state() == EndScanState::Running
                &&& final(self).total_value() == QueryTotal::Scanning(final(self).progress_value())
                &&& final(self).selection_view() == old(self).selection_view()
            },
            poll is Complete ==> {
                &&& poll == EndScanPoll::Complete(final(self).progress_value())
                &&& final(self).state() == EndScanState::Complete
                &&& final(self).remaining().len() == 0
                &&& final(self).total_value() == QueryTotal::Exact(
                    match_count(final(self).consumed()) as usize,
                )
                &&& final(self).selection_view() == completed_selection(final(self).consumed())
            },
            (poll is Cancelled || poll is Stale) ==> {
                &&& final(self).total_value() == QueryTotal::Unknown
                &&& final(self).selection_view() == old(self).selection_view()
            },
            old(self).state() == EndScanState::Complete ==> {
                &&& poll == EndScanPoll::Complete(old(self).progress_value())
                &&& *final(self) == *old(self)
                &&& *final(budget) == *old(budget)
            },
            old(self).state() == EndScanState::Cancelled ==> {
                &&& poll == EndScanPoll::Cancelled
                &&& *final(self) == *old(self)
                &&& *final(budget) == *old(budget)
            },
            old(self).state() == EndScanState::Stale ==> {
                &&& poll == EndScanPoll::Stale
                &&& *final(self) == *old(self)
                &&& *final(budget) == *old(budget)
            },
            old(self).state() == EndScanState::Running && current_stamp != old(
                self,
            ).stamp_value() ==> {
                &&& poll == EndScanPoll::Stale
                &&& final(self).state() == EndScanState::Stale
                &&& final(self).total_value() == QueryTotal::Unknown
                &&& final(self).selection_view() == old(self).selection_view()
                &&& final(self).consumed() == old(self).consumed()
                &&& final(self).remaining() == old(self).remaining()
                &&& *final(budget) == *old(budget)
            },
            old(self).state() == EndScanState::Running && current_stamp == old(
                self,
            ).stamp_value() && old(self).remaining().len() < old(budget).remaining() ==> {
                &&& final(self).consumed() == old(self).consumed() + old(self).remaining()
                &&& final(self).remaining().len() == 0
                &&& final(budget).spent == old(budget).spent + old(self).remaining().len() + 1
                &&& final(self).state() == EndScanState::Complete
                &&& poll == EndScanPoll::Complete(final(self).progress_value())
            },
            old(self).state() == EndScanState::Running && current_stamp == old(
                self,
            ).stamp_value() && old(self).remaining().len() >= old(budget).remaining() ==> {
                &&& final(self).consumed() == old(self).consumed() + old(self).remaining().take(
                    old(budget).remaining(),
                )
                &&& final(self).remaining() == old(self).remaining().skip(old(budget).remaining())
                &&& final(budget).spent == old(budget).limit
                &&& final(self).state() == EndScanState::Running
                &&& poll == EndScanPoll::Pending(final(self).progress_value())
            },
    {
        match self.state {
            EndScanState::Complete => return EndScanPoll::Complete(self.progress),
            EndScanState::Cancelled => return EndScanPoll::Cancelled,
            EndScanState::Stale => return EndScanPoll::Stale,
            EndScanState::Running => {},
        }
        if current_stamp != self.stamp {
            self.state = EndScanState::Stale;
            self.total = QueryTotal::Unknown;
            return EndScanPoll::Stale;
        }
        let ghost start_consumed = self.consumed@;
        let ghost start_remaining = self.candidates.remaining();
        let ghost start_spent = budget.spent;
        while budget.spent() < budget.limit()
            invariant
                budget.wf(),
                budget.limit == old(budget).limit,
                start_spent == old(budget).spent,
                start_spent <= budget.spent,
                budget.spent - start_spent <= start_remaining.len(),
                start_consumed == old(self).consumed(),
                start_remaining == old(self).remaining(),
                old(self).state() == EndScanState::Running,
                current_stamp == old(self).stamp_value(),
                self.consumed@ == start_consumed + start_remaining.take(
                    budget.spent - start_spent,
                ),
                self.candidates.remaining() == start_remaining.skip(budget.spent - start_spent),
                self.stamp == old(self).stamp_value(),
                self.initial_selection@ == old(self).initial_selection(),
                self.state == EndScanState::Running,
                self.selection@ == self.initial_selection@,
                self.progress.inspected == self.consumed@.len(),
                self.progress.matched == match_count(self.consumed@),
                self.last_match matches Some(a) ==> last_match(self.consumed@) == Some(a@),
                self.last_match is None ==> last_match(self.consumed@) is None,
                self.consumed@.len() + self.candidates.remaining().len() <= usize::MAX,
            decreases budget.limit - budget.spent,
        {
            let consumed_unit = budget.try_consume();
            assert(consumed_unit);
            let ghost before = self.consumed@;
            let ghost before_remaining = self.candidates.remaining();
            let ghost taken = (budget.spent - 1 - start_spent) as int;
            match self.candidates.next_candidate() {
                Some(ScanCandidate::Match(address)) => {
                    proof {
                        lemma_match_count_push(before, before_remaining[0]);
                        lemma_match_count_bounded(before);
                    }
                    self.progress.inspected = self.progress.inspected + 1;
                    self.progress.matched = self.progress.matched + 1;
                    self.consumed = Ghost(before.push(before_remaining[0]));
                    self.last_match = Some(address);
                },
                Some(ScanCandidate::NoMatch) => {
                    proof {
                        lemma_match_count_push(before, before_remaining[0]);
                    }
                    self.progress.inspected = self.progress.inspected + 1;
                    self.consumed = Ghost(before.push(before_remaining[0]));
                },
                None => {
                    assert(start_remaining.skip(taken) =~= Seq::<ScanCandidateView>::empty()
                        ==> taken == start_remaining.len());
                    assert(start_remaining.take(taken) =~= start_remaining);
                    self.state = EndScanState::Complete;
                    self.selection =
                        match &self.last_match {
                            Some(address) => CardAddress::Value(address.duplicate()),
                            None => CardAddress::NewSlot,
                        };
                    self.total = QueryTotal::Exact(self.progress.matched);
                    return EndScanPoll::Complete(self.progress);
                },
            }
            assert(start_remaining.take(taken + 1) =~= start_remaining.take(taken).push(
                start_remaining[taken],
            ));
            assert(before_remaining[0] == start_remaining[taken]);
            assert(self.candidates.remaining() =~= start_remaining.skip(taken + 1));
        }
        self.total = QueryTotal::Scanning(self.progress);
        EndScanPoll::Pending(self.progress)
    }
}


/// A completed scan selects the create-object card exactly when nothing
/// matched; otherwise it selects the last match.
pub proof fn law_completed_selection_is_new_slot_iff_no_match(candidates: Seq<ScanCandidateView>)
    ensures
        (completed_selection(candidates) == CardAddressView::NewSlot) <==> match_count(candidates) == 0,
        match_count(candidates) > 0 ==> completed_selection(candidates) == CardAddressView::Value(
            last_match(candidates)->Some_0,
        ),
    decreases candidates.len(),
{
    if candidates.len() > 0 {
        law_completed_selection_is_new_slot_iff_no_match(candidates.drop_last());
    }
}

/// An exact total is published only once the whole candidate stream has
/// been inspected, and it is then the number of matches, with the last
/// match (or the create-object card) selected; before that, and after a
/// cancellation or a revision change, the selection published when the
/// scan started stays in place.
pub proof fn law_exact_total_only_after_exhaustion<S: CandidateStream>(scan: EndScan<S>)
    requires
        scan.wf(),
    ensures
        scan.total_value() is Exact ==> {
            &&& scan.remaining().len() == 0
            &&& scan.total_value() == QueryTotal::Exact(match_count(scan.consumed()) as usize)
            &&& scan.selection_view() == completed_selection(scan.consumed())
        },
        !(scan.total_value() is Exact) ==> scan.selection_view() == scan.initial_selection(),
{
}

} // verus!
