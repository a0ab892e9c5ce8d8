use ui_ratatui::explorer::card_address::CardAddress;
use ui_ratatui::explorer::end_scan::{
    CandidateList, EndScan, EndScanPoll, QueryTotal, RepeatedCandidate, ScanCandidate,
    ScanProgress,
};
use ui_ratatui::explorer::ids::SlotId;
use ui_ratatui::explorer::revision::{ArenaRevisions, QueryRevision, ScanRevisionStamp};
use ui_ratatui::explorer::value_address::ValueAddress;
use ui_ratatui::explorer::work_budget::WorkBudget;

fn stamp() -> ScanRevisionStamp {
    ArenaRevisions::default().scan_stamp(QueryRevision::default())
}

fn selected(slot: u64) -> CardAddress {
    CardAddress::Value(ValueAddress::root(SlotId::new(slot)))
}

#[test]
fn ordinary_navigation_does_not_request_exact_total() {
    assert_eq!(QueryTotal::default(), QueryTotal::Unknown);
}

#[test]
fn end_scan_is_budgeted_cancellable_and_atomic() {
    let original_selection = selected(900);
    let candidates = (0_u64..100)
        .map(|index| {
            if index % 10 == 0 {
                ScanCandidate::Match(ValueAddress::root(SlotId::new(index)))
            } else {
                ScanCandidate::NoMatch
            }
        })
        .collect::<Vec<_>>();
    let mut scan = EndScan::new(
        CandidateList::new(candidates),
        stamp(),
        original_selection.clone(),
    );
    let mut first_budget = WorkBudget::new(7);

    assert_eq!(
        scan.poll(stamp(), &mut first_budget),
        EndScanPoll::Pending(ScanProgress {
            inspected: 7,
            matched: 1,
        })
    );
    assert_eq!(first_budget.spent(), 7);
    assert_eq!(scan.selection(), &original_selection);
    assert_eq!(
        scan.total(),
        QueryTotal::Scanning(ScanProgress {
            inspected: 7,
            matched: 1,
        })
    );

    scan.cancel();
    let mut cancelled_budget = WorkBudget::new(7);
    assert_eq!(
        scan.poll(stamp(), &mut cancelled_budget),
        EndScanPoll::Cancelled
    );
    assert_eq!(scan.selection(), &original_selection);
    assert_eq!(scan.total(), QueryTotal::Unknown);
    assert_eq!(cancelled_budget.spent(), 0);
}

#[test]
fn exact_total_is_published_only_after_exhaustion() {
    let candidates = vec![
        ScanCandidate::Match(ValueAddress::root(SlotId::new(2))),
        ScanCandidate::NoMatch,
        ScanCandidate::Match(ValueAddress::root(SlotId::new(8))),
    ];
    let mut scan = EndScan::new(CandidateList::new(candidates), stamp(), selected(100));
    let mut exact_item_budget = WorkBudget::new(3);

    assert!(matches!(
        scan.poll(stamp(), &mut exact_item_budget),
        EndScanPoll::Pending(_)
    ));
    assert_eq!(scan.selection(), &selected(100));
    assert!(matches!(scan.total(), QueryTotal::Scanning(_)));

    let mut exhaustion_budget = WorkBudget::new(1);
    assert_eq!(
        scan.poll(stamp(), &mut exhaustion_budget),
        EndScanPoll::Complete(ScanProgress {
            inspected: 3,
            matched: 2,
        })
    );
    assert_eq!(scan.selection(), &selected(8));
    assert_eq!(scan.total(), QueryTotal::Exact(2));
}

#[test]
fn end_scan_stales_on_arena_or_query_revision_change() {
    let original_selection = selected(40);
    let candidates = RepeatedCandidate::new(ScanCandidate::NoMatch, 100);
    let initial_stamp = stamp();
    let mut scan = EndScan::new(candidates, initial_stamp, original_selection.clone());
    let stale_stamp = ScanRevisionStamp {
        arena: initial_stamp.arena,
        query: initial_stamp.query.next(),
    };
    let mut budget = WorkBudget::new(10);

    assert_eq!(scan.poll(stale_stamp, &mut budget), EndScanPoll::Stale);
    assert_eq!(budget.spent(), 0);
    assert_eq!(scan.selection(), &original_selection);
    assert_eq!(scan.total(), QueryTotal::Unknown);
}

#[test]
fn million_candidate_no_match_scan_obeys_each_budget() {
    let candidates = RepeatedCandidate::new(ScanCandidate::NoMatch, 1_000_000);
    let mut scan = EndScan::new(candidates, stamp(), selected(1));
    let mut budget = WorkBudget::new(8);

    assert_eq!(
        scan.poll(stamp(), &mut budget),
        EndScanPoll::Pending(ScanProgress {
            inspected: 8,
            matched: 0,
        })
    );
    assert_eq!(budget.spent(), 8);
    assert_eq!(scan.selection(), &selected(1));
    assert_eq!(
        std::mem::size_of_val(&scan),
        std::mem::size_of::<EndScan<RepeatedCandidate>>(),
        "scan state is independent of candidate count"
    );
}

#[test]
fn scan_without_matches_completes_on_the_new_slot_with_zero_total() {
    let mut scan = EndScan::new(
        RepeatedCandidate::new(ScanCandidate::NoMatch, 3),
        stamp(),
        selected(5),
    );
    let mut budget = WorkBudget::new(10);
    assert_eq!(
        scan.poll(stamp(), &mut budget),
        EndScanPoll::Complete(ScanProgress {
            inspected: 3,
            matched: 0,
        })
    );
    assert_eq!(scan.total(), QueryTotal::Exact(0));
    assert_eq!(scan.selection(), &CardAddress::NewSlot);
    assert_eq!(budget.spent(), 4);
}
