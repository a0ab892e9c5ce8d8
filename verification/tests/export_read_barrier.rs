use ui_ratatui::explorer::export_read_barrier::{BarrierError, ExportReadBarrier, MutationSubmission};
use ui_ratatui::explorer::ids::QuerySessionId;

#[derive(Clone, Debug, Eq, PartialEq)]
enum Mutation {
    Ui(&'static str),
    Completion(&'static str),
}

#[test]
fn export_read_barrier_defers_mutations_until_close() {
    let session = QuerySessionId::new(5);
    let mut barrier = ExportReadBarrier::default();

    assert_eq!(
        barrier.submit(Mutation::Ui("before")),
        MutationSubmission::ApplyNow(Mutation::Ui("before"))
    );
    barrier.begin(session).unwrap();
    assert_eq!(
        barrier.submit(Mutation::Ui("during-1")),
        MutationSubmission::Deferred
    );
    assert_eq!(
        barrier.submit(Mutation::Completion("during-2")),
        MutationSubmission::Deferred
    );
    assert_eq!(barrier.active_session(), Some(session));
    assert_eq!(barrier.deferred_len(), 2);

    assert_eq!(
        barrier.finish(session).unwrap(),
        [Mutation::Ui("during-1"), Mutation::Completion("during-2"),]
    );
    assert_eq!(barrier.active_session(), None);
    assert_eq!(
        barrier.submit(Mutation::Ui("after")),
        MutationSubmission::ApplyNow(Mutation::Ui("after"))
    );
}

#[test]
fn cancelling_export_releases_deferred_commands_in_observed_order() {
    let session = QuerySessionId::new(8);
    let mut barrier = ExportReadBarrier::default();
    barrier.begin(session).unwrap();
    barrier.submit(Mutation::Completion("first"));
    barrier.submit(Mutation::Ui("second"));

    assert_eq!(
        barrier.cancel(session).unwrap(),
        [Mutation::Completion("first"), Mutation::Ui("second"),]
    );
    assert_eq!(barrier.active_session(), None);
}

#[test]
fn wrong_export_session_cannot_release_the_barrier() {
    let active = QuerySessionId::new(21);
    let requested = QuerySessionId::new(22);
    let mut barrier = ExportReadBarrier::<Mutation>::default();
    barrier.begin(active).unwrap();

    assert_eq!(
        barrier.finish(requested),
        Err(BarrierError::WrongSession { active, requested })
    );
    assert_eq!(barrier.active_session(), Some(active));
}

#[test]
fn a_second_export_cannot_begin_while_one_is_active() {
    let mut barrier = ExportReadBarrier::<Mutation>::default();
    barrier.begin(QuerySessionId::new(1)).unwrap();
    assert_eq!(
        barrier.begin(QuerySessionId::new(2)),
        Err(BarrierError::AlreadyActive(QuerySessionId::new(1)))
    );
    assert_eq!(barrier.active_session(), Some(QuerySessionId::new(1)));
}

#[test]
fn finishing_or_cancelling_without_an_export_is_refused() {
    let mut barrier = ExportReadBarrier::<Mutation>::default();
    assert_eq!(barrier.finish(QuerySessionId::new(3)), Err(BarrierError::NotActive));
    assert_eq!(barrier.cancel(QuerySessionId::new(3)), Err(BarrierError::NotActive));
    assert_eq!(barrier.assert_session(QuerySessionId::new(3)), Err(BarrierError::NotActive));
}

#[test]
fn the_active_session_is_confirmed_and_others_are_refused() {
    let mut barrier = ExportReadBarrier::<Mutation>::default();
    barrier.begin(QuerySessionId::new(4)).unwrap();
    assert_eq!(barrier.assert_session(QuerySessionId::new(4)), Ok(()));
    assert_eq!(
        barrier.assert_session(QuerySessionId::new(6)),
        Err(BarrierError::WrongSession {
            active: QuerySessionId::new(4),
            requested: QuerySessionId::new(6),
        })
    );
}
