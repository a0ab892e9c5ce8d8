use ui_ratatui::browser::app_steps::{
    after_builder_created, after_production_started, production_status, tick_step, value_choice_step,
    BrowserMode, FocusAfterChoice, NestedTaskKind, NestedTasks, ProductionStrategyKind,
    ProductionUpdate, TickRefresh, TickStep, ValueChoiceStep,
};
use ui_ratatui::browser::row_search::RowSearchState;
use ui_ratatui::browser::value_picker::ValuePickerChoice;
use ui_ratatui::explorer::arena::{ArenaError, SlotStateKind};
use ui_ratatui::explorer::borrow::BorrowError;
use ui_ratatui::explorer::card::{CardRowContent, CardRowKey, CardRowSnapshot, CardSnapshot};
use ui_ratatui::explorer::export_read_barrier::BarrierError;
use ui_ratatui::explorer::ids::{BorrowId, QuerySessionId, SlotId};
use ui_ratatui::explorer::revision::{RevisionError, RootRevision};
use ui_ratatui::explorer::value_address::{ValueAddress, ValuePathSegment};

fn no_tasks() -> NestedTasks {
    NestedTasks {
        breadcrumb_menu: false,
        shape_picker: false,
        variant_picker: false,
        value_picker: false,
        link_action_picker: false,
        breadcrumb_value_picker: false,
    }
}

#[test]
fn a_tick_finishes_the_first_running_nested_picker() {
    let tasks = NestedTasks {
        value_picker: true,
        breadcrumb_value_picker: true,
        ..no_tasks()
    };
    assert_eq!(
        tick_step(BrowserMode::NestedPicker, tasks, true, None),
        TickStep::FinishNestedTask(NestedTaskKind::ValuePicker)
    );
    let tasks = NestedTasks {
        breadcrumb_menu: true,
        shape_picker: true,
        ..no_tasks()
    };
    assert_eq!(
        tick_step(BrowserMode::NestedPicker, tasks, false, None),
        TickStep::FinishNestedTask(NestedTaskKind::BreadcrumbMenu)
    );
    assert_eq!(
        tick_step(BrowserMode::NestedPicker, no_tasks(), false, None),
        TickStep::FinishNestedTask(NestedTaskKind::BreadcrumbPicker)
    );
}

#[test]
fn a_tick_outside_nested_pickers_refreshes_the_current_view() {
    assert_eq!(
        tick_step(BrowserMode::Pool, no_tasks(), true, Some(SlotId::new(3))),
        TickStep::Background {
            advance_productions: true,
            refresh: TickRefresh::Pool { reinspect_root: Some(SlotId::new(3)) },
        }
    );
    assert_eq!(
        tick_step(BrowserMode::Value, no_tasks(), false, Some(SlotId::new(3))),
        TickStep::Background { advance_productions: false, refresh: TickRefresh::ValueCandidates }
    );
    assert_eq!(
        tick_step(BrowserMode::Text, no_tasks(), false, None),
        TickStep::Background { advance_productions: false, refresh: TickRefresh::Nothing }
    );
}

#[test]
fn value_choices_ask_for_their_engine_step() {
    let source = ValueAddress::root(SlotId::new(7)).child(ValuePathSegment::Index(0));
    match value_choice_step(SlotId::new(2), 1, &ValuePickerChoice::Candidate { address: source.clone() }) {
        ValueChoiceStep::OpenLinkActions(link) => {
            assert_eq!(link.destination, SlotId::new(2));
            assert_eq!(link.field, 1);
            assert_eq!(link.source, source);
        }
        _ => panic!("a candidate opens its link actions"),
    }
    assert!(matches!(
        value_choice_step(SlotId::new(2), 1, &ValuePickerChoice::CreateNewOwned { shape: "String".to_owned() }),
        ValueChoiceStep::CreateBuilder { destination, field: 1, ref shape } if destination == SlotId::new(2) && shape == "String"
    ));
    let strategies = [
        (ValuePickerChoice::InvokeDefaultProducer { function: 9 }, ProductionStrategyKind::Default),
        (ValuePickerChoice::CreateProducer { function: 9 }, ProductionStrategyKind::Manual),
        (ValuePickerChoice::InvokeArbitraryProducer { function: 9 }, ProductionStrategyKind::Arbitrary),
    ];
    for (choice, expected) in strategies {
        assert!(matches!(
            value_choice_step(SlotId::new(2), 1, &choice),
            ValueChoiceStep::StartProduction { function: 9, strategy, field: 1, .. } if strategy == expected
        ));
    }
}

#[test]
fn focus_after_a_choice_follows_what_the_engine_reported() {
    let (link, focus) = after_builder_created(SlotId::new(2), 0, SlotId::new(5), false);
    assert_eq!(link.source, ValueAddress::root(SlotId::new(5)));
    assert_eq!(focus, FocusAfterChoice::EditRoot(SlotId::new(5)));
    let (_, focus) = after_builder_created(SlotId::new(2), 0, SlotId::new(5), true);
    assert_eq!(focus, FocusAfterChoice::LinkActions);
    assert_eq!(
        after_production_started(ProductionStrategyKind::Manual, SlotId::new(2), Some(SlotId::new(6))),
        FocusAfterChoice::EditRoot(SlotId::new(6))
    );
    assert_eq!(
        after_production_started(ProductionStrategyKind::Manual, SlotId::new(2), None),
        FocusAfterChoice::FocusDestination(SlotId::new(2))
    );
    assert_eq!(
        after_production_started(ProductionStrategyKind::Default, SlotId::new(2), Some(SlotId::new(6))),
        FocusAfterChoice::FocusDestination(SlotId::new(2))
    );
}

#[test]
fn production_batches_report_their_last_update() {
    assert_eq!(production_status(&ProductionUpdate::Waiting { job: 1 }), "Producer job 1 is waiting.");
    assert_eq!(
        production_status(&ProductionUpdate::Advanced { job: 1, root: SlotId::new(4), work: 16 }),
        "Producer job 1 advanced through slot 4 (16 work units)."
    );
    assert_eq!(
        production_status(&ProductionUpdate::Complete {
            job: 1,
            output: SlotId::new(4),
            destination: SlotId::new(2),
            field: 0,
            transition: "Ready".to_owned(),
        }),
        "Producer job 1 moved output slot 4 into slot 2 field 0 (Ready)."
    );
    assert_eq!(
        production_status(&ProductionUpdate::Failed { job: 3, message: "no input".to_owned() }),
        "Producer job 3 failed: no input"
    );
}

#[test]
fn row_search_closes_when_emptied_and_activates_only_on_a_match() {
    let card = CardSnapshot::owned(
        SlotId::new(1),
        "Thing",
        RootRevision::default(),
        vec![CardRowSnapshot::new(
            CardRowKey::Field("name".to_owned()),
            "name",
            CardRowContent::Text("Ada".to_owned()),
        )],
        true,
    );
    let mut search = RowSearchState::new(&card, "n");
    assert!(!search.closes_after_pop());
    assert!(search.accept_activates());
    search.pop(&card);
    assert!(search.closes_after_pop());
    let missing = RowSearchState::new(&card, "zzzz");
    assert!(!missing.accept_activates());
}

#[test]
fn errors_read_as_sentences() {
    assert_eq!(ArenaError::UnknownSlot(SlotId::new(4)).message(), "slot 4 does not exist");
    assert_eq!(
        ArenaError::RootNotReady { slot: SlotId::new(1), state: SlotStateKind::Building }.message(),
        "slot 1 is Building, not Ready"
    );
    assert_eq!(
        ArenaError::Tombstone { slot: SlotId::new(1), previous: SlotStateKind::Ready }.message(),
        "slot 1 is a tombstone (previous state: Ready)"
    );
    assert_eq!(
        ArenaError::InvalidTransition {
            slot: SlotId::new(2),
            from: SlotStateKind::Consumed,
            to: SlotStateKind::Ready,
        }
        .message(),
        "slot 2 cannot transition from Consumed to Ready"
    );
    assert_eq!(
        ArenaError::Revision(RevisionError::Exhausted).message(),
        RevisionError::Exhausted.message()
    );
    assert_eq!(
        BorrowError::SourceProtected { root: SlotId::new(3), leases: 2 }.message(),
        "slot 3 cannot be mutated while protected by 2 borrow lease(s)"
    );
    assert_eq!(
        BorrowError::UnknownLease(BorrowId::new(5)).message(),
        "borrow lease BorrowId(5) does not exist"
    );
    assert_eq!(
        BorrowError::SourceNotReady(ValueAddress::root(SlotId::new(2))).message(),
        "borrow source slot 2 is not a resolved value"
    );
    assert_eq!(
        BarrierError::AlreadyActive(QuerySessionId::new(1)).message(),
        "export session 1 is already active"
    );
    assert_eq!(BarrierError::NotActive.message(), "no export session is active");
    assert_eq!(
        BarrierError::WrongSession { active: QuerySessionId::new(1), requested: QuerySessionId::new(2) }
            .message(),
        "export session 1 is active, not 2"
    );
}
