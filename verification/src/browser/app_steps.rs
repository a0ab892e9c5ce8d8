//! The browser's periodic tick and the handling of a chosen value-picker
//! row, as decisions: which nested picker to finish, what to refresh, which
//! engine step a choice asks for and where the focus goes afterwards. The
//! engine calls themselves stay with the caller.
use vstd::prelude::*;
use crate::browser::editors::PendingFieldLink;
use crate::browser::value_picker::{ValueChoiceView, ValuePickerChoice};
use crate::explorer::ids::SlotId;
use crate::explorer::value_address::{AddressView, ValueAddress};
use crate::text::{decimal, push_decimal, push_text};

verus! {

/// What the browser is doing.
#[derive(Clone, Copy, Debug, PartialEq, Eq, Structural)]
pub enum BrowserMode {
    Pool,
    RowSearch,
    Variant,
    Value,
    LinkAction,
    Text,
    BreadcrumbValue,
    NestedPicker,
    TabName,
}

/// A nested picker running in its own task.
#[derive(Clone, Copy, Debug, PartialEq, Eq, Structural)]
pub enum NestedTaskKind {
    BreadcrumbMenu,
    ShapePicker,
    VariantPicker,
    ValuePicker,
    LinkActionPicker,
    BreadcrumbValuePicker,
    BreadcrumbPicker,
}

/// Which nested picker tasks are running.
#[derive(Clone, Copy, Debug, PartialEq, Eq, Structural)]
pub struct NestedTasks {
    pub breadcrumb_menu: bool,
    pub shape_picker: bool,
    pub variant_picker: bool,
    pub value_picker: bool,
    pub link_action_picker: bool,
    pub breadcrumb_value_picker: bool,
}

/// What the pool refreshes on a tick.
#[derive(Clone, Copy, Debug, PartialEq, Eq, Structural)]
pub enum TickRefresh {
    /// Refill the value picker's candidates.
    ValueCandidates,
    /// Read the root snapshot at hand again (if any), then refill the card window.
    Pool { reinspect_root: Option<SlotId> },
    /// Nothing.
    Nothing,
}

/// One tick of the browser.
#[derive(Clone, Copy, Debug, PartialEq, Eq, Structural)]
pub enum TickStep {
    /// While a nested picker runs, only its task is looked at.
    FinishNestedTask(NestedTaskKind),
    /// Otherwise invocation events are polled, running productions advance
    /// (when there are any), and the current mode's view is refreshed.
    Background { advance_productions: bool, refresh: TickRefresh },
}

/// The nested task a tick looks at: the first running one in the order
/// menu, shape, variant, value, link action, breadcrumb value; else the
/// breadcrumb picker.
pub open spec fn nested_task_spec(tasks: NestedTasks) -> NestedTaskKind {
    if tasks.breadcrumb_menu {
        NestedTaskKind::BreadcrumbMenu
    } else if tasks.shape_picker {
        NestedTaskKind::ShapePicker
    } else if tasks.variant_picker {
        NestedTaskKind::VariantPicker
    } else if tasks.value_picker {
        NestedTaskKind::ValuePicker
    } else if tasks.link_action_picker {
        NestedTaskKind::LinkActionPicker
    } else if tasks.breadcrumb_value_picker {
        NestedTaskKind::BreadcrumbValuePicker
    } else {
        NestedTaskKind::BreadcrumbPicker
    }
}

pub open spec fn tick_spec(
    mode: BrowserMode,
    tasks: NestedTasks,
    production_jobs_active: bool,
    active_root: Option<SlotId>,
) -> TickStep {
    if mode == BrowserMode::NestedPicker {
        TickStep::FinishNestedTask(nested_task_spec(tasks))
    } else {
        TickStep::Background {
            advance_productions: production_jobs_active,
            refresh: if mode == BrowserMode::Value {
                TickRefresh::ValueCandidates
            } else if mode == BrowserMode::Pool {
                TickRefresh::Pool { reinspect_root: active_root }
            } else {
                TickRefresh::Nothing
            },
        }
    }
}

pub fn tick_step(
    mode: BrowserMode,
    tasks: NestedTasks,
    production_jobs_active: bool,
    active_root: Option<SlotId>,
) -> (step: TickStep)
    ensures
        step == tick_spec(mode, tasks, production_jobs_active, active_root),
        mode == BrowserMode::NestedPicker && tasks.breadcrumb_menu ==> step
            == TickStep::FinishNestedTask(NestedTaskKind::BreadcrumbMenu),
        mode == BrowserMode::NestedPicker ==> step is FinishNestedTask,
        mode != BrowserMode::NestedPicker ==> (step matches TickStep::Background {
            advance_productions,
            ..
        } && advance_productions == production_jobs_active),
        mode == BrowserMode::Pool ==> step == (TickStep::Background {
            advance_productions: production_jobs_active,
            refresh: TickRefresh::Pool { reinspect_root: active_root },
        }),
{
    if mode == BrowserMode::NestedPicker {
        let task = if tasks.breadcrumb_menu {
            NestedTaskKind::BreadcrumbMenu
        } else if tasks.shape_picker {
            NestedTaskKind::ShapePicker
        } else if tasks.variant_picker {
            NestedTaskKind::VariantPicker
        } else if tasks.value_picker {
            NestedTaskKind::ValuePicker
        } else if tasks.link_action_picker {
            NestedTaskKind::LinkActionPicker
        } else if tasks.breadcrumb_value_picker {
            NestedTaskKind::BreadcrumbValuePicker
        } else {
            NestedTaskKind::BreadcrumbPicker
        };
        return TickStep::FinishNestedTask(task);
    }
    let refresh = if mode == BrowserMode::Value {
        TickRefresh::ValueCandidates
    } else if mode == BrowserMode::Pool {
        TickRefresh::Pool { reinspect_root: active_root }
    } else {
        TickRefresh::Nothing
    };
    TickStep::Background { advance_productions: production_jobs_active, refresh }
}

/// How a producer job obtains its input.
#[derive(Clone, Copy, Debug, PartialEq, Eq, Structural)]
pub enum ProductionStrategyKind {
    /// The input's default production plan.
    Default,
    /// A new building root that the user fills in.
    Manual,
    /// Arbitrary bytes drawn by the caller.
    Arbitrary,
}

/// The engine step a chosen value-picker row asks for, for field `field`
/// of building root `destination`.
pub enum ValueChoiceStep {
    /// Wait for the user to pick how the candidate is linked.
    OpenLinkActions(PendingFieldLink),
    /// Create a new building root of the shape named `shape`; it becomes
    /// the source of the field once created.
    CreateBuilder { destination: SlotId, field: usize, shape: String },
    /// Start a producer job for the field.
    StartProduction {
        destination: SlotId,
        field: usize,
        function: u64,
        strategy: ProductionStrategyKind,
    },
}

pub enum ValueChoiceStepView {
    OpenLinkActions { destination: SlotId, field: usize, source: AddressView },
    CreateBuilder { destination: SlotId, field: usize, shape: Seq<char> },
    StartProduction {
        destination: SlotId,
        field: usize,
        function: u64,
        strategy: ProductionStrategyKind,
    },
}

impl View for ValueChoiceStep {
    type V = ValueChoiceStepView;

    open spec fn view(&self) -> ValueChoiceStepView {
        match self {
            ValueChoiceStep::OpenLinkActions(link) => ValueChoiceStepView::OpenLinkActions {
                destination: link.destination,
                field: link.field,
                source: link.source@,
            },
            ValueChoiceStep::CreateBuilder { destination, field, shape } =>
                ValueChoiceStepView::CreateBuilder {
                destination: *destination,
                field: *field,
                shape: shape@,
            },
            ValueChoiceStep::StartProduction { destination, field, function, strategy } =>
                ValueChoiceStepView::StartProduction {
                destination: *destination,
                field: *field,
                function: *function,
                strategy: *strategy,
            },
        }
    }
}

/// A candidate opens the link choices for it; "create new owned" creates a
/// builder; the producer rows start a job with the default, manual or
/// arbitrary strategy.
pub open spec fn value_choice_spec(destination: SlotId, field: usize, choice: ValueChoiceView) -> ValueChoiceStepView {
    match choice {
        ValueChoiceView::Candidate { address } => ValueChoiceStepView::OpenLinkActions {
            destination,
            field,
            source: address,
        },
        ValueChoiceView::CreateNewOwned { shape } => ValueChoiceStepView::CreateBuilder {
            destination,
            field,
            shape,
        },
        ValueChoiceView::InvokeDefaultProducer { function } => ValueChoiceStepView::StartProduction {
            destination,
            field,
            function,
            strategy: ProductionStrategyKind::Default,
        },
        ValueChoiceView::CreateProducer { function } => ValueChoiceStepView::StartProduction {
            destination,
            field,
            function,
            strategy: ProductionStrategyKind::Manual,
        },
        ValueChoiceView::InvokeArbitraryProducer { function } => ValueChoiceStepView::StartProduction {
            destination,
            field,
            function,
            strategy: ProductionStrategyKind::Arbitrary,
        },
    }
}

pub fn value_choice_step(destination: SlotId, field: usize, choice: &ValuePickerChoice) -> (step:
    ValueChoiceStep)
    ensures
        step@ == value_choice_spec(destination, field, choice@),
        choice is Candidate ==> step is OpenLinkActions,
        choice is CreateNewOwned ==> step is CreateBuilder,
        choice is InvokeDefaultProducer ==> (step matches ValueChoiceStep::StartProduction { strategy, .. }
            && strategy == ProductionStrategyKind::Default),
        choice is CreateProducer ==> (step matches ValueChoiceStep::StartProduction { strategy, .. }
            && strategy == ProductionStrategyKind::Manual),
        choice is InvokeArbitraryProducer ==> (step matches ValueChoiceStep::StartProduction { strategy, .. }
            && strategy == ProductionStrategyKind::Arbitrary),
        step@ matches ValueChoiceStepView::OpenLinkActions { destination: d, field: f, .. } ==> d
            == destination && f == field,
        step@ matches ValueChoiceStepView::StartProduction { destination: d, field: f, .. } ==> d
            == destination && f == field,
{
    match choice {
        ValuePickerChoice::Candidate { address } => ValueChoiceStep::OpenLinkActions(
            PendingFieldLink { destination, field, source: address.duplicate() },
        ),
        ValuePickerChoice::CreateNewOwned { shape } => ValueChoiceStep::CreateBuilder {
            destination,
            field,
            shape: shape.clone(),
        },
        ValuePickerChoice::InvokeDefaultProducer { function } => ValueChoiceStep::StartProduction {
            destination,
            field,
            function: *function,
            strategy: ProductionStrategyKind::Default,
        },
        ValuePickerChoice::CreateProducer { function } => ValueChoiceStep::StartProduction {
            destination,
            field,
            function: *function,
            strategy: ProductionStrategyKind::Manual,
        },
        ValuePickerChoice::InvokeArbitraryProducer { function } => ValueChoiceStep::StartProduction {
            destination,
            field,
            function: *function,
            strategy: ProductionStrategyKind::Arbitrary,
        },
    }
}

/// Where the focus goes once a step has been taken with the engine.
#[derive(Clone, Copy, Debug, PartialEq, Eq, Structural)]
pub enum FocusAfterChoice {
    /// Open the link choices of the pending link.
    LinkActions,
    /// Focus building root `slot` in the pool on its next needed input
    /// (opening its scalar editor when it builds a scalar).
    EditRoot(SlotId),
    /// Focus the destination root in the pool on its next needed input.
    FocusDestination(SlotId),
}

/// After the builder of a new owned value was created as root `source`:
/// the field now waits for it, and its link choices open at once when it
/// is already ready; otherwise the new root is edited first.
pub fn after_builder_created(destination: SlotId, field: usize, source: SlotId, ready: bool) -> (after: (
    PendingFieldLink,
    FocusAfterChoice,
))
    ensures
        after.0.destination == destination,
        after.0.field == field,
        after.0.source@ == (AddressView { root: source.0, path: Seq::empty() }),
        after.1 == (if ready {
            FocusAfterChoice::LinkActions
        } else {
            FocusAfterChoice::EditRoot(source)
        }),
{
    let link = PendingFieldLink { destination, field, source: ValueAddress::root(source) };
    let focus = if ready {
        FocusAfterChoice::LinkActions
    } else {
        FocusAfterChoice::EditRoot(source)
    };
    (link, focus)
}

/// After a producer job started: a manual job whose first update names an
/// input root has that root edited; any other job focuses the destination.
pub fn after_production_started(
    strategy: ProductionStrategyKind,
    destination: SlotId,
    first_input: Option<SlotId>,
) -> (focus: FocusAfterChoice)
    ensures
        focus == (match (strategy, first_input) {
            (ProductionStrategyKind::Manual, Some(input)) => FocusAfterChoice::EditRoot(input),
            _ => FocusAfterChoice::FocusDestination(destination),
        }),
{
    match (strategy, first_input) {
        (ProductionStrategyKind::Manual, Some(input)) => FocusAfterChoice::EditRoot(input),
        _ => FocusAfterChoice::FocusDestination(destination),
    }
}

/// The last update of a batch of producer jobs, as plain values.
pub enum ProductionUpdate {
    /// Job `job` waits for its input.
    Waiting { job: u64 },
    /// Job `job` advanced through root `root`, spending `work` units in the batch.
    Advanced { job: u64, root: SlotId, work: usize },
    /// Job `job` moved output root `output` into field `field` of
    /// `destination`, whose builder is now described by `transition`.
    Complete { job: u64, output: SlotId, destination: SlotId, field: usize, transition: String },
    /// Job `job` failed with `message`.
    Failed { job: u64, message: String },
}

pub open spec fn production_status_text(update: ProductionUpdate) -> Seq<char> {
    match update {
        ProductionUpdate::Waiting { job } => "Producer job "@ + decimal(job as nat) + " is waiting."@,
        ProductionUpdate::Advanced { job, root, work } => "Producer job "@ + decimal(job as nat)
            + " advanced through slot "@ + decimal(root.0 as nat) + " ("@ + decimal(work as nat)
            + " work units)."@,
        ProductionUpdate::Complete { job, output, destination, field, transition } =>
            "Producer job "@ + decimal(job as nat) + " moved output slot "@ + decimal(output.0 as nat)
            + " into slot "@ + decimal(destination.0 as nat) + " field "@ + decimal(field as nat)
            + " ("@ + transition@ + ")."@,
        ProductionUpdate::Failed { job, message } => "Producer job "@ + decimal(job as nat)
            + " failed: "@ + message@,
    }
}

/// The status line a batch's last update reports.
pub fn production_status(update: &ProductionUpdate) -> (status: String)
    ensures
        status@ == production_status_text(*update),
{
    let mut status = String::from_str("Producer job ");
    match update {
        ProductionUpdate::Waiting { job } => {
            push_decimal(&mut status, *job);
            push_text(&mut status, " is waiting.");
        },
        ProductionUpdate::Advanced { job, root, work } => {
            push_decimal(&mut status, *job);
            push_text(&mut status, " advanced through slot ");
            push_decimal(&mut status, root.0);
            push_text(&mut status, " (");
            push_decimal(&mut status, *work as u64);
            push_text(&mut status, " work units).");
        },
        ProductionUpdate::Complete { job, output, destination, field, transition } => {
            push_decimal(&mut status, *job);
            push_text(&mut status, " moved output slot ");
            push_decimal(&mut status, output.0);
            push_text(&mut status, " into slot ");
            push_decimal(&mut status, destination.0);
            push_text(&mut status, " field ");
            push_decimal(&mut status, *field as u64);
            push_text(&mut status, " (");
            push_text(&mut status, transition.as_str());
            push_text(&mut status, ").");
        },
        ProductionUpdate::Failed { job, message } => {
            push_decimal(&mut status, *job);
            push_text(&mut status, " failed: ");
            push_text(&mut status, message.as_str());
        },
    }
    status
}

} // verus!
