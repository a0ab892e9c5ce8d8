//! Arena-wide mutation barrier for one coherent export.
//!
//! While an export session is active, commands that would change the arena
//! are retained in the order the engine observed them; they are released,
//! in that order, when the owning export finishes or is cancelled.
use vstd::prelude::*;
use std::collections::VecDeque;
use crate::explorer::ids::QuerySessionId;
use crate::text::{decimal, push_decimal, push_text};

verus! {

#[derive(Clone, Copy, Debug, PartialEq, Eq, Structural)]
pub enum BarrierError {
    AlreadyActive(QuerySessionId),
    NotActive,
    WrongSession { active: QuerySessionId, requested: QuerySessionId },
}

impl BarrierError {
    /// The error as a sentence, naming the sessions involved.
    pub fn message(&self) -> (message: String)
        ensures
            message@ == match *self {
                BarrierError::AlreadyActive(session) => "export session "@ + decimal(session.0 as nat)
                    + " is already active"@,
                BarrierError::NotActive => "no export session is active"@,
                BarrierError::WrongSession { active, requested } => "export session "@ + decimal(
                    active.0 as nat,
                ) + " is active, not "@ + decimal(requested.0 as nat),
            },
    {
        let mut text = String::new();
        match self {
            BarrierError::AlreadyActive(session) => {
                push_text(&mut text, "export session ");
                push_decimal(&mut text, session.0);
                push_text(&mut text, " is already active");
            },
            BarrierError::NotActive => push_text(&mut text, "no export session is active"),
            BarrierError::WrongSession { active, requested } => {
                push_text(&mut text, "export session ");
                push_decimal(&mut text, active.0);
                push_text(&mut text, " is active, not ");
                push_decimal(&mut text, requested.0);
            },
        }
        assert(text@ =~= match *self {
            BarrierError::AlreadyActive(session) => "export session "@ + decimal(session.0 as nat)
                + " is already active"@,
            BarrierError::NotActive => "no export session is active"@,
            BarrierError::WrongSession { active, requested } => "export session "@ + decimal(
                active.0 as nat,
            ) + " is active, not "@ + decimal(requested.0 as nat),
        });
        text
    }
}

#[derive(Debug, PartialEq, Eq)]
pub enum MutationSubmission<C> {
    ApplyNow(C),
    Deferred,
}

/// Mathematical state of a barrier: the active session and the commands
/// deferred while it is active.
pub struct BarrierModel<C> {
    pub active: Option<QuerySessionId>,
    pub deferred: Seq<C>,
}

/// `begin`: open `session` unless a session is already active.
pub open spec fn model_begin<C>(state: BarrierModel<C>, session: QuerySessionId) -> (
    BarrierModel<C>,
    Result<(), BarrierError>,
) {
    match state.active {
        Some(active) => (state, Err(BarrierError::AlreadyActive(active))),
        None => (BarrierModel { active: Some(session), deferred: state.deferred }, Ok(())),
    }
}

/// `submit`: defer `command` while a session is active, else apply it now.
pub open spec fn model_submit<C>(state: BarrierModel<C>, command: C) -> (
    BarrierModel<C>,
    MutationSubmission<C>,
) {
    if state.active is Some {
        (
            BarrierModel { active: state.active, deferred: state.deferred.push(command) },
            MutationSubmission::Deferred,
        )
    } else {
        (state, MutationSubmission::ApplyNow(command))
    }
}

/// `finish` (and `cancel`): close the active session `session`, releasing
/// every deferred command in the order it was submitted.
pub open spec fn model_finish<C>(state: BarrierModel<C>, session: QuerySessionId) -> (
    BarrierModel<C>,
    Result<Seq<C>, BarrierError>,
) {
    match state.active {
        Some(active) => if active == session {
            (BarrierModel { active: None, deferred: Seq::empty() }, Ok(state.deferred))
        } else {
            (state, Err(BarrierError::WrongSession { active, requested: session }))
        },
        None => (state, Err(BarrierError::NotActive)),
    }
}

/// The barrier state after submitting each of `commands` in turn.
pub open spec fn model_submit_all<C>(state: BarrierModel<C>, commands: Seq<C>) -> BarrierModel<C>
    decreases commands.len(),
{
    if commands.len() == 0 {
        state
    } else {
        model_submit(model_submit_all(state, commands.drop_last()), commands.last()).0
    }
}

pub struct ExportReadBarrier<C> {
    active: Option<QuerySessionId>,
    deferred: VecDeque<C>,
}

impl<C> View for ExportReadBarrier<C> {
    type V = BarrierModel<C>;

    closed spec fn view(&self) -> BarrierModel<C> {
        BarrierModel { active: self.active, deferred: self.deferred@ }
    }
}

impl<C> Default for ExportReadBarrier<C> {
    fn default() -> (barrier: ExportReadBarrier<C>)
        ensures
            barrier@.active is None,
            barrier@.deferred == Seq::<C>::empty(),
    {
        ExportReadBarrier { active: None, deferred: VecDeque::new() }
    }
}

impl<C> ExportReadBarrier<C> {
    pub fn begin(&mut self, session: QuerySessionId) -> (result: Result<(), BarrierError>)
        ensures
            (final(self)@, result) == model_begin(old(self)@, session),
    {
        if let Some(active) = self.active {
            return Err(BarrierError::AlreadyActive(active));
        }
        self.active = Some(session);
        Ok(())
    }

    pub fn submit(&mut self, command: C) -> (submission: MutationSubmission<C>)
        ensures
            (final(self)@, submission) == model_submit(old(self)@, command),
    {
        if self.active.is_some() {
            self.deferred.push_back(command);
            MutationSubmission::Deferred
        } else {
            MutationSubmission::ApplyNow(command)
        }
    }

    pub fn finish(&mut self, session: QuerySessionId) -> (result: Result<VecDeque<C>, BarrierError>)
        ensures
            final(self)@ == model_finish(old(self)@, session).0,
            match model_finish(old(self)@, session).1 {
                Ok(released) => result matches Ok(deferred) && deferred@ == released,
                Err(error) => result == Err::<VecDeque<C>, BarrierError>(error),
            },
    {
        match self.assert_session(session) {
            Ok(()) => {},
            Err(error) => return Err(error),
        }
        self.active = None;
        let mut released = VecDeque::new();
        std::mem::swap(&mut released, &mut self.deferred);
        Ok(released)
    }

    pub fn cancel(&mut self, session: QuerySessionId) -> (result: Result<VecDeque<C>, BarrierError>)
        ensures
            final(self)@ == model_finish(old(self)@, session).0,
            match model_finish(old(self)@, session).1 {
                Ok(released) => result matches Ok(deferred) && deferred@ == released,
                Err(error) => result == Err::<VecDeque<C>, BarrierError>(error),
            },
    {
        self.finish(session)
    }

    pub fn active_session(&self) -> (active: Option<QuerySessionId>)
        ensures
            active == self@.active,
    {
        self.active
    }

    pub fn deferred_len(&self) -> (len: usize)
        ensures
            len == self@.deferred.len(),
    {
        self.deferred.len()
    }

    /// Succeeds exactly when `requested` is the active session.
    pub fn assert_session(&self, requested: QuerySessionId) -> (result: Result<(), BarrierError>)
        ensures
            match self@.active {
                Some(active) => if active == requested {
                    result is Ok
                } else {
                    result == Err::<(), BarrierError>(
                        BarrierError::WrongSession { active, requested },
                    )
                },
                None => result == Err::<(), BarrierError>(BarrierError::NotActive),
            },
    {
        match self.active {
            Some(active) => {
                if active == requested {
                    Ok(())
                } else {
                    Err(BarrierError::WrongSession { active, requested })
                }
            },
            None => Err(BarrierError::NotActive),
        }
    }
}

/// Submitting while a session is active only appends to the deferred
/// commands and never changes the active session.
pub proof fn lemma_submit_all_while_active<C>(state: BarrierModel<C>, commands: Seq<C>)
    requires
        state.active is Some,
    ensures
        model_submit_all(state, commands).active == state.active,
        model_submit_all(state, commands).deferred == state.deferred + commands,
    decreases commands.len(),
{
    if commands.len() > 0 {
        lemma_submit_all_while_active(state, commands.drop_last());
        assert(state.deferred + commands.drop_last() + seq![commands.last()] =~= state.deferred
            + commands);
    }
}

/// Law: commands submitted during an export are deferred, and closing that
/// export (finish or cancel) releases exactly those commands in the order
/// they were submitted, after which the barrier is idle again.
pub proof fn law_deferred_commands_released_in_observed_order<C>(
    session: QuerySessionId,
    commands: Seq<C>,
)
    ensures
        ({
            let idle = BarrierModel::<C> { active: None, deferred: Seq::empty() };
            let (open, begun) = model_begin(idle, session);
            let during = model_submit_all(open, commands);
            let (closed, released) = model_finish(during, session);
            &&& begun is Ok
            &&& during.deferred.len() == commands.len()
            &&& released == Ok::<Seq<C>, BarrierError>(commands)
            &&& closed == idle
        }),
{
    let idle = BarrierModel::<C> { active: None, deferred: Seq::empty() };
    let open = model_begin(idle, session).0;
    lemma_submit_all_while_active(open, commands);
    assert(Seq::<C>::empty() + commands =~= commands);
}

/// Law: a session other than the active one can neither finish nor cancel
/// the export; the barrier and its deferred commands are left untouched.
pub proof fn law_wrong_session_cannot_release<C>(
    state: BarrierModel<C>,
    requested: QuerySessionId,
)
    requires
        state.active is Some,
        state.active != Some(requested),
    ensures
        model_finish(state, requested).0 == state,
        model_finish(state, requested).1 == Err::<Seq<C>, BarrierError>(
            BarrierError::WrongSession { active: state.active->0, requested },
        ),
{
}

/// Law: without an active export, every submitted command applies
/// immediately and nothing is deferred.
pub proof fn law_idle_barrier_applies_immediately<C>(state: BarrierModel<C>, command: C)
    requires
        state.active is None,
    ensures
        model_submit(state, command) == (state, MutationSubmission::ApplyNow(command)),
{
}

} // verus!
