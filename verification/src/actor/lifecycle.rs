//! The life of an account actor: what it does next, and what each event makes of it.

use std::time::Duration;

use vstd::prelude::*;

use crate::account::AccountId;
use crate::actor::config::ActorConfig;
use crate::count::PositiveCount;
use crate::word::TransactionId;

verus! {

// STATES, EVENTS AND ACTIONS
// ================================================================================================

/// The mode of operation that the account actor is currently performing.
#[derive(Debug, Clone, Copy, PartialEq, Eq, Structural)]
pub enum ActorMode {
    /// There is nothing to do.
    NoViableNotes,
    /// There may be notes to consume.
    NotesAvailable,
    /// A transaction was submitted, and nothing is done until it is known.
    TransactionInflight(TransactionId),
}

/// What failed when an actor crashed.
#[derive(Debug, Clone, Copy, PartialEq, Eq, Structural)]
pub enum ActorFailure {
    CommittedAccountCheck,
    AvailableNotesCheck,
    TransactionStatusCheck,
    SemaphoreClosed,
    CandidateQuery,
}

/// How an actor came to its end.
#[derive(Debug, Clone, Copy, PartialEq, Eq, Structural)]
pub enum Shutdown {
    /// Intentional: nothing happened for too long.
    Idle,
    /// A crash.
    Failed(ActorFailure),
}

/// Where an actor stands.
#[derive(Debug, Clone, Copy, PartialEq, Eq, Structural)]
pub enum ActorState {
    /// Asks whether the account is committed.
    CheckingCommit,
    /// Waits for the account to be committed.
    AwaitingCommit,
    /// Asks whether there are notes to begin with.
    CheckingNotes,
    /// Waits for what its mode lets it wait for.
    Waiting(ActorMode),
    /// Asks whether the submitted transaction is known.
    CheckingTransaction(TransactionId),
    /// Selects the next transaction.
    Selecting,
    /// Executes a transaction.
    Executing,
    /// Has come to its end.
    Stopped(Shutdown),
}

/// What happens to an actor.
#[derive(Debug, Clone, Copy, PartialEq, Eq, Structural)]
pub enum ActorEvent {
    /// The database says whether the account is committed.
    Committed(bool),
    /// The database says whether there are available notes.
    HasNotes(bool),
    /// The database says whether the submitted transaction exists.
    TransactionExists(bool),
    /// The coordinator signals that the database may have changed.
    Notified,
    /// A permit for a transaction was acquired.
    PermitAcquired,
    /// Nothing happened for as long as an actor may be idle.
    IdleTimeout,
    /// A transaction was selected, or there was none to select.
    Selected(bool),
    /// The execution of the selected transaction is over.
    Executed(ActorMode),
    /// What the actor asked for could not be done.
    Failed,
}

/// From when a timeout counts.
#[derive(Debug, Clone, Copy, PartialEq, Eq, Structural)]
pub enum TimerStart {
    /// From the start of the actor, whatever happened since.
    ActorStart,
    /// From the start of the wait that it belongs to.
    WaitStart,
}

/// How long an actor waits until it takes itself for idle.
#[derive(Debug, Clone, Copy)]
pub struct Timeout {
    pub duration: Duration,
    pub since: TimerStart,
}

/// What an actor asks for.
#[derive(Debug, Clone, Copy)]
pub enum ActorAction {
    /// Ask the database whether the account is committed.
    CheckCommitted { account_id: AccountId },
    /// Ask the database whether there are notes with attempts left.
    CheckNotes { account_id: AccountId, max_note_attempts: usize },
    /// Ask the database whether the transaction exists.
    CheckTransaction { transaction_id: TransactionId },
    /// Wait for a notification, for a permit if one is wanted, and for the timeout if there is one.
    Wait { permit: bool, timeout: Option<Timeout> },
    /// Select the next transaction.
    SelectCandidate {
        account_id: AccountId,
        max_note_attempts: usize,
        max_notes_per_tx: PositiveCount,
    },
    /// Execute the selected transaction.
    Execute { max_cycles: u32 },
    /// Give the actor up.
    Stop(Shutdown),
}

// TRANSITIONS
// ================================================================================================

/// The state after an event. An event that the state does not wait for changes nothing.
pub open spec fn next_state(state: ActorState, event: ActorEvent) -> ActorState {
    match (state, event) {
        (ActorState::CheckingCommit, ActorEvent::Committed(true)) => ActorState::CheckingNotes,
        (ActorState::CheckingCommit, ActorEvent::Committed(false)) => ActorState::AwaitingCommit,
        (ActorState::AwaitingCommit, ActorEvent::Notified) => ActorState::CheckingCommit,
        (ActorState::AwaitingCommit, ActorEvent::IdleTimeout) => {
            ActorState::Stopped(Shutdown::Idle)
        },
        (ActorState::CheckingNotes, ActorEvent::HasNotes(true)) => {
            ActorState::Waiting(ActorMode::NotesAvailable)
        },
        (ActorState::CheckingNotes, ActorEvent::HasNotes(false)) => {
            ActorState::Waiting(ActorMode::NoViableNotes)
        },
        (
            ActorState::Waiting(ActorMode::TransactionInflight(id)),
            ActorEvent::Notified,
        ) => ActorState::CheckingTransaction(id),
        (ActorState::Waiting(_), ActorEvent::Notified) => {
            ActorState::Waiting(ActorMode::NotesAvailable)
        },
        (ActorState::Waiting(ActorMode::NotesAvailable), ActorEvent::PermitAcquired) => {
            ActorState::Selecting
        },
        (ActorState::Waiting(ActorMode::NoViableNotes), ActorEvent::IdleTimeout) => {
            ActorState::Stopped(Shutdown::Idle)
        },
        (ActorState::CheckingTransaction(_), ActorEvent::TransactionExists(true)) => {
            ActorState::Waiting(ActorMode::NotesAvailable)
        },
        (ActorState::CheckingTransaction(id), ActorEvent::TransactionExists(false)) => {
            ActorState::Waiting(ActorMode::TransactionInflight(id))
        },
        (ActorState::Selecting, ActorEvent::Selected(true)) => ActorState::Executing,
        (ActorState::Selecting, ActorEvent::Selected(false)) => {
            ActorState::Waiting(ActorMode::NoViableNotes)
        },
        (ActorState::Executing, ActorEvent::Executed(mode)) => ActorState::Waiting(mode),
        (_, ActorEvent::Failed) => match failure_in(state) {
            Some(failure) => ActorState::Stopped(Shutdown::Failed(failure)),
            None => state,
        },
        _ => state,
    }
}

/// What it is that fails if what the state asks for cannot be done. Waiting for a notification or
/// a timeout does not fail, nor does an execution, which reports its own errors.
pub open spec fn failure_in(state: ActorState) -> Option<ActorFailure> {
    match state {
        ActorState::CheckingCommit => Some(ActorFailure::CommittedAccountCheck),
        ActorState::CheckingNotes => Some(ActorFailure::AvailableNotesCheck),
        ActorState::Waiting(ActorMode::NotesAvailable) => Some(ActorFailure::SemaphoreClosed),
        ActorState::CheckingTransaction(_) => Some(ActorFailure::TransactionStatusCheck),
        ActorState::Selecting => Some(ActorFailure::CandidateQuery),
        _ => None,
    }
}

impl ActorFailure {
    /// The failure in words.
    pub open spec fn spec_context(self) -> Seq<char> {
        match self {
            ActorFailure::CommittedAccountCheck => "failed to check for committed account"@,
            ActorFailure::AvailableNotesCheck => "failed to check for available notes"@,
            ActorFailure::TransactionStatusCheck => "failed to check transaction status"@,
            ActorFailure::SemaphoreClosed => "semaphore closed"@,
            ActorFailure::CandidateQuery => "failed to query DB for transaction candidate"@,
        }
    }

    /// The failure in words.
    pub fn context(&self) -> (r: &'static str)
        ensures
            r@ == self.spec_context(),
    {
        match self {
            ActorFailure::CommittedAccountCheck => "failed to check for committed account",
            ActorFailure::AvailableNotesCheck => "failed to check for available notes",
            ActorFailure::TransactionStatusCheck => "failed to check transaction status",
            ActorFailure::SemaphoreClosed => "semaphore closed",
            ActorFailure::CandidateQuery => "failed to query DB for transaction candidate",
        }
    }
}

fn failure_of(state: ActorState) -> (r: Option<ActorFailure>)
    ensures
        r == failure_in(state),
{
    match state {
        ActorState::CheckingCommit => Some(ActorFailure::CommittedAccountCheck),
        ActorState::CheckingNotes => Some(ActorFailure::AvailableNotesCheck),
        ActorState::Waiting(ActorMode::NotesAvailable) => Some(ActorFailure::SemaphoreClosed),
        ActorState::CheckingTransaction(_) => Some(ActorFailure::TransactionStatusCheck),
        ActorState::Selecting => Some(ActorFailure::CandidateQuery),
        _ => None,
    }
}

/// What an actor asks for in a state.
pub open spec fn action_in(
    account_id: AccountId,
    config: ActorConfig,
    state: ActorState,
) -> ActorAction {
    let max_note_attempts = config.max_note_attempts;
    match state {
        ActorState::CheckingCommit => ActorAction::CheckCommitted { account_id },
        ActorState::CheckingNotes => ActorAction::CheckNotes { account_id, max_note_attempts },
        ActorState::CheckingTransaction(transaction_id) => {
            ActorAction::CheckTransaction { transaction_id }
        },
        ActorState::AwaitingCommit => ActorAction::Wait {
            permit: false,
            timeout: Some(
                Timeout { duration: config.idle_timeout, since: TimerStart::ActorStart },
            ),
        },
        ActorState::Waiting(mode) => ActorAction::Wait {
            permit: mode == ActorMode::NotesAvailable,
            timeout: if mode == ActorMode::NoViableNotes {
                Some(Timeout { duration: config.idle_timeout, since: TimerStart::WaitStart })
            } else {
                None
            },
        },
        ActorState::Selecting => ActorAction::SelectCandidate {
            account_id,
            max_note_attempts,
            max_notes_per_tx: config.max_notes_per_tx,
        },
        ActorState::Executing => ActorAction::Execute { max_cycles: config.max_cycles },
        ActorState::Stopped(shutdown) => ActorAction::Stop(shutdown),
    }
}

// ACTOR
// ================================================================================================

/// Handles the lifecycle of network transaction processing for one account.
///
/// The actor waits until its account is committed. It then selects and executes transactions as
/// long as there are notes, one at a time, and comes to its end when it was idle for too long or
/// when something that it relies on fails.
#[derive(Debug)]
pub struct AccountActor {
    /// The network account this actor is responsible for.
    account_id: AccountId,
    /// Per-actor configuration knobs.
    config: ActorConfig,
    state: ActorState,
}

impl AccountActor {
    /// The network account this actor is responsible for.
    pub closed spec fn spec_account_id(&self) -> AccountId {
        self.account_id
    }

    /// Per-actor configuration knobs.
    pub closed spec fn spec_config(&self) -> ActorConfig {
        self.config
    }

    /// Where the actor stands.
    pub closed spec fn spec_state(&self) -> ActorState {
        self.state
    }

    /// An actor that is about to begin.
    pub fn new(account_id: AccountId, config: ActorConfig) -> (r: Self)
        ensures
            r.spec_account_id() == account_id,
            r.spec_config() == config,
            r.spec_state() == ActorState::CheckingCommit,
    {
        AccountActor { account_id, config, state: ActorState::CheckingCommit }
    }

    /// The network account this actor is responsible for.
    pub fn account_id(&self) -> (r: AccountId)
        ensures
            r == self.spec_account_id(),
    {
        self.account_id
    }

    /// Where the actor stands.
    pub fn state(&self) -> (r: ActorState)
        ensures
            r == self.spec_state(),
    {
        self.state
    }

    /// What the actor asks for.
    pub open spec fn spec_action(&self) -> ActorAction {
        action_in(self.spec_account_id(), self.spec_config(), self.spec_state())
    }

    /// What the actor asks for: permits are wanted only when there may be notes, and the idle
    /// time counts only when there is nothing to do. While the actor waits for its account to be
    /// committed, the idle time counts from its start, over all notifications.
    pub fn action(&self) -> (r: ActorAction)
        ensures
            r == self.spec_action(),
    {
        let account_id = self.account_id;
        let max_note_attempts: usize = self.config.max_note_attempts;
        let idle_timeout = self.config.idle_timeout;
        match self.state {
            ActorState::CheckingCommit => ActorAction::CheckCommitted { account_id },
            ActorState::CheckingNotes => ActorAction::CheckNotes { account_id, max_note_attempts },
            ActorState::CheckingTransaction(transaction_id) => {
                ActorAction::CheckTransaction { transaction_id }
            },
            ActorState::AwaitingCommit => {
                let timeout = Timeout { duration: idle_timeout, since: TimerStart::ActorStart };
                ActorAction::Wait { permit: false, timeout: Some(timeout) }
            },
            ActorState::Waiting(ActorMode::NoViableNotes) => {
                let timeout = Timeout { duration: idle_timeout, since: TimerStart::WaitStart };
                ActorAction::Wait { permit: false, timeout: Some(timeout) }
            },
            ActorState::Waiting(ActorMode::NotesAvailable) => {
                ActorAction::Wait { permit: true, timeout: None }
            },
            ActorState::Waiting(ActorMode::TransactionInflight(_)) => {
                ActorAction::Wait { permit: false, timeout: None }
            },
            ActorState::Selecting => ActorAction::SelectCandidate {
                account_id,
                max_note_attempts,
                max_notes_per_tx: self.config.max_notes_per_tx,
            },
            ActorState::Executing => ActorAction::Execute { max_cycles: self.config.max_cycles },
            ActorState::Stopped(shutdown) => ActorAction::Stop(shutdown),
        }
    }

    /// Takes notice of an event.
    pub fn handle(&mut self, event: ActorEvent)
        ensures
            final(self).spec_state() == next_state(old(self).spec_state(), event),
            final(self).spec_account_id() == old(self).spec_account_id(),
            final(self).spec_config() == old(self).spec_config(),
    {
        let state = self.state;
        self.state =
        match event {
            ActorEvent::Committed(committed) => match state {
                ActorState::CheckingCommit => if committed {
                    ActorState::CheckingNotes
                } else {
                    ActorState::AwaitingCommit
                },
                _ => state,
            },
            ActorEvent::HasNotes(has_notes) => match state {
                ActorState::CheckingNotes => ActorState::Waiting(
                    if has_notes {
                        ActorMode::NotesAvailable
                    } else {
                        ActorMode::NoViableNotes
                    },
                ),
                _ => state,
            },
            ActorEvent::TransactionExists(exists_now) => match state {
                ActorState::CheckingTransaction(id) => ActorState::Waiting(
                    if exists_now {
                        ActorMode::NotesAvailable
                    } else {
                        ActorMode::TransactionInflight(id)
                    },
                ),
                _ => state,
            },
            ActorEvent::Notified => match state {
                ActorState::AwaitingCommit => ActorState::CheckingCommit,
                ActorState::Waiting(ActorMode::TransactionInflight(id)) => {
                    ActorState::CheckingTransaction(id)
                },
                ActorState::Waiting(_) => ActorState::Waiting(ActorMode::NotesAvailable),
                _ => state,
            },
            ActorEvent::PermitAcquired => match state {
                ActorState::Waiting(ActorMode::NotesAvailable) => ActorState::Selecting,
                _ => state,
            },
            ActorEvent::IdleTimeout => match state {
                ActorState::AwaitingCommit => ActorState::Stopped(Shutdown::Idle),
                ActorState::Waiting(ActorMode::NoViableNotes) => {
                    ActorState::Stopped(Shutdown::Idle)
                },
                _ => state,
            },
            ActorEvent::Selected(selected) => match state {
                ActorState::Selecting => if selected {
                    ActorState::Executing
                } else {
                    ActorState::Waiting(ActorMode::NoViableNotes)
                },
                _ => state,
            },
            ActorEvent::Executed(mode) => match state {
                ActorState::Executing => ActorState::Waiting(mode),
                _ => state,
            },
            ActorEvent::Failed => match failure_of(state) {
                Some(failure) => ActorState::Stopped(Shutdown::Failed(failure)),
                None => state,
            },
        };
    }
}

// LAWS
// ================================================================================================

/// The state after a sequence of events.
pub open spec fn state_after(state: ActorState, events: Seq<ActorEvent>) -> ActorState
    decreases events.len(),
{
    if events.len() == 0 {
        state
    } else {
        next_state(state_after(state, events.drop_last()), events.last())
    }
}

/// Whether the actor has begun with its work.
pub open spec fn at_work(state: ActorState) -> bool {
    match state {
        ActorState::CheckingCommit | ActorState::AwaitingCommit | ActorState::Stopped(_) => false,
        _ => true,
    }
}

/// An actor does not begin with its work before its account is committed.
pub proof fn no_work_before_commit(events: Seq<ActorEvent>)
    requires
        at_work(state_after(ActorState::CheckingCommit, events)),
    ensures
        events.contains(ActorEvent::Committed(true)),
    decreases events.len(),
{
    if events.len() > 0 {
        let before = events.drop_last();
        let state = state_after(ActorState::CheckingCommit, before);
        if at_work(state) {
            no_work_before_commit(before);
            let i = choose|i: int| 0 <= i < before.len() && before[i] == ActorEvent::Committed(true);
            assert(events[i] == ActorEvent::Committed(true));
        } else {
            assert(events[events.len() - 1] == ActorEvent::Committed(true));
        }
    }
}

/// Whatever happens to an actor before its account is committed, it either asks for the account or
/// waits for it, until the idle time since its start is over or until it cannot ask any more.
pub proof fn one_deadline_for_the_commit(
    account_id: AccountId,
    config: ActorConfig,
    events: Seq<ActorEvent>,
)
    requires
        !events.contains(ActorEvent::Committed(true)),
    ensures
        ({
            let action = action_in(
                account_id,
                config,
                state_after(ActorState::CheckingCommit, events),
            );
            ||| action == ActorAction::CheckCommitted { account_id }
            ||| action == (ActorAction::Wait {
                permit: false,
                timeout: Some(
                    Timeout { duration: config.idle_timeout, since: TimerStart::ActorStart },
                ),
            })
            ||| action == ActorAction::Stop(Shutdown::Idle)
            ||| action == ActorAction::Stop(
                Shutdown::Failed(ActorFailure::CommittedAccountCheck),
            )
        }),
{
    lemma_before_commit(events);
}

proof fn lemma_before_commit(events: Seq<ActorEvent>)
    requires
        !events.contains(ActorEvent::Committed(true)),
    ensures
        ({
            let state = state_after(ActorState::CheckingCommit, events);
            ||| state == ActorState::CheckingCommit
            ||| state == ActorState::AwaitingCommit
            ||| state == ActorState::Stopped(Shutdown::Idle)
            ||| state == ActorState::Stopped(Shutdown::Failed(ActorFailure::CommittedAccountCheck))
        }),
    decreases events.len(),
{
    if events.len() > 0 {
        let before = events.drop_last();
        assert forall|i: int| 0 <= i < before.len() implies before[i] != ActorEvent::Committed(
            true,
        ) by {
            assert(events.contains(events[i]));
        }
        assert(events.contains(events.last()));
        lemma_before_commit(before);
    }
}

/// As long as a submitted transaction is not known to exist, the actor does nothing but wait for
/// it, whatever else happens, unless it cannot ask for it any more.
pub proof fn one_transaction_at_a_time(id: TransactionId, events: Seq<ActorEvent>)
    requires
        !events.contains(ActorEvent::TransactionExists(true)),
    ensures
        ({
            let state = state_after(
                ActorState::Waiting(ActorMode::TransactionInflight(id)),
                events,
            );
            ||| state == ActorState::Waiting(ActorMode::TransactionInflight(id))
            ||| state == ActorState::CheckingTransaction(id)
            ||| state == ActorState::Stopped(
                Shutdown::Failed(ActorFailure::TransactionStatusCheck),
            )
        }),
    decreases events.len(),
{
    if events.len() > 0 {
        let before = events.drop_last();
        assert forall|i: int| 0 <= i < before.len() implies before[i]
            != ActorEvent::TransactionExists(true) by {
            assert(events.contains(events[i]));
        }
        assert(events.contains(events.last()));
        one_transaction_at_a_time(id, before);
    }
}

/// An actor that has come to its end stays there.
pub proof fn stopped_for_good(shutdown: Shutdown, events: Seq<ActorEvent>)
    ensures
        state_after(ActorState::Stopped(shutdown), events) == ActorState::Stopped(shutdown),
    decreases events.len(),
{
    if events.len() > 0 {
        stopped_for_good(shutdown, events.drop_last());
    }
}

/// An actor ends without a failure exactly when the idle time runs out while it waits for its
/// account or has nothing to do.
pub proof fn ends_gracefully_only_when_idle(state: ActorState, event: ActorEvent)
    requires
        !(state is Stopped),
    ensures
        next_state(state, event) == ActorState::Stopped(Shutdown::Idle) <==> event
            == ActorEvent::IdleTimeout && (state == ActorState::AwaitingCommit || state
            == ActorState::Waiting(ActorMode::NoViableNotes)),
{
}

/// An actor crashes exactly when something that its state asks for fails, and reports what.
pub proof fn crashes_only_on_failure(state: ActorState, event: ActorEvent, failure: ActorFailure)
    requires
        !(state is Stopped),
    ensures
        next_state(state, event) == ActorState::Stopped(Shutdown::Failed(failure)) <==> event
            == ActorEvent::Failed && failure_in(state) == Some(failure),
{
}

/// A transaction is selected only with a permit, and executed only after it was selected.
pub proof fn executes_only_with_a_permit(state: ActorState, event: ActorEvent)
    ensures
        next_state(state, event) == ActorState::Selecting && state != ActorState::Selecting
            ==> state == ActorState::Waiting(ActorMode::NotesAvailable) && event
            == ActorEvent::PermitAcquired,
        next_state(state, event) == ActorState::Executing && state != ActorState::Executing
            ==> state == ActorState::Selecting && event == ActorEvent::Selected(true),
{
}

/// A notification never makes an actor idle. Without a transaction in flight the actor then wants a
/// permit and knows no idle time; with one, it asks for the transaction; and before its account is
/// committed, it asks for the account.
pub proof fn notifications_wake_the_actor(
    account_id: AccountId,
    config: ActorConfig,
    id: TransactionId,
)
    ensures
        forall|mode: ActorMode|
            !(mode is TransactionInflight) ==> action_in(
                account_id,
                config,
                #[trigger] next_state(ActorState::Waiting(mode), ActorEvent::Notified),
            ) == (ActorAction::Wait { permit: true, timeout: None }),
        action_in(
            account_id,
            config,
            next_state(
                ActorState::Waiting(ActorMode::TransactionInflight(id)),
                ActorEvent::Notified,
            ),
        ) == (ActorAction::CheckTransaction { transaction_id: id }),
        action_in(
            account_id,
            config,
            next_state(ActorState::AwaitingCommit, ActorEvent::Notified),
        ) == (ActorAction::CheckCommitted { account_id }),
{
}

/// An actor begins with its account. Once that is committed it asks for notes, and without them it
/// is idle. Until it is committed it waits for the rest of the idle time since its start.
pub proof fn answers_start_the_work(account_id: AccountId, config: ActorConfig, answer: bool)
    ensures
        action_in(account_id, config, ActorState::CheckingCommit) == (ActorAction::CheckCommitted {
            account_id,
        }),
        action_in(
            account_id,
            config,
            next_state(ActorState::CheckingCommit, ActorEvent::Committed(answer)),
        ) == if answer {
            ActorAction::CheckNotes { account_id, max_note_attempts: config.max_note_attempts }
        } else {
            ActorAction::Wait {
                permit: false,
                timeout: Some(
                    Timeout { duration: config.idle_timeout, since: TimerStart::ActorStart },
                ),
            }
        },
        answer ==> next_state(ActorState::CheckingCommit, ActorEvent::Committed(answer))
            == ActorState::CheckingNotes,
        action_in(
            account_id,
            config,
            next_state(ActorState::CheckingNotes, ActorEvent::HasNotes(answer)),
        ) == if answer {
            ActorAction::Wait { permit: true, timeout: None }
        } else {
            ActorAction::Wait {
                permit: false,
                timeout: Some(
                    Timeout { duration: config.idle_timeout, since: TimerStart::WaitStart },
                ),
            }
        },
{
}

/// With a permit an actor selects a transaction, and executes it if there is one. It then waits as
/// the outcome lets it: for the submitted transaction, for notes, or for the end of its idle time.
pub proof fn permits_lead_to_transactions(
    account_id: AccountId,
    config: ActorConfig,
    id: TransactionId,
)
    ensures
        action_in(
            account_id,
            config,
            next_state(
                ActorState::Waiting(ActorMode::NotesAvailable),
                ActorEvent::PermitAcquired,
            ),
        ) == (ActorAction::SelectCandidate {
            account_id,
            max_note_attempts: config.max_note_attempts,
            max_notes_per_tx: config.max_notes_per_tx,
        }),
        action_in(
            account_id,
            config,
            next_state(ActorState::Selecting, ActorEvent::Selected(true)),
        ) == (ActorAction::Execute { max_cycles: config.max_cycles }),
        action_in(
            account_id,
            config,
            next_state(ActorState::Selecting, ActorEvent::Selected(false)),
        ) == (ActorAction::Wait {
            permit: false,
            timeout: Some(Timeout { duration: config.idle_timeout, since: TimerStart::WaitStart }),
        }),
        action_in(
            account_id,
            config,
            next_state(
                ActorState::Executing,
                ActorEvent::Executed(ActorMode::TransactionInflight(id)),
            ),
        ) == (ActorAction::Wait { permit: false, timeout: None }),
        next_state(
            next_state(
                ActorState::Executing,
                ActorEvent::Executed(ActorMode::TransactionInflight(id)),
            ),
            ActorEvent::Notified,
        ) == ActorState::CheckingTransaction(id),
        action_in(
            account_id,
            config,
            next_state(ActorState::Executing, ActorEvent::Executed(ActorMode::NoViableNotes)),
        ) == (ActorAction::Wait {
            permit: false,
            timeout: Some(Timeout { duration: config.idle_timeout, since: TimerStart::WaitStart }),
        }),
        action_in(
            account_id,
            config,
            next_state(ActorState::Executing, ActorEvent::Executed(ActorMode::NotesAvailable)),
        ) == (ActorAction::Wait { permit: true, timeout: None }),
{
}

/// Once a submitted transaction exists the actor wants a permit again, and until then it goes on
/// waiting for that transaction without an idle time.
pub proof fn known_transactions_free_the_actor(
    account_id: AccountId,
    config: ActorConfig,
    id: TransactionId,
)
    ensures
        action_in(
            account_id,
            config,
            next_state(ActorState::CheckingTransaction(id), ActorEvent::TransactionExists(true)),
        ) == (ActorAction::Wait { permit: true, timeout: None }),
        next_state(ActorState::CheckingTransaction(id), ActorEvent::TransactionExists(false))
            == ActorState::Waiting(ActorMode::TransactionInflight(id)),
        action_in(
            account_id,
            config,
            ActorState::Waiting(ActorMode::TransactionInflight(id)),
        ) == (ActorAction::Wait { permit: false, timeout: None }),
        action_in(account_id, config, ActorState::CheckingTransaction(id))
            == (ActorAction::CheckTransaction { transaction_id: id }),
{
}

/// What an actor asks for may fail, which ends the actor with the failure of just that: asking for
/// the account, for notes, for a transaction, for a permit, or for a candidate.
pub proof fn failures_name_what_was_asked_for(id: TransactionId)
    ensures
        next_state(ActorState::CheckingCommit, ActorEvent::Failed) == ActorState::Stopped(
            Shutdown::Failed(ActorFailure::CommittedAccountCheck),
        ),
        next_state(ActorState::CheckingNotes, ActorEvent::Failed) == ActorState::Stopped(
            Shutdown::Failed(ActorFailure::AvailableNotesCheck),
        ),
        next_state(ActorState::CheckingTransaction(id), ActorEvent::Failed) == ActorState::Stopped(
            Shutdown::Failed(ActorFailure::TransactionStatusCheck),
        ),
        next_state(ActorState::Waiting(ActorMode::NotesAvailable), ActorEvent::Failed)
            == ActorState::Stopped(Shutdown::Failed(ActorFailure::SemaphoreClosed)),
        next_state(ActorState::Selecting, ActorEvent::Failed) == ActorState::Stopped(
            Shutdown::Failed(ActorFailure::CandidateQuery),
        ),
{
}

/// An event that an actor does not wait for changes nothing.
pub proof fn other_events_change_nothing(state: ActorState, event: ActorEvent)
    requires
        match event {
            ActorEvent::Committed(_) => state != ActorState::CheckingCommit,
            ActorEvent::HasNotes(_) => state != ActorState::CheckingNotes,
            ActorEvent::TransactionExists(_) => !(state is CheckingTransaction),
            ActorEvent::Notified => state != ActorState::AwaitingCommit && !(state is Waiting),
            ActorEvent::PermitAcquired => state != ActorState::Waiting(ActorMode::NotesAvailable),
            ActorEvent::IdleTimeout => state != ActorState::AwaitingCommit && state
                != ActorState::Waiting(ActorMode::NoViableNotes),
            ActorEvent::Selected(_) => state != ActorState::Selecting,
            ActorEvent::Executed(_) => state != ActorState::Executing,
            ActorEvent::Failed => match state {
                ActorState::AwaitingCommit | ActorState::Executing | ActorState::Stopped(_) => true,
                ActorState::Waiting(mode) => mode != ActorMode::NotesAvailable,
                _ => false,
            },
        },
    ensures
        next_state(state, event) == state,
{
}

/// The end of the idle time ends the actor, both before its account is committed and when there is
/// nothing to do.
pub proof fn idle_actors_stop(account_id: AccountId, config: ActorConfig)
    ensures
        action_in(
            account_id,
            config,
            next_state(ActorState::AwaitingCommit, ActorEvent::IdleTimeout),
        ) == ActorAction::Stop(Shutdown::Idle),
        action_in(
            account_id,
            config,
            next_state(ActorState::Waiting(ActorMode::NoViableNotes), ActorEvent::IdleTimeout),
        ) == ActorAction::Stop(Shutdown::Idle),
{
}

/// Each failure has its own words.
pub proof fn actor_failures_have_their_words()
    ensures
        ActorFailure::CommittedAccountCheck.spec_context()
            == "failed to check for committed account"@,
        ActorFailure::AvailableNotesCheck.spec_context() == "failed to check for available notes"@,
        ActorFailure::TransactionStatusCheck.spec_context()
            == "failed to check transaction status"@,
        ActorFailure::SemaphoreClosed.spec_context() == "semaphore closed"@,
        ActorFailure::CandidateQuery.spec_context()
            == "failed to query DB for transaction candidate"@,
{
}

/// An actor asks for what its own account, settings and state call for.
pub proof fn actors_ask_for_themselves(actor: AccountActor)
    ensures
        actor.spec_action() == action_in(
            actor.spec_account_id(),
            actor.spec_config(),
            actor.spec_state(),
        ),
{
}

/// Events happen one after the other.
pub proof fn events_happen_in_order(state: ActorState, events: Seq<ActorEvent>, event: ActorEvent)
    ensures
        state_after(state, Seq::empty()) == state,
        state_after(state, events.push(event)) == next_state(state_after(state, events), event),
{
    assert(events.push(event).drop_last() =~= events);
}

} // verus!
