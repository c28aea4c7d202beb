//! The life of an account actor and the execution of its transactions.

use std::time::Duration;

use miden_node::account::AccountId;
use miden_node::actor::candidate::{select_candidate, CandidateNote};
use miden_node::actor::config::ActorConfig;
use miden_node::actor::data_store::{
    latest_block, DataStoreError, LookupAnswer, LookupOutcome, LookupStage, NtxDataStore, Query,
    ScriptLookup, ScriptSource, StorageSlotHeader, StorageSlotType,
};
use miden_node::actor::error::{FailedNote, InputNotesError, NtxError};
use miden_node::actor::execute::{
    filter_notes, CycleLimits, InputNotes, NoteConsumptionInfo, NtxAction, NtxContext, NtxEvent,
    NtxExecutionResult,
};
use miden_node::actor::lifecycle::{
    AccountActor, ActorAction, ActorEvent, ActorFailure, ActorMode, ActorState, Shutdown, Timeout,
    TimerStart,
};
use miden_node::actor::outcome::{conclude, log_failed_notes, ActorRequest, NoteError};
use miden_node::actor::script::RootedScript;
use miden_node::count::PositiveCount;
use miden_node::word::Word;
use miden_protocol::note::NoteScript;
use miden_standards::note::{P2idNote, SwapNote};
use miden_tx::{NoteCheckerError, TransactionExecutorError, TransactionProverError};
use tonic::Status;

// HELPERS
// ================================================================================================

fn word(n: u64) -> Word {
    Word { w0: n, w1: 1, w2: 2, w3: 3 }
}

fn account_id() -> AccountId {
    AccountId::new(0x00aa00000000bc000000dd0000000000).unwrap()
}

fn other_id() -> AccountId {
    AccountId::new(0x00ab00000000bc000000dd0000000000).unwrap()
}

fn actor_config() -> ActorConfig {
    ActorConfig {
        max_notes_per_tx: PositiveCount::new(1).unwrap(),
        max_note_attempts: 1,
        idle_timeout: Duration::from_secs(60),
        max_cycles: 1 << 18,
    }
}

fn note(n: u64) -> CandidateNote<&'static str> {
    CandidateNote { id: word(n + 1000), nullifier: word(n), note: "note" }
}

fn failed(n: u64) -> FailedNote {
    FailedNote { note_id: word(n + 1000), nullifier: word(n), report: format!("report {n}") }
}

fn script(root: u64, script: NoteScript) -> RootedScript {
    RootedScript { root: word(root), script }
}

fn actor_at(events: &[ActorEvent]) -> AccountActor {
    let mut actor = AccountActor::new(account_id(), actor_config());
    for event in events {
        actor.handle(*event);
    }
    actor
}

fn working(mode: ActorMode) -> AccountActor {
    let actor = actor_at(&[
        ActorEvent::Committed(true),
        ActorEvent::HasNotes(true),
        ActorEvent::PermitAcquired,
        ActorEvent::Selected(true),
        ActorEvent::Executed(mode),
    ]);
    assert_eq!(actor.state(), ActorState::Waiting(mode));
    actor
}

// LIFECYCLE
// ================================================================================================

#[test]
fn actor_waits_for_its_account() {
    let mut actor = AccountActor::new(account_id(), actor_config());
    assert_eq!(actor.account_id(), account_id());
    assert!(matches!(
        actor.action(),
        ActorAction::CheckCommitted { account_id: id } if id == account_id()
    ));
    actor.handle(ActorEvent::Committed(false));
    assert!(matches!(
        actor.action(),
        ActorAction::Wait { permit: false, timeout: Some(t) }
            if t.duration == Duration::from_secs(60)
    ));
    // A permit or notes make no difference before the account is committed.
    actor.handle(ActorEvent::PermitAcquired);
    actor.handle(ActorEvent::HasNotes(true));
    assert_eq!(actor.state(), ActorState::AwaitingCommit);
    actor.handle(ActorEvent::Notified);
    assert_eq!(actor.state(), ActorState::CheckingCommit);
    actor.handle(ActorEvent::Committed(false));
    actor.handle(ActorEvent::Notified);
    actor.handle(ActorEvent::Committed(true));
    assert!(matches!(
        actor.action(),
        ActorAction::CheckNotes { account_id: id, max_note_attempts: 1 } if id == account_id()
    ));
}

#[test]
fn notifications_do_not_prolong_the_wait_for_the_account() {
    let mut actor = actor_at(&[ActorEvent::Committed(false)]);
    for _ in 0..3 {
        match actor.action() {
            ActorAction::Wait { permit: false, timeout: Some(Timeout { duration, since }) } => {
                assert_eq!(duration, Duration::from_secs(60));
                assert_eq!(since, TimerStart::ActorStart);
            }
            other => panic!("unexpected action {other:?}"),
        }
        actor.handle(ActorEvent::Notified);
        actor.handle(ActorEvent::Committed(false));
    }
    // Once at work, each idle time counts for itself.
    let idle = working(ActorMode::NoViableNotes);
    assert!(matches!(
        idle.action(),
        ActorAction::Wait { timeout: Some(Timeout { since: TimerStart::WaitStart, .. }), .. }
    ));
}

#[test]
fn actor_gives_up_waiting_for_its_account() {
    let actor = actor_at(&[ActorEvent::Committed(false), ActorEvent::IdleTimeout]);
    assert!(matches!(actor.action(), ActorAction::Stop(Shutdown::Idle)));
}

#[test]
fn initial_mode_follows_notes() {
    let busy = actor_at(&[ActorEvent::Committed(true), ActorEvent::HasNotes(true)]);
    assert!(matches!(busy.action(), ActorAction::Wait { permit: true, timeout: None }));
    let idle = actor_at(&[ActorEvent::Committed(true), ActorEvent::HasNotes(false)]);
    assert!(matches!(idle.action(), ActorAction::Wait { permit: false, timeout: Some(_) }));
}

#[test]
fn actor_runs_a_transaction() {
    let mut actor = actor_at(&[
        ActorEvent::Committed(true),
        ActorEvent::HasNotes(true),
        ActorEvent::PermitAcquired,
    ]);
    match actor.action() {
        ActorAction::SelectCandidate { account_id: id, max_note_attempts, max_notes_per_tx } => {
            assert_eq!(id, account_id());
            assert_eq!(max_note_attempts, 1);
            assert_eq!(max_notes_per_tx.get(), 1);
        }
        other => panic!("unexpected action {other:?}"),
    }
    actor.handle(ActorEvent::Selected(true));
    assert!(matches!(actor.action(), ActorAction::Execute { max_cycles: 262_144 }));
    // An execution reports its own errors.
    actor.handle(ActorEvent::Failed);
    actor.handle(ActorEvent::Executed(ActorMode::TransactionInflight(word(9))));
    assert!(matches!(actor.action(), ActorAction::Wait { permit: false, timeout: None }));
}

#[test]
fn actor_waits_for_its_transaction() {
    let mut actor = working(ActorMode::TransactionInflight(word(9)));
    for event in [ActorEvent::PermitAcquired, ActorEvent::IdleTimeout, ActorEvent::Failed] {
        actor.handle(event);
        assert_eq!(actor.state(), ActorState::Waiting(ActorMode::TransactionInflight(word(9))));
    }
    actor.handle(ActorEvent::Notified);
    assert!(matches!(
        actor.action(),
        ActorAction::CheckTransaction { transaction_id } if transaction_id == word(9)
    ));
    actor.handle(ActorEvent::TransactionExists(false));
    assert_eq!(actor.state(), ActorState::Waiting(ActorMode::TransactionInflight(word(9))));
    actor.handle(ActorEvent::Notified);
    actor.handle(ActorEvent::TransactionExists(true));
    assert_eq!(actor.state(), ActorState::Waiting(ActorMode::NotesAvailable));
}

#[test]
fn idle_actor_wakes_up_or_stops() {
    let mut awake = working(ActorMode::NoViableNotes);
    awake.handle(ActorEvent::Notified);
    assert_eq!(awake.state(), ActorState::Waiting(ActorMode::NotesAvailable));
    awake.handle(ActorEvent::IdleTimeout);
    assert_eq!(awake.state(), ActorState::Waiting(ActorMode::NotesAvailable));
    awake.handle(ActorEvent::PermitAcquired);
    awake.handle(ActorEvent::Selected(false));
    assert_eq!(awake.state(), ActorState::Waiting(ActorMode::NoViableNotes));
    awake.handle(ActorEvent::IdleTimeout);
    assert_eq!(awake.state(), ActorState::Stopped(Shutdown::Idle));
    awake.handle(ActorEvent::Notified);
    awake.handle(ActorEvent::Failed);
    assert_eq!(awake.state(), ActorState::Stopped(Shutdown::Idle));
}

#[test]
fn failures_stop_the_actor() {
    let cases = [
        (vec![], ActorFailure::CommittedAccountCheck, "failed to check for committed account"),
        (
            vec![ActorEvent::Committed(true)],
            ActorFailure::AvailableNotesCheck,
            "failed to check for available notes",
        ),
        (
            vec![ActorEvent::Committed(true), ActorEvent::HasNotes(true)],
            ActorFailure::SemaphoreClosed,
            "semaphore closed",
        ),
        (
            vec![
                ActorEvent::Committed(true),
                ActorEvent::HasNotes(true),
                ActorEvent::PermitAcquired,
            ],
            ActorFailure::CandidateQuery,
            "failed to query DB for transaction candidate",
        ),
    ];
    for (events, failure, text) in cases {
        let mut actor = actor_at(&events);
        actor.handle(ActorEvent::Failed);
        assert_eq!(actor.state(), ActorState::Stopped(Shutdown::Failed(failure)));
        assert_eq!(failure.context(), text);
    }
    let mut actor = working(ActorMode::TransactionInflight(word(9)));
    actor.handle(ActorEvent::Notified);
    actor.handle(ActorEvent::Failed);
    let failure = ActorFailure::TransactionStatusCheck;
    assert_eq!(actor.state(), ActorState::Stopped(Shutdown::Failed(failure)));
    assert_eq!(failure.context(), "failed to check transaction status");
}

// CANDIDATES
// ================================================================================================

#[test]
fn candidates_take_the_first_notes() {
    let max = PositiveCount::new(2).unwrap();
    let notes = || vec![note(1), note(2), note(3)];
    let candidate = select_candidate(Some("account"), notes(), 17u32, "mmr", max).unwrap();
    assert_eq!(candidate.account, "account");
    assert_eq!(candidate.chain_tip_header, 17);
    assert_eq!(candidate.chain_mmr, "mmr");
    let nullifiers: Vec<Word> = candidate.notes.iter().map(|n| n.nullifier).collect();
    assert_eq!(nullifiers, vec![word(1), word(2)]);

    let few = select_candidate(Some(()), vec![note(4)], (), (), max).unwrap();
    assert_eq!(few.notes.len(), 1);
}

#[test]
fn no_account_or_no_notes_give_no_candidate() {
    let max = PositiveCount::new(2).unwrap();
    assert!(select_candidate(None::<u8>, vec![note(1)], (), (), max).is_none());
    assert!(select_candidate(Some(1u8), Vec::<CandidateNote<u8>>::new(), (), (), max).is_none());
}

// EXECUTION
// ================================================================================================

fn checked(
    successful: Vec<u64>,
    failed_notes: Vec<u64>,
) -> NtxEvent<&'static str> {
    NtxEvent::Checked(Ok(NoteConsumptionInfo {
        successful: successful.into_iter().map(note).collect(),
        failed: failed_notes.into_iter().map(failed).collect(),
    }))
}

fn executor_error() -> TransactionExecutorError {
    TransactionExecutorError::FeeAssetMustBeFungible
}

fn run(events: Vec<NtxEvent<&'static str>>) -> Result<NtxExecutionResult, NtxError> {
    let mut context = NtxContext::new(false);
    for event in events {
        context = context.handle(event);
    }
    assert_eq!(context.action(), NtxAction::Finish);
    context.into_result().unwrap()
}

#[test]
fn transaction_goes_through_all_steps() {
    let mut context = NtxContext::new(true);
    assert_eq!(context.action(), NtxAction::CheckNotes);
    assert!(context.input_notes().is_none());
    // Nothing can be skipped.
    context = context.handle(NtxEvent::Submitted(Ok(())));
    context = context.handle(NtxEvent::Validated(Ok(())));
    assert_eq!(context.action(), NtxAction::CheckNotes);
    context = context.handle(checked(vec![1, 2], vec![3]));
    assert_eq!(context.action(), NtxAction::Execute);
    let inputs: Vec<Word> =
        context.input_notes().unwrap().notes().iter().map(|n| n.nullifier).collect();
    assert_eq!(inputs, vec![word(1), word(2)]);
    context = context.handle(NtxEvent::Executed(Ok(())));
    assert_eq!(context.action(), NtxAction::CollectScripts);
    context = context.handle(NtxEvent::Collected(vec![script(7, P2idNote::script())]));
    assert_eq!(context.action(), NtxAction::ProveRemotely);
    context = context.handle(NtxEvent::Proven(Ok(word(42))));
    assert_eq!(context.action(), NtxAction::Validate);
    context = context.handle(NtxEvent::Submitted(Ok(())));
    assert_eq!(context.action(), NtxAction::Validate);
    context = context.handle(NtxEvent::Validated(Ok(())));
    assert_eq!(context.action(), NtxAction::Submit);
    context = context.handle(NtxEvent::Submitted(Ok(())));
    assert_eq!(context.action(), NtxAction::Finish);
    let result = context.into_result().unwrap().unwrap();
    assert_eq!(result.transaction_id, word(42));
    assert_eq!(result.failed_notes.len(), 1);
    assert_eq!(result.failed_notes[0].nullifier, word(3));
    assert_eq!(result.scripts_to_cache.len(), 1);
    assert_eq!(result.scripts_to_cache[0].root, word(7));
}

#[test]
fn proofs_are_local_without_a_prover() {
    let mut context: NtxContext<&str> = NtxContext::new(false);
    context = context.handle(checked(vec![1], vec![]));
    context = context.handle(NtxEvent::Executed(Ok(())));
    context = context.handle(NtxEvent::Collected(vec![]));
    assert_eq!(context.action(), NtxAction::ProveLocally);
    assert!(context.into_result().is_none());
}

#[test]
fn every_step_has_its_error() {
    let ok = || checked(vec![1], vec![2]);
    let filter = run(vec![NtxEvent::Checked(Err(NoteCheckerError::InputNoteCountOutOfRange(0)))]);
    assert!(matches!(filter, Err(NtxError::NoteFilter(_))));
    assert_eq!(filter.err().unwrap().message(), "failed to filter notes");

    let none = run(vec![checked(vec![], vec![5, 6])]).err().unwrap();
    assert_eq!(none.message(), "all notes failed to be executed");
    match none {
        NtxError::AllNotesFailed(notes) => assert_eq!(notes.len(), 2),
        other => panic!("unexpected error {other:?}"),
    }

    let twice = run(vec![checked(vec![1, 2, 1, 2], vec![])]).err().unwrap();
    assert_eq!(twice.message(), "note inputs were invalid");
    match twice {
        NtxError::InputNotes(e) => {
            assert_eq!(e, InputNotesError::DuplicateInputNote(word(1)));
        }
        other => panic!("unexpected error {other:?}"),
    }

    let execution = run(vec![ok(), NtxEvent::Executed(Err(executor_error()))]).err().unwrap();
    assert!(matches!(execution, NtxError::Execution(_)));
    assert_eq!(execution.message(), "failed to execute transaction");

    let start = || vec![ok(), NtxEvent::Executed(Ok(())), NtxEvent::Collected(vec![])];
    let mut events = start();
    events.push(NtxEvent::Proven(Err(TransactionProverError::other("no proof"))));
    let proving = run(events).err().unwrap();
    assert!(matches!(proving, NtxError::Proving(_)));
    assert_eq!(proving.message(), "failed to prove transaction");

    let mut events = start();
    events.push(NtxEvent::Proven(Ok(word(1))));
    events.push(NtxEvent::Validated(Err(Status::internal("validator"))));
    // A refused transaction is not submitted.
    events.push(NtxEvent::Submitted(Ok(())));
    let validation = run(events).err().unwrap();
    assert_eq!(validation.message(), "failed to submit transaction");
    assert!(matches!(&validation, NtxError::Submission(s) if s.message() == "validator"));

    let mut events = start();
    events.push(NtxEvent::Proven(Ok(word(1))));
    events.push(NtxEvent::Validated(Ok(())));
    events.push(NtxEvent::Submitted(Err(Status::internal("producer"))));
    let submission = run(events).err().unwrap();
    assert!(matches!(&submission, NtxError::Submission(s) if s.message() == "producer"));
}

#[test]
fn input_notes_are_few_and_distinct() {
    let notes: Vec<_> = (0..1024).map(note).collect();
    assert_eq!(InputNotes::new(notes).unwrap().notes().len(), 1024);
    let notes: Vec<_> = (0..1025).map(note).collect();
    assert_eq!(
        InputNotes::new(notes).err().unwrap(),
        InputNotesError::TooManyInputNotes(1025)
    );
    assert!(InputNotes::<u8>::new(vec![]).unwrap().is_empty());
    let (inputs, rest) = filter_notes(Ok(NoteConsumptionInfo {
        successful: vec![note(1)],
        failed: vec![failed(2)],
    }))
    .unwrap();
    assert_eq!(inputs.notes().len(), 1);
    assert_eq!(rest.len(), 1);
}

#[test]
fn cycle_limits_are_powers_of_two() {
    for cycles in [1u32 << 12, 1 << 18, 1 << 29] {
        let limits = CycleLimits::new(cycles).unwrap();
        assert_eq!((limits.max_cycles, limits.expected_cycles), (cycles, cycles));
    }
    for cycles in [0u32, 1, 64, 2048, 4097, 5000, (1 << 29) - 1, (1 << 29) + 1, 1 << 30, u32::MAX] {
        assert!(CycleLimits::new(cycles).is_none(), "{cycles}");
    }
}

// CONCLUSIONS
// ================================================================================================

fn success(failed_notes: Vec<u64>, scripts: u64) -> Result<NtxExecutionResult, NtxError> {
    Ok(NtxExecutionResult {
        transaction_id: word(42),
        failed_notes: failed_notes.into_iter().map(failed).collect(),
        scripts_to_cache: (0..scripts).map(|n| script(n, P2idNote::script())).collect(),
    })
}

#[test]
fn success_caches_scripts_and_reports_failed_notes() {
    let (mut outbox, mode) = conclude(&vec![note(1), note(2)], 17, success(vec![2], 2));
    assert_eq!(mode, ActorMode::TransactionInflight(word(42)));
    for n in 0..2 {
        assert!(matches!(
            outbox.next_request(),
            Some(ActorRequest::CacheNoteScript { script_root, .. }) if script_root == word(n)
        ));
    }
    match outbox.next_request() {
        Some(ActorRequest::NotesFailed { failed_notes, block_num }) => {
            assert_eq!(block_num, 17);
            assert_eq!(failed_notes.len(), 1);
            assert_eq!(failed_notes[0].0, word(2));
            assert!(matches!(&failed_notes[0].1, NoteError::Check(text) if text == "report 2"));
        }
        other => panic!("unexpected request {other:?}"),
    }
    assert!(outbox.next_request().is_none());
}

#[test]
fn success_without_failed_notes_reports_none() {
    let (mut outbox, _) = conclude(&vec![note(1)], 17, success(vec![], 1));
    assert!(matches!(outbox.next_request(), Some(ActorRequest::CacheNoteScript { .. })));
    assert!(outbox.next_request().is_none());
}

#[test]
fn undelivered_scripts_do_not_hold_up_failed_notes() {
    let (mut outbox, _) = conclude(&vec![note(1)], 17, success(vec![1], 3));
    assert!(matches!(outbox.next_request(), Some(ActorRequest::CacheNoteScript { .. })));
    outbox.script_undelivered();
    assert!(matches!(outbox.next_request(), Some(ActorRequest::NotesFailed { .. })));
    assert!(outbox.next_request().is_none());
}

#[test]
fn failure_reports_every_note() {
    let notes = vec![note(1), note(2)];
    let error = NtxError::Execution(executor_error());
    let (mut outbox, mode) = conclude(&notes, 17, Err(error));
    assert_eq!(mode, ActorMode::NoViableNotes);
    match outbox.next_request() {
        Some(ActorRequest::NotesFailed { failed_notes, block_num: 17 }) => {
            assert_eq!(failed_notes.len(), 2);
            for (i, (nullifier, error)) in failed_notes.iter().enumerate() {
                assert_eq!(*nullifier, word(i as u64 + 1));
                match error {
                    NoteError::Transaction(e) => {
                        assert_eq!(e.message(), "failed to execute transaction");
                    }
                    other => panic!("unexpected error {other:?}"),
                }
            }
        }
        other => panic!("unexpected request {other:?}"),
    }
    assert!(outbox.next_request().is_none());
}

#[test]
fn failed_checks_report_their_reasons() {
    let notes = vec![note(1), note(2)];
    let error = NtxError::AllNotesFailed(vec![failed(2)]);
    let (mut outbox, mode) = conclude(&notes, 3, Err(error));
    assert_eq!(mode, ActorMode::NoViableNotes);
    match outbox.next_request() {
        Some(ActorRequest::NotesFailed { failed_notes, .. }) => {
            assert_eq!(failed_notes.len(), 1);
            assert!(matches!(&failed_notes[0].1, NoteError::Check(text) if text == "report 2"));
        }
        other => panic!("unexpected request {other:?}"),
    }
}

#[test]
fn reports_keep_their_order() {
    let reported = log_failed_notes(vec![failed(3), failed(1)]);
    assert_eq!(reported.len(), 2);
    assert_eq!((reported[0].0, reported[1].0), (word(3), word(1)));
    assert!(matches!(&reported[1].1, NoteError::Check(text) if text == "report 1"));
}

// DATA STORE
// ================================================================================================

fn slot(name: &str, slot_type: StorageSlotType, value: u64) -> StorageSlotHeader {
    StorageSlotHeader { name: name.to_string(), slot_type, value: word(value) }
}

fn data_store() -> NtxDataStore {
    let slots = vec![
        slot("value", StorageSlotType::ValueSlot, 1),
        slot("map", StorageSlotType::MapSlot, 2),
        slot("twin_a", StorageSlotType::MapSlot, 3),
        slot("twin_b", StorageSlotType::MapSlot, 3),
    ];
    NtxDataStore::new(account_id(), slots, 20)
}

#[test]
fn inputs_are_for_one_account_and_block() {
    let mut store = data_store();
    assert_eq!(store.reference_block(), 20);
    assert_eq!(
        store.get_transaction_inputs(other_id(), &vec![20]),
        Err(DataStoreError::AccountNotFound(other_id()))
    );
    assert_eq!(
        store.get_transaction_inputs(account_id(), &vec![]),
        Err(DataStoreError::NoReferenceBlock)
    );
    assert_eq!(
        store.get_transaction_inputs(account_id(), &vec![20, 21, 3]),
        Err(DataStoreError::BlockNotFound(21))
    );
    assert_eq!(
        store.get_transaction_inputs(account_id(), &vec![19]),
        Err(DataStoreError::BlockNotFound(19))
    );
    // Nothing is registered by a refused request.
    assert_eq!(
        store.get_storage_map_witness(account_id(), word(2), word(9)).err(),
        Some(DataStoreError::StorageSlotNotRegistered)
    );
    assert_eq!(store.get_transaction_inputs(account_id(), &vec![5, 20, 7]), Ok(()));
}

#[test]
fn latest_block_is_the_largest() {
    assert_eq!(latest_block(&vec![]), None);
    assert_eq!(latest_block(&vec![4]), Some(4));
    assert_eq!(latest_block(&vec![4, 9, 2]), Some(9));
}

#[test]
fn maps_are_known_by_root() {
    let mut store = data_store();
    store.get_transaction_inputs(account_id(), &vec![20]).unwrap();
    let request = store.get_storage_map_witness(account_id(), word(2), word(9)).unwrap();
    assert_eq!(request.account_id, account_id());
    assert_eq!(request.slot_name, "map");
    assert_eq!(request.map_key, word(9));
    assert_eq!(request.block_num, Some(20));
    // Of two maps with one root, the last is known.
    let twin = store.get_storage_map_witness(account_id(), word(3), word(9)).unwrap();
    assert_eq!(twin.slot_name, "twin_b");
    // A value is no map, and the maps of one account are not those of another.
    assert!(store.get_storage_map_witness(account_id(), word(1), word(9)).is_err());
    assert!(store.get_storage_map_witness(other_id(), word(2), word(9)).is_err());
}

#[test]
fn foreign_accounts_are_registered() {
    let mut store = data_store();
    let request = store.foreign_account_request(other_id(), 20);
    assert_eq!((request.account_id, request.block_num), (other_id(), 20));
    assert_eq!(
        store.get_foreign_account_inputs(other_id(), Err(())),
        Err(DataStoreError::QueryFailed(Query::AccountInputs))
    );
    assert!(store.get_storage_map_witness(other_id(), word(2), word(9)).is_err());
    let slots = vec![slot("foreign", StorageSlotType::MapSlot, 2)];
    store.get_foreign_account_inputs(other_id(), Ok(slots)).unwrap();
    store.get_transaction_inputs(account_id(), &vec![20]).unwrap();
    let foreign = store.get_storage_map_witness(other_id(), word(2), word(9)).unwrap();
    assert_eq!(foreign.slot_name, "foreign");
    let native = store.get_storage_map_witness(account_id(), word(2), word(9)).unwrap();
    assert_eq!(native.slot_name, "map");
    // A name that is registered again takes the place of the old one.
    let renamed = vec![slot("renamed", StorageSlotType::MapSlot, 2)];
    store.get_foreign_account_inputs(other_id(), Ok(renamed)).unwrap();
    let foreign = store.get_storage_map_witness(other_id(), word(2), word(9)).unwrap();
    assert_eq!(foreign.slot_name, "renamed");
}

#[test]
fn vault_witnesses_are_read_at_the_reference_block() {
    let request = data_store().get_vault_asset_witnesses(other_id(), vec![word(4)]);
    assert_eq!(request.account_id, other_id());
    assert_eq!(request.vault_keys, vec![word(4)]);
    assert_eq!(request.block_num, Some(20));
}

fn look_up(answers: Vec<LookupAnswer>) -> ScriptLookup {
    let mut lookup = ScriptLookup::new(word(8));
    for answer in answers {
        lookup = lookup.handle(answer);
    }
    lookup
}

#[test]
fn scripts_are_looked_up_in_three_places() {
    let mut store = data_store();
    let p2id = || LookupAnswer::Script(P2idNote::script());
    let swap = || LookupAnswer::Script(SwapNote::script());

    // The cache answers, and nothing else changes.
    let (found, to_cache) = store.get_note_script(look_up(vec![p2id(), swap()]));
    assert_eq!(found.unwrap().unwrap().root(), P2idNote::script().root());
    assert!(to_cache.is_none());
    assert!(store.take_fetched_scripts().is_empty());

    // The database answers, and the cache gets a copy.
    let lookup = look_up(vec![LookupAnswer::Nothing]);
    assert!(matches!(lookup.stage(), LookupStage::Database));
    let lookup = lookup.handle(swap());
    assert!(matches!(
        lookup.stage(),
        LookupStage::Finished(LookupOutcome::Found { source: ScriptSource::Database, .. })
    ));
    let (found, to_cache) = store.get_note_script(lookup);
    assert_eq!(found.unwrap().unwrap().root(), SwapNote::script().root());
    assert_eq!(to_cache.unwrap().root(), SwapNote::script().root());
    assert!(store.take_fetched_scripts().is_empty());

    // The remote store answers, and the script is kept for the database as well.
    let lookup = look_up(vec![LookupAnswer::Nothing, LookupAnswer::Nothing]);
    assert!(matches!(lookup.stage(), LookupStage::Remote));
    let (found, to_cache) = store.get_note_script(lookup.handle(p2id()));
    assert_eq!(found.unwrap().unwrap().root(), P2idNote::script().root());
    assert_eq!(to_cache.unwrap().root(), P2idNote::script().root());
    let fetched = store.take_fetched_scripts();
    assert_eq!(fetched.len(), 1);
    assert_eq!(fetched[0].root, word(8));
    assert_eq!(fetched[0].script.root(), P2idNote::script().root());
    assert!(store.take_fetched_scripts().is_empty());

    // Nobody has the script.
    let nothing = || LookupAnswer::Nothing;
    let (found, to_cache) =
        store.get_note_script(look_up(vec![nothing(), nothing(), nothing()]));
    assert!(matches!(found, Ok(None)));
    assert!(to_cache.is_none());
}

#[test]
fn found_scripts_are_not_fetched_again() {
    let mut store = data_store();
    let nothing = || LookupAnswer::Nothing;
    let fetched = look_up(vec![nothing(), nothing(), LookupAnswer::Script(P2idNote::script())]);
    let (_, to_cache) = store.get_note_script(fetched);
    // The cache answers the second lookup, and nobody else is asked.
    let again = look_up(vec![LookupAnswer::Script(to_cache.unwrap())]);
    assert!(matches!(again.stage(), LookupStage::Finished(_)));
    let (found, to_cache) = store.get_note_script(again);
    assert_eq!(found.unwrap().unwrap().root(), P2idNote::script().root());
    assert!(to_cache.is_none());
    assert_eq!(store.take_fetched_scripts().len(), 1);
    assert!(store.take_fetched_scripts().is_empty());
}

#[test]
fn failed_lookups_are_errors() {
    let mut store = data_store();
    let nothing = || LookupAnswer::Nothing;
    let (local, _) = store.get_note_script(look_up(vec![nothing(), LookupAnswer::Failed]));
    assert_eq!(local.err(), Some(DataStoreError::QueryFailed(Query::LocalNoteScript)));
    let (remote, _) =
        store.get_note_script(look_up(vec![nothing(), nothing(), LookupAnswer::Failed]));
    assert_eq!(remote.err(), Some(DataStoreError::QueryFailed(Query::RemoteNoteScript)));
    assert!(store.take_fetched_scripts().is_empty());
}

#[test]
fn data_store_errors_have_words() {
    let text = |query: Query| DataStoreError::QueryFailed(query).message();
    assert_eq!(text(Query::AccountInputs), Some("failed to get account inputs"));
    assert_eq!(text(Query::VaultAssetWitnesses), Some("failed to get vault asset witnesses"));
    assert_eq!(text(Query::StorageMapWitness), Some("failed to get storage map witness"));
    assert_eq!(
        text(Query::LocalNoteScript),
        Some("failed to look up note script in local DB")
    );
    assert_eq!(
        text(Query::RemoteNoteScript),
        Some("failed to retrieve note script from store")
    );
    assert_eq!(
        DataStoreError::NoReferenceBlock.message(),
        Some("no reference block requested")
    );
    assert_eq!(
        DataStoreError::StorageSlotNotRegistered.message(),
        Some("requested storage slot has not been registered")
    );
    assert_eq!(DataStoreError::BlockNotFound(1).message(), None);
    assert_eq!(DataStoreError::AccountNotFound(account_id()).message(), None);
}
