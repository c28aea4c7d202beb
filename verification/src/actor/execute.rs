//! The execution of a network transaction: filtering, executing, proving, validating, submitting.

use miden_tx::{
    ExecutionOptions, NoteCheckerError, TransactionExecutorError, TransactionProverError,
};
use tonic::Status;
use vstd::arithmetic::power2::{lemma2_to64, lemma_pow2_strictly_increases, pow2};
use vstd::prelude::*;

use crate::actor::candidate::CandidateNote;
use crate::actor::error::{FailedNote, InputNotesError, NtxError};
use crate::actor::script::RootedScript;
use crate::word::{Nullifier, TransactionId};

verus! {

// CYCLE LIMITS
// ================================================================================================

/// The smallest number of cycles that a transaction may be limited to.
pub const MIN_TX_EXECUTION_CYCLES: u32 = 4096;

/// The largest number of cycles that a program may take.
pub const MAX_CYCLES: u32 = 536_870_912;

/// The smallest number of cycles that a program may be limited to.
pub const MIN_CYCLES: u32 = 64;

/// Whether a number is a power of two.
pub open spec fn is_power_of_two(n: int) -> bool {
    exists|k: nat| n == #[trigger] pow2(k)
}

/// The numbers of cycles for which there are execution options.
pub open spec fn has_options(cycles: u32) -> bool {
    MIN_CYCLES <= cycles <= MAX_CYCLES && is_power_of_two(cycles as int)
}

/// `ExecutionOptions::new` with one number as the largest and as the expected number of cycles:
/// the two numbers that the options then hold.
///
/// Claimed: options are made exactly for the powers of two between the smallest and the largest
/// number of cycles, because the expected number is rounded up to a power of two and must not
/// exceed the largest. Both numbers are then the given one.
#[verifier::external_body]
fn execution_options(cycles: u32) -> (r: Option<(u32, u32)>)
    ensures
        r is Some <==> has_options(cycles),
        r matches Some(numbers) ==> numbers.0 == cycles && numbers.1 == cycles,
{
    let fragment = ExecutionOptions::DEFAULT_CORE_TRACE_FRAGMENT_SIZE;
    let options = ExecutionOptions::new(Some(cycles), cycles, fragment, false, false).ok()?;
    Some((options.max_cycles(), options.expected_cycles()))
}

/// How many cycles a transaction may take.
#[derive(Debug, Clone, Copy, PartialEq, Eq)]
pub struct CycleLimits {
    pub max_cycles: u32,
    pub expected_cycles: u32,
}

/// The limits that a transaction executor accepts.
pub open spec fn is_cycle_limit(cycles: u32) -> bool {
    MIN_TX_EXECUTION_CYCLES <= cycles <= MAX_CYCLES && is_power_of_two(cycles as int)
}

impl CycleLimits {
    /// The limits of a transaction that may take the given number of cycles. There are none for a
    /// number that a transaction executor does not accept.
    pub fn new(cycles: u32) -> (r: Option<Self>)
        ensures
            r is Some <==> is_cycle_limit(cycles),
            r matches Some(limits) ==> limits.max_cycles == cycles && limits.expected_cycles
                == cycles,
    {
        match execution_options(cycles) {
            Some((max_cycles, expected_cycles)) => {
                if max_cycles < MIN_TX_EXECUTION_CYCLES {
                    None
                } else {
                    Some(CycleLimits { max_cycles, expected_cycles })
                }
            },
            None => None,
        }
    }
}

// INPUT NOTES
// ================================================================================================

/// The largest number of notes that a transaction can consume.
pub const MAX_INPUT_NOTES_PER_TX: usize = 1024;

/// The nullifiers of notes.
pub open spec fn nullifiers<N>(notes: Seq<CandidateNote<N>>) -> Seq<Nullifier> {
    notes.map_values(|note: CandidateNote<N>| note.nullifier)
}

/// The first nullifier that was there before.
pub open spec fn first_duplicate(nullifiers: Seq<Nullifier>) -> Option<Nullifier>
    decreases nullifiers.len(),
{
    if nullifiers.len() == 0 {
        None
    } else {
        match first_duplicate(nullifiers.drop_last()) {
            Some(nullifier) => Some(nullifier),
            None => if nullifiers.drop_last().contains(nullifiers.last()) {
                Some(nullifiers.last())
            } else {
                None
            },
        }
    }
}

/// Why notes with the given nullifiers are no inputs of a transaction, if they are none.
pub open spec fn input_notes_error(nullifiers: Seq<Nullifier>) -> Option<InputNotesError> {
    if nullifiers.len() > MAX_INPUT_NOTES_PER_TX {
        Some(InputNotesError::TooManyInputNotes(nullifiers.len() as usize))
    } else {
        match first_duplicate(nullifiers) {
            Some(nullifier) => Some(InputNotesError::DuplicateInputNote(nullifier)),
            None => None,
        }
    }
}

/// Without a first duplicate there is no duplicate, and a first duplicate is one.
pub proof fn first_duplicate_decides(nullifiers: Seq<Nullifier>)
    ensures
        first_duplicate(nullifiers) is None <==> nullifiers.no_duplicates(),
    decreases nullifiers.len(),
{
    if nullifiers.len() > 0 {
        let before = nullifiers.drop_last();
        let last = nullifiers.last();
        first_duplicate_decides(before);
        if before.contains(last) {
            let i = choose|i: int| 0 <= i < before.len() && before[i] == last;
            assert(nullifiers[i] == nullifiers[nullifiers.len() - 1]);
        }
        if !before.no_duplicates() {
            let (i, j) = choose|i: int, j: int|
                0 <= i < before.len() && 0 <= j < before.len() && i != j && before[i] == before[j];
            assert(nullifiers[i] == nullifiers[j]);
        }
        if before.no_duplicates() && !before.contains(last) {
            assert forall|i: int, j: int|
                0 <= i < nullifiers.len() && 0 <= j < nullifiers.len() && i
                    != j implies nullifiers[i] != nullifiers[j] by {
                if i < before.len() && j < before.len() {
                    assert(before[i] != before[j]);
                } else if i < before.len() {
                    assert(before.contains(before[i]));
                } else {
                    assert(before.contains(before[j]));
                }
            }
        }
    }
}

/// What is a duplicate among the first nullifiers stays the first one.
proof fn lemma_first_duplicate(nullifiers: Seq<Nullifier>, n: int)
    requires
        0 <= n <= nullifiers.len(),
        first_duplicate(nullifiers.take(n)) is Some,
    ensures
        first_duplicate(nullifiers) == first_duplicate(nullifiers.take(n)),
    decreases nullifiers.len() - n,
{
    if n < nullifiers.len() {
        assert(nullifiers.take(n + 1).drop_last() =~= nullifiers.take(n));
        lemma_first_duplicate(nullifiers, n + 1);
    } else {
        assert(nullifiers.take(n) =~= nullifiers);
    }
}

/// The notes that a transaction consumes: not too many, and each only once.
#[derive(Debug)]
pub struct InputNotes<N> {
    notes: Vec<CandidateNote<N>>,
}

impl<N> View for InputNotes<N> {
    type V = Seq<CandidateNote<N>>;

    closed spec fn view(&self) -> Seq<CandidateNote<N>> {
        self.notes@
    }
}

impl<N> InputNotes<N> {
    #[verifier::type_invariant]
    spec fn wf(&self) -> bool {
        input_notes_error(nullifiers(self.notes@)) is None
    }

    /// Takes notes as the inputs of a transaction.
    pub fn new(notes: Vec<CandidateNote<N>>) -> (r: Result<Self, InputNotesError>)
        ensures
            match input_notes_error(nullifiers(notes@)) {
                None => r matches Ok(inputs) && inputs@ == notes@,
                Some(e) => r == Err::<Self, InputNotesError>(e),
            },
    {
        let ghost all = nullifiers(notes@);
        if notes.len() > MAX_INPUT_NOTES_PER_TX {
            return Err(InputNotesError::TooManyInputNotes(notes.len()));
        }
        let mut i: usize = 0;
        assert(all.take(0) =~= Seq::empty());
        while i < notes.len()
            invariant
                all == nullifiers(notes@),
                all.len() <= MAX_INPUT_NOTES_PER_TX,
                i <= notes@.len(),
                first_duplicate(all.take(i as int)) is None,
            decreases notes@.len() - i,
        {
            let nullifier = notes[i].nullifier;
            assert(all.take(i + 1).drop_last() =~= all.take(i as int));
            assert(all.take(i + 1).last() == nullifier);
            let mut j: usize = 0;
            while j < i
                invariant
                    all == nullifiers(notes@),
                    all.len() <= MAX_INPUT_NOTES_PER_TX,
                    j <= i < notes@.len(),
                    nullifier == all[i as int],
                    first_duplicate(all.take(i as int)) is None,
                    all.take(i + 1).drop_last() == all.take(i as int),
                    all.take(i + 1).last() == nullifier,
                    forall|k: int| 0 <= k < j ==> #[trigger] all[k] != nullifier,
                decreases i - j,
            {
                if notes[j].nullifier == nullifier {
                    proof {
                        assert(all[j as int] == nullifier);
                        assert(all.take(i as int)[j as int] == nullifier);
                        assert(first_duplicate(all.take(i + 1)) == Some(nullifier));
                        lemma_first_duplicate(all, i + 1);
                    }
                    return Err(InputNotesError::DuplicateInputNote(nullifier));
                }
                j = j + 1;
            }
            i = i + 1;
        }
        assert(all.take(i as int) =~= all);
        Ok(InputNotes { notes })
    }

    /// The notes.
    pub fn notes(&self) -> (r: &Vec<CandidateNote<N>>)
        ensures
            r@ == self@,
            input_notes_error(nullifiers(r@)) is None,
    {
        proof {
            use_type_invariant(self);
        }
        &self.notes
    }

    /// Whether there is no note.
    pub fn is_empty(&self) -> (r: bool)
        ensures
            r == (self@.len() == 0),
    {
        self.notes.len() == 0
    }
}

// FILTERING
// ================================================================================================

/// Which notes could be consumed together, and which could not.
#[derive(Debug)]
pub struct NoteConsumptionInfo<N> {
    pub successful: Vec<CandidateNote<N>>,
    pub failed: Vec<FailedNote>,
}

/// What is made of the check of notes: the check itself may have failed, the notes that passed may
/// be no inputs of a transaction, and at least one has to have passed.
pub open spec fn filter_error<N>(
    checked: Result<NoteConsumptionInfo<N>, NoteCheckerError>,
) -> Option<NtxError> {
    match checked {
        Err(e) => Some(NtxError::NoteFilter(e)),
        Ok(info) => match input_notes_error(nullifiers(info.successful@)) {
            Some(e) => Some(NtxError::InputNotes(e)),
            None => if info.successful@.len() == 0 {
                Some(NtxError::AllNotesFailed(info.failed))
            } else {
                None
            },
        },
    }
}

/// Divides notes into those that the transaction consumes, of which there is at least one, and
/// those that failed.
pub fn filter_notes<N>(checked: Result<NoteConsumptionInfo<N>, NoteCheckerError>) -> (r: Result<
    (InputNotes<N>, Vec<FailedNote>),
    NtxError,
>)
    ensures
        match filter_error(checked) {
            None => {
                &&& r matches Ok(filtered)
                &&& filtered.0@ == checked->Ok_0.successful@
                &&& filtered.0@.len() > 0
                &&& filtered.1 == checked->Ok_0.failed
            },
            Some(e) => r == Err::<(InputNotes<N>, Vec<FailedNote>), NtxError>(e),
        },
{
    match checked {
        Ok(info) => match InputNotes::new(info.successful) {
            Ok(successful) => {
                if successful.is_empty() {
                    return Err(NtxError::AllNotesFailed(info.failed));
                }
                Ok((successful, info.failed))
            },
            Err(e) => Err(NtxError::InputNotes(e)),
        },
        Err(e) => Err(NtxError::NoteFilter(e)),
    }
}

// EXECUTION
// ================================================================================================

/// The result of a successful transaction execution.
#[derive(Debug)]
pub struct NtxExecutionResult {
    /// The transaction.
    pub transaction_id: TransactionId,
    /// Notes that failed during filtering.
    pub failed_notes: Vec<FailedNote>,
    /// Note scripts that were fetched from the remote store.
    pub scripts_to_cache: Vec<RootedScript>,
}

/// The step that an execution has reached, with what came out of the steps before.
#[derive(Debug)]
pub enum NtxStage<N> {
    Filtering,
    Executing { notes: InputNotes<N>, failed: Vec<FailedNote> },
    Collecting { failed: Vec<FailedNote> },
    Proving { failed: Vec<FailedNote>, scripts: Vec<RootedScript> },
    Validating { result: NtxExecutionResult },
    Submitting { result: NtxExecutionResult },
    Finished(Result<NtxExecutionResult, NtxError>),
}

/// What has come of a step.
#[derive(Debug)]
pub enum NtxEvent<N> {
    /// The notes were checked.
    Checked(Result<NoteConsumptionInfo<N>, NoteCheckerError>),
    /// The transaction was executed.
    Executed(Result<(), TransactionExecutorError>),
    /// The scripts that were fetched during the execution were collected.
    Collected(Vec<RootedScript>),
    /// The transaction was proven.
    Proven(Result<TransactionId, TransactionProverError>),
    /// The validator answered.
    Validated(Result<(), Status>),
    /// The block producer answered.
    Submitted(Result<(), Status>),
}

/// What an execution asks for.
#[derive(Debug, Clone, Copy, PartialEq, Eq, Structural)]
pub enum NtxAction {
    /// Check which notes can be consumed.
    CheckNotes,
    /// Execute the transaction with the notes that passed.
    Execute,
    /// Collect the scripts that were fetched.
    CollectScripts,
    /// Have the transaction proven by the remote prover.
    ProveRemotely,
    /// Prove the transaction here.
    ProveLocally,
    /// Hand the transaction to the validator.
    Validate,
    /// Hand the transaction to the block producer.
    Submit,
    /// Take the result.
    Finish,
}

/// Executes a network transaction end to end.
#[derive(Debug)]
pub struct NtxContext<N> {
    /// Whether proofs are delegated. Without a remote prover they are made here.
    remote_prover: bool,
    stage: NtxStage<N>,
}

/// The stage after an event. An event that the stage does not wait for changes nothing.
pub open spec fn is_next_stage<N>(
    stage: NtxStage<N>,
    event: NtxEvent<N>,
    next: NtxStage<N>,
) -> bool {
    match (stage, event) {
        (NtxStage::Filtering, NtxEvent::Checked(checked)) => match filter_error(checked) {
            Some(e) => next == NtxStage::<N>::Finished(Err(e)),
            None => {
                &&& next matches NtxStage::Executing { notes, failed }
                &&& notes@ == checked->Ok_0.successful@
                &&& failed == checked->Ok_0.failed
            },
        },
        (NtxStage::Executing { notes, failed }, NtxEvent::Executed(Ok(()))) => {
            next == NtxStage::<N>::Collecting { failed }
        },
        (NtxStage::Executing { .. }, NtxEvent::Executed(Err(e))) => {
            next == NtxStage::<N>::Finished(Err(NtxError::Execution(e)))
        },
        (NtxStage::Collecting { failed }, NtxEvent::Collected(scripts)) => {
            next == NtxStage::<N>::Proving { failed, scripts }
        },
        (NtxStage::Proving { failed, scripts }, NtxEvent::Proven(Ok(transaction_id))) => {
            next == (NtxStage::<N>::Validating {
                result: NtxExecutionResult {
                    transaction_id,
                    failed_notes: failed,
                    scripts_to_cache: scripts,
                },
            })
        },
        (NtxStage::Proving { .. }, NtxEvent::Proven(Err(e))) => {
            next == NtxStage::<N>::Finished(Err(NtxError::Proving(e)))
        },
        (NtxStage::Validating { result }, NtxEvent::Validated(Ok(()))) => {
            next == NtxStage::<N>::Submitting { result }
        },
        (NtxStage::Validating { .. }, NtxEvent::Validated(Err(e))) => {
            next == NtxStage::<N>::Finished(Err(NtxError::Submission(e)))
        },
        (NtxStage::Submitting { result }, NtxEvent::Submitted(Ok(()))) => {
            next == NtxStage::<N>::Finished(Ok(result))
        },
        (NtxStage::Submitting { .. }, NtxEvent::Submitted(Err(e))) => {
            next == NtxStage::<N>::Finished(Err(NtxError::Submission(e)))
        },
        _ => next == stage,
    }
}

/// What an execution asks for at a stage.
pub open spec fn action_at<N>(remote_prover: bool, stage: NtxStage<N>) -> NtxAction {
    match stage {
        NtxStage::Filtering => NtxAction::CheckNotes,
        NtxStage::Executing { .. } => NtxAction::Execute,
        NtxStage::Collecting { .. } => NtxAction::CollectScripts,
        NtxStage::Proving { .. } => if remote_prover {
            NtxAction::ProveRemotely
        } else {
            NtxAction::ProveLocally
        },
        NtxStage::Validating { .. } => NtxAction::Validate,
        NtxStage::Submitting { .. } => NtxAction::Submit,
        NtxStage::Finished(_) => NtxAction::Finish,
    }
}

impl<N> NtxContext<N> {
    /// Whether proofs are delegated.
    pub closed spec fn spec_remote_prover(&self) -> bool {
        self.remote_prover
    }

    /// The step that the execution has reached.
    pub closed spec fn spec_stage(&self) -> NtxStage<N> {
        self.stage
    }

    /// An execution that is about to begin.
    pub fn new(remote_prover: bool) -> (r: Self)
        ensures
            r.spec_remote_prover() == remote_prover,
            r.spec_stage() == NtxStage::<N>::Filtering,
    {
        NtxContext { remote_prover, stage: NtxStage::Filtering }
    }

    /// What the execution asks for at its stage.
    pub open spec fn spec_action(&self) -> NtxAction {
        action_at(self.spec_remote_prover(), self.spec_stage())
    }

    /// What the execution asks for.
    pub fn action(&self) -> (r: NtxAction)
        ensures
            r == self.spec_action(),
    {
        match &self.stage {
            NtxStage::Filtering => NtxAction::CheckNotes,
            NtxStage::Executing { .. } => NtxAction::Execute,
            NtxStage::Collecting { .. } => NtxAction::CollectScripts,
            NtxStage::Proving { .. } => if self.remote_prover {
                NtxAction::ProveRemotely
            } else {
                NtxAction::ProveLocally
            },
            NtxStage::Validating { .. } => NtxAction::Validate,
            NtxStage::Submitting { .. } => NtxAction::Submit,
            NtxStage::Finished(_) => NtxAction::Finish,
        }
    }

    /// The notes that the transaction is to consume, once they are known and until it was
    /// executed.
    pub fn input_notes(&self) -> (r: Option<&InputNotes<N>>)
        ensures
            match self.spec_stage() {
                NtxStage::Executing { notes, .. } => r matches Some(inputs) && *inputs == notes,
                _ => r is None,
            },
    {
        match &self.stage {
            NtxStage::Executing { notes, .. } => Some(notes),
            _ => None,
        }
    }

    /// Takes notice of what has come of a step.
    pub fn handle(self, event: NtxEvent<N>) -> (r: Self)
        ensures
            is_next_stage(self.spec_stage(), event, r.spec_stage()),
            r.spec_remote_prover() == self.spec_remote_prover(),
    {
        let remote_prover = self.remote_prover;
        let stage = match (self.stage, event) {
            (NtxStage::Filtering, NtxEvent::Checked(checked)) => match filter_notes(checked) {
                Ok((notes, failed)) => NtxStage::Executing { notes, failed },
                Err(e) => NtxStage::Finished(Err(e)),
            },
            (NtxStage::Executing { notes, failed }, NtxEvent::Executed(executed)) => match executed {
                Ok(()) => NtxStage::Collecting { failed },
                Err(e) => NtxStage::Finished(Err(NtxError::Execution(e))),
            },
            (NtxStage::Collecting { failed }, NtxEvent::Collected(scripts)) => {
                NtxStage::Proving { failed, scripts }
            },
            (NtxStage::Proving { failed, scripts }, NtxEvent::Proven(proven)) => match proven {
                Ok(transaction_id) => {
                    let result = NtxExecutionResult {
                        transaction_id,
                        failed_notes: failed,
                        scripts_to_cache: scripts,
                    };
                    NtxStage::Validating { result }
                },
                Err(e) => NtxStage::Finished(Err(NtxError::Proving(e))),
            },
            (NtxStage::Validating { result }, NtxEvent::Validated(validated)) => match validated {
                Ok(()) => NtxStage::Submitting { result },
                Err(e) => NtxStage::Finished(Err(NtxError::Submission(e))),
            },
            (NtxStage::Submitting { result }, NtxEvent::Submitted(submitted)) => match submitted {
                Ok(()) => NtxStage::Finished(Ok(result)),
                Err(e) => NtxStage::Finished(Err(NtxError::Submission(e))),
            },
            (stage, _) => stage,
        };
        NtxContext { remote_prover, stage }
    }

    /// The result, once the execution is finished.
    pub fn into_result(self) -> (r: Option<Result<NtxExecutionResult, NtxError>>)
        ensures
            match self.spec_stage() {
                NtxStage::Finished(result) => r == Some(result),
                _ => r is None,
            },
    {
        match self.stage {
            NtxStage::Finished(result) => Some(result),
            _ => None,
        }
    }
}

// LAWS
// ================================================================================================

/// Whether an execution goes through the given stages when the given events happen.
pub open spec fn is_execution<N>(stages: Seq<NtxStage<N>>, events: Seq<NtxEvent<N>>) -> bool {
    &&& stages.len() == events.len() + 1
    &&& stages[0] == NtxStage::<N>::Filtering
    &&& forall|i: int|
        0 <= i < events.len() ==> is_next_stage(
            stages[i],
            #[trigger] events[i],
            stages[i + 1],
        )
}

/// What comes of an execution, by what comes of its steps: the first step that fails decides, and
/// without a failure there is a result.
pub open spec fn execution_result<N>(
    checked: Result<NoteConsumptionInfo<N>, NoteCheckerError>,
    executed: Result<(), TransactionExecutorError>,
    scripts: Vec<RootedScript>,
    proven: Result<TransactionId, TransactionProverError>,
    validated: Result<(), Status>,
    submitted: Result<(), Status>,
) -> Result<NtxExecutionResult, NtxError> {
    if filter_error(checked) is Some {
        Err(filter_error(checked).unwrap())
    } else if executed is Err {
        Err(NtxError::Execution(executed->Err_0))
    } else if proven is Err {
        Err(NtxError::Proving(proven->Err_0))
    } else if validated is Err {
        Err(NtxError::Submission(validated->Err_0))
    } else if submitted is Err {
        Err(NtxError::Submission(submitted->Err_0))
    } else {
        Ok(
            NtxExecutionResult {
                transaction_id: proven->Ok_0,
                failed_notes: checked->Ok_0.failed,
                scripts_to_cache: scripts,
            },
        )
    }
}

/// An execution whose steps are answered one after the other finishes with the result that the
/// answers lead to.
pub proof fn answers_decide_the_result<N>(
    stages: Seq<NtxStage<N>>,
    checked: Result<NoteConsumptionInfo<N>, NoteCheckerError>,
    executed: Result<(), TransactionExecutorError>,
    scripts: Vec<RootedScript>,
    proven: Result<TransactionId, TransactionProverError>,
    validated: Result<(), Status>,
    submitted: Result<(), Status>,
)
    requires
        is_execution(
            stages,
            seq![
                NtxEvent::Checked(checked),
                NtxEvent::Executed(executed),
                NtxEvent::Collected(scripts),
                NtxEvent::Proven(proven),
                NtxEvent::Validated(validated),
                NtxEvent::Submitted(submitted),
            ],
        ),
    ensures
        stages.last() == NtxStage::<N>::Finished(
            execution_result(checked, executed, scripts, proven, validated, submitted),
        ),
{
    let events = seq![
        NtxEvent::<N>::Checked(checked),
        NtxEvent::Executed(executed),
        NtxEvent::Collected(scripts),
        NtxEvent::Proven(proven),
        NtxEvent::Validated(validated),
        NtxEvent::Submitted(submitted),
    ];
    assert(is_next_stage(stages[0], events[0], stages[1]));
    assert(is_next_stage(stages[1], events[1], stages[2]));
    assert(is_next_stage(stages[2], events[2], stages[3]));
    assert(is_next_stage(stages[3], events[3], stages[4]));
    assert(is_next_stage(stages[4], events[4], stages[5]));
    assert(is_next_stage(stages[5], events[5], stages[6]));
}

/// Whether the stage lies behind the proof of the transaction.
pub open spec fn is_proven<N>(stage: NtxStage<N>, result: NtxExecutionResult) -> bool {
    ||| stage == NtxStage::<N>::Validating { result }
    ||| stage == NtxStage::<N>::Submitting { result }
    ||| stage == NtxStage::<N>::Finished(Ok(result))
}

/// A transaction is handed to the validator only after it was proven under its identifier.
pub proof fn validated_only_when_proven<N>(
    stages: Seq<NtxStage<N>>,
    events: Seq<NtxEvent<N>>,
    result: NtxExecutionResult,
)
    requires
        is_execution(stages, events),
        is_proven(stages.last(), result),
    ensures
        events.contains(NtxEvent::<N>::Proven(Ok(result.transaction_id))),
    decreases events.len(),
{
    let n = events.len() as int;
    if n > 0 {
        let event = events[n - 1];
        assert(is_next_stage(stages[n - 1], event, stages[n]));
        if is_proven(stages[n - 1], result) {
            lemma_shorter(stages, events);
            validated_only_when_proven(stages.drop_last(), events.drop_last(), result);
            lemma_contained(events, NtxEvent::<N>::Proven(Ok(result.transaction_id)));
        } else {
            assert(event == NtxEvent::<N>::Proven(Ok(result.transaction_id)));
        }
    }
}

/// A transaction is handed to the block producer only after the validator has accepted it.
pub proof fn submitted_only_when_validated<N>(
    stages: Seq<NtxStage<N>>,
    events: Seq<NtxEvent<N>>,
    result: NtxExecutionResult,
)
    requires
        is_execution(stages, events),
        stages.last() == (NtxStage::<N>::Submitting { result }) || stages.last()
            == NtxStage::<N>::Finished(Ok(result)),
    ensures
        events.contains(NtxEvent::<N>::Proven(Ok(result.transaction_id))),
        events.contains(NtxEvent::<N>::Validated(Ok(()))),
    decreases events.len(),
{
    validated_only_when_proven(stages, events, result);
    let n = events.len() as int;
    if n > 0 {
        let event = events[n - 1];
        assert(is_next_stage(stages[n - 1], event, stages[n]));
        let before = stages[n - 1];
        if before == (NtxStage::<N>::Submitting { result }) || before == NtxStage::<N>::Finished(
            Ok(result),
        ) {
            lemma_shorter(stages, events);
            submitted_only_when_validated(stages.drop_last(), events.drop_last(), result);
            lemma_contained(events, NtxEvent::<N>::Validated(Ok(())));
        } else {
            assert(event->Validated_0->Ok_0 == ());
            assert(event == NtxEvent::<N>::Validated(Ok(())));
        }
    }
}

/// An execution succeeds only after the block producer has accepted the transaction.
pub proof fn succeeds_only_when_submitted<N>(
    stages: Seq<NtxStage<N>>,
    events: Seq<NtxEvent<N>>,
    result: NtxExecutionResult,
)
    requires
        is_execution(stages, events),
        stages.last() == NtxStage::<N>::Finished(Ok(result)),
    ensures
        events.contains(NtxEvent::<N>::Submitted(Ok(()))),
    decreases events.len(),
{
    let n = events.len() as int;
    if n > 0 {
        let event = events[n - 1];
        assert(is_next_stage(stages[n - 1], event, stages[n]));
        if stages[n - 1] == NtxStage::<N>::Finished(Ok(result)) {
            lemma_shorter(stages, events);
            succeeds_only_when_submitted(stages.drop_last(), events.drop_last(), result);
            lemma_contained(events, NtxEvent::<N>::Submitted(Ok(())));
        } else {
            assert(event->Submitted_0->Ok_0 == ());
            assert(event == NtxEvent::<N>::Submitted(Ok(())));
        }
    }
}

proof fn lemma_shorter<N>(stages: Seq<NtxStage<N>>, events: Seq<NtxEvent<N>>)
    requires
        is_execution(stages, events),
        events.len() > 0,
    ensures
        is_execution(stages.drop_last(), events.drop_last()),
        stages.drop_last().last() == stages[events.len() - 1],
{
    assert forall|i: int| 0 <= i < events.drop_last().len() implies is_next_stage(
        stages.drop_last()[i],
        #[trigger] events.drop_last()[i],
        stages.drop_last()[i + 1],
    ) by {
        assert(is_next_stage(stages[i], events[i], stages[i + 1]));
    }
}

proof fn lemma_contained<N>(events: Seq<NtxEvent<N>>, event: NtxEvent<N>)
    requires
        events.len() > 0,
        events.drop_last().contains(event),
    ensures
        events.contains(event),
{
    let before = events.drop_last();
    let i = choose|i: int| 0 <= i < before.len() && before[i] == event;
    assert(events[i] == event);
}

/// The first duplicate is there twice, and before its second place nothing is.
pub proof fn first_duplicates_come_first(nullifiers: Seq<Nullifier>)
    ensures
        first_duplicate(nullifiers) matches Some(nullifier) ==> exists|i: int, j: int|
            {
                &&& 0 <= i < j < nullifiers.len()
                &&& (#[trigger] nullifiers[i]) == nullifier
                &&& (#[trigger] nullifiers[j]) == nullifier
                &&& nullifiers.take(j).no_duplicates()
            },
    decreases nullifiers.len(),
{
    if nullifiers.len() > 0 {
        let before = nullifiers.drop_last();
        let n = before.len() as int;
        first_duplicates_come_first(before);
        if first_duplicate(before) is Some {
            let nullifier = first_duplicate(before).unwrap();
            let (i, j) = choose|i: int, j: int|
                {
                    &&& 0 <= i < j < before.len()
                    &&& (#[trigger] before[i]) == nullifier
                    &&& (#[trigger] before[j]) == nullifier
                    &&& before.take(j).no_duplicates()
                };
            assert(before.take(j) =~= nullifiers.take(j));
            assert(nullifiers[i] == nullifier && nullifiers[j] == nullifier);
        } else if before.contains(nullifiers.last()) {
            first_duplicate_decides(before);
            let i = choose|i: int| 0 <= i < before.len() && before[i] == nullifiers.last();
            assert(nullifiers.take(n) =~= before);
            assert(nullifiers[i] == nullifiers.last() && nullifiers[n] == nullifiers.last());
        }
    }
}

/// Notes are inputs of a transaction exactly if there are at most 1024 of them and no two have the
/// same nullifier. That there are too many is said first.
pub proof fn inputs_are_few_and_distinct(nullifiers: Seq<Nullifier>)
    requires
        nullifiers.len() <= usize::MAX,
    ensures
        match input_notes_error(nullifiers) {
            None => nullifiers.len() <= 1024 && nullifiers.no_duplicates(),
            Some(InputNotesError::TooManyInputNotes(count)) => nullifiers.len() > 1024 && count
                == nullifiers.len(),
            Some(InputNotesError::DuplicateInputNote(nullifier)) => nullifiers.len() <= 1024
                && !nullifiers.no_duplicates() && first_duplicate(nullifiers) == Some(nullifier),
        },
{
    first_duplicate_decides(nullifiers);
}

/// Whatever else failed, the notes that passed the check are consumed if there are 1 to 1024 of
/// them with distinct nullifiers: the execution goes on with exactly these.
pub proof fn notes_that_passed_are_consumed<N>(info: NoteConsumptionInfo<N>, next: NtxStage<N>)
    requires
        1 <= info.successful@.len() <= 1024,
        forall|i: int, j: int|
            0 <= i < j < info.successful@.len() ==> (#[trigger] info.successful@[i]).nullifier != (
            #[trigger] info.successful@[j]).nullifier,
        is_next_stage(NtxStage::Filtering, NtxEvent::Checked(Ok(info)), next),
    ensures
        filter_error::<N>(Ok(info)) is None,
        next matches NtxStage::Executing { notes, failed } && notes@ == info.successful@ && failed
            == info.failed,
{
    let all = nullifiers(info.successful@);
    assert(all.no_duplicates()) by {
        assert forall|i: int, j: int|
            0 <= i < all.len() && 0 <= j < all.len() && i != j implies all[i] != all[j] by {
            if i < j {
                assert(info.successful@[i].nullifier != info.successful@[j].nullifier);
            } else {
                assert(info.successful@[j].nullifier != info.successful@[i].nullifier);
            }
        }
    }
    first_duplicate_decides(all);
}

/// Filtering fails for one of four reasons, and reports it: the check failed, too many notes
/// passed, one passed twice, or none passed. It fails if one of them holds.
pub proof fn filtering_fails_for_a_reason<N>(
    checked: Result<NoteConsumptionInfo<N>, NoteCheckerError>,
)
    ensures
        match filter_error(checked) {
            Some(NtxError::NoteFilter(e)) => checked == Err::<
                NoteConsumptionInfo<N>,
                NoteCheckerError,
            >(e),
            Some(NtxError::InputNotes(InputNotesError::TooManyInputNotes(_))) => {
                checked matches Ok(info) && info.successful@.len() > 1024
            },
            Some(NtxError::InputNotes(InputNotesError::DuplicateInputNote(nullifier))) => {
                &&& checked matches Ok(info)
                &&& exists|i: int, j: int|
                    0 <= i < j < info.successful@.len() && (
                    #[trigger] info.successful@[i]).nullifier == nullifier && (
                    #[trigger] info.successful@[j]).nullifier == nullifier
            },
            Some(NtxError::AllNotesFailed(failed)) => {
                checked matches Ok(info) && info.successful@.len() == 0 && failed == info.failed
            },
            Some(_) => false,
            None => checked matches Ok(info) && 1 <= info.successful@.len() <= 1024,
        },
        checked is Err ==> filter_error(checked) is Some,
        checked matches Ok(info) ==> (info.successful@.len() == 0 || info.successful@.len() > 1024
            ==> filter_error(checked) is Some),
        checked matches Ok(info) ==> (forall|i: int, j: int|
            0 <= i < j < info.successful@.len() && (#[trigger] info.successful@[i]).nullifier == (
            #[trigger] info.successful@[j]).nullifier ==> filter_error(checked) is Some),
{
    if checked is Ok {
        let info = checked->Ok_0;
        let all = nullifiers(info.successful@);
        first_duplicates_come_first(all);
        first_duplicate_decides(all);
        if first_duplicate(all) is Some {
            let nullifier = first_duplicate(all).unwrap();
            let (i, j) = choose|i: int, j: int|
                {
                    &&& 0 <= i < j < all.len()
                    &&& (#[trigger] all[i]) == nullifier
                    &&& (#[trigger] all[j]) == nullifier
                    &&& all.take(j).no_duplicates()
                };
            assert(info.successful@[i].nullifier == nullifier);
            assert(info.successful@[j].nullifier == nullifier);
        }
        assert forall|i: int, j: int|
            0 <= i < j < info.successful@.len() && (#[trigger] info.successful@[i]).nullifier == (
            #[trigger] info.successful@[j]).nullifier implies filter_error(checked) is Some by {
            assert(all[i] == all[j]);
        }
    }
}

/// Each step of an execution is followed by the next if it succeeds and by its own error if it
/// fails, and what came out of the steps before is kept.
pub proof fn steps_follow_each_other<N>(
    notes: InputNotes<N>,
    failed: Vec<FailedNote>,
    scripts: Vec<RootedScript>,
    result: NtxExecutionResult,
    executed: Result<(), TransactionExecutorError>,
    proven: Result<TransactionId, TransactionProverError>,
    answer: Result<(), Status>,
    next: NtxStage<N>,
)
    ensures
        is_next_stage(NtxStage::Executing { notes, failed }, NtxEvent::Executed(executed), next)
            <==> next == match executed {
            Ok(_) => NtxStage::<N>::Collecting { failed },
            Err(e) => NtxStage::<N>::Finished(Err(NtxError::Execution(e))),
        },
        is_next_stage(NtxStage::Collecting { failed }, NtxEvent::Collected(scripts), next) <==> next
            == (NtxStage::<N>::Proving { failed, scripts }),
        is_next_stage(NtxStage::Proving { failed, scripts }, NtxEvent::Proven(proven), next)
            <==> match proven {
            Ok(id) => {
                &&& next matches NtxStage::Validating { result: reached }
                &&& reached.transaction_id == id
                &&& reached.failed_notes == failed
                &&& reached.scripts_to_cache == scripts
            },
            Err(e) => next == NtxStage::<N>::Finished(Err(NtxError::Proving(e))),
        },
        is_next_stage(NtxStage::Validating { result }, NtxEvent::Validated(answer), next) <==> next
            == match answer {
            Ok(_) => NtxStage::<N>::Submitting { result },
            Err(e) => NtxStage::<N>::Finished(Err(NtxError::Submission(e))),
        },
        is_next_stage(NtxStage::Submitting { result }, NtxEvent::Submitted(answer), next) <==> next
            == match answer {
            Ok(_) => NtxStage::<N>::Finished(Ok(result)),
            Err(e) => NtxStage::<N>::Finished(Err(NtxError::Submission(e))),
        },
{
}

/// An answer to another step than the one that was asked for changes nothing, and nothing changes
/// a finished execution.
pub proof fn other_answers_change_nothing<N>(
    stage: NtxStage<N>,
    event: NtxEvent<N>,
    next: NtxStage<N>,
)
    requires
        is_next_stage(stage, event, next),
        match event {
            NtxEvent::Checked(_) => !(stage is Filtering),
            NtxEvent::Executed(_) => !(stage is Executing),
            NtxEvent::Collected(_) => !(stage is Collecting),
            NtxEvent::Proven(_) => !(stage is Proving),
            NtxEvent::Validated(_) => !(stage is Validating),
            NtxEvent::Submitted(_) => !(stage is Submitting),
        },
    ensures
        next == stage,
{
}

/// A transaction whose notes pass the check and whose steps all succeed is executed: the result
/// names the proven transaction, the notes that failed and the scripts that were fetched.
pub proof fn transactions_succeed_when_all_steps_do<N>(
    stages: Seq<NtxStage<N>>,
    info: NoteConsumptionInfo<N>,
    scripts: Vec<RootedScript>,
    id: TransactionId,
)
    requires
        1 <= info.successful@.len() <= 1024,
        forall|i: int, j: int|
            0 <= i < j < info.successful@.len() ==> (#[trigger] info.successful@[i]).nullifier != (
            #[trigger] info.successful@[j]).nullifier,
        is_execution(
            stages,
            seq![
                NtxEvent::Checked(Ok(info)),
                NtxEvent::Executed(Ok(())),
                NtxEvent::Collected(scripts),
                NtxEvent::Proven(Ok(id)),
                NtxEvent::Validated(Ok(())),
                NtxEvent::Submitted(Ok(())),
            ],
        ),
    ensures
        stages.last() matches NtxStage::Finished(Ok(result)) && result.transaction_id == id
            && result.failed_notes == info.failed && result.scripts_to_cache == scripts,
{
    let events = seq![
        NtxEvent::<N>::Checked(Ok(info)),
        NtxEvent::Executed(Ok(())),
        NtxEvent::Collected(scripts),
        NtxEvent::Proven(Ok(id)),
        NtxEvent::Validated(Ok(())),
        NtxEvent::Submitted(Ok(())),
    ];
    assert(is_next_stage(stages[0], events[0], stages[1]));
    notes_that_passed_are_consumed(info, stages[1]);
    answers_decide_the_result(stages, Ok(info), Ok(()), scripts, Ok(id), Ok(()), Ok(()));
}

/// An execution asks for one step at each stage, and for a remote proof only with a remote prover.
pub proof fn stages_ask_for_their_step<N>(remote_prover: bool, stage: NtxStage<N>)
    ensures
        action_at(remote_prover, stage) == NtxAction::CheckNotes <==> stage is Filtering,
        action_at(remote_prover, stage) == NtxAction::Execute <==> stage is Executing,
        action_at(remote_prover, stage) == NtxAction::CollectScripts <==> stage is Collecting,
        action_at(remote_prover, stage) == NtxAction::ProveRemotely <==> stage is Proving
            && remote_prover,
        action_at(remote_prover, stage) == NtxAction::ProveLocally <==> stage is Proving
            && !remote_prover,
        action_at(remote_prover, stage) == NtxAction::Validate <==> stage is Validating,
        action_at(remote_prover, stage) == NtxAction::Submit <==> stage is Submitting,
        action_at(remote_prover, stage) == NtxAction::Finish <==> stage is Finished,
{
}

/// Exactly the powers of two from `2^12` to `2^29` limit the cycles of a transaction.
pub proof fn cycle_limits_are_powers_of_two(cycles: u32)
    ensures
        is_cycle_limit(cycles) <==> exists|k: nat| 12 <= k <= 29 && cycles == #[trigger] pow2(k),
{
    lemma2_to64();
    if is_cycle_limit(cycles) {
        let k = choose|k: nat| cycles as int == #[trigger] pow2(k);
        if k < 12 {
            lemma_pow2_strictly_increases(k, 12);
        }
        if k > 29 {
            lemma_pow2_strictly_increases(29, k);
        }
        assert(12 <= k <= 29 && cycles == pow2(k));
    }
    if exists|k: nat| 12 <= k <= 29 && cycles == #[trigger] pow2(k) {
        let k = choose|k: nat| 12 <= k <= 29 && cycles == #[trigger] pow2(k);
        if k > 12 {
            lemma_pow2_strictly_increases(12, k);
        }
        if k < 29 {
            lemma_pow2_strictly_increases(k, 29);
        }
        assert(is_power_of_two(cycles as int));
    }
}

/// An execution asks for what its own stage and prover call for.
pub proof fn executions_ask_for_themselves<N>(context: NtxContext<N>)
    ensures
        context.spec_action() == action_at(context.spec_remote_prover(), context.spec_stage()),
{
}

} // verus!
