//! What an actor does when a transaction is over: which scripts it has cached, which notes it
//! reports as failed, and the mode that it goes on with.

use std::collections::VecDeque;
use std::sync::Arc;

use miden_protocol::note::NoteScript;
use vstd::prelude::*;

use crate::actor::candidate::CandidateNote;
use crate::actor::error::{FailedNote, NtxError};
use crate::actor::execute::NtxExecutionResult;
use crate::actor::lifecycle::ActorMode;
use crate::actor::script::RootedScript;
use crate::word::{Nullifier, Word};

verus! {

/// `Arc::clone` shares the error.
#[verifier::external_body]
fn share(error: &Arc<NtxError>) -> (r: Arc<NtxError>)
    ensures
        r == *error,
{
    Arc::clone(error)
}

/// Why a note failed.
#[derive(Debug)]
pub enum NoteError {
    /// The note did not pass the check, for the reason that the report gives.
    Check(String),
    /// The transaction that should have consumed the note failed.
    Transaction(Arc<NtxError>),
}

/// A request sent from an account actor to the coordinator.
#[derive(Debug)]
pub enum ActorRequest {
    /// One or more notes failed during transaction execution and should have their attempt
    /// counters incremented. The actor waits until that is acknowledged, so that it does not
    /// select the same notes again before.
    NotesFailed { failed_notes: Vec<(Nullifier, NoteError)>, block_num: u32 },
    /// A note script was fetched from the remote store and should be persisted to the local DB.
    CacheNoteScript { script_root: Word, script: NoteScript },
}

/// Pairs the nullifier of each failed note with the report of its error.
pub open spec fn are_reports(
    failed: Seq<FailedNote>,
    reported: Seq<(Nullifier, NoteError)>,
) -> bool {
    &&& reported.len() == failed.len()
    &&& forall|i: int|
        0 <= i < reported.len() ==> (#[trigger] reported[i]) == (
            failed[i].nullifier,
            NoteError::Check(failed[i].report),
        )
}

/// Pairs the nullifier of each note with the error of the transaction.
pub open spec fn share_error<N>(
    notes: Seq<CandidateNote<N>>,
    error: NtxError,
    reported: Seq<(Nullifier, NoteError)>,
) -> bool {
    &&& reported.len() == notes.len()
    &&& forall|i: int|
        0 <= i < reported.len() ==> (#[trigger] reported[i]) == (
            notes[i].nullifier,
            NoteError::Transaction(Arc::new(error)),
        )
}

/// Pairs the nullifier of each failed note with the report of its error.
pub fn log_failed_notes(failed: Vec<FailedNote>) -> (reported: Vec<(Nullifier, NoteError)>)
    ensures
        are_reports(failed@, reported@),
{
    let mut reported: Vec<(Nullifier, NoteError)> = Vec::new();
    for note in notes: failed
        invariant
            notes.seq() == failed@,
            reported@.len() == notes.index(),
            forall|i: int|
                0 <= i < reported@.len() ==> (#[trigger] reported@[i]) == (
                    failed@[i].nullifier,
                    NoteError::Check(failed@[i].report),
                ),
    {
        reported.push((note.nullifier, NoteError::Check(note.report)));
    }
    reported
}

/// Pairs the nullifier of each note with the error of the transaction.
fn fail_all<N>(notes: &Vec<CandidateNote<N>>, error: NtxError) -> (reported: Vec<
    (Nullifier, NoteError),
>)
    ensures
        share_error(notes@, error, reported@),
{
    let shared = Arc::new(error);
    let mut reported: Vec<(Nullifier, NoteError)> = Vec::new();
    let mut i: usize = 0;
    while i < notes.len()
        invariant
            i <= notes@.len(),
            shared == Arc::new(error),
            share_error(notes@.take(i as int), error, reported@),
        decreases notes@.len() - i,
    {
        reported.push((notes[i].nullifier, NoteError::Transaction(share(&shared))));
        i = i + 1;
    }
    assert(notes@.take(i as int) =~= notes@);
    reported
}

// REQUESTS
// ================================================================================================

/// The requests that an actor has for the coordinator, in the order in which it sends them: the
/// scripts to cache, then the notes that failed.
#[derive(Debug)]
pub struct Outbox {
    scripts: VecDeque<RootedScript>,
    failed_notes: Option<Vec<(Nullifier, NoteError)>>,
    block_num: u32,
}

/// The requests that scripts and failed notes call for: one for each script, in their order, and
/// then one for all the failed notes.
pub open spec fn requests_of(
    scripts: Seq<RootedScript>,
    failed_notes: Option<Vec<(Nullifier, NoteError)>>,
    block_num: u32,
) -> Seq<ActorRequest> {
    let cached = scripts.map_values(
        |s: RootedScript| ActorRequest::CacheNoteScript { script_root: s.root, script: s.script },
    );
    match failed_notes {
        Some(failed_notes) => cached.push(ActorRequest::NotesFailed { failed_notes, block_num }),
        None => cached,
    }
}

impl Outbox {
    /// The requests that are yet to be sent.
    pub open spec fn spec_requests(&self) -> Seq<ActorRequest> {
        requests_of(self.spec_scripts(), self.spec_failed_notes(), self.spec_block_num())
    }

    /// The scripts that are yet to be sent.
    pub closed spec fn spec_scripts(&self) -> Seq<RootedScript> {
        self.scripts@
    }

    /// The failed notes, if they are yet to be sent.
    pub closed spec fn spec_failed_notes(&self) -> Option<Vec<(Nullifier, NoteError)>> {
        self.failed_notes
    }

    /// The block that the notes failed at.
    pub closed spec fn spec_block_num(&self) -> u32 {
        self.block_num
    }

    fn new(
        scripts: Vec<RootedScript>,
        failed_notes: Option<Vec<(Nullifier, NoteError)>>,
        block_num: u32,
    ) -> (r: Self)
        ensures
            r.spec_scripts() == scripts@,
            r.spec_failed_notes() == failed_notes,
            r.spec_block_num() == block_num,
    {
        let mut queue: VecDeque<RootedScript> = VecDeque::new();
        for script in all: scripts
            invariant
                all.seq() == scripts@,
                queue@ == scripts@.take(all.index() as int),
        {
            queue.push_back(script);
            assert(queue@ =~= scripts@.take(all.index() + 1));
        }
        assert(scripts@.take(scripts@.len() as int) =~= scripts@);
        Outbox { scripts: queue, failed_notes, block_num }
    }

    /// Takes the next request.
    pub fn next_request(&mut self) -> (r: Option<ActorRequest>)
        ensures
            match r {
                Some(request) => {
                    &&& old(self).spec_requests().len() > 0
                    &&& request == old(self).spec_requests()[0]
                    &&& final(self).spec_requests() == old(self).spec_requests().skip(1)
                },
                None => old(self).spec_requests().len() == 0 && final(self).spec_requests().len()
                    == 0,
            },
            final(self).spec_block_num() == old(self).spec_block_num(),
            if old(self).spec_scripts().len() > 0 {
                let first = old(self).spec_scripts()[0];
                &&& r == Some(
                    ActorRequest::CacheNoteScript { script_root: first.root, script: first.script },
                )
                &&& final(self).spec_scripts() == old(self).spec_scripts().skip(1)
                &&& final(self).spec_failed_notes() == old(self).spec_failed_notes()
            } else {
                &&& final(self).spec_scripts() == old(self).spec_scripts()
                &&& final(self).spec_failed_notes() is None
                &&& match old(self).spec_failed_notes() {
                    Some(failed_notes) => r == Some(
                        ActorRequest::NotesFailed {
                            failed_notes,
                            block_num: old(self).spec_block_num(),
                        },
                    ),
                    None => r is None,
                }
            },
    {
        match self.scripts.pop_front() {
            Some(first) => {
                assert(self.scripts@ =~= old(self).scripts@.skip(1));
                assert(self.spec_requests() =~= old(self).spec_requests().skip(1));
                Some(ActorRequest::CacheNoteScript { script_root: first.root, script: first.script })
            },
            None => {
                let block_num = self.block_num;
                match self.failed_notes.take() {
                    Some(failed_notes) => {
                        assert(self.spec_requests() =~= old(self).spec_requests().skip(1));
                        Some(ActorRequest::NotesFailed { failed_notes, block_num })
                    },
                    None => None,
                }
            },
        }
    }

    /// Takes notice that a script could not be sent: no further script is tried, but the failed
    /// notes still are.
    pub fn script_undelivered(&mut self)
        ensures
            final(self).spec_scripts() == Seq::<RootedScript>::empty(),
            final(self).spec_failed_notes() == old(self).spec_failed_notes(),
            final(self).spec_block_num() == old(self).spec_block_num(),
    {
        self.scripts.clear();
    }
}

// CONCLUSION
// ================================================================================================

/// What an actor does when the execution of a transaction is over.
///
/// After a success, the fetched scripts are cached, notes that failed the check are reported if
/// there are any, and the actor waits for its transaction. After a failure, notes are always
/// reported: with their own reasons if all of them failed the check, and otherwise every note of
/// the candidate with the error of the transaction. There is then nothing left to do.
pub open spec fn is_conclusion<N>(
    notes: Seq<CandidateNote<N>>,
    block_num: u32,
    result: Result<NtxExecutionResult, NtxError>,
    outbox: Outbox,
    mode: ActorMode,
) -> bool {
    &&& outbox.spec_block_num() == block_num
    &&& match result {
        Ok(done) => {
            &&& mode == ActorMode::TransactionInflight(done.transaction_id)
            &&& outbox.spec_scripts() == done.scripts_to_cache@
            &&& if done.failed_notes@.len() == 0 {
                outbox.spec_failed_notes() is None
            } else {
                &&& outbox.spec_failed_notes() matches Some(reported)
                &&& are_reports(done.failed_notes@, reported@)
            }
        },
        Err(error) => {
            &&& mode == ActorMode::NoViableNotes
            &&& outbox.spec_scripts() == Seq::<RootedScript>::empty()
            &&& outbox.spec_failed_notes() matches Some(reported)
            &&& match error {
                NtxError::AllNotesFailed(failed) => are_reports(failed@, reported@),
                _ => share_error(notes, error, reported@),
            }
        },
    }
}

/// Draws the conclusions from the execution of a transaction.
pub fn conclude<N>(
    notes: &Vec<CandidateNote<N>>,
    block_num: u32,
    result: Result<NtxExecutionResult, NtxError>,
) -> (r: (Outbox, ActorMode))
    ensures
        is_conclusion(notes@, block_num, result, r.0, r.1),
{
    match result {
        Ok(done) => {
            let mode = ActorMode::TransactionInflight(done.transaction_id);
            let reported = if done.failed_notes.len() > 0 {
                Some(log_failed_notes(done.failed_notes))
            } else {
                None
            };
            (Outbox::new(done.scripts_to_cache, reported, block_num), mode)
        },
        Err(error) => {
            let reported = match error {
                NtxError::AllNotesFailed(failed) => log_failed_notes(failed),
                other => fail_all(notes, other),
            };
            (Outbox::new(Vec::new(), Some(reported), block_num), ActorMode::NoViableNotes)
        },
    }
}

/// After a failed transaction, notes are reported, each of the candidate's if it was not the check
/// that failed; and the actor does not go on as if there were notes.
pub proof fn failures_are_reported<N>(
    notes: Seq<CandidateNote<N>>,
    block_num: u32,
    error: NtxError,
    outbox: Outbox,
    mode: ActorMode,
)
    requires
        is_conclusion(notes, block_num, Err(error), outbox, mode),
    ensures
        mode != ActorMode::NotesAvailable,
        outbox.spec_failed_notes() is Some,
        !(error is AllNotesFailed) ==> forall|i: int|
            0 <= i < notes.len() ==> (#[trigger] notes[i]).nullifier
                == outbox.spec_failed_notes().unwrap()@[i].0,
{
}

/// After a success the actor waits for its transaction, has the fetched scripts cached, and reports
/// the notes that failed the check, if there are any: each with its nullifier and its reason.
pub proof fn successes_are_followed_up<N>(
    notes: Seq<CandidateNote<N>>,
    block_num: u32,
    done: NtxExecutionResult,
    outbox: Outbox,
    mode: ActorMode,
)
    requires
        is_conclusion(notes, block_num, Ok(done), outbox, mode),
    ensures
        mode == ActorMode::TransactionInflight(done.transaction_id),
        outbox.spec_block_num() == block_num,
        outbox.spec_scripts() == done.scripts_to_cache@,
        outbox.spec_failed_notes() is Some <==> done.failed_notes@.len() > 0,
        outbox.spec_failed_notes() matches Some(reported) ==> {
            &&& reported@.len() == done.failed_notes@.len()
            &&& forall|i: int|
                0 <= i < reported@.len() ==> {
                    &&& (#[trigger] reported@[i]).0 == done.failed_notes@[i].nullifier
                    &&& reported@[i].1 == NoteError::Check(done.failed_notes@[i].report)
                }
        },
{
}

/// After a failure the actor has nothing to do and nothing to cache, and reports notes as failed:
/// those that failed the check, each with its own reason, if it was the check that failed all of
/// them; and otherwise every note of the candidate, each with the error of the transaction.
pub proof fn failures_are_followed_up<N>(
    notes: Seq<CandidateNote<N>>,
    block_num: u32,
    error: NtxError,
    outbox: Outbox,
    mode: ActorMode,
)
    requires
        is_conclusion(notes, block_num, Err(error), outbox, mode),
    ensures
        mode == ActorMode::NoViableNotes,
        outbox.spec_block_num() == block_num,
        outbox.spec_scripts().len() == 0,
        outbox.spec_failed_notes() matches Some(reported) && match error {
            NtxError::AllNotesFailed(failed) => {
                &&& reported@.len() == failed@.len()
                &&& forall|i: int|
                    0 <= i < reported@.len() ==> {
                        &&& (#[trigger] reported@[i]).0 == failed@[i].nullifier
                        &&& reported@[i].1 == NoteError::Check(failed@[i].report)
                    }
            },
            _ => {
                &&& reported@.len() == notes.len()
                &&& forall|i: int|
                    0 <= i < reported@.len() ==> {
                        &&& (#[trigger] reported@[i]).0 == notes[i].nullifier
                        &&& reported@[i].1 matches NoteError::Transaction(shared) && *shared
                            == error
                    }
            },
        },
{
}

/// The requests of an outbox are one for each script, with its root and in their order, and then, if
/// notes failed, one that names all of them and the block.
pub proof fn scripts_are_sent_before_failures(
    scripts: Seq<RootedScript>,
    failed_notes: Option<Vec<(Nullifier, NoteError)>>,
    block_num: u32,
    outbox: Outbox,
)
    ensures
        ({
            let requests = requests_of(scripts, failed_notes, block_num);
            &&& forall|i: int|
                0 <= i < scripts.len() ==> (#[trigger] requests[i])
                    == (ActorRequest::CacheNoteScript {
                    script_root: scripts[i].root,
                    script: scripts[i].script,
                })
            &&& failed_notes is None ==> requests.len() == scripts.len()
            &&& failed_notes matches Some(failed_notes) ==> requests.len() == scripts.len() + 1
                && requests.last() == (ActorRequest::NotesFailed { failed_notes, block_num })
        }),
        outbox.spec_requests() == requests_of(
            outbox.spec_scripts(),
            outbox.spec_failed_notes(),
            outbox.spec_block_num(),
        ),
{
}

} // verus!
