//! What can go wrong with a network transaction.

use miden_tx::{NoteCheckerError, TransactionExecutorError, TransactionProverError};
use tonic::Status;
use vstd::prelude::*;

use crate::word::{NoteId, Nullifier};

verus! {

#[verifier::external_type_specification]
#[verifier::external_body]
pub struct ExNoteCheckerError(NoteCheckerError);

#[verifier::external_type_specification]
#[verifier::external_body]
pub struct ExTransactionExecutorError(TransactionExecutorError);

#[verifier::external_type_specification]
#[verifier::external_body]
pub struct ExTransactionProverError(TransactionProverError);

#[verifier::external_type_specification]
#[verifier::external_body]
pub struct ExStatus(Status);

/// A note that could not be consumed, with the report of the error.
#[derive(Debug)]
pub struct FailedNote {
    pub note_id: NoteId,
    pub nullifier: Nullifier,
    pub report: String,
}

/// Why notes are no inputs of a transaction.
#[derive(Debug, Clone, Copy, PartialEq, Eq)]
pub enum InputNotesError {
    /// There are more notes than a transaction can consume.
    TooManyInputNotes(usize),
    /// The same note is there twice.
    DuplicateInputNote(Nullifier),
}

/// Why a network transaction did not come about.
#[derive(Debug)]
pub enum NtxError {
    InputNotes(InputNotesError),
    NoteFilter(NoteCheckerError),
    AllNotesFailed(Vec<FailedNote>),
    Execution(TransactionExecutorError),
    Proving(TransactionProverError),
    Submission(Status),
}

impl NtxError {
    /// The error in words, without its cause.
    pub open spec fn spec_message(&self) -> Seq<char> {
        match self {
            NtxError::InputNotes(_) => "note inputs were invalid"@,
            NtxError::NoteFilter(_) => "failed to filter notes"@,
            NtxError::AllNotesFailed(_) => "all notes failed to be executed"@,
            NtxError::Execution(_) => "failed to execute transaction"@,
            NtxError::Proving(_) => "failed to prove transaction"@,
            NtxError::Submission(_) => "failed to submit transaction"@,
        }
    }

    /// The error in words, without its cause.
    pub fn message(&self) -> (r: &'static str)
        ensures
            r@ == self.spec_message(),
    {
        match self {
            NtxError::InputNotes(_) => "note inputs were invalid",
            NtxError::NoteFilter(_) => "failed to filter notes",
            NtxError::AllNotesFailed(_) => "all notes failed to be executed",
            NtxError::Execution(_) => "failed to execute transaction",
            NtxError::Proving(_) => "failed to prove transaction",
            NtxError::Submission(_) => "failed to submit transaction",
        }
    }
}

/// Each error has its own words, whatever it carries.
pub proof fn transaction_errors_have_their_words(error: NtxError)
    ensures
        error is InputNotes ==> error.spec_message() == "note inputs were invalid"@,
        error is NoteFilter ==> error.spec_message() == "failed to filter notes"@,
        error is AllNotesFailed ==> error.spec_message() == "all notes failed to be executed"@,
        error is Execution ==> error.spec_message() == "failed to execute transaction"@,
        error is Proving ==> error.spec_message() == "failed to prove transaction"@,
        error is Submission ==> error.spec_message() == "failed to submit transaction"@,
{
}

} // verus!
