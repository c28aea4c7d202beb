//! Words of four field elements: hashes, identifiers of notes and transactions, nullifiers.

use vstd::prelude::*;

verus! {

/// Four field elements, each as a number.
#[derive(Debug, Clone, Copy, PartialEq, Eq, Hash, Structural)]
pub struct Word {
    pub w0: u64,
    pub w1: u64,
    pub w2: u64,
    pub w3: u64,
}

/// Identifies a transaction.
pub type TransactionId = Word;

/// Marks a note as consumed.
pub type Nullifier = Word;

/// Identifies a note.
pub type NoteId = Word;

} // verus!
