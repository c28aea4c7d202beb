//! The transaction that an actor would run next.

use vstd::prelude::*;

use crate::count::PositiveCount;
use crate::word::{NoteId, Nullifier};

verus! {

/// A note that a transaction may consume, with what names it.
#[derive(Debug)]
pub struct CandidateNote<N> {
    pub id: NoteId,
    pub nullifier: Nullifier,
    pub note: N,
}

/// What a network transaction starts from: the account, the notes to consume, and the chain as it
/// is known.
#[derive(Debug)]
pub struct TransactionCandidate<A, N, H, M> {
    /// The current inflight state of the account.
    pub account: A,
    /// A set of notes addressed to this network account.
    pub notes: Vec<CandidateNote<N>>,
    /// The latest locally committed block header.
    pub chain_tip_header: H,
    /// The chain MMR that goes with the chain tip.
    pub chain_mmr: M,
}

/// The first notes, up to the limit.
pub open spec fn first_notes<N>(notes: Seq<CandidateNote<N>>, limit: usize) -> Seq<
    CandidateNote<N>,
> {
    if notes.len() <= limit {
        notes
    } else {
        notes.take(limit as int)
    }
}

/// As many notes are chosen as there are and as the limit lets through, from the front and in their
/// order.
pub proof fn notes_are_chosen_from_the_front<N>(notes: Seq<CandidateNote<N>>, limit: usize)
    ensures
        first_notes(notes, limit).len() <= limit,
        first_notes(notes, limit).len() == limit || first_notes(notes, limit).len() == notes.len(),
        first_notes(notes, limit).len() <= notes.len(),
        forall|i: int|
            0 <= i < first_notes(notes, limit).len() ==> #[trigger] first_notes(notes, limit)[i]
                == notes[i],
{
}

/// Chooses the next transaction from what the database holds for an account.
///
/// There is none if the account is gone or if no note is available. Of the available notes, the
/// first ones are taken up to the limit.
pub fn select_candidate<A, N, H, M>(
    latest_account: Option<A>,
    notes: Vec<CandidateNote<N>>,
    chain_tip_header: H,
    chain_mmr: M,
    max_notes_per_tx: PositiveCount,
) -> (r: Option<TransactionCandidate<A, N, H, M>>)
    ensures
        r is Some <==> latest_account is Some && notes@.len() > 0,
        r matches Some(candidate) ==> {
            &&& Some(candidate.account) == latest_account
            &&& candidate.notes@ == first_notes(notes@, max_notes_per_tx@)
            &&& 0 < candidate.notes@.len() <= max_notes_per_tx@
            &&& candidate.chain_tip_header == chain_tip_header
            &&& candidate.chain_mmr == chain_mmr
        },
{
    let account = match latest_account {
        Some(account) => account,
        None => { return None; },
    };
    let mut selected = notes;
    selected.truncate(max_notes_per_tx.get());
    if selected.len() == 0 {
        return None;
    }
    assert(selected@ =~= first_notes(notes@, max_notes_per_tx@));
    Some(TransactionCandidate { account, notes: selected, chain_tip_header, chain_mmr })
}

} // verus!
