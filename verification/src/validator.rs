//! The rules by which a validator signs blocks.

use vstd::prelude::*;

use crate::word::{TransactionId, Word};

verus! {

/// What the validator looks at in the header of a block.
#[derive(Debug, Clone, Copy, PartialEq, Eq, Structural)]
pub struct BlockHeader {
    pub block_num: u32,
    pub commitment: Word,
    pub prev_block_commitment: Word,
}

/// Why a proposed block is not signed.
#[derive(Debug)]
pub enum BlockValidationError {
    /// The block holds transactions that were not validated before.
    UnvalidatedTransactions(Vec<TransactionId>),
    /// The block neither follows the chain tip nor takes its place.
    BlockNumberMismatch { tip_num: u32, proposed_num: u32 },
    /// The block does not build on the block that comes before it.
    PrevBlockCommitmentMismatch { expected: Word, proposed: Word },
}

impl BlockValidationError {
    /// The error in words.
    pub open spec fn spec_message(&self) -> Seq<char> {
        match self {
            BlockValidationError::UnvalidatedTransactions(_) => {
                "block contains unvalidated transactions"@
            },
            BlockValidationError::BlockNumberMismatch { .. } => "block number mismatch"@,
            BlockValidationError::PrevBlockCommitmentMismatch { .. } => {
                "previous block commitment does not match the chain"@
            },
        }
    }

    /// The error in words.
    pub fn message(&self) -> (r: &'static str)
        ensures
            r@ == self.spec_message(),
    {
        match self {
            BlockValidationError::UnvalidatedTransactions(_) => {
                "block contains unvalidated transactions"
            },
            BlockValidationError::BlockNumberMismatch { .. } => "block number mismatch",
            BlockValidationError::PrevBlockCommitmentMismatch { .. } => {
                "previous block commitment does not match the chain"
            },
        }
    }
}

// VALIDATION
// ================================================================================================

/// The transactions that were not validated before, in their order.
pub open spec fn unvalidated(
    transactions: Seq<TransactionId>,
    validated: Seq<TransactionId>,
) -> Seq<TransactionId> {
    transactions.filter(|id: TransactionId| !validated.contains(id))
}

/// The commitment that a block with the given number has to build on: that of the chain tip if the
/// block follows it, and that of the tip's parent if the block takes its place. The first block is
/// never replaced.
pub open spec fn required_parent(chain_tip: BlockHeader, block_num: u32) -> Option<Word> {
    if block_num == chain_tip.block_num + 1 {
        Some(chain_tip.commitment)
    } else if block_num == chain_tip.block_num && block_num > 0 {
        Some(chain_tip.prev_block_commitment)
    } else {
        None
    }
}

/// Whether a block may be signed.
pub open spec fn is_acceptable(
    proposed: BlockHeader,
    transactions: Seq<TransactionId>,
    chain_tip: BlockHeader,
    validated: Seq<TransactionId>,
) -> bool {
    &&& forall|i: int|
        0 <= i < transactions.len() ==> validated.contains(#[trigger] transactions[i])
    &&& required_parent(chain_tip, proposed.block_num) == Some(proposed.prev_block_commitment)
}

/// No transaction is left over exactly when all of them were validated.
proof fn lemma_all_validated(transactions: Seq<TransactionId>, validated: Seq<TransactionId>)
    ensures
        unvalidated(transactions, validated).len() == 0 <==> forall|i: int|
            0 <= i < transactions.len() ==> validated.contains(#[trigger] transactions[i]),
    decreases transactions.len(),
{
    reveal(Seq::filter);
    if transactions.len() > 0 {
        let before = transactions.drop_last();
        lemma_all_validated(before, validated);
        assert forall|i: int| 0 <= i < before.len() implies before[i] == transactions[i] by {}
        if unvalidated(transactions, validated).len() == 0 {
            assert forall|i: int| 0 <= i < transactions.len() implies validated.contains(
                #[trigger] transactions[i],
            ) by {
                if i < before.len() {
                    assert(validated.contains(before[i]));
                }
            }
        } else if unvalidated(before, validated).len() > 0 {
            let i = choose|i: int|
                0 <= i < before.len() && !validated.contains(#[trigger] before[i]);
            assert(!validated.contains(transactions[i]));
        } else {
            assert(!validated.contains(transactions[transactions.len() - 1]));
        }
    }
}

/// The chain tip after a block was proposed.
pub open spec fn next_tip(
    chain_tip: BlockHeader,
    proposed: BlockHeader,
    transactions: Seq<TransactionId>,
    validated: Seq<TransactionId>,
) -> BlockHeader {
    if is_acceptable(proposed, transactions, chain_tip, validated) {
        proposed
    } else {
        chain_tip
    }
}

/// Whether one of the identifiers is the given one.
fn contains_id(ids: &Vec<TransactionId>, id: TransactionId) -> (r: bool)
    ensures
        r == ids@.contains(id),
{
    let mut i: usize = 0;
    while i < ids.len()
        invariant
            i <= ids@.len(),
            forall|j: int| 0 <= j < i ==> #[trigger] ids@[j] != id,
        decreases ids@.len() - i,
    {
        if ids[i] == id {
            return true;
        }
        i = i + 1;
    }
    false
}

/// Finds the transactions that were not validated before.
pub fn find_unvalidated(
    transactions: &Vec<TransactionId>,
    validated: &Vec<TransactionId>,
) -> (r: Vec<TransactionId>)
    ensures
        r@ == unvalidated(transactions@, validated@),
{
    let mut found: Vec<TransactionId> = Vec::new();
    let mut i: usize = 0;
    let ghost pred = |id: TransactionId| !validated@.contains(id);
    assert(transactions@.take(0) =~= Seq::empty());
    reveal(Seq::filter);
    while i < transactions.len()
        invariant
            pred == (|id: TransactionId| !validated@.contains(id)),
            i <= transactions@.len(),
            found@ == transactions@.take(i as int).filter(pred),
        decreases transactions@.len() - i,
    {
        reveal(Seq::filter);
        let id = transactions[i];
        assert(transactions@.take(i + 1).drop_last() =~= transactions@.take(i as int));
        assert(transactions@.take(i + 1).last() == id);
        if !contains_id(validated, id) {
            found.push(id);
        }
        i = i + 1;
    }
    assert(transactions@.take(i as int) =~= transactions@);
    found
}

/// Checks a proposed block against the chain tip and the transactions that were validated.
pub fn validate_block(
    proposed: &BlockHeader,
    transactions: &Vec<TransactionId>,
    chain_tip: &BlockHeader,
    validated: &Vec<TransactionId>,
) -> (r: Result<(), BlockValidationError>)
    ensures
        r is Ok <==> is_acceptable(*proposed, transactions@, *chain_tip, validated@),
        match r {
            Ok(()) => true,
            Err(BlockValidationError::UnvalidatedTransactions(ids)) => ids@.len() > 0 && ids@
                == unvalidated(transactions@, validated@),
            Err(BlockValidationError::BlockNumberMismatch { tip_num, proposed_num }) => {
                &&& unvalidated(transactions@, validated@).len() == 0
                &&& required_parent(*chain_tip, proposed.block_num) is None
                &&& tip_num == chain_tip.block_num
                &&& proposed_num == proposed.block_num
            },
            Err(
                BlockValidationError::PrevBlockCommitmentMismatch { expected, proposed: found },
            ) => {
                &&& unvalidated(transactions@, validated@).len() == 0
                &&& required_parent(*chain_tip, proposed.block_num) == Some(expected)
                &&& found == proposed.prev_block_commitment
                &&& found != expected
            },
        },
{
    let ids = find_unvalidated(transactions, validated);
    proof {
        lemma_all_validated(transactions@, validated@);
    }
    if ids.len() > 0 {
        return Err(BlockValidationError::UnvalidatedTransactions(ids));
    }
    let tip: u32 = chain_tip.block_num;
    let number: u32 = proposed.block_num;
    let expected = if tip < u32::MAX && number == tip + 1 {
        chain_tip.commitment
    } else if number == tip && number > 0 {
        chain_tip.prev_block_commitment
    } else {
        return Err(
            BlockValidationError::BlockNumberMismatch { tip_num: tip, proposed_num: number },
        );
    };
    if proposed.prev_block_commitment != expected {
        return Err(
            BlockValidationError::PrevBlockCommitmentMismatch {
                expected,
                proposed: proposed.prev_block_commitment,
            },
        );
    }
    Ok(())
}

// VALIDATOR
// ================================================================================================

/// What a validator remembers: its chain tip and the transactions that it has validated.
#[derive(Debug)]
pub struct Validator {
    pub chain_tip: BlockHeader,
    pub validated: Vec<TransactionId>,
}

impl Validator {
    /// A validator that knows the first block and nothing else.
    pub fn new(genesis: BlockHeader) -> (r: Self)
        ensures
            r.chain_tip == genesis,
            r.validated@ == Seq::<TransactionId>::empty(),
    {
        Validator { chain_tip: genesis, validated: Vec::new() }
    }

    /// Remembers a transaction that was validated.
    pub fn submit_proven_transaction(&mut self, id: TransactionId)
        ensures
            final(self).chain_tip == old(self).chain_tip,
            final(self).validated@ == old(self).validated@.push(id),
    {
        self.validated.push(id);
    }

    /// Accepts a proposed block, which becomes the chain tip, or refuses it, which changes nothing.
    pub fn sign_block(&mut self, proposed: BlockHeader, transactions: &Vec<TransactionId>) -> (r:
        Result<(), BlockValidationError>)
        ensures
            r is Ok <==> is_acceptable(
                proposed,
                transactions@,
                old(self).chain_tip,
                old(self).validated@,
            ),
            final(self).chain_tip == next_tip(
                old(self).chain_tip,
                proposed,
                transactions@,
                old(self).validated@,
            ),
            r is Ok ==> final(self).chain_tip == proposed,
            r is Err ==> final(self).chain_tip == old(self).chain_tip,
            final(self).validated == old(self).validated,
            match r {
                Ok(()) => true,
                Err(BlockValidationError::UnvalidatedTransactions(ids)) => ids@.len() > 0 && ids@
                    == unvalidated(transactions@, old(self).validated@),
                Err(BlockValidationError::BlockNumberMismatch { tip_num, proposed_num }) => {
                    &&& unvalidated(transactions@, old(self).validated@).len() == 0
                    &&& required_parent(old(self).chain_tip, proposed.block_num) is None
                    &&& tip_num == old(self).chain_tip.block_num
                    &&& proposed_num == proposed.block_num
                },
                Err(
                    BlockValidationError::PrevBlockCommitmentMismatch { expected, proposed: found },
                ) => {
                    &&& unvalidated(transactions@, old(self).validated@).len() == 0
                    &&& required_parent(old(self).chain_tip, proposed.block_num) == Some(expected)
                    &&& found == proposed.prev_block_commitment
                    &&& found != expected
                },
            },
    {
        match validate_block(&proposed, transactions, &self.chain_tip, &self.validated) {
            Ok(()) => {
                self.chain_tip = proposed;
                Ok(())
            },
            Err(e) => Err(e),
        }
    }
}

// LAWS
// ================================================================================================

/// A block that is accepted follows the chain tip and builds on it, or takes the place of a tip
/// that is not the first block and builds on the same block as that tip.
pub proof fn accepted_blocks_keep_the_chain(
    proposed: BlockHeader,
    transactions: Seq<TransactionId>,
    chain_tip: BlockHeader,
    validated: Seq<TransactionId>,
)
    requires
        is_acceptable(proposed, transactions, chain_tip, validated),
    ensures
        proposed.block_num >= chain_tip.block_num,
        proposed.block_num > 0,
        proposed.block_num == chain_tip.block_num + 1 ==> proposed.prev_block_commitment
            == chain_tip.commitment,
        proposed.block_num != chain_tip.block_num + 1 ==> proposed.block_num == chain_tip.block_num
            && proposed.prev_block_commitment == chain_tip.prev_block_commitment,
{
}

/// Once the chain tip was replaced by a block with another commitment, a block that builds on the
/// old tip is refused.
pub proof fn stale_blocks_are_refused(
    replaced: BlockHeader,
    chain_tip: BlockHeader,
    proposed: BlockHeader,
    transactions: Seq<TransactionId>,
    validated: Seq<TransactionId>,
)
    requires
        replaced.block_num == chain_tip.block_num,
        replaced.commitment != chain_tip.commitment,
        proposed.block_num == replaced.block_num + 1,
        proposed.prev_block_commitment == replaced.commitment,
    ensures
        !is_acceptable(proposed, transactions, chain_tip, validated),
{
}

/// A block whose transactions were all validated is accepted if it follows the chain tip and builds
/// on it.
pub proof fn successors_are_accepted(
    proposed: BlockHeader,
    transactions: Seq<TransactionId>,
    chain_tip: BlockHeader,
    validated: Seq<TransactionId>,
)
    requires
        forall|i: int|
            0 <= i < transactions.len() ==> validated.contains(#[trigger] transactions[i]),
        proposed.block_num == chain_tip.block_num + 1,
        proposed.prev_block_commitment == chain_tip.commitment,
    ensures
        is_acceptable(proposed, transactions, chain_tip, validated),
{
}

/// A block whose transactions were all validated is accepted in place of a chain tip that is not
/// the first block, if it builds on the parent of the tip.
pub proof fn replacements_are_accepted(
    proposed: BlockHeader,
    transactions: Seq<TransactionId>,
    chain_tip: BlockHeader,
    validated: Seq<TransactionId>,
)
    requires
        forall|i: int|
            0 <= i < transactions.len() ==> validated.contains(#[trigger] transactions[i]),
        proposed.block_num == chain_tip.block_num,
        chain_tip.block_num != 0,
        proposed.prev_block_commitment == chain_tip.prev_block_commitment,
    ensures
        is_acceptable(proposed, transactions, chain_tip, validated),
{
}

/// No other block is accepted: not one with a transaction that was not validated, not one at
/// another height or in place of the first block, and not one that builds on another block.
pub proof fn other_blocks_are_refused(
    proposed: BlockHeader,
    transactions: Seq<TransactionId>,
    chain_tip: BlockHeader,
    validated: Seq<TransactionId>,
    i: int,
)
    requires
        ({
            ||| 0 <= i < transactions.len() && !validated.contains(transactions[i])
            ||| proposed.block_num != chain_tip.block_num + 1 && proposed.block_num
                != chain_tip.block_num
            ||| proposed.block_num == 0
            ||| proposed.block_num == chain_tip.block_num + 1 && proposed.prev_block_commitment
                != chain_tip.commitment
            ||| proposed.block_num == chain_tip.block_num && proposed.prev_block_commitment
                != chain_tip.prev_block_commitment
        }),
    ensures
        !is_acceptable(proposed, transactions, chain_tip, validated),
{
}

/// A height has a parent to build on exactly if it follows the chain tip or is that of a tip that
/// is not the first block.
pub proof fn heights_at_the_tip_have_parents(chain_tip: BlockHeader, block_num: u32)
    ensures
        required_parent(chain_tip, block_num) is Some <==> block_num == chain_tip.block_num + 1 || (
        block_num == chain_tip.block_num && chain_tip.block_num != 0),
        block_num == chain_tip.block_num + 1 ==> required_parent(chain_tip, block_num) == Some(
            chain_tip.commitment,
        ),
        block_num == chain_tip.block_num && chain_tip.block_num != 0 ==> required_parent(
            chain_tip,
            block_num,
        ) == Some(chain_tip.prev_block_commitment),
{
}

/// Transactions that were not validated are reported one by one, in their order: those of two lists
/// are those of the first and then those of the second, and a single one is reported exactly if it
/// was not validated.
pub proof fn unvalidated_transactions_are_reported(
    first: Seq<TransactionId>,
    second: Seq<TransactionId>,
    id: TransactionId,
    validated: Seq<TransactionId>,
)
    ensures
        unvalidated(first + second, validated) == unvalidated(first, validated) + unvalidated(
            second,
            validated,
        ),
        unvalidated(seq![id], validated) == if validated.contains(id) {
            Seq::empty()
        } else {
            seq![id]
        },
{
    Seq::filter_distributes_over_add(
        first,
        second,
        |id: TransactionId| !validated.contains(id),
    );
    reveal_with_fuel(Seq::filter, 2);
    assert(seq![id].drop_last() =~= Seq::empty());
    assert(unvalidated(seq![id], validated) =~= if validated.contains(id) {
        Seq::empty()
    } else {
        seq![id]
    });
}

/// Each error has its own words, whatever it carries.
pub proof fn block_errors_have_their_words(error: BlockValidationError)
    ensures
        error is UnvalidatedTransactions ==> error.spec_message()
            == "block contains unvalidated transactions"@,
        error is BlockNumberMismatch ==> error.spec_message() == "block number mismatch"@,
        error is PrevBlockCommitmentMismatch ==> error.spec_message()
            == "previous block commitment does not match the chain"@,
{
}

/// The chain moves on: a block of validated transactions that follows the chain tip and builds on it
/// becomes the tip, and then so does the next one that builds on that. A block at another height
/// leaves the tip as it is.
pub proof fn the_chain_moves_on(
    chain_tip: BlockHeader,
    proposed: BlockHeader,
    following: BlockHeader,
    transactions: Seq<TransactionId>,
    validated: Seq<TransactionId>,
)
    requires
        forall|i: int|
            0 <= i < transactions.len() ==> validated.contains(#[trigger] transactions[i]),
        proposed.block_num == chain_tip.block_num + 1,
        proposed.prev_block_commitment == chain_tip.commitment,
    ensures
        next_tip(chain_tip, proposed, transactions, validated) == proposed,
        following.block_num == proposed.block_num + 1 && following.prev_block_commitment
            == proposed.commitment ==> next_tip(
            next_tip(chain_tip, proposed, transactions, validated),
            following,
            transactions,
            validated,
        ) == following,
        following.block_num != proposed.block_num + 1 && following.block_num != proposed.block_num
            ==> next_tip(
            next_tip(chain_tip, proposed, transactions, validated),
            following,
            transactions,
            validated,
        ) == proposed,
{
}

} // verus!
