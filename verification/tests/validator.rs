//! Blocks that a validator signs or refuses.

use miden_node::validator::{validate_block, BlockHeader, BlockValidationError, Validator};
use miden_node::word::Word;

/// A word that differs for different numbers.
fn word(n: u64) -> Word {
    Word { w0: n, w1: 0, w2: 0, w3: 1 }
}

/// A header whose commitment follows from its parent, its number and its timestamp.
fn child(parent: &BlockHeader, timestamp: u64) -> BlockHeader {
    let block_num = parent.block_num + 1;
    BlockHeader {
        block_num,
        commitment: Word { w0: parent.commitment.w0, w1: block_num as u64, w2: timestamp, w3: 2 },
        prev_block_commitment: parent.commitment,
    }
}

fn genesis(timestamp: u64) -> BlockHeader {
    BlockHeader {
        block_num: 0,
        commitment: Word { w0: timestamp, w1: 0, w2: 0, w3: 3 },
        prev_block_commitment: word(0),
    }
}

fn apply_empty_block(validator: &mut Validator) {
    let proposed = child(&validator.chain_tip, 1);
    validator.sign_block(proposed, &vec![]).unwrap();
}

/// An empty block at chain tip + 1 with the correct previous block commitment should be accepted.
#[test]
fn chain_tip_plus_one_succeeds() {
    let mut tv = Validator::new(genesis(0));
    let proposed = child(&tv.chain_tip, 1);
    let result = tv.sign_block(proposed, &vec![]);
    assert!(result.is_ok(), "chain tip + 1 should succeed, got: {:?}", result.err());
    assert_eq!(tv.chain_tip, proposed);
}

/// A replacement block at the same height as the current chain tip should be accepted.
#[test]
fn chain_tip_replacement_succeeds() {
    let genesis_header = genesis(0);
    let mut tv = Validator::new(genesis_header);
    apply_empty_block(&mut tv);
    let original_header = tv.chain_tip;

    let replacement = child(&genesis_header, 1_000_000);
    assert_eq!(replacement.block_num, original_header.block_num);
    assert_ne!(
        replacement.commitment, original_header.commitment,
        "replacement block should differ from the original"
    );
    let result = tv.sign_block(replacement, &vec![]);
    assert!(result.is_ok(), "chain tip replacement should succeed, got: {:?}", result.err());

    assert_eq!(
        tv.chain_tip.commitment, replacement.commitment,
        "chain tip should be the replacement block"
    );
    assert_ne!(
        tv.chain_tip.commitment, original_header.commitment,
        "chain tip should no longer be the original block"
    );
}

/// A block at chain tip + 2 (skipping a block number) should be rejected.
#[test]
fn chain_tip_plus_two_rejected() {
    let mut tv = Validator::new(genesis(0));
    apply_empty_block(&mut tv);
    let block_2 = child(&tv.chain_tip, 1);
    let block_3 = child(&block_2, 1);

    let result = tv.sign_block(block_3, &vec![]);
    assert!(result.is_err(), "chain tip + 2 should be rejected");
    let status = result.unwrap_err();
    assert!(
        status.message().contains("block number mismatch"),
        "expected block number mismatch error, got: {}",
        status.message()
    );
}

/// A block at chain tip - 1 (behind the tip) should be rejected.
#[test]
fn chain_tip_minus_one_rejected() {
    let genesis_header = genesis(0);
    let mut tv = Validator::new(genesis_header);
    apply_empty_block(&mut tv);
    apply_empty_block(&mut tv);

    let stale_block = child(&genesis_header, 1);
    let result = tv.sign_block(stale_block, &vec![]);
    assert!(result.is_err(), "chain tip - 1 should be rejected");
    let status = result.unwrap_err();
    assert!(
        status.message().contains("block number mismatch"),
        "expected block number mismatch error, got: {}",
        status.message()
    );
}

/// A block with the wrong previous block commitment should be rejected.
#[test]
fn commitment_mismatch_rejected() {
    let mut tv = Validator::new(genesis(0));
    let mismatched_block = child(&genesis(1), 1);

    let result = tv.sign_block(mismatched_block, &vec![]);
    assert!(result.is_err(), "commitment mismatch should be rejected");
    let status = result.unwrap_err();
    assert!(
        status.message().contains("previous block commitment"),
        "expected commitment mismatch error, got: {}",
        status.message()
    );
}

/// A replacement block (same height as chain tip) with the wrong parent commitment should be
/// rejected.
#[test]
fn replacement_commitment_mismatch_rejected() {
    let mut tv = Validator::new(genesis(0));
    apply_empty_block(&mut tv);
    let mismatched_replacement = child(&genesis(1), 1);

    let result = tv.sign_block(mismatched_replacement, &vec![]);
    assert!(result.is_err(), "replacement with mismatched commitment should be rejected");
    let status = result.unwrap_err();
    assert!(
        status.message().contains("previous block commitment"),
        "expected commitment mismatch error, got: {}",
        status.message()
    );
}

/// An empty block (no transactions, no batches) should be accepted.
#[test]
fn empty_block_succeeds() {
    let mut tv = Validator::new(genesis(0));
    let proposed = child(&tv.chain_tip, 1);
    let result = tv.sign_block(proposed, &vec![]);
    assert!(result.is_ok(), "empty block should succeed, got: {:?}", result.err());
}

/// A block containing transactions that were not previously validated should be rejected.
#[test]
fn unknown_transactions_rejected() {
    let tip = genesis(0);
    let tx_id = word(5);
    let result = validate_block(&child(&tip, 1), &vec![tx_id], &tip, &vec![]);
    assert!(result.is_err(), "block with unknown transactions should be rejected");
    match result.unwrap_err() {
        BlockValidationError::UnvalidatedTransactions(ids) => {
            assert_eq!(ids, vec![tx_id], "should report the unknown transaction ID");
        }
        other => panic!("expected UnvalidatedTransactions error, got: {other:?}"),
    }
}

/// After replacing the chain tip, a new block built against the pre-replacement tip should be
/// rejected because its previous block commitment no longer matches.
#[test]
fn new_block_after_replacement_with_stale_commitment_rejected() {
    let genesis_header = genesis(0);
    let mut tv = Validator::new(genesis_header);
    apply_empty_block(&mut tv);
    let original_block_1_header = tv.chain_tip;

    let replacement = child(&genesis_header, 1_000_000);
    assert_ne!(
        replacement.commitment, original_block_1_header.commitment,
        "replacement block should differ from the original"
    );
    tv.sign_block(replacement, &vec![]).unwrap();

    let stale_block_2 = child(&original_block_1_header, 1);
    let result = tv.sign_block(stale_block_2, &vec![]);
    assert!(
        result.is_err(),
        "block with stale commitment after replacement should be rejected"
    );
    let status = result.unwrap_err();
    assert!(
        status.message().contains("previous block commitment"),
        "expected commitment mismatch error, got: {}",
        status.message()
    );
    assert_eq!(tv.chain_tip, replacement);
}

/// Verify that `validate_block` rejects blocks with a non-sequential block number.
#[test]
fn validate_block_number_mismatch() {
    let mut tv = Validator::new(genesis(0));
    apply_empty_block(&mut tv);
    let block_1_header = tv.chain_tip;
    let block_3 = child(&child(&block_1_header, 1), 1);

    let result = validate_block(&block_3, &vec![], &block_1_header, &vec![]);
    assert!(result.is_err());
    assert!(
        matches!(result.unwrap_err(), BlockValidationError::BlockNumberMismatch { .. }),
        "expected BlockNumberMismatch error"
    );
}

#[test]
fn genesis_block_is_never_replaced() {
    let mut tv = Validator::new(genesis(0));
    let result = tv.sign_block(genesis(1), &vec![]);
    assert!(matches!(
        result,
        Err(BlockValidationError::BlockNumberMismatch { tip_num: 0, proposed_num: 0 })
    ));
    assert_eq!(tv.chain_tip, genesis(0));
}

#[test]
fn validated_transactions_are_accepted() {
    let mut tv = Validator::new(genesis(0));
    tv.submit_proven_transaction(word(1));
    tv.submit_proven_transaction(word(2));
    let proposed = child(&tv.chain_tip, 1);
    match tv.sign_block(proposed, &vec![word(3), word(1), word(4), word(3)]) {
        Err(BlockValidationError::UnvalidatedTransactions(ids)) => {
            assert_eq!(ids, vec![word(3), word(4), word(3)]);
        }
        other => panic!("unexpected result {other:?}"),
    }
    assert_eq!(tv.chain_tip.block_num, 0);
    assert!(tv.sign_block(proposed, &vec![word(2), word(1)]).is_ok());
}

#[test]
fn the_last_block_number_has_no_successor() {
    let mut tip = genesis(0);
    tip.block_num = u32::MAX;
    let mut next = child(&genesis(0), 1);
    next.block_num = 0;
    next.prev_block_commitment = tip.commitment;
    assert!(matches!(
        validate_block(&next, &vec![], &tip, &vec![]),
        Err(BlockValidationError::BlockNumberMismatch { tip_num: u32::MAX, proposed_num: 0 })
    ));
}
