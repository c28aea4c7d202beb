//! Symbols, tokens, identifiers, keys and text.

use miden_node::account::{AccountId, AccountType};
use miden_node::count::PositiveCount;
use miden_node::keys::KeyMaterial;
use miden_node::server::{Server, DEFAULT_CAPACITY, DEFAULT_PORT, DEFAULT_TIMEOUT_SECONDS};
use miden_node::text::{ilog10, push_decimal, push_lower, push_padded_decimal};
use miden_node::token::{
    felt, TokenMetadata, TokenMetadataError, TokenSymbolError, TokenSymbolStr, FIELD_ORDER,
    MAX_AMOUNT,
};
use miden_protocol::account::AccountId as ProtocolAccountId;
use miden_protocol::asset::TokenSymbol;
use miden_protocol::crypto::dsa::falcon512_poseidon2::SecretKey;
use miden_protocol::crypto::rand::RandomCoin;
use miden_protocol::utils::serde::Serializable;
use miden_protocol::{Felt, Word};
use rand::{Rng, SeedableRng};
use rand_chacha::ChaCha20Rng;

#[test]
fn symbols_are_upper_case_letters() {
    for text in ["A", "MIDEN", "ABCDEFGHIJKL", "ZZZZZZZZZZZZ"] {
        let symbol = TokenSymbolStr::from_str(text).unwrap();
        assert_eq!(symbol.as_str(), text);
        let element = TokenSymbol::new(text).unwrap().as_element().as_canonical_u64();
        assert_eq!(symbol.as_element(), element);
    }
    let elements: Vec<u64> = ["AB", "BA", "AAB", "BB"]
        .iter()
        .map(|text| TokenSymbolStr::from_str(text).unwrap().as_element())
        .collect();
    assert_eq!(elements, vec![28, 678, 29, 704]);
    assert_eq!(TokenSymbolStr::from_str("A").unwrap().as_element(), 1);
    assert_eq!(TokenSymbolStr::from_str("B").unwrap().as_element(), 27);
    assert_eq!(TokenSymbolStr::from_str("BA").unwrap().as_element(), 678);
}

#[test]
fn other_texts_are_no_symbols() {
    assert_eq!(TokenSymbolStr::from_str(""), Err(TokenSymbolError::InvalidLength(0)));
    assert_eq!(
        TokenSymbolStr::from_str("ABCDEFGHIJKLM"),
        Err(TokenSymbolError::InvalidLength(13))
    );
    assert_eq!(TokenSymbolStr::from_str("miden"), Err(TokenSymbolError::InvalidCharacter));
    assert_eq!(TokenSymbolStr::from_str("A1"), Err(TokenSymbolError::InvalidCharacter));
    assert_eq!(TokenSymbolStr::from_str("Ä"), Err(TokenSymbolError::InvalidCharacter));
    assert_eq!(
        TokenSymbolStr::from_str("ÄÄÄÄÄÄÄ"),
        Err(TokenSymbolError::InvalidLength(14))
    );
}

#[test]
fn symbols_compare_as_texts() {
    let symbol = |text: &str| TokenSymbolStr::from_str(text).unwrap();
    assert_eq!(symbol("ABC"), symbol("ABC").clone());
    assert_ne!(symbol("ABC"), symbol("ABD"));
    assert!(symbol("AB") < symbol("ABC"));
    assert!(symbol("ABC") < symbol("B"));
}

#[test]
fn tokens_have_limits() {
    let symbol = || TokenSymbolStr::from_str("ABC").unwrap();
    assert!(matches!(
        TokenMetadata::new(symbol(), 13, 1),
        Err(TokenMetadataError::TooManyDecimals { decimals: 13 })
    ));
    assert!(matches!(
        TokenMetadata::new(symbol(), 12, MAX_AMOUNT + 1),
        Err(TokenMetadataError::MaxSupplyTooLarge { max_supply }) if max_supply == MAX_AMOUNT + 1
    ));
    let token = TokenMetadata::new(symbol(), 12, 10).unwrap().with_token_supply(10).unwrap();
    assert_eq!((token.token_supply(), token.max_supply(), token.decimals()), (10, 10, 12));
    assert!(matches!(
        token.with_token_supply(11),
        Err(TokenMetadataError::TokenSupplyExceedsMaxSupply { token_supply: 11, max_supply: 10 })
    ));
}

#[test]
fn numbers_stand_for_field_elements() {
    assert_eq!(felt(0), 0);
    assert_eq!(felt(FIELD_ORDER - 1), FIELD_ORDER - 1);
    assert_eq!(felt(FIELD_ORDER), 0);
    assert_eq!(felt(u64::MAX), 4_294_967_294);
}

#[test]
fn identifiers_agree_with_the_protocol() {
    let samples: Vec<u128> = vec![
        0,
        256,
        0x00aa00000000bc000000dd0000000000,
        0x00aa00000000bc110000bc000000de00,
        0x00aa00000000bc200000bc000000de00,
        0x00aa00000000bc300000bc000000de00,
        0x00aa00000000bc500000bc000000de00,
        0x00aa00000000bc800000bc000000de00,
        0x00aa00000000bcc00000bc000000de00,
        0x00aa00000000bc010000bc000000de00,
        0x00aa00000000bc00800000000000de00,
        0x00aa00000000bc000000bc000000de01,
        0xffffffff000000000000000000000000,
        0xffffffff000000100000000000000000,
        u128::MAX,
    ];
    for value in samples {
        let ours = AccountId::new(value);
        // The last byte is dropped by the protocol when it reads a number.
        let theirs = ProtocolAccountId::try_from(value).ok().filter(|id| u128::from(*id) == value);
        assert_eq!(ours.is_some(), theirs.is_some(), "{value:x}");
        if let (Some(ours), Some(theirs)) = (ours, theirs) {
            assert_eq!(ours.value(), value);
            assert_eq!(
                format!("{:?}", ours.account_type()),
                format!("{:?}", theirs.account_type())
            );
        }
    }
    let faucet = AccountId::new(0x00aa00000000bc200000bc000000de00).unwrap();
    assert_eq!(faucet.account_type(), AccountType::FungibleFaucet);
}

#[test]
fn seeds_decide_keys() {
    let material = KeyMaterial::from_seed([52; 32]);
    let mut rng = ChaCha20Rng::from_seed([52; 32]);
    let coin_seed: [u64; 4] = rng.random();
    let init_seed: [u8; 32] = rng.random();
    let key = SecretKey::with_rng(&mut RandomCoin::new(Word::from(coin_seed.map(Felt::new))));
    assert_eq!(material.secret_key().as_bytes(), key.to_bytes());
    assert_eq!(material.init_seed(), &init_seed);
    let commitment = key.public_key().to_commitment();
    let elements: Vec<u64> = commitment.iter().map(|e| e.as_canonical_u64()).collect();
    assert_eq!(elements, material.public_key().to_vec());
    assert_eq!(material.clone().init_seed(), &init_seed);
}

#[test]
fn other_seeds_give_other_keys() {
    let one = KeyMaterial::from_seed([51; 32]);
    let two = KeyMaterial::from_seed([52; 32]);
    assert_ne!(one.secret_key().as_bytes(), two.secret_key().as_bytes());
    assert_ne!(one.public_key(), two.public_key());
    assert_ne!(one.init_seed(), two.init_seed());
}

#[test]
fn decimals_are_written_out() {
    let mut out = "n=".to_string();
    push_decimal(&mut out, 0);
    push_decimal(&mut out, u64::MAX);
    assert_eq!(out, "n=018446744073709551615");
    let mut padded = String::new();
    push_padded_decimal(&mut padded, 42, 5);
    push_padded_decimal(&mut padded, 12345, 2);
    assert_eq!(padded, "0004212345");
    assert_eq!(ilog10(0), 0);
    assert_eq!(ilog10(9), 0);
    assert_eq!(ilog10(10), 1);
    assert_eq!(ilog10(999), 2);
    assert_eq!(ilog10(u64::MAX), 19);
}

#[test]
fn letters_are_lowered() {
    let mut out = String::new();
    push_lower(&mut out, "AzZ09Ä");
    assert_eq!(out, "azz09Ä");
}

#[test]
fn counts_are_positive() {
    assert!(PositiveCount::new(0).is_none());
    assert_eq!(PositiveCount::new(3).unwrap().get(), 3);
}

#[test]
fn server_listens_everywhere() {
    let server = |port: u16| Server {
        port,
        kind: "transaction",
        timeout: std::time::Duration::from_secs(DEFAULT_TIMEOUT_SECONDS),
        capacity: PositiveCount::new(DEFAULT_CAPACITY).unwrap(),
    };
    assert_eq!(server(DEFAULT_PORT).bind_address(), "0.0.0.0:50051");
    assert_eq!(server(0).bind_address(), "0.0.0.0:0");
    assert_eq!(server(u16::MAX).bind_address(), "0.0.0.0:65535");
}
