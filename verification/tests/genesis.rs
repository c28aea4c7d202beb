//! Genesis states from configurations.

use indexmap::IndexMap;
use miden_node::account::{Account, AccountId, AccountType, StorageMode};
use miden_node::assets::{AssetError, FungibleAsset};
use miden_node::genesis::config::{
    AssetEntry, FeeParameterConfig, FungibleFaucetConfig, GenericAccountConfig, GenesisConfig,
    WalletConfig,
};
use miden_node::genesis::construct::GenesisFiles;
use miden_node::genesis::deploy::deploy_faucet;
use miden_node::genesis::error::GenesisConfigError;
use miden_node::genesis::faucets::{FaucetTable, LoadedAccount, NativeFaucet};
use miden_node::genesis::secrets::{
    faucet_file_name, unnamed_file_name, wallet_file_name, AccountSecret, AccountSecrets,
};
use miden_node::genesis::state::{FeeParameters, GenesisState};
use miden_node::genesis::wallets::prepare_fungible_asset_update;
use miden_node::keys::KeyMaterial;
use miden_node::token::{TokenMetadataError, TokenSymbolStr, FIELD_ORDER, MAX_AMOUNT};
use miden_protocol::account::auth::AuthScheme;
use miden_protocol::account::{
    Account as ProtocolAccount, AccountBuilder, AccountFile, AccountStorageMode,
    AccountType as ProtocolAccountType,
};
use miden_protocol::asset::TokenSymbol;
use miden_protocol::crypto::dsa::falcon512_poseidon2::SecretKey;
use miden_protocol::utils::serde::{Deserializable, Serializable};
use miden_protocol::{Felt, Word};
use miden_standards::account::auth::AuthSingleSig;
use miden_standards::account::faucets::BasicFungibleFaucet;
use miden_standards::account::mint_policies::AuthControlled;
use miden_standards::account::wallets::create_basic_wallet;
use miden_standards::AuthMethod;

/// The time of all tests.
const NOW: u64 = 1_717_344_256;

// HELPERS
// ================================================================================================

fn symbol(text: &str) -> TokenSymbolStr {
    TokenSymbolStr::from_str(text).unwrap()
}

fn faucet(text: &str, decimals: u8, max_supply: u64) -> FungibleFaucetConfig {
    FungibleFaucetConfig {
        symbol: symbol(text),
        decimals,
        max_supply,
        storage_mode: StorageMode::Public,
    }
}

fn wallet(assets: Vec<(&str, u64)>) -> WalletConfig {
    let assets = assets
        .into_iter()
        .map(|(text, amount)| AssetEntry { symbol: symbol(text), amount })
        .collect();
    WalletConfig { has_updatable_code: false, storage_mode: StorageMode::default(), assets }
}

fn config(faucets: Vec<FungibleFaucetConfig>, wallets: Vec<WalletConfig>) -> GenesisConfig {
    GenesisConfig {
        version: 1,
        timestamp: 1717344256,
        native_faucet: None,
        fee_parameters: FeeParameterConfig { verification_base_fee: 0 },
        wallet: wallets,
        fungible_faucet: faucets,
        account: vec![],
        config_dir: ".".to_string(),
    }
}

/// Key material that is found quickly.
fn key() -> KeyMaterial {
    KeyMaterial::from_seed([52; 32])
}

/// Builds the state with one key for all accounts.
fn build_from(
    config: GenesisConfig,
    files: GenesisFiles,
) -> Result<(GenesisState<u8>, AccountSecrets), GenesisConfigError> {
    let key = key();
    let faucet_keys = vec![key.clone(); config.fungible_faucet.len()];
    let wallet_keys = vec![key.clone(); config.wallet.len()];
    let native = match files.native_faucet {
        Some(file) => NativeFaucet::Loaded(file),
        None => NativeFaucet::Default(key),
    };
    config.into_state_with_keys(native, faucet_keys, wallet_keys, files.accounts, 7u8)
}

fn build(config: GenesisConfig) -> Result<(GenesisState<u8>, AccountSecrets), GenesisConfigError> {
    build_from(config, GenesisFiles { native_faucet: None, accounts: vec![] })
}

fn error_of(config: GenesisConfig) -> GenesisConfigError {
    build(config).err().unwrap()
}

fn protocol_wallet(account_type: ProtocolAccountType) -> ProtocolAccount {
    let auth = AuthMethod::SingleSig {
        approver: (Word::from([5u32; 4]).into(), AuthScheme::Falcon512Poseidon2),
    };
    create_basic_wallet(rand::random(), auth, account_type, AccountStorageMode::Public).unwrap()
}

fn protocol_faucet(text: &str, decimals: u8, max_supply: u64) -> ProtocolAccount {
    protocol_faucet_with(text, decimals, max_supply, rand::random())
}

fn protocol_faucet_with(
    text: &str,
    decimals: u8,
    max_supply: u64,
    seed: [u8; 32],
) -> ProtocolAccount {
    let auth =
        AuthSingleSig::new(Word::from([5u32; 4]).into(), AuthScheme::Falcon512Poseidon2);
    let token = BasicFungibleFaucet::new(
        TokenSymbol::new(text).unwrap(),
        decimals,
        Felt::new(max_supply),
    );
    AccountBuilder::new(seed)
        .account_type(ProtocolAccountType::FungibleFaucet)
        .storage_mode(AccountStorageMode::Public)
        .with_auth_component(auth)
        .with_component(token.unwrap())
        .with_component(AuthControlled::allow_all())
        .build()
        .unwrap()
}

fn with_nonce(account: ProtocolAccount, nonce: u64) -> ProtocolAccount {
    let (id, vault, storage, code, _, _) = account.into_parts();
    ProtocolAccount::new_unchecked(id, vault, storage, code, Felt::new(nonce), None)
}

fn load(account: &ProtocolAccount) -> Account {
    Account::from_bytes(account.to_bytes())
}

/// Writes the account to a file and reads it back.
fn through_file(account: ProtocolAccount, name: &str) -> LoadedAccount {
    let dir = tempfile::tempdir().unwrap();
    let path = dir.path().join(name);
    AccountFile::new(account, vec![]).write(&path).unwrap();
    let file = AccountFile::read(&path).unwrap();
    LoadedAccount { path: path.to_string_lossy().into_owned(), account: load(&file.account) }
}

fn native_from(file: LoadedAccount) -> (GenesisConfig, GenesisFiles) {
    let mut gcfg = config(vec![], vec![]);
    gcfg.native_faucet = Some(file.path.clone());
    (gcfg, GenesisFiles { native_faucet: Some(file), accounts: vec![] })
}

// STATES
// ================================================================================================

#[test]
fn parsing_yields_expected_default_values() {
    let gcfg = config(
        vec![faucet("EXCESS", 3, 100_000)],
        vec![wallet(vec![("MIDEN", 999_000)]), wallet(vec![("MIDEN", 777)])],
    );
    let (state, _secrets) = build(gcfg).unwrap();

    // Faucets always precede wallet accounts.
    let native_faucet = state.accounts[0].clone();
    let _excess = state.accounts[1].clone();
    let wallet1 = state.accounts[2].clone();
    let wallet2 = state.accounts[3].clone();

    assert!(native_faucet.is_faucet());
    assert!(wallet1.is_regular_account());
    assert!(wallet2.is_regular_account());

    assert_eq!(native_faucet.nonce(), 1);
    assert_eq!(wallet1.nonce(), 1);
    assert_eq!(wallet2.nonce(), 1);

    {
        let metadata = native_faucet.token_metadata().unwrap();

        assert_eq!(metadata.max_supply(), 100_000_000_000_000_000);
        assert_eq!(metadata.decimals(), 6);
        assert_eq!(*metadata.symbol(), symbol("MIDEN"));
    }

    // Check account balance, and ensure ordering is retained.
    assert_eq!(wallet1.get_balance(native_faucet.id()), Some(999_000));
    assert_eq!(wallet2.get_balance(native_faucet.id()), Some(777));

    // Check total issuance of the faucet.
    let metadata = native_faucet.token_metadata().unwrap();
    assert_eq!(metadata.token_supply(), 999_777, "Issuance mismatch");
}

#[test]
fn genesis_accounts_have_nonce_one() {
    // The search for a key may take long: the first of several states is looked at.
    let runtime = tokio::runtime::Builder::new_multi_thread().build().unwrap();
    let (sender, mut receiver) = tokio::sync::mpsc::channel(4);
    for _ in 0..4 {
        let sender = sender.clone();
        runtime.spawn_blocking(move || {
            let files = GenesisFiles { native_faucet: None, accounts: vec![] };
            let built = GenesisConfig::default_at(NOW).into_state(files, 7u8).unwrap();
            let _ = sender.blocking_send(built);
        });
    }
    let (state, secrets) = receiver.blocking_recv().unwrap();
    runtime.shutdown_background();

    assert_eq!(state.accounts.len(), 1);
    let mut files = secrets.as_account_files(&state, NOW);
    assert_eq!(files.len(), 1);
    let file = files.remove(0).unwrap();
    assert_eq!(file.name, "faucet_miden.mac");
    assert_eq!(file.account_file.account.id(), state.accounts[0].id());
    assert_eq!(file.account_file.account.nonce(), 1);
    let token = file.account_file.account.token_metadata().unwrap();
    assert_eq!(token.symbol().as_str(), "MIDEN");
    assert_eq!(token.decimals(), 6);
    assert_eq!(token.max_supply(), 100_000_000_000_000_000);
    assert_eq!(token.token_supply(), 0);
    let decoded = ProtocolAccount::read_from_bytes(state.accounts[0].as_bytes()).unwrap();
    assert_eq!(decoded.id().storage_mode(), AccountStorageMode::Public);
    assert_eq!(file.account_file.auth_secret_keys.len(), 1);
    let secret = file.account_file.auth_secret_keys[0].as_bytes();
    assert!(SecretKey::read_from_bytes(secret).is_ok());
}

#[test]
fn unnamed_secrets_get_names() {
    let gold = load(&protocol_faucet("GOLD", 4, 1_000));
    let id = gold.id();
    let secret_key = key().secret_key().clone();
    let secret = |name: &str| AccountSecret {
        name: name.to_string(),
        account_id: id,
        secret_key: secret_key.clone(),
    };
    let secrets = AccountSecrets { secrets: vec![secret(""), secret("mine"), secret("")] };
    let state = GenesisState {
        fee_parameters: FeeParameters::new(id, 0).unwrap(),
        accounts: vec![gold],
        version: 1,
        timestamp: 0,
        block_signer: (),
    };
    let names: Vec<String> = secrets
        .as_account_files(&state, NOW)
        .into_iter()
        .map(|file| file.unwrap().name)
        .collect();
    assert_eq!(
        names,
        vec!["account_1717344256_0.mac", "mine", "account_1717344256_2.mac"]
    );
    assert_eq!(unnamed_file_name(0, 10), "account_0_10.mac");
}

#[test]
fn parsing_account_from_file() {
    let test_account = protocol_wallet(ProtocolAccountType::RegularAccountUpdatableCode);
    let account_id: u128 = test_account.id().into();
    let file = through_file(test_account, "test_account.mac");

    let mut gcfg = config(vec![], vec![]);
    gcfg.account.push(GenericAccountConfig { path: "test_account.mac".to_string() });
    let files = GenesisFiles { native_faucet: None, accounts: vec![file.account] };

    let (state, _secrets) = build_from(gcfg, files).unwrap();
    assert!(state.accounts.iter().any(|a| a.id().value() == account_id));
}

#[test]
fn parsing_native_faucet_from_file() {
    let faucet_account = protocol_faucet("MIDEN", 6, 1_000_000_000);
    let faucet_id: u128 = faucet_account.id().into();
    let file = through_file(faucet_account, "native_faucet.mac");

    let (gcfg, files) = native_from(file);
    let (state, secrets) = gcfg.into_state(files, 0u8).unwrap();
    assert!(state.accounts.iter().any(|a| a.id().value() == faucet_id));

    // No secrets should be generated for file-loaded native faucet.
    assert!(secrets.secrets.is_empty());
}

#[test]
fn usable_native_faucet_gives_a_state() {
    let file = through_file(protocol_faucet("MIDEN", 6, 1_000_000_000), "native_faucet.mac");
    let (gcfg, files) = native_from(file);
    let (state, secrets) = gcfg.try_into_state(files, 4u8).unwrap().unwrap();
    assert_eq!(state.accounts.len(), 1);
    assert_eq!(state.accounts[0].nonce(), 1);
    assert_eq!(state.block_signer, 4);
    assert!(secrets.secrets.is_empty());
}

#[test]
fn native_faucet_from_file_must_be_faucet_type() {
    let regular_account = protocol_wallet(ProtocolAccountType::RegularAccountImmutableCode);
    let file = through_file(regular_account, "not_a_faucet.mac");

    let path = file.path.clone();
    let (gcfg, files) = native_from(file);
    let result = gcfg.into_state(files, 0u8);
    assert!(result.is_err());
    let err = result.err().unwrap();
    assert!(
        matches!(err, GenesisConfigError::NativeFaucetNotFungible { .. }),
        "Expected NativeFaucetNotFungible error, got: {err:?}"
    );
    match err {
        GenesisConfigError::NativeFaucetNotFungible { path: reported } => {
            assert_eq!(reported, path);
        }
        other => panic!("unexpected error {other:?}"),
    }
}

#[test]
fn parsing_agglayer_sample_with_account_files() {
    // A native faucet that is made, a regular account and two faucets from files.
    let bridge = protocol_wallet(ProtocolAccountType::RegularAccountUpdatableCode);
    let eth = protocol_faucet("ETH", 8, 1_000_000);
    let usdc = protocol_faucet("USDC", 6, 1_000_000);
    let mut gcfg = config(vec![], vec![]);
    let mut accounts = vec![];
    for (account, name) in
        [(bridge, "bridge.mac"), (eth, "agglayer_faucet_eth.mac"), (usdc, "agglayer_faucet_usdc.mac")]
    {
        gcfg.account.push(GenericAccountConfig { path: name.to_string() });
        accounts.push(through_file(account, name).account);
    }
    let (state, secrets) =
        build_from(gcfg, GenesisFiles { native_faucet: None, accounts }).unwrap();

    assert_eq!(state.accounts.len(), 4, "Expected 4 accounts in genesis state");
    assert_eq!(
        state.accounts[0].id().account_type(),
        AccountType::FungibleFaucet,
        "Native faucet should be a FungibleFaucet"
    );
    let metadata = state.accounts[0].token_metadata().unwrap();
    assert_eq!(*metadata.symbol(), symbol("MIDEN"));
    assert!(
        state.accounts[1].is_regular_account(),
        "Bridge account should be a regular account"
    );
    assert_eq!(
        state.accounts[2].id().account_type(),
        AccountType::FungibleFaucet,
        "ETH faucet should be a FungibleFaucet"
    );
    assert_eq!(
        state.accounts[3].id().account_type(),
        AccountType::FungibleFaucet,
        "USDC faucet should be a FungibleFaucet"
    );
    assert_eq!(secrets.secrets.len(), 1, "Only native faucet should generate a secret");
    // Accounts from files are taken as they are.
    assert_eq!(state.accounts[1].nonce(), 0);
    assert_eq!(state.accounts[2].nonce(), 0);
}

#[test]
fn state_carries_settings() {
    let mut gcfg = config(vec![], vec![]);
    gcfg.version = 3;
    gcfg.fee_parameters.verification_base_fee = 500;
    let (state, _secrets) = build(gcfg).unwrap();
    assert_eq!(state.version, 3);
    assert_eq!(state.timestamp, 1717344256);
    assert_eq!(state.block_signer, 7);
    assert_eq!(state.fee_parameters.verification_base_fee(), 500);
    assert_eq!(state.fee_parameters.native_asset_id(), state.accounts[0].id());
}

#[test]
fn default_config_is_empty() {
    let gcfg = GenesisConfig::default_at(4_294_967_295);
    assert_eq!(gcfg.version, 1);
    assert_eq!(gcfg.timestamp, u32::MAX);
    assert!(gcfg.native_faucet.is_none());
    assert_eq!(gcfg.fee_parameters.verification_base_fee, 0);
    assert!(gcfg.wallet.is_empty());
    assert!(gcfg.fungible_faucet.is_empty());
    assert!(gcfg.account.is_empty());
    assert_eq!(gcfg.config_dir, ".");
}

#[test]
fn default_storage_mode_is_network() {
    assert_eq!(StorageMode::default(), StorageMode::Network);
}

#[test]
fn issued_amounts_equal_balances() {
    let gcfg = config(
        vec![faucet("ABC", 2, 10_000), faucet("UNUSED", 0, 5)],
        vec![
            wallet(vec![("ABC", 10), ("MIDEN", 3), ("ABC", 32)]),
            wallet(vec![("ABC", 0), ("MIDEN", 4)]),
            wallet(vec![]),
        ],
    );
    let (state, secrets) = build(gcfg).unwrap();
    assert_eq!(state.accounts.len(), 6);
    let ids: Vec<AccountId> = state.accounts.iter().map(|a| a.id()).collect();
    let supply = |i: usize| state.accounts[i].token_metadata().unwrap().token_supply();
    assert_eq!((supply(0), supply(1), supply(2)), (7, 42, 0));
    let balance = |i: usize, f: usize| state.accounts[i].get_balance(ids[f]).unwrap();
    assert_eq!((balance(3, 0), balance(3, 1), balance(3, 2)), (3, 42, 0));
    assert_eq!((balance(4, 0), balance(4, 1), balance(4, 2)), (4, 0, 0));
    assert_eq!((balance(5, 0), balance(5, 1), balance(5, 2)), (0, 0, 0));
    assert!(state.accounts.iter().all(|a| a.nonce() == 1));
    // A wallet is no faucet of which an account could have a balance.
    assert_eq!(state.accounts[0].get_balance(ids[3]), None);

    let names: Vec<&str> = secrets.secrets.iter().map(|s| s.name.as_str()).collect();
    assert_eq!(
        names,
        vec![
            "faucet_miden.mac",
            "faucet_abc.mac",
            "faucet_unused.mac",
            "wallet_0.mac",
            "wallet_1.mac",
            "wallet_2.mac"
        ]
    );
    let secret_ids: Vec<AccountId> = secrets.secrets.iter().map(|s| s.account_id).collect();
    assert_eq!(secret_ids, ids);
}

#[test]
fn secrets_open_their_accounts() {
    let gcfg = config(vec![faucet("ABC", 2, 10_000)], vec![wallet(vec![("ABC", 10)])]);
    let (state, secrets) = build(gcfg).unwrap();
    let files = secrets.as_account_files(&state, NOW);
    assert_eq!(files.len(), 3);
    for (i, file) in files.into_iter().enumerate() {
        let file = file.unwrap();
        assert_eq!(file.name, secrets.secrets[i].name);
        assert_eq!(file.account_file.account.id(), state.accounts[i].id());
        // The account names the public key that belongs to the secret key.
        let key = SecretKey::read_from_bytes(file.account_file.auth_secret_keys[0].as_bytes());
        let commitment: Vec<u8> = key.unwrap().public_key().to_commitment().to_bytes();
        let bytes = file.account_file.account.as_bytes();
        assert!(bytes.windows(commitment.len()).any(|window| window == commitment));
    }
}

#[test]
fn wallet_types_and_modes_are_kept() {
    let mut updatable = wallet(vec![]);
    updatable.has_updatable_code = true;
    updatable.storage_mode = StorageMode::Private;
    let mut fixed = wallet(vec![]);
    fixed.storage_mode = StorageMode::Public;
    let (state, _) = build(config(vec![], vec![updatable, fixed, wallet(vec![])])).unwrap();
    let decode = |i: usize| ProtocolAccount::read_from_bytes(state.accounts[i].as_bytes()).unwrap();
    assert_eq!(state.accounts[1].id().account_type(), AccountType::RegularAccountUpdatableCode);
    assert_eq!(state.accounts[2].id().account_type(), AccountType::RegularAccountImmutableCode);
    assert_eq!(decode(0).id().storage_mode(), AccountStorageMode::Public);
    assert_eq!(decode(1).id().storage_mode(), AccountStorageMode::Private);
    assert_eq!(decode(2).id().storage_mode(), AccountStorageMode::Public);
    assert_eq!(decode(3).id().storage_mode(), AccountStorageMode::Network);
}

#[test]
fn loaded_native_faucet_issues_its_token() {
    let faucet_account = with_nonce(protocol_faucet("GOLD", 4, 1_000), 9);
    let (mut gcfg, files) = native_from(through_file(faucet_account, "gold.mac"));
    gcfg.wallet.push(wallet(vec![("GOLD", 1_000)]));
    let (state, secrets) = build_from(gcfg, files).unwrap();
    // The nonce of an account from a file grows by one.
    assert_eq!(state.accounts[0].nonce(), 10);
    assert_eq!(state.accounts[0].token_metadata().unwrap().token_supply(), 1_000);
    assert_eq!(state.accounts[1].get_balance(state.accounts[0].id()), Some(1_000));
    assert_eq!(secrets.secrets.len(), 1);
    assert_eq!(secrets.secrets[0].name, "wallet_0.mac");
}

#[test]
fn faucet_without_token_gives_no_state() {
    let (id, ..) = protocol_faucet("GOLD", 4, 1_000).into_parts();
    let (_, vault, storage, code, _, _) =
        protocol_wallet(ProtocolAccountType::RegularAccountUpdatableCode).into_parts();
    let account = ProtocolAccount::new_unchecked(id, vault, storage, code, Felt::new(1), None);
    let file = LoadedAccount { path: "x.mac".to_string(), account: load(&account) };
    let (gcfg, files) = native_from(file);
    assert!(gcfg.try_into_state(files, 0u8).is_none());
}

#[test]
fn given_keys_give_given_accounts() {
    let keys = [key(), KeyMaterial::from_seed([51; 32])];
    let make = || {
        let native = load(&protocol_faucet_with("GOLD", 4, 1_000, [9; 32]));
        let file = LoadedAccount { path: "gold.mac".to_string(), account: native };
        config(vec![faucet("ABC", 2, 100)], vec![wallet(vec![("ABC", 1)])]).into_state_with_keys(
            NativeFaucet::Loaded(file),
            vec![keys[0].clone()],
            vec![keys[1].clone()],
            vec![],
            (),
        )
    };
    let (first, first_secrets) = make().unwrap();
    let (second, second_secrets) = make().unwrap();
    for i in 0..3 {
        assert_eq!(first.accounts[i].id(), second.accounts[i].id());
    }
    for i in 0..2 {
        assert_eq!(
            first_secrets.secrets[i].secret_key.as_bytes(),
            second_secrets.secrets[i].secret_key.as_bytes()
        );
        assert_eq!(
            first_secrets.secrets[i].secret_key.as_bytes(),
            keys[i].secret_key().as_bytes()
        );
    }
}

// ERRORS
// ================================================================================================

#[test]
fn duplicate_faucets_are_refused() {
    let gcfg = config(vec![faucet("ABC", 2, 100), faucet("ABC", 3, 7)], vec![]);
    assert!(matches!(
        error_of(gcfg),
        GenesisConfigError::DuplicateFaucetDefinition { symbol: s } if s == symbol("ABC")
    ));
}

#[test]
fn the_native_token_is_not_defined_again() {
    let native = config(vec![faucet("MIDEN", 2, 100)], vec![]);
    assert!(matches!(
        error_of(native),
        GenesisConfigError::DuplicateFaucetDefinition { symbol: s } if s == symbol("MIDEN")
    ));
}

#[test]
fn unknown_tokens_are_refused() {
    let gcfg = config(vec![], vec![wallet(vec![("MIDEN", 1), ("XYZ", 1)])]);
    assert!(matches!(
        error_of(gcfg),
        GenesisConfigError::MissingFaucetDefinition { symbol: s } if s == symbol("XYZ")
    ));
}

#[test]
fn amounts_beyond_an_asset_are_refused() {
    let gcfg = config(vec![], vec![wallet(vec![("MIDEN", MAX_AMOUNT + 1)])]);
    assert!(matches!(
        error_of(gcfg),
        GenesisConfigError::Asset(AssetError::FungibleAssetAmountTooBig(amount))
            if amount == MAX_AMOUNT + 1
    ));
}

#[test]
fn sums_beyond_a_delta_are_refused() {
    let gcfg = config(vec![], vec![wallet(vec![("MIDEN", MAX_AMOUNT), ("MIDEN", MAX_AMOUNT)])]);
    assert!(matches!(error_of(gcfg), GenesisConfigError::AccountDelta(_)));
}

#[test]
fn sums_beyond_a_vault_are_refused() {
    let gcfg = config(vec![], vec![wallet(vec![("MIDEN", MAX_AMOUNT), ("MIDEN", 1)])]);
    assert!(matches!(error_of(gcfg), GenesisConfigError::WalletBalanceTooLarge));
}

#[test]
fn issuance_beyond_counting_is_refused() {
    let full = || wallet(vec![("MIDEN", MAX_AMOUNT)]);
    let gcfg = config(vec![], vec![full(), full(), full()]);
    assert!(matches!(error_of(gcfg), GenesisConfigError::IssuanceOverflow));
}

#[test]
fn issuance_beyond_max_supply_is_refused() {
    let gcfg = config(vec![faucet("ABC", 2, 100)], vec![wallet(vec![("ABC", 101)])]);
    assert!(matches!(
        error_of(gcfg),
        GenesisConfigError::TokenMetadata(TokenMetadataError::TokenSupplyExceedsMaxSupply {
            token_supply: 101,
            max_supply: 100
        })
    ));
}

#[test]
fn issuance_beyond_the_field_is_refused() {
    // The total is a field element of five, but counts as what it is.
    let full = || wallet(vec![("ABC", MAX_AMOUNT)]);
    let rest = wallet(vec![("ABC", FIELD_ORDER - 2 * MAX_AMOUNT + 5)]);
    let gcfg = config(vec![faucet("ABC", 2, 100)], vec![full(), full(), rest]);
    match error_of(gcfg) {
        GenesisConfigError::MaxIssuanceExceeded { max_supply, symbol: s, total_issuance } => {
            assert_eq!(max_supply, 100);
            assert_eq!(s, symbol("ABC"));
            assert_eq!(total_issuance, FIELD_ORDER + 5);
        }
        other => panic!("unexpected error {other:?}"),
    }
}

#[test]
fn impossible_tokens_are_refused() {
    assert!(matches!(
        error_of(config(vec![faucet("ABC", 13, 100)], vec![])),
        GenesisConfigError::TokenMetadata(TokenMetadataError::TooManyDecimals { decimals: 13 })
    ));
}

#[test]
fn impossible_supplies_are_refused() {
    assert!(matches!(
        error_of(config(vec![faucet("ABC", 12, MAX_AMOUNT + 1)], vec![])),
        GenesisConfigError::TokenMetadata(TokenMetadataError::MaxSupplyTooLarge { .. })
    ));
}

#[test]
fn largest_supply_is_accepted() {
    assert!(build(config(vec![faucet("ABC", 12, MAX_AMOUNT)], vec![])).is_ok());
}

#[test]
fn exhausted_nonce_is_refused() {
    let account = with_nonce(protocol_faucet("GOLD", 4, 1_000), FIELD_ORDER - 1);
    let (gcfg, files) = native_from(LoadedAccount {
        path: "gold.mac".to_string(),
        account: load(&account),
    });
    assert!(matches!(gcfg.into_state(files, 0u8), Err(GenesisConfigError::Account(_))));
}

#[test]
fn faucets_need_token_metadata() {
    let account = load(&protocol_wallet(ProtocolAccountType::RegularAccountUpdatableCode));
    assert!(matches!(
        deploy_faucet(&symbol("ABC"), &account, 5),
        Err(GenesisConfigError::FungibleFaucet(_))
    ));
    assert!(matches!(
        deploy_faucet(&symbol("ABC"), &account, 0),
        Err(GenesisConfigError::FungibleFaucet(_))
    ));
    assert!(account.token_metadata().is_err());
}

#[test]
fn secrets_of_other_states_give_no_files() {
    let (mut state, secrets) = build(config(vec![], vec![])).unwrap();
    state.accounts = vec![load(&protocol_faucet("MIDEN", 6, 1_000))];
    let files = secrets.as_account_files(&state, NOW);
    assert_eq!(files.len(), 1);
    let expected = secrets.secrets[0].account_id;
    assert!(matches!(
        &files[0],
        Err(GenesisConfigError::MissingGenesisAccount { account_id }) if *account_id == expected
    ));
}

#[test]
fn the_last_account_of_an_id_is_filed() {
    let (mut state, secrets) = build(config(vec![], vec![])).unwrap();
    let mut later = ProtocolAccount::read_from_bytes(state.accounts[0].as_bytes()).unwrap();
    later.increment_nonce(Felt::new(4)).unwrap();
    state.accounts.push(load(&later));
    let files = secrets.as_account_files(&state, NOW);
    assert_eq!(files[0].as_ref().unwrap().account_file.account.nonce(), 5);
}

#[test]
fn fees_are_paid_in_fungible_tokens() {
    let id = load(&protocol_wallet(ProtocolAccountType::RegularAccountUpdatableCode)).id();
    assert!(matches!(
        FeeParameters::new(id, 1),
        Err(GenesisConfigError::NativeAssetNotFungible { account_id }) if account_id == id
    ));
    assert_eq!(
        FungibleAsset::new(id, 1),
        Err(AssetError::FungibleFaucetIdTypeMismatch(id))
    );
}

// PARTS
// ================================================================================================

#[test]
fn assets_keep_faucet_and_amount() {
    let id = load(&protocol_faucet("GOLD", 4, 1_000)).id();
    let asset = FungibleAsset::new(id, MAX_AMOUNT).unwrap();
    assert_eq!(asset.faucet_id(), id);
    assert_eq!(asset.amount(), MAX_AMOUNT);
    assert_eq!(FeeParameters::new(id, 4).unwrap().native_asset_id(), id);
}

#[test]
fn faucet_table_keeps_order_and_symbols() {
    let gold = load(&protocol_faucet("GOLD", 4, 1_000));
    let iron = load(&protocol_faucet("IRON", 4, 1_000));
    let mut table = FaucetTable::new(symbol("GOLD"), gold.clone());
    assert!(table.get(&symbol("IRON")).is_none());
    assert!(table.insert(symbol("IRON"), iron.clone()));
    assert_eq!(table.len(), 2);
    assert_eq!(table.get(&symbol("GOLD")).unwrap().id(), gold.id());
    assert_eq!(table.get(&symbol("IRON")).unwrap().id(), iron.id());
    assert_eq!(table.entry(1).0, &symbol("IRON"));
    assert!(!table.insert(symbol("GOLD"), iron));
}

#[test]
fn new_faucets_have_issued_nothing() {
    let account = faucet("ABC", 5, 77).build_account_with(&key()).unwrap();
    assert_eq!(account.nonce(), 0);
    assert!(account.is_faucet());
    let token = account.token_metadata().unwrap();
    assert_eq!((token.token_supply(), token.max_supply(), token.decimals()), (0, 77, 5));
    assert_eq!(token.symbol().as_str(), "ABC");
}

#[test]
fn default_native_faucet_is_made() {
    let native = NativeFaucet::Default(key());
    let (account, name, secret) = native.build_account().unwrap();
    assert_eq!(name, symbol("MIDEN"));
    assert_eq!(account.nonce(), 0);
    assert_eq!(secret.unwrap().as_bytes(), key().secret_key().as_bytes());
}

#[test]
fn file_names_are_padded() {
    assert_eq!(faucet_file_name("ABC"), "faucet_abc.mac");
    assert_eq!(wallet_file_name(0, 1), "wallet_0.mac");
    assert_eq!(wallet_file_name(9, 10), "wallet_9.mac");
    assert_eq!(wallet_file_name(7, 99), "wallet_7.mac");
    assert_eq!(wallet_file_name(7, 100), "wallet_07.mac");
    assert_eq!(wallet_file_name(99, 100), "wallet_99.mac");
    assert_eq!(wallet_file_name(7, 1000), "wallet_007.mac");
    assert_eq!(wallet_file_name(123, 5), "wallet_123.mac");
}

#[test]
fn assets_are_counted_as_issued() {
    let gold = load(&protocol_faucet("GOLD", 4, 1_000));
    let id = gold.id().value();
    let table = FaucetTable::new(symbol("GOLD"), gold);
    let mut issuance: IndexMap<u128, u64> = IndexMap::new();
    let entries = |amounts: Vec<u64>| -> Vec<AssetEntry> {
        amounts.into_iter().map(|amount| AssetEntry { symbol: symbol("GOLD"), amount }).collect()
    };

    // What is not held leaves no trace.
    assert!(prepare_fungible_asset_update(&entries(vec![0]), &table, &mut issuance).is_ok());
    assert!(issuance.is_empty());

    let delta =
        prepare_fungible_asset_update(&entries(vec![3, 4]), &table, &mut issuance).unwrap();
    assert_eq!(delta.iter().map(|(_, amount)| *amount).collect::<Vec<i64>>(), vec![7]);
    assert_eq!(issuance.get(&id), Some(&7));
    assert_eq!(issuance.len(), 1);

    let nothing = prepare_fungible_asset_update(&entries(vec![0]), &table, &mut issuance).unwrap();
    assert!(nothing.is_empty());
    assert_eq!(issuance.get(&id), Some(&7));

    let unknown = vec![AssetEntry { symbol: symbol("IRON"), amount: 1 }];
    assert!(prepare_fungible_asset_update(&unknown, &table, &mut issuance).is_err());
    assert_eq!(issuance.get(&id), Some(&7));

    issuance.insert(id, u64::MAX - 1);
    assert!(matches!(
        prepare_fungible_asset_update(&entries(vec![2]), &table, &mut issuance),
        Err(GenesisConfigError::IssuanceOverflow)
    ));
    assert!(prepare_fungible_asset_update(&entries(vec![1]), &table, &mut issuance).is_ok());
    assert_eq!(issuance.get(&id), Some(&u64::MAX));
}
