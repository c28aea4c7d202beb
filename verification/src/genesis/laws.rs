//! What holds of every genesis state, said of the accounts, keys and amounts themselves.

use vstd::prelude::*;

use crate::account::{
    account_after_delta, account_models, basic_wallet, faucet_account, type_of_id, Account,
    AccountModel, AccountType, StorageMode,
};
use crate::genesis::config::{AssetModel, FaucetModel, GenesisConfig, WalletModel};
use crate::genesis::construct::{
    all_faucets, faucet_count, from_seed, genesis_outcome, held_by_wallets, is_input, is_state_of,
    lemma_faucet, secrets_have_accounts, secrets_open_accounts, total_balance, GenesisFiles,
    GenesisInput,
};
use crate::genesis::deploy::{deployed_faucet, deployed_faucets};
use crate::genesis::error::GenesisError;
use crate::genesis::faucets::{
    faucet_position, faucets_before, has_faucet, native_entry, FaucetEntry, NativeFaucet,
    NativeModel,
};
use crate::genesis::secrets::{
    all_named, distinct_names, faucet_file, file_of_secret, last_account, last_account_is_listed,
    wallet_file, AccountFileWithName, AccountSecrets, FileModel, SecretModel,
};
use crate::genesis::state::{GenesisState, StateModel};
use crate::genesis::wallets::{
    built_wallets, entries_error, held, held_amounts, is_wallet, issuance_of, issued, issuer,
};
use crate::keys::{falcon_public_key, key_material, key_models, KeyMaterial, KeyModel};
use crate::token::{TokenMetadataError, TokenModel};

verus! {

// HELD AND ISSUED AMOUNTS
// ================================================================================================

/// A token is issued by the faucet that stands under its symbol.
pub proof fn tokens_are_issued_by_their_faucet(faucets: Seq<FaucetEntry>, i: int)
    requires
        0 <= i < faucets.len(),
        forall|j: int|
            0 <= j < faucets.len() && j != i ==> (#[trigger] faucets[j]).symbol
                != faucets[i].symbol,
    ensures
        has_faucet(faucets, faucets[i].symbol),
        issuer(faucets, faucets[i].symbol) == faucets[i].account.id,
{
    let symbol = faucets[i].symbol;
    assert(faucets[i].symbol == symbol);
    let j = faucet_position(faucets, symbol);
    assert(0 <= j < faucets.len() && faucets[j].symbol == symbol);
    assert(j == i);
}

/// No assets hold nothing, one asset holds its amount of the token of its faucet and nothing of any
/// other, and assets together hold what they hold apart.
pub proof fn held_amounts_are_sums(
    faucets: Seq<FaucetEntry>,
    first: Seq<AssetModel>,
    second: Seq<AssetModel>,
    asset: AssetModel,
    faucet_id: u128,
)
    ensures
        held(faucets, Seq::empty(), faucet_id) == 0,
        issuer(faucets, asset.symbol) == faucet_id ==> held(faucets, seq![asset], faucet_id)
            == asset.amount,
        issuer(faucets, asset.symbol) != faucet_id ==> held(faucets, seq![asset], faucet_id) == 0,
        held(faucets, first + second, faucet_id) == held(faucets, first, faucet_id) + held(
            faucets,
            second,
            faucet_id,
        ),
    decreases second.len(),
{
    assert(seq![asset].drop_last() =~= Seq::empty());
    assert(held(faucets, seq![asset].drop_last(), faucet_id) == 0);
    if second.len() == 0 {
        assert(first + second =~= first);
    } else {
        assert((first + second).drop_last() =~= first + second.drop_last());
        assert((first + second).last() == second.last());
        held_amounts_are_sums(faucets, first, second.drop_last(), asset, faucet_id);
    }
}

/// No wallets hold nothing, one wallet holds what its assets do, and wallets together hold what
/// they hold apart.
pub proof fn issued_amounts_are_sums(
    faucets: Seq<FaucetEntry>,
    first: Seq<WalletModel>,
    second: Seq<WalletModel>,
    wallet: WalletModel,
    faucet_id: u128,
)
    ensures
        issued(faucets, Seq::empty(), faucet_id) == 0,
        issued(faucets, seq![wallet], faucet_id) == held(faucets, wallet.assets, faucet_id),
        issued(faucets, first + second, faucet_id) == issued(faucets, first, faucet_id) + issued(
            faucets,
            second,
            faucet_id,
        ),
    decreases second.len(),
{
    assert(seq![wallet].drop_last() =~= Seq::empty());
    assert(issued(faucets, seq![wallet].drop_last(), faucet_id) == 0);
    if second.len() == 0 {
        assert(first + second =~= first);
    } else {
        assert((first + second).drop_last() =~= first + second.drop_last());
        assert((first + second).last() == second.last());
        issued_amounts_are_sums(faucets, first, second.drop_last(), wallet, faucet_id);
    }
}

/// No accounts have no balance, and accounts together have the balances that they have apart.
pub proof fn total_balances_are_sums(
    first: Seq<AccountModel>,
    second: Seq<AccountModel>,
    account: AccountModel,
    faucet_id: u128,
)
    ensures
        total_balance(Seq::empty(), faucet_id) == 0,
        total_balance(seq![account], faucet_id) == account.balance(faucet_id),
        total_balance(first + second, faucet_id) == total_balance(first, faucet_id)
            + total_balance(second, faucet_id),
    decreases second.len(),
{
    assert(seq![account].drop_last() =~= Seq::empty());
    assert(total_balance(seq![account].drop_last(), faucet_id) == 0);
    if second.len() == 0 {
        assert(first + second =~= first);
    } else {
        assert((first + second).drop_last() =~= first + second.drop_last());
        assert((first + second).last() == second.last());
        total_balances_are_sums(first, second.drop_last(), account, faucet_id);
    }
}

// ASSETS
// ================================================================================================

/// Assets can be issued exactly if each names the token of a fungible faucet and an amount of at
/// most `2^63 - 2^31`.
pub proof fn assets_need_a_faucet_and_a_bound(faucets: Seq<FaucetEntry>, assets: Seq<AssetModel>)
    ensures
        entries_error(faucets, assets) is None <==> forall|i: int|
            0 <= i < assets.len() ==> {
                &&& exists|j: int|
                    0 <= j < faucets.len() && (#[trigger] faucets[j]).symbol == (
                    #[trigger] assets[i]).symbol
                &&& type_of_id(issuer(faucets, assets[i].symbol)) == AccountType::FungibleFaucet
                &&& assets[i].amount <= 9_223_372_034_707_292_160
            },
    decreases assets.len(),
{
    if assets.len() > 0 {
        let before = assets.drop_last();
        let n = before.len() as int;
        assets_need_a_faucet_and_a_bound(faucets, before);
        assert forall|i: int| 0 <= i < n implies before[i] == #[trigger] assets[i] by {}
        if entries_error(faucets, assets) is None {
            assert(has_faucet(faucets, assets[n].symbol));
            assert forall|i: int| 0 <= i < assets.len() implies {
                &&& exists|j: int|
                    0 <= j < faucets.len() && (#[trigger] faucets[j]).symbol == (
                    #[trigger] assets[i]).symbol
                &&& type_of_id(issuer(faucets, assets[i].symbol)) == AccountType::FungibleFaucet
                &&& assets[i].amount <= 9_223_372_034_707_292_160
            } by {
                if i < n {
                    assert(before[i] == assets[i]);
                } else {
                    let j = faucet_position(faucets, assets[n].symbol);
                    assert(faucets[j].symbol == assets[i].symbol);
                }
            }
        }
        if forall|i: int|
            0 <= i < assets.len() ==> {
                &&& exists|j: int|
                    0 <= j < faucets.len() && (#[trigger] faucets[j]).symbol == (
                    #[trigger] assets[i]).symbol
                &&& type_of_id(issuer(faucets, assets[i].symbol)) == AccountType::FungibleFaucet
                &&& assets[i].amount <= 9_223_372_034_707_292_160
            } {
            assert forall|i: int| 0 <= i < before.len() implies {
                &&& exists|j: int|
                    0 <= j < faucets.len() && (#[trigger] faucets[j]).symbol == (
                    #[trigger] before[i]).symbol
                &&& type_of_id(issuer(faucets, before[i].symbol)) == AccountType::FungibleFaucet
                &&& before[i].amount <= 9_223_372_034_707_292_160
            } by {
                assert(assets[i] == before[i]);
            }
            let last = assets[n];
            let j = choose|j: int|
                0 <= j < faucets.len() && (#[trigger] faucets[j]).symbol == last.symbol;
            assert(faucets[j].symbol == last.symbol);
            assert(has_faucet(faucets, last.symbol));
        }
    }
}

/// What is wrong with assets is said of the first one with which something is wrong: that no faucet
/// has its symbol, that the account under the symbol is no fungible faucet, or that the amount is
/// too big.
pub proof fn the_first_bad_asset_is_reported(faucets: Seq<FaucetEntry>, assets: Seq<AssetModel>)
    ensures
        entries_error(faucets, assets) matches Some(e) ==> exists|i: int|
            {
                &&& 0 <= i < assets.len()
                &&& entries_error(faucets, assets.take(i)) is None
                &&& match e {
                    GenesisError::MissingFaucetDefinition { symbol } => {
                        &&& symbol == (#[trigger] assets[i]).symbol
                        &&& forall|j: int|
                            0 <= j < faucets.len() ==> (#[trigger] faucets[j]).symbol != symbol
                    },
                    GenesisError::NoFungibleFaucet { account_id } => {
                        &&& account_id == issuer(faucets, assets[i].symbol)
                        &&& type_of_id(account_id) != AccountType::FungibleFaucet
                    },
                    GenesisError::AmountTooBig { amount } => {
                        &&& amount == assets[i].amount
                        &&& amount > 9_223_372_034_707_292_160
                    },
                    _ => false,
                }
            },
    decreases assets.len(),
{
    if assets.len() > 0 {
        let before = assets.drop_last();
        let n = before.len() as int;
        the_first_bad_asset_is_reported(faucets, before);
        if entries_error(faucets, before) is Some {
            let e = entries_error(faucets, before).unwrap();
            let i = choose|i: int|
                {
                    &&& 0 <= i < before.len()
                    &&& entries_error(faucets, before.take(i)) is None
                    &&& match e {
                        GenesisError::MissingFaucetDefinition { symbol } => {
                            &&& symbol == (#[trigger] before[i]).symbol
                            &&& forall|j: int|
                                0 <= j < faucets.len() ==> (#[trigger] faucets[j]).symbol != symbol
                        },
                        GenesisError::NoFungibleFaucet { account_id } => {
                            &&& account_id == issuer(faucets, before[i].symbol)
                            &&& type_of_id(account_id) != AccountType::FungibleFaucet
                        },
                        GenesisError::AmountTooBig { amount } => {
                            &&& amount == before[i].amount
                            &&& amount > 9_223_372_034_707_292_160
                        },
                        _ => false,
                    }
                };
            assert(assets[i] == before[i]);
            assert(assets.take(i) =~= before.take(i));
        } else {
            assert(assets.take(n) =~= before);
            assert(assets[n] == assets.last());
        }
    }
}

// FAUCETS
// ================================================================================================

/// Without a file the native faucet is the account that its key makes for a public faucet of the
/// default token. With a file it is the account of the file, if that is a fungible faucet, under
/// the symbol of its token.
pub proof fn native_faucets_are_made_or_taken(native: NativeModel)
    ensures
        match native {
            NativeModel::Default(key) => {
                let token = TokenModel {
                    token_supply: 0,
                    max_supply: 100_000_000_000_000_000,
                    decimals: 6,
                    symbol: "MIDEN"@,
                };
                match faucet_account(
                    key.init_seed,
                    falcon_public_key(key.secret_key),
                    token,
                    StorageMode::Public,
                ) {
                    Some(made) => native_entry(native) matches Ok(entry) && entry.account == made
                        && entry.symbol == "MIDEN"@,
                    None => native_entry(native) == Err::<FaucetEntry, GenesisError>(
                        GenesisError::Account,
                    ),
                }
            },
            NativeModel::Loaded { path, account } => {
                if type_of_id(account.id) == AccountType::FungibleFaucet {
                    native_entry(native) matches Ok(entry) && entry.account == account && (
                    account.token matches Some(token) ==> entry.symbol == token.symbol)
                } else {
                    native_entry(native) == Err::<FaucetEntry, GenesisError>(
                        GenesisError::NativeFaucetNotFungible { path },
                    )
                }
            },
        },
{
}

/// Whether a configured faucet can be made with a key, apart from what the other faucets are: the
/// token keeps the limits, and the protocol makes an account for it.
pub open spec fn is_makeable(faucet: FaucetModel, key: KeyModel) -> bool {
    &&& faucet.decimals <= 12
    &&& faucet.max_supply <= 9_223_372_034_707_292_160
    &&& faucet_account(
        key.init_seed,
        falcon_public_key(key.secret_key),
        TokenModel {
            token_supply: 0,
            max_supply: faucet.max_supply,
            decimals: faucet.decimals,
            symbol: faucet.symbol,
        },
        faucet.storage_mode,
    ) is Some
}

/// Faucets that were made are the native one and one for each configured faucet, in this order:
/// each under the symbol of its configuration, and each the account that its own key makes. No
/// symbol is there twice.
pub proof fn faucets_are_made_with_their_own_keys(
    native: FaucetEntry,
    configs: Seq<FaucetModel>,
    keys: Seq<KeyModel>,
    n: nat,
)
    ensures
        faucets_before(native, configs, keys, n) matches Ok(faucets) ==> {
            &&& faucets.len() == n + 1
            &&& faucets[0] == native
            &&& forall|i: int|
                0 <= i < n ==> {
                    &&& is_makeable(configs[i], keys[i])
                    &&& (#[trigger] faucets[i + 1]).symbol == configs[i].symbol
                    &&& faucet_account(
                        keys[i].init_seed,
                        falcon_public_key(keys[i].secret_key),
                        TokenModel {
                            token_supply: 0,
                            max_supply: configs[i].max_supply,
                            decimals: configs[i].decimals,
                            symbol: configs[i].symbol,
                        },
                        configs[i].storage_mode,
                    ) == Some(faucets[i + 1].account)
                }
            &&& forall|i: int, j: int|
                0 <= i < j < faucets.len() ==> (#[trigger] faucets[i]).symbol != (
                #[trigger] faucets[j]).symbol
        },
    decreases n,
{
    if n > 0 {
        let m = (n - 1) as nat;
        faucets_are_made_with_their_own_keys(native, configs, keys, m);
        if faucets_before(native, configs, keys, n) is Ok {
            let before = faucets_before(native, configs, keys, m)->Ok_0;
            let faucets = faucets_before(native, configs, keys, n)->Ok_0;
            assert forall|i: int| 0 <= i < n implies {
                &&& is_makeable(configs[i], keys[i])
                &&& (#[trigger] faucets[i + 1]).symbol == configs[i].symbol
                &&& faucet_account(
                    keys[i].init_seed,
                    falcon_public_key(keys[i].secret_key),
                    TokenModel {
                        token_supply: 0,
                        max_supply: configs[i].max_supply,
                        decimals: configs[i].decimals,
                        symbol: configs[i].symbol,
                    },
                    configs[i].storage_mode,
                ) == Some(faucets[i + 1].account)
            } by {
                if i < m {
                    assert(faucets[i + 1] == before[i + 1]);
                }
            }
            assert forall|i: int, j: int| 0 <= i < j < faucets.len() implies (
            #[trigger] faucets[i]).symbol != (#[trigger] faucets[j]).symbol by {
                assert(faucets[i] == before[i]);
                if j < before.len() {
                    assert(faucets[j] == before[j]);
                } else {
                    assert(!has_faucet(before, configs[n - 1].symbol));
                    assert(before[i].symbol != configs[n - 1].symbol);
                }
            }
        }
    }
}

/// Faucets can be made if each of them can and if no symbol is there twice, the native one
/// included.
pub proof fn makeable_faucets_are_made(
    native: FaucetEntry,
    configs: Seq<FaucetModel>,
    keys: Seq<KeyModel>,
    n: nat,
)
    requires
        n <= configs.len(),
        forall|i: int| 0 <= i < n ==> is_makeable(#[trigger] configs[i], keys[i]),
        forall|i: int| 0 <= i < n ==> (#[trigger] configs[i]).symbol != native.symbol,
        forall|i: int, j: int|
            0 <= i < j < n ==> (#[trigger] configs[i]).symbol != (#[trigger] configs[j]).symbol,
    ensures
        faucets_before(native, configs, keys, n) is Ok,
    decreases n,
{
    if n > 0 {
        let m = (n - 1) as nat;
        makeable_faucets_are_made(native, configs, keys, m);
        faucets_are_made_with_their_own_keys(native, configs, keys, m);
        let before = faucets_before(native, configs, keys, m)->Ok_0;
        assert(is_makeable(configs[n - 1], keys[n - 1]));
        assert(!has_faucet(before, configs[n - 1].symbol)) by {
            assert forall|i: int| 0 <= i < before.len() implies (#[trigger] before[i]).symbol
                != configs[n - 1].symbol by {
                if i > 0 {
                    assert(before[(i - 1) + 1].symbol == configs[i - 1].symbol);
                }
            }
        }
    }
}

/// If faucets cannot be made, the first one that cannot be made or whose symbol is there already is
/// the reason.
pub proof fn faucets_are_refused_for_a_reason(
    native: FaucetEntry,
    configs: Seq<FaucetModel>,
    keys: Seq<KeyModel>,
    n: nat,
)
    requires
        n <= configs.len(),
    ensures
        faucets_before(native, configs, keys, n) matches Err(e) ==> exists|i: int|
            {
                let faucet = #[trigger] configs[i];
                &&& 0 <= i < n
                &&& faucets_before(native, configs, keys, i as nat) is Ok
                &&& match e {
                    GenesisError::DuplicateFaucetDefinition { symbol } => {
                        &&& symbol == faucet.symbol
                        &&& is_makeable(faucet, keys[i])
                        &&& symbol == native.symbol || exists|j: int|
                            0 <= j < i && (#[trigger] configs[j]).symbol == symbol
                    },
                    GenesisError::TokenMetadata(
                        TokenMetadataError::TooManyDecimals { decimals },
                    ) => decimals == faucet.decimals && decimals > 12,
                    GenesisError::TokenMetadata(
                        TokenMetadataError::MaxSupplyTooLarge { max_supply },
                    ) => max_supply == faucet.max_supply && max_supply > 9_223_372_034_707_292_160,
                    GenesisError::Account => !is_makeable(faucet, keys[i]) && faucet.decimals <= 12
                        && faucet.max_supply <= 9_223_372_034_707_292_160,
                    _ => false,
                }
            },
    decreases n,
{
    if n > 0 {
        let m = (n - 1) as nat;
        faucets_are_refused_for_a_reason(native, configs, keys, m);
        if faucets_before(native, configs, keys, m) is Ok && faucets_before(
            native,
            configs,
            keys,
            n,
        ) is Err {
            faucets_are_made_with_their_own_keys(native, configs, keys, m);
            let before = faucets_before(native, configs, keys, m)->Ok_0;
            let symbol = configs[m as int].symbol;
            if has_faucet(before, symbol) {
                let i = faucet_position(before, symbol);
                assert(before[i].symbol == symbol);
                if i > 0 {
                    assert(before[(i - 1) + 1].symbol == configs[i - 1].symbol);
                    assert(configs[i - 1].symbol == symbol);
                }
            }
        }
    }
}

/// In a genesis state, each configured faucet has the identifier of the account that its own key
/// makes.
pub proof fn faucets_of_a_state_have_their_own_keys(
    input: GenesisInput,
    state: StateModel,
    i: int,
)
    requires
        is_state_of(input, state),
        0 <= i < input.config.faucets.len(),
    ensures
        ({
            let faucet = input.config.faucets[i];
            let token = TokenModel {
                token_supply: 0,
                max_supply: faucet.max_supply,
                decimals: faucet.decimals,
                symbol: faucet.symbol,
            };
            &&& faucet_account(
                input.faucet_keys[i].init_seed,
                falcon_public_key(input.faucet_keys[i].secret_key),
                token,
                faucet.storage_mode,
            ) matches Some(made)
            &&& state.accounts[1 + i].id == made.id
            &&& state.accounts[1 + i].token == Some(
                TokenModel {
                    token_supply: held_by_wallets(input, state, made.id) as u64,
                    ..token
                },
            )
        }),
{
    lemma_faucet(input, state, i + 1);
}

// WALLETS
// ================================================================================================

/// Whether the wallet at a position can be made with its key: the protocol makes an account of the
/// configured type and mode, the assets can be issued, they fit into the vault of a wallet and into
/// what is counted as issued, and the protocol accepts the balances.
pub open spec fn can_be_made(
    faucets: Seq<FaucetEntry>,
    wallets: Seq<WalletModel>,
    keys: Seq<KeyModel>,
    i: int,
) -> bool {
    let wallet = wallets[i];
    let account_type = if wallet.has_updatable_code {
        AccountType::RegularAccountUpdatableCode
    } else {
        AccountType::RegularAccountImmutableCode
    };
    &&& basic_wallet(
        keys[i].init_seed,
        falcon_public_key(keys[i].secret_key),
        account_type,
        wallet.storage_mode,
    ) matches Some(made)
    &&& entries_error(faucets, wallet.assets) is None
    &&& forall|id: u128| #[trigger] held(faucets, wallet.assets, id) <= 9_223_372_034_707_292_160
    &&& forall|id: u128|
        issued(faucets, wallets.take(i), id) + #[trigger] held(faucets, wallet.assets, id)
            <= 18_446_744_073_709_551_615
    &&& account_after_delta(made, None, held_amounts(faucets, wallet.assets), 1) is Some
}

/// Whether an account is what the protocol leaves, after the balances of the assets, of the account
/// that the key makes with the configured type and mode.
pub open spec fn comes_from_key(
    faucets: Seq<FaucetEntry>,
    wallet: WalletModel,
    key: KeyModel,
    account: AccountModel,
) -> bool {
    let account_type = if wallet.has_updatable_code {
        AccountType::RegularAccountUpdatableCode
    } else {
        AccountType::RegularAccountImmutableCode
    };
    &&& basic_wallet(
        key.init_seed,
        falcon_public_key(key.secret_key),
        account_type,
        wallet.storage_mode,
    ) matches Some(made)
    &&& account_after_delta(made, None, held_amounts(faucets, wallet.assets), 1) == Some(account)
}

/// Wallets that were made are one for each configured wallet, in their order, and each is what the
/// protocol leaves of the account that its own key makes, after the balances of its own assets.
pub proof fn wallets_are_made_with_their_own_keys(
    faucets: Seq<FaucetEntry>,
    wallets: Seq<WalletModel>,
    keys: Seq<KeyModel>,
)
    ensures
        built_wallets(faucets, wallets, keys) matches Ok(accounts) ==> {
            &&& accounts.len() == wallets.len()
            &&& forall|i: int|
                0 <= i < wallets.len() ==> #[trigger] can_be_made(faucets, wallets, keys, i)
            &&& forall|i: int|
                0 <= i < wallets.len() ==> #[trigger] comes_from_key(
                    faucets,
                    wallets[i],
                    keys[i],
                    accounts[i],
                )
        },
    decreases wallets.len(),
{
    if wallets.len() > 0 {
        let before = wallets.drop_last();
        let n = before.len() as int;
        wallets_are_made_with_their_own_keys(faucets, before, keys);
        if built_wallets(faucets, wallets, keys) is Ok {
            let accounts = built_wallets(faucets, wallets, keys)->Ok_0;
            let earlier = built_wallets(faucets, before, keys)->Ok_0;
            assert forall|i: int| 0 <= i < wallets.len() implies #[trigger] can_be_made(
                faucets,
                wallets,
                keys,
                i,
            ) by {
                if i < n {
                    assert(wallets[i] == before[i]);
                    assert(wallets.take(i) =~= before.take(i));
                    assert(can_be_made(faucets, before, keys, i));
                } else {
                    lemma_last_wallet(faucets, wallets, keys);
                }
            }
            assert forall|i: int| 0 <= i < wallets.len() implies #[trigger] comes_from_key(
                faucets,
                wallets[i],
                keys[i],
                accounts[i],
            ) by {
                if i < n {
                    assert(accounts[i] == earlier[i]);
                    assert(wallets[i] == before[i]);
                    assert(comes_from_key(faucets, before[i], keys[i], earlier[i]));
                }
            }
        }
    }
}

/// What is known of the last wallet when it was made.
proof fn lemma_last_wallet(
    faucets: Seq<FaucetEntry>,
    wallets: Seq<WalletModel>,
    keys: Seq<KeyModel>,
)
    requires
        wallets.len() > 0,
        built_wallets(faucets, wallets.drop_last(), keys) is Ok,
    ensures
        built_wallets(faucets, wallets, keys) is Ok <==> can_be_made(
            faucets,
            wallets,
            keys,
            wallets.len() - 1,
        ),
{
    let n = wallets.len() - 1;
    let wallet = wallets[n];
    let counted = |id: u128| issued(faucets, wallets.drop_last(), id);
    assert(wallets.take(n) =~= wallets.drop_last());
    if built_wallets(faucets, wallets, keys) is Ok {
        assert forall|id: u128| #[trigger]
            held(faucets, wallet.assets, id) <= 9_223_372_034_707_292_160 by {}
        assert forall|id: u128|
            issued(faucets, wallets.take(n), id) + #[trigger] held(faucets, wallet.assets, id)
                <= 18_446_744_073_709_551_615 by {
            assert(counted(id) + held(faucets, wallet.assets, id) <= u64::MAX);
        }
    }
    if can_be_made(faucets, wallets, keys, n) {
        assert forall|id: u128| counted(id) + #[trigger] held(faucets, wallet.assets, id)
            <= u64::MAX by {
            assert(issued(faucets, wallets.take(n), id) + held(faucets, wallet.assets, id)
                <= 18_446_744_073_709_551_615);
        }
        assert forall|id: u128| #[trigger] held(faucets, wallet.assets, id) <= i64::MAX by {}
    }
}

/// Wallets can be made if each of them can.
pub proof fn makeable_wallets_are_made(
    faucets: Seq<FaucetEntry>,
    wallets: Seq<WalletModel>,
    keys: Seq<KeyModel>,
)
    requires
        forall|i: int| 0 <= i < wallets.len() ==> #[trigger] can_be_made(faucets, wallets, keys, i),
    ensures
        built_wallets(faucets, wallets, keys) is Ok,
    decreases wallets.len(),
{
    if wallets.len() > 0 {
        let before = wallets.drop_last();
        assert forall|i: int| 0 <= i < before.len() implies #[trigger] can_be_made(
            faucets,
            before,
            keys,
            i,
        ) by {
            assert(can_be_made(faucets, wallets, keys, i));
            assert(before.take(i) =~= wallets.take(i));
        }
        makeable_wallets_are_made(faucets, before, keys);
        assert(can_be_made(faucets, wallets, keys, wallets.len() - 1));
        lemma_last_wallet(faucets, wallets, keys);
    }
}

/// If wallets cannot be made, the first one that cannot is the reason, and the error says why.
pub proof fn wallets_are_refused_for_a_reason(
    faucets: Seq<FaucetEntry>,
    wallets: Seq<WalletModel>,
    keys: Seq<KeyModel>,
)
    ensures
        built_wallets(faucets, wallets, keys) matches Err(e) ==> exists|i: int|
            {
                let assets = (#[trigger] wallets[i]).assets;
                &&& 0 <= i < wallets.len()
                &&& built_wallets(faucets, wallets.take(i), keys) is Ok
                &&& !can_be_made(faucets, wallets, keys, i)
                &&& match e {
                    GenesisError::AccountDelta => exists|id: u128| #[trigger]
                        held(faucets, assets, id) > 9_223_372_036_854_775_807,
                    GenesisError::IssuanceOverflow => exists|id: u128|
                        issued(faucets, wallets.take(i), id) + #[trigger] held(faucets, assets, id)
                            > 18_446_744_073_709_551_615,
                    GenesisError::WalletBalanceTooLarge => exists|id: u128| #[trigger]
                        held(faucets, assets, id) > 9_223_372_034_707_292_160,
                    GenesisError::BasicWallet | GenesisError::Account => true,
                    _ => entries_error(faucets, assets) == Some(e),
                }
            },
    decreases wallets.len(),
{
    if wallets.len() > 0 && built_wallets(faucets, wallets, keys) is Err {
        let before = wallets.drop_last();
        let n = before.len() as int;
        let e = built_wallets(faucets, wallets, keys)->Err_0;
        wallets_are_refused_for_a_reason(faucets, before, keys);
        if built_wallets(faucets, before, keys) is Err {
            let i = choose|i: int|
                {
                    let assets = (#[trigger] before[i]).assets;
                    &&& 0 <= i < before.len()
                    &&& built_wallets(faucets, before.take(i), keys) is Ok
                    &&& !can_be_made(faucets, before, keys, i)
                    &&& match e {
                        GenesisError::AccountDelta => exists|id: u128| #[trigger]
                            held(faucets, assets, id) > 9_223_372_036_854_775_807,
                        GenesisError::IssuanceOverflow => exists|id: u128|
                            issued(faucets, before.take(i), id) + #[trigger] held(
                                faucets,
                                assets,
                                id,
                            ) > 18_446_744_073_709_551_615,
                        GenesisError::WalletBalanceTooLarge => exists|id: u128| #[trigger]
                            held(faucets, assets, id) > 9_223_372_034_707_292_160,
                        GenesisError::BasicWallet | GenesisError::Account => true,
                        _ => entries_error(faucets, assets) == Some(e),
                    }
                };
            assert(before[i] == wallets[i]);
            assert(before.take(i) =~= wallets.take(i));
            if can_be_made(faucets, wallets, keys, i) {
                assert(can_be_made(faucets, before, keys, i));
            }
        } else {
            lemma_last_wallet(faucets, wallets, keys);
            assert(wallets.take(n) =~= before);
            let assets = wallets[n].assets;
            let counted = |id: u128| issued(faucets, wallets.drop_last(), id);
            the_first_bad_asset_is_reported(faucets, assets);
            if e == GenesisError::IssuanceOverflow {
                let id = choose|id: u128| counted(id) + #[trigger] held(faucets, assets, id)
                    > u64::MAX;
                assert(issued(faucets, wallets.take(n), id) + held(faucets, assets, id)
                    > 18_446_744_073_709_551_615);
            }
        }
    }
}

/// In a genesis state, each wallet has the identifier of the account that its own key makes, with
/// the configured type and mode. So wallets whose keys make different accounts have different
/// identifiers.
pub proof fn wallets_of_a_state_have_their_own_keys(
    input: GenesisInput,
    state: StateModel,
    i: int,
    j: int,
)
    requires
        is_state_of(input, state),
        0 <= i < input.config.wallets.len(),
        0 <= j < input.config.wallets.len(),
    ensures
        ({
            let first = 1 + input.config.faucets.len();
            let made = |k: int|
                basic_wallet(
                    input.wallet_keys[k].init_seed,
                    falcon_public_key(input.wallet_keys[k].secret_key),
                    if input.config.wallets[k].has_updatable_code {
                        AccountType::RegularAccountUpdatableCode
                    } else {
                        AccountType::RegularAccountImmutableCode
                    },
                    input.config.wallets[k].storage_mode,
                );
            &&& made(i) matches Some(account) && state.accounts[first + i].id == account.id
            &&& made(j) matches Some(account) && state.accounts[first + j].id == account.id
            &&& made(i).unwrap().id != made(j).unwrap().id ==> state.accounts[first + i].id
                != state.accounts[first + j].id
        }),
{
    let n = faucet_count(input);
    assert(is_wallet(
        all_faucets(input)->Ok_0,
        input.config.wallets[i],
        input.wallet_keys[i],
        state.accounts[n + i],
    ));
    assert(is_wallet(
        all_faucets(input)->Ok_0,
        input.config.wallets[j],
        input.wallet_keys[j],
        state.accounts[n + j],
    ));
}

// DEPLOYMENT
// ================================================================================================

/// A faucet of which nothing was issued is deployed without a change to its token.
pub proof fn unused_faucets_are_deployed(faucet: FaucetEntry)
    ensures
        match account_after_delta(faucet.account, None, Map::empty(), 1) {
            None => deployed_faucet(faucet, 0) == Err::<AccountModel, GenesisError>(
                GenesisError::Account,
            ),
            Some(after) => if after.token is Some {
                deployed_faucet(faucet, 0) == Ok::<AccountModel, GenesisError>(after)
            } else {
                deployed_faucet(faucet, 0) == Err::<AccountModel, GenesisError>(
                    GenesisError::FungibleFaucet,
                )
            },
        },
{
}

/// A faucet of which an amount below the field order was issued is deployed with just that amount
/// as the supply of its token, and refused exactly if the amount exceeds the maximum, if it has
/// no token, or if the protocol refuses the update.
pub proof fn used_faucets_are_deployed_with_their_supply(faucet: FaucetEntry, total: u64)
    requires
        0 < total < 18_446_744_069_414_584_321,
    ensures
        match faucet.account.token {
            None => deployed_faucet(faucet, total) == Err::<AccountModel, GenesisError>(
                GenesisError::FungibleFaucet,
            ),
            Some(token) => {
                if total > token.max_supply {
                    deployed_faucet(faucet, total) == Err::<AccountModel, GenesisError>(
                        GenesisError::TokenMetadata(
                            TokenMetadataError::TokenSupplyExceedsMaxSupply {
                                token_supply: total,
                                max_supply: token.max_supply,
                            },
                        ),
                    )
                } else {
                    let supplied = TokenModel { token_supply: total, ..token };
                    match account_after_delta(faucet.account, Some(supplied), Map::empty(), 1) {
                        None => deployed_faucet(faucet, total) == Err::<AccountModel, GenesisError>(
                            GenesisError::Account,
                        ),
                        Some(after) => after.token == Some(supplied) ==> deployed_faucet(
                            faucet,
                            total,
                        ) == Ok::<AccountModel, GenesisError>(after),
                    }
                }
            },
        },
{
}

/// A faucet that is deployed has issued no more than its maximum.
pub proof fn deployed_faucets_keep_their_maximum(faucet: FaucetEntry, total: u64)
    ensures
        deployed_faucet(faucet, total) matches Ok(after) ==> after.token matches Some(token)
            && total <= token.max_supply,
        deployed_faucet(faucet, total) matches Err(
            GenesisError::MaxIssuanceExceeded { max_supply, symbol, total_issuance },
        ) ==> max_supply < total_issuance && total_issuance == total && symbol == faucet.symbol,
{
}

/// Faucets are deployed one by one, each with what was issued of its own token, and the first one
/// that is refused decides.
pub proof fn faucets_are_deployed_one_by_one(
    faucets: Seq<FaucetEntry>,
    issuance: spec_fn(u128) -> int,
)
    requires
        forall|id: u128| 0 <= #[trigger] issuance(id) <= u64::MAX,
    ensures
        match deployed_faucets(faucets, issuance) {
            Ok(accounts) => {
                &&& accounts.len() == faucets.len()
                &&& forall|i: int|
                    0 <= i < faucets.len() ==> deployed_faucet(
                        faucets[i],
                        issuance(faucets[i].account.id) as u64,
                    ) == Ok::<AccountModel, GenesisError>(#[trigger] accounts[i])
            },
            Err(e) => exists|i: int|
                {
                    &&& 0 <= i < faucets.len()
                    &&& deployed_faucet(
                        #[trigger] faucets[i],
                        issuance(faucets[i].account.id) as u64,
                    ) == Err::<AccountModel, GenesisError>(e)
                    &&& deployed_faucets(faucets.take(i), issuance) is Ok
                },
        },
    decreases faucets.len(),
{
    if faucets.len() > 0 {
        let before = faucets.drop_last();
        let n = before.len() as int;
        faucets_are_deployed_one_by_one(before, issuance);
        assert(faucets.take(n) =~= before);
        match deployed_faucets(before, issuance) {
            Ok(earlier) => {
                if deployed_faucets(faucets, issuance) is Ok {
                    let accounts = deployed_faucets(faucets, issuance)->Ok_0;
                    assert forall|i: int| 0 <= i < faucets.len() implies deployed_faucet(
                        faucets[i],
                        issuance(faucets[i].account.id) as u64,
                    ) == Ok::<AccountModel, GenesisError>(#[trigger] accounts[i]) by {
                        if i < n {
                            assert(accounts[i] == earlier[i]);
                            assert(faucets[i] == before[i]);
                        }
                    }
                } else {
                    assert(faucets[n] == faucets.last());
                }
            },
            Err(e) => {
                let i = choose|i: int|
                    {
                        &&& 0 <= i < before.len()
                        &&& deployed_faucet(
                            #[trigger] before[i],
                            issuance(before[i].account.id) as u64,
                        ) == Err::<AccountModel, GenesisError>(e)
                        &&& deployed_faucets(before.take(i), issuance) is Ok
                    };
                assert(faucets[i] == before[i]);
                assert(faucets.take(i) =~= before.take(i));
            },
        }
    }
}

// STATES
// ================================================================================================

/// There is a genesis state exactly if the faucets can be made, the wallets can be made, and the
/// faucets can be deployed with what the wallets hold. The first of these that fails decides.
pub proof fn states_exist_when_their_parts_do(input: GenesisInput)
    ensures
        match all_faucets(input) {
            Err(e) => genesis_outcome(input) == Err::<(StateModel, Seq<SecretModel>), GenesisError>(
                e,
            ),
            Ok(faucets) => match built_wallets(faucets, input.config.wallets, input.wallet_keys) {
                Err(e) => genesis_outcome(input) == Err::<
                    (StateModel, Seq<SecretModel>),
                    GenesisError,
                >(e),
                Ok(wallets) => {
                    let totals = |id: u128| issued(faucets, input.config.wallets, id);
                    match deployed_faucets(faucets, totals) {
                        Err(e) => genesis_outcome(input) == Err::<
                            (StateModel, Seq<SecretModel>),
                            GenesisError,
                        >(e),
                        Ok(_) => genesis_outcome(input) is Ok,
                    }
                },
            },
        },
        native_entry(input.native) matches Ok(native) ==> all_faucets(input) == faucets_before(
            native,
            input.config.faucets,
            input.faucet_keys,
            input.config.faucets.len(),
        ),
        native_entry(input.native) matches Err(e) ==> all_faucets(input) == Err::<
            Seq<FaucetEntry>,
            GenesisError,
        >(e),
{
    assert((|id: u128| issued(all_faucets(input)->Ok_0, input.config.wallets, id)) =~= (|id: u128|
        issued(all_faucets(input)->Ok_0, input.config.wallets, id)));
}

/// A genesis state has the version, the time and the fee of its configuration. Fees are paid in
/// the token of the first account. Behind the native faucet, the configured faucets and the
/// wallets come the accounts from files, unchanged and in their order.
pub proof fn states_keep_settings_and_files(input: GenesisInput, state: StateModel, i: int)
    requires
        is_state_of(input, state),
        0 <= i < input.files.len(),
    ensures
        state.version == input.config.version,
        state.timestamp == input.config.timestamp,
        state.fees.verification_base_fee == input.config.verification_base_fee,
        state.fees.native_asset_id == state.accounts[0].id,
        state.accounts.len() == 1 + input.config.faucets.len() + input.config.wallets.len()
            + input.files.len(),
        state.accounts[1 + input.config.faucets.len() + input.config.wallets.len() + i]
            == input.files[i],
{
    let m = faucet_count(input) + input.config.wallets.len();
    let files = state.accounts.subrange(m, state.accounts.len() as int);
    assert(files == input.files);
    assert(files[i] == state.accounts[m + i]);
}

/// In a genesis state, a wallet holds of the token of a faucet what its assets list under the
/// symbol of that faucet.
pub proof fn wallets_of_a_state_hold_their_assets(
    input: GenesisInput,
    state: StateModel,
    i: int,
    faucet_id: u128,
)
    requires
        is_state_of(input, state),
        0 <= i < input.config.wallets.len(),
    ensures
        ({
            let wallet = state.accounts[1 + input.config.faucets.len() + i];
            &&& wallet.balance(faucet_id) == held(
                all_faucets(input)->Ok_0,
                input.config.wallets[i].assets,
                faucet_id,
            )
            &&& wallet.nonce == 1
        }),
{
    let n = faucet_count(input);
    assert(is_wallet(
        all_faucets(input)->Ok_0,
        input.config.wallets[i],
        input.wallet_keys[i],
        state.accounts[n + i],
    ));
}

// SECRETS
// ================================================================================================

/// Every secret of a genesis state opens its account: the account that the protocol makes with the
/// public key of the secret key has the identifier that stands beside it, which is that of an
/// account of the state. There is one secret for each account that was made, in their order.
pub proof fn secrets_sign_for_their_accounts(
    input: GenesisInput,
    secrets: Seq<SecretModel>,
    state: StateModel,
    k: int,
)
    requires
        secrets_open_accounts(input, secrets, state),
        0 <= k < secrets.len(),
    ensures
        ({
            let skipped: int = match input.native {
                NativeModel::Default(_) => 0,
                NativeModel::Loaded { .. } => 1,
            };
            let n = 1 + input.config.faucets.len();
            let j = k + skipped;
            let public_key = falcon_public_key(secrets[k].secret_key);
            &&& secrets.len() == n + input.config.wallets.len() - skipped
            &&& secrets[k].account_id == state.accounts[j].id
            &&& j == 0 ==> {
                let token = TokenModel {
                    token_supply: 0,
                    max_supply: 100_000_000_000_000_000,
                    decimals: 6,
                    symbol: "MIDEN"@,
                };
                &&& input.native matches NativeModel::Default(key)
                &&& faucet_account(
                    key.init_seed,
                    public_key,
                    token,
                    StorageMode::Public,
                ) matches Some(made)
                &&& made.id == secrets[k].account_id
            }
            &&& 0 < j < n ==> {
                let faucet = input.config.faucets[j - 1];
                let token = TokenModel {
                    token_supply: 0,
                    max_supply: faucet.max_supply,
                    decimals: faucet.decimals,
                    symbol: faucet.symbol,
                };
                &&& faucet_account(
                    input.faucet_keys[j - 1].init_seed,
                    public_key,
                    token,
                    faucet.storage_mode,
                ) matches Some(made)
                &&& made.id == secrets[k].account_id
                &&& secrets[k].name == faucet_file(faucet.symbol)
            }
            &&& n <= j ==> {
                let wallet = input.config.wallets[j - n];
                &&& basic_wallet(
                    input.wallet_keys[j - n].init_seed,
                    public_key,
                    if wallet.has_updatable_code {
                        AccountType::RegularAccountUpdatableCode
                    } else {
                        AccountType::RegularAccountImmutableCode
                    },
                    wallet.storage_mode,
                ) matches Some(made)
                &&& made.id == secrets[k].account_id
                &&& secrets[k].name == wallet_file((j - n) as nat, input.config.wallets.len())
            }
        }),
{
}

/// The secrets that are handed out are the secret keys of the key material that the accounts were
/// made with: of the native faucet if it was made, of each configured faucet, and of each wallet.
pub proof fn secrets_are_those_of_the_key_material(input: GenesisInput, i: int)
    requires
        genesis_outcome(input) is Ok,
    ensures
        ({
            let secrets = genesis_outcome(input)->Ok_0.1;
            let faucets = input.config.faucets.len();
            let wallets = input.config.wallets.len();
            let made: int = match input.native {
                NativeModel::Default(_) => 1,
                NativeModel::Loaded { .. } => 0,
            };
            &&& secrets.len() == made + faucets + wallets
            &&& input.native matches NativeModel::Default(key) ==> secrets[0].secret_key
                == key.secret_key && secrets[0].name == faucet_file("MIDEN"@)
            &&& 0 <= i < faucets ==> secrets[made + i].secret_key == input.faucet_keys[i].secret_key
                && secrets[made + i].name == faucet_file(input.config.faucets[i].symbol)
            &&& 0 <= i < wallets ==> secrets[made + faucets + i].secret_key
                == input.wallet_keys[i].secret_key && secrets[made + faucets + i].name
                == wallet_file(i as nat, wallets)
        }),
{
    let native = native_entry(input.native)->Ok_0;
    let faucets = all_faucets(input)->Ok_0;
    faucets_are_made_with_their_own_keys(
        native,
        input.config.faucets,
        input.faucet_keys,
        input.config.faucets.len(),
    );
    wallets_are_made_with_their_own_keys(faucets, input.config.wallets, input.wallet_keys);
    if 0 <= i < input.config.faucets.len() {
        assert(faucets[i + 1].symbol == input.config.faucets[i].symbol);
    }
}

/// A secret gives a file exactly if an account of the state has its identifier. The file holds the
/// last such account and the key of the secret, and has the name of the secret if there is one.
pub proof fn files_hold_a_secret_and_its_account(
    accounts: Seq<AccountModel>,
    secret: SecretModel,
    unix_seconds: nat,
    index: nat,
)
    ensures
        match file_of_secret(accounts, secret, unix_seconds, index) {
            Ok(file) => {
                &&& file.secret_key == secret.secret_key
                &&& file.account.id == secret.account_id
                &&& secret.name.len() > 0 ==> file.name == secret.name
                &&& exists|i: int|
                    {
                        &&& 0 <= i < accounts.len()
                        &&& (#[trigger] accounts[i]) == file.account
                        &&& forall|j: int|
                            i < j < accounts.len() ==> (#[trigger] accounts[j]).id
                                != secret.account_id
                    }
            },
            Err(e) => {
                &&& e == (GenesisError::MissingGenesisAccount { account_id: secret.account_id })
                &&& forall|i: int|
                    0 <= i < accounts.len() ==> (#[trigger] accounts[i]).id != secret.account_id
            },
        },
{
    last_account_is_listed(accounts, secret.account_id);
    lemma_last_account(accounts, secret.account_id);
}

/// After the last account with an identifier no other has it.
proof fn lemma_last_account(accounts: Seq<AccountModel>, id: u128)
    ensures
        last_account(accounts, id) matches Some(account) ==> exists|i: int|
            {
                &&& 0 <= i < accounts.len()
                &&& (#[trigger] accounts[i]) == account
                &&& forall|j: int| i < j < accounts.len() ==> (#[trigger] accounts[j]).id != id
            },
    decreases accounts.len(),
{
    if accounts.len() > 0 {
        let before = accounts.drop_last();
        let n = before.len() as int;
        lemma_last_account(before, id);
        if accounts.last().id == id {
            assert(accounts[n] == accounts.last());
        } else if last_account(before, id) is Some {
            let account = last_account(before, id).unwrap();
            let i = choose|i: int|
                {
                    &&& 0 <= i < before.len()
                    &&& (#[trigger] before[i]) == account
                    &&& forall|j: int| i < j < before.len() ==> (#[trigger] before[j]).id != id
                };
            assert(accounts[i] == account);
            assert forall|j: int| i < j < accounts.len() implies (
            #[trigger] accounts[j]).id != id by {
                if j < n {
                    assert(before[j].id != id);
                }
            }
        }
    }
}

// MODELS
// ================================================================================================

/// What has been issued of a token is what is written under its faucet, and nothing if nothing is.
pub proof fn issuance_is_what_is_written(issuance: Map<u128, u64>, faucet_id: u128)
    ensures
        issuance.contains_key(faucet_id) ==> issuance_of(issuance, faucet_id)
            == issuance[faucet_id],
        !issuance.contains_key(faucet_id) ==> issuance_of(issuance, faucet_id) == 0,
{
}

/// What the wallets of a genesis state hold is the sum of their balances, and they are the accounts
/// behind the faucets.
pub proof fn wallets_hold_their_balances(input: GenesisInput, state: StateModel, faucet_id: u128)
    ensures
        held_by_wallets(input, state, faucet_id) == total_balance(
            state.accounts.subrange(
                1 + input.config.faucets.len() as int,
                1 + input.config.faucets.len() as int + input.config.wallets.len() as int,
            ),
            faucet_id,
        ),
{
}

/// Keys, accounts and secrets are looked at one by one, in their order.
pub proof fn lists_are_taken_one_by_one(
    keys: Seq<KeyMaterial>,
    accounts: Seq<Account>,
    secrets: AccountSecrets,
)
    ensures
        key_models(keys).len() == keys.len(),
        forall|i: int| 0 <= i < keys.len() ==> #[trigger] key_models(keys)[i] == keys[i]@,
        account_models(accounts).len() == accounts.len(),
        forall|i: int|
            0 <= i < accounts.len() ==> #[trigger] account_models(accounts)[i] == accounts[i]@,
        secrets@.len() == secrets.secrets@.len(),
        forall|i: int|
            0 <= i < secrets.secrets@.len() ==> {
                &&& (#[trigger] secrets@[i]).name == secrets.secrets@[i].name@
                &&& secrets@[i].account_id == secrets.secrets@[i].account_id@
                &&& secrets@[i].secret_key == secrets.secrets@[i].secret_key@
            },
{
}

/// A genesis state shows its fees, accounts, version and time, and an account file its name, its
/// account and its one key.
pub proof fn states_and_files_show_their_contents<S>(
    state: GenesisState<S>,
    file: AccountFileWithName,
    model: FileModel,
)
    ensures
        state@.fees == state.fee_parameters@,
        state@.version == state.version,
        state@.timestamp == state.timestamp,
        state@.accounts.len() == state.accounts@.len(),
        forall|i: int|
            0 <= i < state.accounts@.len() ==> #[trigger] state@.accounts[i]
                == state.accounts@[i]@,
        file.holds(model) <==> file.name@ == model.name && file.account_file.account@
            == model.account && file.account_file.auth_secret_keys@.len() == 1
            && file.account_file.auth_secret_keys@[0]@ == model.secret_key,
{
}

/// The native faucet is made with the given key or is the account of the given file.
pub proof fn native_faucets_are_taken_as_given(native: NativeFaucet)
    ensures
        match native {
            NativeFaucet::Default(key) => native@ matches NativeModel::Default(k) && k == key@,
            NativeFaucet::Loaded(file) => native@ matches NativeModel::Loaded { path, account }
                && path == file.path@ && account == file.account@,
        },
{
}

/// A total at or above the field order is stored reduced, and is then refused for what it is: if
/// the reduced amount exceeds the maximum, as a supply that is too large, and otherwise as an
/// issuance that exceeds the maximum.
pub proof fn totals_beyond_the_field_are_refused(faucet: FaucetEntry, total: u64)
    requires
        total >= 18_446_744_069_414_584_321,
        faucet.account.token matches Some(token) && token.max_supply <= 9_223_372_034_707_292_160,
    ensures
        ({
            let token = faucet.account.token.unwrap();
            let reduced = (total - 18_446_744_069_414_584_321) as u64;
            let supplied = TokenModel { token_supply: reduced, ..token };
            if reduced > token.max_supply {
                deployed_faucet(faucet, total) == Err::<AccountModel, GenesisError>(
                    GenesisError::TokenMetadata(
                        TokenMetadataError::TokenSupplyExceedsMaxSupply {
                            token_supply: reduced,
                            max_supply: token.max_supply,
                        },
                    ),
                )
            } else {
                match account_after_delta(faucet.account, Some(supplied), Map::empty(), 1) {
                    None => deployed_faucet(faucet, total) == Err::<AccountModel, GenesisError>(
                        GenesisError::Account,
                    ),
                    Some(after) => after.token == Some(supplied) ==> deployed_faucet(faucet, total)
                        == Err::<AccountModel, GenesisError>(
                        GenesisError::MaxIssuanceExceeded {
                            max_supply: token.max_supply,
                            symbol: faucet.symbol,
                            total_issuance: total,
                        },
                    ),
                }
            }
        }),
{
}

/// A genesis state is made from its own configuration and files: the account of the native faucet's
/// file if there is one and a key from a seed if there is none, a key from a seed for each faucet
/// and each wallet, and the accounts of the other files in their order.
pub proof fn states_are_made_from_what_is_given(
    config: GenesisConfig,
    files: GenesisFiles,
    input: GenesisInput,
)
    requires
        is_input(config, files, input),
    ensures
        input.config == config@,
        match files.native_faucet {
            Some(file) => input.native matches NativeModel::Loaded { path, account } && path
                == file.path@ && account == file.account@,
            None => input.native matches NativeModel::Default(key) && exists|seed: Seq<u8>|
                seed.len() == 32 && key == #[trigger] key_material(seed),
        },
        input.faucet_keys.len() == config.fungible_faucet@.len(),
        input.wallet_keys.len() == config.wallet@.len(),
        forall|i: int|
            0 <= i < input.faucet_keys.len() ==> exists|seed: Seq<u8>|
                seed.len() == 32 && (#[trigger] input.faucet_keys[i]) == #[trigger] key_material(
                    seed,
                ),
        forall|i: int|
            0 <= i < input.wallet_keys.len() ==> exists|seed: Seq<u8>|
                seed.len() == 32 && (#[trigger] input.wallet_keys[i]) == #[trigger] key_material(
                    seed,
                ),
        input.files.len() == files.accounts@.len(),
        forall|i: int|
            0 <= i < files.accounts@.len() ==> #[trigger] input.files[i] == files.accounts@[i]@,
{
    assert forall|i: int| 0 <= i < input.faucet_keys.len() implies exists|seed: Seq<u8>|
        seed.len() == 32 && (#[trigger] input.faucet_keys[i]) == #[trigger] key_material(seed) by {
        assert(from_seed(input.faucet_keys[i]));
    }
    assert forall|i: int| 0 <= i < input.wallet_keys.len() implies exists|seed: Seq<u8>|
        seed.len() == 32 && (#[trigger] input.wallet_keys[i]) == #[trigger] key_material(seed) by {
        assert(from_seed(input.wallet_keys[i]));
    }
}

/// Only a fungible faucet from a file needs token metadata, and any will do.
pub proof fn only_fungible_files_need_a_token(files: GenesisFiles, config: GenesisConfig)
    ensures
        files.native_has_token() <==> match files.native_faucet {
            None => true,
            Some(file) => type_of_id(file.account@.id) != AccountType::FungibleFaucet
                || file.account@.token is Some,
        },
        files.native_can_grow() <==> match files.native_faucet {
            None => true,
            Some(file) => file.account@.nonce + 1 < 18_446_744_069_414_584_321,
        },
        files.native_alone(config) <==> config.fungible_faucet@.len() == 0 && config.wallet@.len()
            == 0 && match files.native_faucet {
            None => false,
            Some(file) => type_of_id(file.account@.id) == AccountType::FungibleFaucet,
        },
        files.belong_to(config) <==> (files.native_faucet is Some <==> config.native_faucet is Some)
            && files.accounts@.len() == config.account@.len(),
{
}

/// A native faucet from a file sees one update: its nonce grows by one, and its token keeps all but
/// the issued amount, which becomes what the wallets hold if they hold any.
pub proof fn native_faucets_from_files_are_updated(
    input: GenesisInput,
    state: StateModel,
    faucet_id: u128,
)
    requires
        is_state_of(input, state),
        input.native is Loaded,
    ensures
        input.native matches NativeModel::Loaded { path, account } && {
            let total = held_by_wallets(input, state, account.id);
            let after = state.accounts[0];
            &&& type_of_id(account.id) == AccountType::FungibleFaucet
            &&& after.id == account.id
            &&& after.nonce == account.nonce + 1
            &&& after.balance(faucet_id) == account.balance(faucet_id)
            &&& account.token matches Some(before)
            &&& after.token matches Some(token)
            &&& token.symbol == before.symbol
            &&& token.decimals == before.decimals
            &&& token.max_supply == before.max_supply
            &&& total > 0 ==> token.token_supply == total
            &&& total == 0 ==> token.token_supply == before.token_supply
            &&& total <= token.max_supply
        },
{
    lemma_faucet(input, state, 0);
}

/// A wallet has the type of account that its kind of code calls for.
pub proof fn wallets_of_a_state_have_their_type(input: GenesisInput, state: StateModel, i: int)
    requires
        is_state_of(input, state),
        0 <= i < input.config.wallets.len(),
    ensures
        ({
            let id = state.accounts[1 + input.config.faucets.len() + i].id;
            if input.config.wallets[i].has_updatable_code {
                type_of_id(id) == AccountType::RegularAccountUpdatableCode
            } else {
                type_of_id(id) == AccountType::RegularAccountImmutableCode
            }
        }),
{
    let n = faucet_count(input);
    assert(is_wallet(
        all_faucets(input)->Ok_0,
        input.config.wallets[i],
        input.wallet_keys[i],
        state.accounts[n + i],
    ));
}

/// Distinct names differ pairwise, named secrets have names, and secrets with accounts have the
/// identifier of an account.
pub proof fn secrets_are_told_apart(
    secrets: Seq<SecretModel>,
    state: StateModel,
    i: int,
    j: int,
)
    requires
        0 <= i < j < secrets.len(),
    ensures
        distinct_names(secrets) ==> secrets[i].name != secrets[j].name,
        all_named(secrets) ==> secrets[i].name.len() > 0 && secrets[j].name.len() > 0,
        secrets_have_accounts(secrets, state) ==> exists|k: int|
            0 <= k < state.accounts.len() && (#[trigger] state.accounts[k]).id
                == secrets[i].account_id,
{
    let id = secrets[i].account_id;
    if secrets_have_accounts(secrets, state) {
        assert(exists|k: int|
            0 <= k < state.accounts.len() && (#[trigger] state.accounts[k]).id == id);
    }
}

} // verus!
