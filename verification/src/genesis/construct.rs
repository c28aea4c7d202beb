//! From a configuration to the state that it describes.

use vstd::prelude::*;

use crate::account::{
    account_models, basic_wallet, faucet_account, mode_of_id, nonce_overflows, type_of_id, Account,
    AccountModel, AccountType, StorageMode,
};
use crate::genesis::config::{AssetModel, ConfigModel, FaucetModel, GenesisConfig, WalletModel};
use crate::genesis::deploy::{deploy_faucets, deployed_faucets, is_deployed_faucet};
use crate::genesis::error::{GenesisConfigError, GenesisError};
use crate::genesis::faucets::{
    are_faucets, build_faucets, default_native_faucet, distinct_symbols, faucet_position,
    faucets_before, is_made_with, is_native_faucet, is_new_faucet, native_entry, native_secret,
    FaucetEntry, FaucetTable,
    LoadedAccount, NativeFaucet, NativeModel, DEFAULT_NATIVE_FAUCET_DECIMALS,
    DEFAULT_NATIVE_FAUCET_MAX_SUPPLY, DEFAULT_NATIVE_FAUCET_SYMBOL,
};
use crate::genesis::secrets::{
    all_named, distinct_names, faucet_and_wallet_files_differ, faucet_file, faucet_file_name,
    faucet_files_differ, file_of_secret, last_account_is_listed, wallet_file, wallet_file_name,
    wallet_files_differ, AccountSecret, AccountSecrets, SecretModel,
};
use crate::genesis::state::{FeeModel, FeeParameters, GenesisState, StateModel};
use crate::genesis::wallets::{
    build_wallets, built_wallets, entries_error, entry_error, held, is_wallet, issuance_of, issued,
    issuer, wallet_type,
};
use crate::index::number_entries;
use crate::keys::{falcon_public_key, key_material, key_models, KeyMaterial, KeyModel, SecretKey};
use crate::token::{is_symbol, TokenModel};

verus! {

// OUTCOME
// ================================================================================================

/// All that a genesis state is made from: the configuration, the native faucet, the keys of the
/// other faucets and of the wallets, and the accounts from files.
pub struct GenesisInput {
    pub config: ConfigModel,
    pub native: NativeModel,
    pub faucet_keys: Seq<KeyModel>,
    pub wallet_keys: Seq<KeyModel>,
    pub files: Seq<AccountModel>,
}

/// The secrets of the accounts that were made: of the native faucet if it was, of the other
/// faucets, and of the wallets.
pub open spec fn listed_secrets(
    native: Option<Seq<u8>>,
    faucets: Seq<FaucetEntry>,
    faucet_keys: Seq<KeyModel>,
    wallets: Seq<AccountModel>,
    wallet_keys: Seq<KeyModel>,
) -> Seq<SecretModel> {
    let first = match native {
        Some(secret_key) => seq![
            SecretModel {
                name: faucet_file(faucets[0].symbol),
                account_id: faucets[0].account.id,
                secret_key,
            },
        ],
        None => Seq::empty(),
    };
    first + Seq::new(
        (faucets.len() - 1) as nat,
        |i: int|
            SecretModel {
                name: faucet_file(faucets[i + 1].symbol),
                account_id: faucets[i + 1].account.id,
                secret_key: faucet_keys[i].secret_key,
            },
    ) + Seq::new(
        wallets.len(),
        |i: int|
            SecretModel {
                name: wallet_file(i as nat, wallets.len()),
                account_id: wallets[i].id,
                secret_key: wallet_keys[i].secret_key,
            },
    )
}

/// The faucets before anything is issued.
pub open spec fn all_faucets(input: GenesisInput) -> Result<Seq<FaucetEntry>, GenesisError> {
    match native_entry(input.native) {
        Err(e) => Err(e),
        Ok(native) => faucets_before(
            native,
            input.config.faucets,
            input.faucet_keys,
            input.config.faucets.len(),
        ),
    }
}

/// The genesis state and the secrets that belong to it, or why there are none.
pub open spec fn genesis_outcome(input: GenesisInput) -> Result<
    (StateModel, Seq<SecretModel>),
    GenesisError,
> {
    let config = input.config;
    match all_faucets(input) {
        Err(e) => Err(e),
        Ok(faucets) => match built_wallets(faucets, config.wallets, input.wallet_keys) {
            Err(e) => Err(e),
            Ok(wallets) => match deployed_faucets(
                faucets,
                |id: u128| issued(faucets, config.wallets, id),
            ) {
                Err(e) => Err(e),
                Ok(deployed) => Ok(
                    (
                        StateModel {
                            fees: FeeModel {
                                native_asset_id: faucets[0].account.id,
                                verification_base_fee: config.verification_base_fee,
                            },
                            accounts: deployed + wallets + input.files,
                            version: config.version,
                            timestamp: config.timestamp,
                        },
                        listed_secrets(
                            native_secret(input.native),
                            faucets,
                            input.faucet_keys,
                            wallets,
                            input.wallet_keys,
                        ),
                    ),
                ),
            },
        },
    }
}

/// Inputs that are owed a genesis state: the faucets and the wallets can be made, the wallets hold
/// nothing, and the nonce of a native faucet from a file can grow.
pub open spec fn state_is_owed(input: GenesisInput) -> bool {
    let faucets = all_faucets(input)->Ok_0;
    &&& all_faucets(input) is Ok
    &&& built_wallets(faucets, input.config.wallets, input.wallet_keys) is Ok
    &&& forall|id: u128| #[trigger] issued(faucets, input.config.wallets, id) == 0
    &&& input.native matches NativeModel::Loaded { account, .. } ==> !nonce_overflows(account, 1)
}

/// Inputs that have no genesis state whatever else they hold: the nonce of a native faucet from a
/// file cannot grow.
pub open spec fn state_is_refused(input: GenesisInput) -> bool {
    input.native matches NativeModel::Loaded { account, .. } && nonce_overflows(account, 1)
}

/// A fungible native faucet from a file is owed a state if there is nothing else to make.
proof fn lemma_native_alone(input: GenesisInput)
    requires
        input.native matches NativeModel::Loaded { account, .. } && type_of_id(account.id)
            == AccountType::FungibleFaucet && !nonce_overflows(account, 1),
        input.config.faucets.len() == 0,
        input.config.wallets.len() == 0,
    ensures
        state_is_owed(input),
{
}

// WHAT EVERY STATE FULFILS
// ================================================================================================

/// How much of the token of a faucet the accounts hold together.
pub open spec fn total_balance(accounts: Seq<AccountModel>, faucet_id: u128) -> int
    decreases accounts.len(),
{
    if accounts.len() == 0 {
        0
    } else {
        total_balance(accounts.drop_last(), faucet_id) + accounts.last().balance(faucet_id)
    }
}

/// What holds of every genesis state.
///
/// - The faucets come first, the native one at their head, then the wallets, then the accounts
///   from files, which are taken as they are.
/// - Every faucet has seen one update and counts as issued what the wallets hold of its token,
///   which is no more than its maximum.
/// - Every wallet is made with its own key, holds what its configuration lists and has the nonce
///   one.
pub open spec fn is_genesis_state(
    config: ConfigModel,
    faucets: Seq<FaucetEntry>,
    wallet_keys: Seq<KeyModel>,
    files: Seq<AccountModel>,
    state: StateModel,
) -> bool {
    let n = faucets.len() as int;
    let m = n + config.wallets.len();
    let wallets = state.accounts.subrange(n, m);
    &&& state.version == config.version
    &&& state.timestamp == config.timestamp
    &&& state.fees.verification_base_fee == config.verification_base_fee
    &&& state.fees.native_asset_id == state.accounts[0].id
    &&& state.accounts.len() == m + files.len()
    &&& forall|i: int|
        0 <= i < n ==> is_deployed_faucet(
            faucets[i],
            total_balance(wallets, faucets[i].account.id) as u64,
            #[trigger] state.accounts[i],
        )
    &&& forall|i: int|
        n <= i < m ==> is_wallet(
            faucets,
            config.wallets[i - n],
            wallet_keys[i - n],
            #[trigger] state.accounts[i],
        )
    &&& state.accounts.subrange(m, state.accounts.len() as int) == files
    &&& forall|id: u128| #[trigger] total_balance(wallets, id) == issued(
        faucets,
        config.wallets,
        id,
    )
    &&& forall|id: u128| 0 <= #[trigger] total_balance(wallets, id) <= u64::MAX
}

/// What holds of the secrets of every genesis state: each belongs to an account of the state.
pub open spec fn secrets_have_accounts(secrets: Seq<SecretModel>, state: StateModel) -> bool {
    forall|i: int|
        0 <= i < secrets.len() ==> exists|j: int|
            0 <= j < state.accounts.len() && (#[trigger] state.accounts[j]).id == (
            #[trigger] secrets[i]).account_id
}

/// The token of a configured faucet before anything was issued.
pub open spec fn unissued_token(faucet: FaucetModel) -> TokenModel {
    TokenModel {
        token_supply: 0,
        max_supply: faucet.max_supply,
        decimals: faucet.decimals,
        symbol: faucet.symbol,
    }
}

/// Whether the account at a position of a genesis state has the identifier of the account that is
/// made with the public key of the given secret key.
pub open spec fn opens(input: GenesisInput, state: StateModel, j: int, secret_key: Seq<u8>) -> bool {
    let n = faucet_count(input);
    let public_key = falcon_public_key(secret_key);
    let made = if j == 0 {
        faucet_account(
            input.native->Default_0.init_seed,
            public_key,
            unissued_token(default_native_faucet()),
            default_native_faucet().storage_mode,
        )
    } else if j < n {
        let faucet = input.config.faucets[j - 1];
        faucet_account(
            input.faucet_keys[j - 1].init_seed,
            public_key,
            unissued_token(faucet),
            faucet.storage_mode,
        )
    } else {
        let wallet = input.config.wallets[j - n];
        basic_wallet(
            input.wallet_keys[j - n].init_seed,
            public_key,
            wallet_type(wallet),
            wallet.storage_mode,
        )
    };
    made matches Some(account) && account.id == state.accounts[j].id
}

/// The name of the file for the account at a position of a genesis state.
pub open spec fn name_of_account(input: GenesisInput, j: int) -> Seq<char> {
    let n = faucet_count(input);
    if j == 0 {
        faucet_file(native_entry(input.native)->Ok_0.symbol)
    } else if j < n {
        faucet_file(input.config.faucets[j - 1].symbol)
    } else {
        wallet_file((j - n) as nat, input.config.wallets.len())
    }
}

/// The position of the first account that was made for a genesis state.
pub open spec fn first_made(input: GenesisInput) -> int {
    if input.native is Default {
        0
    } else {
        1
    }
}

/// What holds of the secrets of every genesis state: there is one for each account that was made,
/// in the order of the accounts, and each opens its account.
pub open spec fn secrets_open_accounts(
    input: GenesisInput,
    secrets: Seq<SecretModel>,
    state: StateModel,
) -> bool {
    let first = first_made(input);
    &&& secrets.len() == faucet_count(input) + input.config.wallets.len() - first
    &&& forall|k: int|
        0 <= k < secrets.len() ==> {
            &&& (#[trigger] secrets[k]).account_id == state.accounts[k + first].id
            &&& opens(input, state, k + first, secrets[k].secret_key)
            &&& secrets[k].name == name_of_account(input, k + first)
        }
}

/// Wallets hold together what was issued to them.
proof fn lemma_total_balance(
    faucets: Seq<FaucetEntry>,
    wallets: Seq<WalletModel>,
    keys: Seq<KeyModel>,
    accounts: Seq<AccountModel>,
    faucet_id: u128,
)
    requires
        accounts.len() == wallets.len(),
        forall|i: int|
            0 <= i < accounts.len() ==> is_wallet(
                faucets,
                wallets[i],
                keys[i],
                #[trigger] accounts[i],
            ),
    ensures
        total_balance(accounts, faucet_id) == issued(faucets, wallets, faucet_id),
    decreases accounts.len(),
{
    if accounts.len() > 0 {
        assert forall|i: int| 0 <= i < accounts.drop_last().len() implies is_wallet(
            faucets,
            wallets.drop_last()[i],
            keys[i],
            #[trigger] accounts.drop_last()[i],
        ) by {
            assert(accounts.drop_last()[i] == accounts[i]);
        }
        lemma_total_balance(faucets, wallets.drop_last(), keys, accounts.drop_last(), faucet_id);
        let n = accounts.len() - 1;
        assert(is_wallet(faucets, wallets[n], keys[n], accounts[n]));
        assert(accounts.last().balance(faucet_id) == held(
            faucets,
            wallets.last().assets,
            faucet_id,
        ));
    }
}

/// What holds of every genesis state that is made from the input: it is made of the native
/// faucet, of a new faucet for each configured one, and of the wallets and accounts from files.
pub open spec fn is_state_of(input: GenesisInput, state: StateModel) -> bool {
    let native = native_entry(input.native)->Ok_0;
    let faucets = all_faucets(input)->Ok_0;
    &&& is_native_faucet(input.native, native.account)
    &&& are_faucets(native, input.config.faucets, input.faucet_keys, faucets)
    &&& is_genesis_state(input.config, faucets, input.wallet_keys, input.files, state)
}

/// The number of faucets of a genesis state: the native one and the configured ones.
pub open spec fn faucet_count(input: GenesisInput) -> int {
    input.config.faucets.len() as int + 1
}

/// How much of the token of a faucet the wallets of a genesis state hold.
pub open spec fn held_by_wallets(input: GenesisInput, state: StateModel, faucet_id: u128) -> int {
    let n = faucet_count(input);
    total_balance(state.accounts.subrange(n, n + input.config.wallets.len()), faucet_id)
}

/// What the parts of a genesis state say of one of its faucets.
pub(crate) proof fn lemma_faucet(input: GenesisInput, state: StateModel, i: int)
    requires
        is_state_of(input, state),
        0 <= i < faucet_count(input),
    ensures
        ({
            let faucet = all_faucets(input)->Ok_0[i];
            let total = held_by_wallets(input, state, faucet.account.id);
            &&& 0 <= total <= u64::MAX
            &&& is_deployed_faucet(faucet, total as u64, state.accounts[i])
            &&& i == 0 ==> is_native_faucet(input.native, faucet.account)
            &&& i > 0 ==> is_new_faucet(input.config.faucets[i - 1], faucet.account)
            &&& i > 0 ==> is_made_with(
                input.config.faucets[i - 1],
                input.faucet_keys[i - 1],
                faucet.account,
            )
        }),
{
    let faucets = all_faucets(input)->Ok_0;
    let n = faucet_count(input);
    let wallets = state.accounts.subrange(n, n + input.config.wallets.len());
    let id = faucets[i].account.id;
    assert(faucets.len() == n);
    assert(0 <= total_balance(wallets, id) <= u64::MAX);
    assert(is_deployed_faucet(faucets[i], total_balance(wallets, id) as u64, state.accounts[i]));
    if i > 0 {
        assert(faucets[i].symbol == input.config.faucets[i - 1].symbol);
    }
}

/// In a genesis state every faucet has issued exactly what the wallets hold of its token, and no
/// more than its maximum. A native faucet from a file must not have issued anything before.
pub proof fn issued_is_what_wallets_hold(input: GenesisInput, state: StateModel, i: int)
    requires
        is_state_of(input, state),
        0 <= i < faucet_count(input),
        i == 0 ==> (input.native matches NativeModel::Loaded { account, .. } ==> (
        account.token matches Some(token) ==> token.token_supply == 0)),
    ensures
        ({
            let faucet = state.accounts[i];
            let total = held_by_wallets(input, state, faucet.id);
            &&& faucet.token matches Some(token)
            &&& token.token_supply == total
            &&& total <= token.max_supply
        }),
{
    lemma_faucet(input, state, i);
}

/// The native, the configured faucets and the wallets of a genesis state have the nonce one. A
/// native faucet from a file must have had the nonce zero.
pub proof fn made_accounts_have_nonce_one(input: GenesisInput, state: StateModel, i: int)
    requires
        is_state_of(input, state),
        0 <= i < faucet_count(input) + input.config.wallets.len(),
        i == 0 ==> (input.native matches NativeModel::Loaded { account, .. } ==> account.nonce
            == 0),
    ensures
        state.accounts[i].nonce == 1,
{
    let n = faucet_count(input);
    if i < n {
        lemma_faucet(input, state, i);
    } else {
        assert(is_wallet(
            all_faucets(input)->Ok_0,
            input.config.wallets[i - n],
            input.wallet_keys[i - n],
            state.accounts[i],
        ));
    }
}

/// Without a file, the native faucet of a genesis state is a public one that issues the default
/// native token, of which it has issued what the wallets hold.
pub proof fn default_native_faucet_is_deployed(input: GenesisInput, state: StateModel)
    requires
        is_state_of(input, state),
        input.native is Default,
    ensures
        ({
            let faucet = state.accounts[0];
            &&& type_of_id(faucet.id) == AccountType::FungibleFaucet
            &&& mode_of_id(faucet.id) == Some(StorageMode::Public)
            &&& faucet.nonce == 1
            &&& faucet.token == Some(
                TokenModel {
                    token_supply: held_by_wallets(input, state, faucet.id) as u64,
                    max_supply: DEFAULT_NATIVE_FAUCET_MAX_SUPPLY,
                    decimals: DEFAULT_NATIVE_FAUCET_DECIMALS,
                    symbol: DEFAULT_NATIVE_FAUCET_SYMBOL@,
                },
            )
        }),
{
    lemma_faucet(input, state, 0);
}

/// The identifiers of the accounts that are made for a genesis state carry the configured storage
/// modes.
pub proof fn made_accounts_have_configured_modes(input: GenesisInput, state: StateModel, i: int)
    requires
        is_state_of(input, state),
        1 <= i < faucet_count(input) + input.config.wallets.len(),
    ensures
        mode_of_id(state.accounts[i].id) == Some(
            if i < faucet_count(input) {
                input.config.faucets[i - 1].storage_mode
            } else {
                input.config.wallets[i - faucet_count(input)].storage_mode
            },
        ),
{
    let n = faucet_count(input);
    if i < n {
        lemma_faucet(input, state, i);
    } else {
        assert(is_wallet(
            all_faucets(input)->Ok_0,
            input.config.wallets[i - n],
            input.wallet_keys[i - n],
            state.accounts[i],
        ));
    }
}

/// Faucets precede the wallets: whatever a wallet holds is issued by an account before it.
pub proof fn faucets_precede_wallets(
    input: GenesisInput,
    state: StateModel,
    i: int,
    faucet_id: u128,
)
    requires
        is_state_of(input, state),
        faucet_count(input) <= i < faucet_count(input) + input.config.wallets.len(),
        state.accounts[i].balance(faucet_id) > 0,
    ensures
        exists|j: int|
            0 <= j < faucet_count(input) && (#[trigger] state.accounts[j]).id == faucet_id,
{
    let n = faucet_count(input);
    let faucets = all_faucets(input)->Ok_0;
    let wallet = input.config.wallets[i - n];
    assert(is_wallet(faucets, wallet, input.wallet_keys[i - n], state.accounts[i]));
    let j = lemma_held_has_issuer(faucets, wallet.assets, faucet_id);
    lemma_faucet(input, state, j);
    assert(state.accounts[j].id == faucet_id);
}

proof fn lemma_held_has_issuer(
    faucets: Seq<FaucetEntry>,
    assets: Seq<AssetModel>,
    faucet_id: u128,
) -> (j: int)
    requires
        held(faucets, assets, faucet_id) > 0,
        entries_error(faucets, assets) is None,
    ensures
        0 <= j < faucets.len(),
        faucets[j].account.id == faucet_id,
    decreases assets.len(),
{
    let entry = assets.last();
    if issuer(faucets, entry.symbol) == faucet_id {
        assert(entry_error(faucets, entry) is None);
        faucet_position(faucets, entry.symbol)
    } else {
        lemma_held_has_issuer(faucets, assets.drop_last(), faucet_id)
    }
}

/// Every secret of a genesis state gives an account file under its own name, with an account of
/// the state that has the identifier of the secret.
pub proof fn genesis_secrets_give_files(
    secrets: Seq<SecretModel>,
    state: StateModel,
    unix_seconds: u64,
)
    requires
        secrets_have_accounts(secrets, state),
        all_named(secrets),
    ensures
        forall|i: int|
            0 <= i < secrets.len() ==> {
                &&& file_of_secret(
                    state.accounts,
                    #[trigger] secrets[i],
                    unix_seconds as nat,
                    i as nat,
                ) matches Ok(file)
                &&& file.name == secrets[i].name
                &&& file.secret_key == secrets[i].secret_key
                &&& file.account.id == secrets[i].account_id
                &&& state.accounts.contains(file.account)
            },
{
    assert forall|i: int| 0 <= i < secrets.len() implies {
        &&& file_of_secret(
            state.accounts,
            #[trigger] secrets[i],
            unix_seconds as nat,
            i as nat,
        ) matches Ok(file)
        &&& file.name == secrets[i].name
        &&& file.secret_key == secrets[i].secret_key
        &&& file.account.id == secrets[i].account_id
        &&& state.accounts.contains(file.account)
    } by {
        last_account_is_listed(state.accounts, secrets[i].account_id);
    }
}

// CONSTRUCTION
// ================================================================================================

/// The bytes of a secret key that may be there.
spec fn key_bytes(key: Option<SecretKey>) -> Option<Seq<u8>> {
    match key {
        Some(key) => Some(key@),
        None => None,
    }
}

/// Lists the secrets of the accounts that were made.
fn list_secrets(
    native: Option<SecretKey>,
    faucets: &FaucetTable,
    faucet_keys: &Vec<KeyMaterial>,
    wallets: &Vec<Account>,
    wallet_keys: &Vec<KeyMaterial>,
) -> (r: AccountSecrets)
    requires
        faucets@.len() == faucet_keys@.len() + 1,
        wallets@.len() == wallet_keys@.len(),
        distinct_symbols(faucets@),
    ensures
        all_named(r@),
        distinct_names(r@),
        r@ == listed_secrets(
            key_bytes(native),
            faucets@,
            key_models(faucet_keys@),
            account_models(wallets@),
            key_models(wallet_keys@),
        ),
{
    let mut secrets: Vec<AccountSecret> = Vec::new();
    let ghost native_key = key_bytes(native);
    let ghost expected = listed_secrets(
        native_key,
        faucets@,
        key_models(faucet_keys@),
        account_models(wallets@),
        key_models(wallet_keys@),
    );
    let ghost offset: int = if native is Some {
        1
    } else {
        0
    };
    if let Some(secret_key) = native {
        let (symbol, account) = faucets.entry(0);
        secrets.push(
            AccountSecret {
                name: faucet_file_name(symbol.as_str()),
                account_id: account.id(),
                secret_key,
            },
        );
    }
    let mut i: usize = 0;
    while i < faucet_keys.len()
        invariant
            faucets@.len() == faucet_keys@.len() + 1,
            i <= faucet_keys@.len(),
            0 <= offset <= 1,
            native_key is Some <==> offset == 1,
            expected == listed_secrets(
                native_key,
                faucets@,
                key_models(faucet_keys@),
                account_models(wallets@),
                key_models(wallet_keys@),
            ),
            secrets@.len() == offset + i,
            forall|j: int|
                1 - offset <= j <= i ==> is_symbol((#[trigger] faucets@[j]).symbol),
            forall|j: int| 0 <= j < secrets@.len() ==> (#[trigger] secrets@[j])@ == expected[j],
        decreases faucet_keys@.len() - i,
    {
        let (symbol, account) = faucets.entry(i + 1);
        secrets.push(
            AccountSecret {
                name: faucet_file_name(symbol.as_str()),
                account_id: account.id(),
                secret_key: faucet_keys[i].secret_key().clone(),
            },
        );
        assert(expected[offset + i].name == faucet_file(faucets@[i + 1].symbol));
        i = i + 1;
    }
    let mut k: usize = 0;
    while k < wallets.len()
        invariant
            faucets@.len() == faucet_keys@.len() + 1,
            wallets@.len() == wallet_keys@.len(),
            k <= wallets@.len(),
            0 <= offset <= 1,
            native_key is Some <==> offset == 1,
            expected == listed_secrets(
                native_key,
                faucets@,
                key_models(faucet_keys@),
                account_models(wallets@),
                key_models(wallet_keys@),
            ),
            secrets@.len() == offset + faucet_keys@.len() + k,
            forall|j: int|
                1 - offset <= j < faucets@.len() ==> is_symbol((#[trigger] faucets@[j]).symbol),
            forall|j: int| 0 <= j < secrets@.len() ==> (#[trigger] secrets@[j])@ == expected[j],
        decreases wallets@.len() - k,
    {
        secrets.push(
            AccountSecret {
                name: wallet_file_name(k, wallets.len()),
                account_id: wallets[k].id(),
                secret_key: wallet_keys[k].secret_key().clone(),
            },
        );
        assert(expected[offset + faucet_keys@.len() + k].name == wallet_file(
            k as nat,
            wallets@.len(),
        ));
        k = k + 1;
    }
    let r = AccountSecrets { secrets };
    assert(r@ =~= expected);
    proof {
        let made = offset + faucet_keys@.len();
        let count = wallets@.len();
        reveal_strlit("faucet_");
        reveal_strlit("wallet_");
        assert forall|i: int, j: int| 0 <= i < j < r@.len() implies (#[trigger] r@[i]).name != (
        #[trigger] r@[j]).name by {
            if j < made {
                assert(r@[i].name == faucet_file(faucets@[i + 1 - offset].symbol));
                assert(r@[j].name == faucet_file(faucets@[j + 1 - offset].symbol));
                if r@[i].name == r@[j].name {
                    faucet_files_differ(
                        faucets@[i + 1 - offset].symbol,
                        faucets@[j + 1 - offset].symbol,
                    );
                }
            } else if i < made {
                faucet_and_wallet_files_differ(
                    faucets@[i + 1 - offset].symbol,
                    (j - made) as nat,
                    count,
                );
            } else if r@[i].name == r@[j].name {
                wallet_files_differ((i - made) as nat, (j - made) as nat, count);
            }
        }
    }
    r
}

impl GenesisConfig {
    /// Makes the genesis state with the given keys and the accounts that were read from files,
    /// together with the secrets of all accounts that were made.
    pub fn into_state_with_keys<S>(
        self,
        native: NativeFaucet,
        faucet_keys: Vec<KeyMaterial>,
        wallet_keys: Vec<KeyMaterial>,
        accounts: Vec<Account>,
        signer: S,
    ) -> (r: Result<(GenesisState<S>, AccountSecrets), GenesisConfigError>)
        requires
            native@.has_token(),
            faucet_keys@.len() == self.fungible_faucet@.len(),
            wallet_keys@.len() == self.wallet@.len(),
        ensures
            ({
                let input = GenesisInput {
                    config: self@,
                    native: native@,
                    faucet_keys: key_models(faucet_keys@),
                    wallet_keys: key_models(wallet_keys@),
                    files: account_models(accounts@),
                };
                match genesis_outcome(input) {
                    Ok(outcome) => {
                        &&& r matches Ok(built)
                        &&& built.0@ == outcome.0
                        &&& built.0.block_signer == signer
                        &&& built.1@ == outcome.1
                        &&& is_state_of(input, outcome.0)
                        &&& !state_is_refused(input)
                        &&& secrets_open_accounts(input, outcome.1, outcome.0)
                        &&& secrets_have_accounts(outcome.1, outcome.0)
                        &&& all_named(outcome.1)
                        &&& distinct_names(outcome.1)
                    },
                    Err(e) => {
                        &&& r matches Err(error)
                        &&& error@ == e
                        &&& !state_is_owed(input)
                    },
                }
            }),
    {
        let ghost input = GenesisInput {
            config: self@,
            native: native@,
            faucet_keys: key_models(faucet_keys@),
            wallet_keys: key_models(wallet_keys@),
            files: account_models(accounts@),
        };
        let (native_account, symbol, native_key) = match native.build_account() {
            Ok(built) => built,
            Err(e) => { return Err(e); },
        };
        let native_id = native_account.id();
        let faucets = match build_faucets(
            symbol,
            native_account,
            &self.fungible_faucet,
            &faucet_keys,
        ) {
            Ok(faucets) => faucets,
            Err(e) => { return Err(e); },
        };
        let fee_parameters = match FeeParameters::new(
            native_id,
            self.fee_parameters.verification_base_fee,
        ) {
            Ok(fee_parameters) => fee_parameters,
            Err(e) => { return Err(e); },
        };
        let (mut wallets, issuance) = match build_wallets(&self.wallet, &wallet_keys, &faucets) {
            Ok(built) => built,
            Err(e) => { return Err(e); },
        };
        let ghost wallet_seq = account_models(wallets@);
        let secrets = list_secrets(native_key, &faucets, &faucet_keys, &wallets, &wallet_keys);
        proof {
            let from_index = |id: u128| issuance_of(number_entries(issuance), id) as int;
            let from_wallets = |id: u128| issued(faucets@, self@.wallets, id);
            assert(from_index =~= from_wallets);
        }
        proof {
            assert forall|i: int| 0 <= i < faucets@.len() implies {
                &&& (#[trigger] faucets@[i]).account.token is Some
                &&& !nonce_overflows(faucets@[i].account, 1) || i == 0
            } by {
                if i > 0 {
                    assert(faucets@[i].symbol == self@.faucets[i - 1].symbol);
                }
            }
            assert(faucets@[0].account == native_entry(input.native)->Ok_0.account);
            if state_is_owed(input) {
                assert forall|i: int| 0 <= i < faucets@.len() implies issuance_of(
                    number_entries(issuance),
                    (#[trigger] faucets@[i]).account.id,
                ) == 0 && !nonce_overflows(faucets@[i].account, 1) by {
                    let id = faucets@[i].account.id;
                    assert(issued(faucets@, self@.wallets, id) == 0);
                    assert(issuance_of(number_entries(issuance), id) == issued(
                        faucets@,
                        self@.wallets,
                        id,
                    ));
                }
            }
        }
        let mut all_accounts = match deploy_faucets(&faucets, &issuance) {
            Ok(deployed) => deployed,
            Err(e) => { return Err(e); },
        };
        let ghost deployed = account_models(all_accounts@);
        let mut files = accounts;
        all_accounts.append(&mut wallets);
        all_accounts.append(&mut files);
        proof {
            let n = faucets@.len() as int;
            let m = n + wallet_seq.len();
            let all = account_models(all_accounts@);
            assert(all =~= deployed + wallet_seq + input.files);
            assert(all.subrange(n, m) =~= wallet_seq);
            assert(all.subrange(m, all.len() as int) =~= input.files);
            assert forall|id: u128| #[trigger] total_balance(wallet_seq, id) == issuance_of(
                number_entries(issuance),
                id,
            ) && total_balance(wallet_seq, id) == issued(faucets@, self@.wallets, id) by {
                lemma_total_balance(faucets@, self@.wallets, input.wallet_keys, wallet_seq, id);
            }
            assert forall|i: int| 0 <= i < n implies is_deployed_faucet(
                faucets@[i],
                total_balance(wallet_seq, faucets@[i].account.id) as u64,
                #[trigger] all[i],
            ) by {
                assert(all[i] == deployed[i]);
            }
            assert forall|i: int| n <= i < m implies is_wallet(
                faucets@,
                self@.wallets[i - n],
                input.wallet_keys[i - n],
                #[trigger] all[i],
            ) by {
                assert(all[i] == wallet_seq[i - n]);
            }
            let offset: int = if native_secret(input.native) is Some {
                0
            } else {
                1
            };
            assert forall|i: int| 0 <= i < secrets@.len() implies exists|j: int|
                0 <= j < all.len() && (#[trigger] all[j]).id == (
                #[trigger] secrets@[i]).account_id by {
                assert(all[i + offset].id == secrets@[i].account_id);
            }
            let built = StateModel {
                fees: fee_parameters@,
                accounts: all,
                version: self.version,
                timestamp: self.timestamp,
            };
            assert forall|k: int| 0 <= k < secrets@.len() implies {
                &&& (#[trigger] secrets@[k]).account_id == all[k + offset].id
                &&& opens(input, built, k + offset, secrets@[k].secret_key)
                &&& secrets@[k].name == name_of_account(input, k + offset)
            } by {
                let j = k + offset;
                if j < n {
                    assert(is_deployed_faucet(
                        faucets@[j],
                        total_balance(wallet_seq, faucets@[j].account.id) as u64,
                        all[j],
                    ));
                    if j > 0 {
                        assert(faucets@[j].symbol == self@.faucets[j - 1].symbol);
                    }
                } else {
                    assert(is_wallet(
                        faucets@,
                        self@.wallets[j - n],
                        input.wallet_keys[j - n],
                        all[j],
                    ));
                }
            }
        }
        let state = GenesisState {
            fee_parameters,
            accounts: all_accounts,
            version: self.version,
            timestamp: self.timestamp,
            block_signer: signer,
        };
        Ok((state, secrets))
    }

    /// Makes the genesis state with fresh keys and the accounts that were read from files,
    /// together with the secrets of all accounts that were made.
    pub fn into_state<S>(self, files: GenesisFiles, signer: S) -> (r: Result<
        (GenesisState<S>, AccountSecrets),
        GenesisConfigError,
    >)
        requires
            files.belong_to(self),
            files.native_has_token(),
        ensures
            exists|input: GenesisInput|
                {
                    &&& is_input(self, files, input)
                    &&& match #[trigger] genesis_outcome(input) {
                        Ok(outcome) => {
                            &&& r matches Ok(built)
                            &&& built.0@ == outcome.0
                            &&& built.1@ == outcome.1
                            &&& is_state_of(input, outcome.0)
                            &&& secrets_open_accounts(input, outcome.1, outcome.0)
                            &&& !state_is_refused(input)
                        },
                        Err(e) => {
                            &&& r matches Err(error)
                            &&& error@ == e
                            &&& !state_is_owed(input)
                        },
                    }
                },
            files.native_alone(self) ==> (r is Ok <==> files.native_can_grow()),
            r matches Ok(built) ==> {
                &&& built.0.block_signer == signer
                &&& secrets_have_accounts(built.1@, built.0@)
                &&& all_named(built.1@)
                &&& distinct_names(built.1@)
            },
    {
        let native = NativeFaucet::new(files.native_faucet);
        let faucet_keys = generate_keys(self.fungible_faucet.len());
        let wallet_keys = generate_keys(self.wallet.len());
        let ghost input = GenesisInput {
            config: self@,
            native: native@,
            faucet_keys: key_models(faucet_keys@),
            wallet_keys: key_models(wallet_keys@),
            files: account_models(files.accounts@),
        };
        assert(is_input(self, files, input));
        proof {
            if files.native_alone(self) && files.native_can_grow() {
                lemma_native_alone(input);
            }
        }
        self.into_state_with_keys(native, faucet_keys, wallet_keys, files.accounts, signer)
    }

    /// Does what [`GenesisConfig::into_state`] does, unless the native faucet's file holds a
    /// fungible faucet without token metadata, of which no state can be made.
    pub fn try_into_state<S>(self, files: GenesisFiles, signer: S) -> (r: Option<
        Result<(GenesisState<S>, AccountSecrets), GenesisConfigError>,
    >)
        requires
            files.belong_to(self),
        ensures
            r is Some <==> files.native_has_token(),
            r matches Some(outcome) ==> exists|input: GenesisInput|
                {
                    &&& is_input(self, files, input)
                    &&& match #[trigger] genesis_outcome(input) {
                        Ok(expected) => {
                            &&& outcome matches Ok(built)
                            &&& built.0@ == expected.0
                            &&& built.1@ == expected.1
                            &&& is_state_of(input, expected.0)
                            &&& secrets_open_accounts(input, expected.1, expected.0)
                            &&& !state_is_refused(input)
                        },
                        Err(e) => {
                            &&& outcome matches Err(error)
                            &&& error@ == e
                            &&& !state_is_owed(input)
                        },
                    }
                },
            r matches Some(outcome) ==> (files.native_alone(self) ==> (outcome is Ok
                <==> files.native_can_grow())),
            r matches Some(Ok(built)) ==> {
                &&& built.0.block_signer == signer
                &&& secrets_have_accounts(built.1@, built.0@)
                &&& all_named(built.1@)
                &&& distinct_names(built.1@)
            },
    {
        let usable = match &files.native_faucet {
            None => true,
            Some(file) => file.account.id().account_type() != AccountType::FungibleFaucet
                || file.account.token_metadata().is_ok(),
        };
        if usable {
            Some(self.into_state(files, signer))
        } else {
            None
        }
    }
}

/// The accounts that a configuration has read from files.
#[derive(Debug)]
pub struct GenesisFiles {
    /// The account in the native faucet's file, if the configuration names one.
    pub native_faucet: Option<LoadedAccount>,
    /// The accounts of the other files, in the order of the configuration.
    pub accounts: Vec<Account>,
}

impl GenesisFiles {
    /// Whether there is an account for each file that the configuration names.
    pub open spec fn belong_to(self, config: GenesisConfig) -> bool {
        &&& self.native_faucet is Some <==> config.native_faucet is Some
        &&& self.accounts@.len() == config.account@.len()
    }

    /// Whether the native faucet, if it is from a file and fungible, has token metadata.
    pub open spec fn native_has_token(self) -> bool {
        match self.native_faucet {
            Some(file) => NativeModel::Loaded {
                path: file.path@,
                account: file.account@,
            }.has_token(),
            None => true,
        }
    }

    /// Whether the native faucet is a fungible faucet from a file, and the configuration has no
    /// other faucet and no wallet.
    pub open spec fn native_alone(self, config: GenesisConfig) -> bool {
        &&& self.native_faucet matches Some(file)
        &&& type_of_id(file.account@.id) == AccountType::FungibleFaucet
        &&& config.fungible_faucet@.len() == 0
        &&& config.wallet@.len() == 0
    }

    /// Whether the nonce of the native faucet, if it is from a file, can grow by one.
    pub open spec fn native_can_grow(self) -> bool {
        self.native_faucet matches Some(file) ==> !nonce_overflows(file.account@, 1)
    }
}

/// Whether key material comes from a seed.
pub open spec fn from_seed(key: KeyModel) -> bool {
    exists|seed: Seq<u8>| seed.len() == 32 && key == #[trigger] key_material(seed)
}

/// Whether a genesis state of the configuration and its files may be made from the input: every
/// key comes from some seed.
pub open spec fn is_input(config: GenesisConfig, files: GenesisFiles, input: GenesisInput) -> bool {
    &&& input.config == config@
    &&& match files.native_faucet {
        Some(file) => input.native == (NativeModel::Loaded {
            path: file.path@,
            account: file.account@,
        }),
        None => input.native matches NativeModel::Default(key) && from_seed(key),
    }
    &&& input.faucet_keys.len() == config.fungible_faucet@.len()
    &&& forall|i: int|
        0 <= i < input.faucet_keys.len() ==> from_seed(#[trigger] input.faucet_keys[i])
    &&& input.wallet_keys.len() == config.wallet@.len()
    &&& forall|i: int|
        0 <= i < input.wallet_keys.len() ==> from_seed(#[trigger] input.wallet_keys[i])
    &&& input.files == account_models(files.accounts@)
}

/// Fresh key material for a number of accounts.
fn generate_keys(count: usize) -> (keys: Vec<KeyMaterial>)
    ensures
        keys@.len() == count,
        forall|i: int| 0 <= i < count ==> from_seed((#[trigger] keys@[i])@),
{
    let mut keys: Vec<KeyMaterial> = Vec::new();
    while keys.len() < count
        invariant
            keys@.len() <= count,
            forall|i: int| 0 <= i < keys@.len() ==> from_seed((#[trigger] keys@[i])@),
        decreases count - keys@.len(),
    {
        keys.push(KeyMaterial::generate());
    }
    keys
}

} // verus!
