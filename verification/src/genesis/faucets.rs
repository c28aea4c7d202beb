//! The faucets of a genesis state: the native one, and those that a configuration adds.

use indexmap::IndexMap;
use vstd::prelude::*;

use crate::account::{
    faucet_account, mode_of_id, type_of_id, Account, AccountModel, AccountType, StorageMode,
};
use crate::genesis::config::{faucet_models, FaucetModel, FungibleFaucetConfig};
use crate::genesis::error::{GenesisConfigError, GenesisError};
use crate::index::{get_text, insert_text, new_text_index, text_entries};
use crate::keys::{key_material, key_models, KeyMaterial, KeyModel, SecretKey};
use crate::token::{new_token, TokenMetadata, TokenModel, TokenSymbolStr};

verus! {

/// The symbol of the default native token.
pub const DEFAULT_NATIVE_FAUCET_SYMBOL: &'static str = "MIDEN";

/// The decimals of the default native token.
pub const DEFAULT_NATIVE_FAUCET_DECIMALS: u8 = 6;

/// The largest amount of the default native token that can be issued.
pub const DEFAULT_NATIVE_FAUCET_MAX_SUPPLY: u64 = 100_000_000_000_000_000;

// CONFIGURED FAUCETS
// ================================================================================================

/// The account of a configured faucet, made with the given key, or why there is none.
pub open spec fn built_faucet(faucet: FaucetModel, key: KeyModel) -> Result<
    AccountModel,
    GenesisError,
> {
    match new_token(faucet.symbol, faucet.decimals, faucet.max_supply) {
        Err(e) => Err(GenesisError::TokenMetadata(e)),
        Ok(token) => match faucet_account(
            key.init_seed,
            key.public_key(),
            token,
            faucet.storage_mode,
        ) {
            Some(account) => Ok(account),
            None => Err(GenesisError::Account),
        },
    }
}

/// What holds of every newly made faucet account: it is a fungible faucet with the configured
/// storage mode that no one has used, and nothing of the configured token has been issued.
pub open spec fn is_new_faucet(faucet: FaucetModel, account: AccountModel) -> bool {
    &&& type_of_id(account.id) == AccountType::FungibleFaucet
    &&& mode_of_id(account.id) == Some(faucet.storage_mode)
    &&& account.nonce == 0
    &&& new_token(faucet.symbol, faucet.decimals, faucet.max_supply) is Ok
    &&& account.token == Some(
        new_token(faucet.symbol, faucet.decimals, faucet.max_supply)->Ok_0,
    )
}

/// Whether the account is the one that the protocol makes with the given key for the configured
/// token, of which nothing has been issued.
pub open spec fn is_made_with(faucet: FaucetModel, key: KeyModel, account: AccountModel) -> bool {
    let token = TokenModel {
        token_supply: 0,
        max_supply: faucet.max_supply,
        decimals: faucet.decimals,
        symbol: faucet.symbol,
    };
    faucet_account(key.init_seed, key.public_key(), token, faucet.storage_mode) == Some(account)
}

impl FungibleFaucetConfig {
    /// Makes the faucet account with a fresh key, which is handed out beside it.
    pub fn build_account(&self) -> (r: Result<(Account, SecretKey), GenesisConfigError>)
        ensures
            exists|seed: Seq<u8>|
                seed.len() == 32 && match built_faucet(self@, #[trigger] key_material(seed)) {
                    Ok(account) => r matches Ok(built) && built.0@ == account && built.1@
                        == key_material(seed).secret_key,
                    Err(e) => r matches Err(error) && error@ == e,
                },
            r matches Ok(built) ==> is_new_faucet(self@, built.0@),
    {
        let key = KeyMaterial::generate();
        match self.build_account_with(&key) {
            Ok(account) => Ok((account, key.secret_key().clone())),
            Err(e) => Err(e),
        }
    }

    /// Makes the faucet account with the given key.
    pub fn build_account_with(&self, key: &KeyMaterial) -> (r: Result<Account, GenesisConfigError>)
        ensures
            match built_faucet(self@, key@) {
                Ok(account) => r matches Ok(built) && built@ == account,
                Err(e) => r matches Err(error) && error@ == e,
            },
            r matches Ok(built) ==> is_new_faucet(self@, built@),
            r matches Ok(built) ==> is_made_with(self@, key@, built@),
    {
        let token = match TokenMetadata::new(self.symbol.clone(), self.decimals, self.max_supply) {
            Ok(token) => token,
            Err(e) => { return Err(GenesisConfigError::TokenMetadata(e)); },
        };
        match Account::new_faucet(key.init_seed(), key.public_key(), &token, self.storage_mode) {
            Ok(account) => Ok(account),
            Err(e) => Err(GenesisConfigError::Account(e)),
        }
    }
}

// NATIVE FAUCET
// ================================================================================================

/// The configuration of the native faucet that is made when no file gives one.
pub open spec fn default_native_faucet() -> FaucetModel {
    FaucetModel {
        symbol: DEFAULT_NATIVE_FAUCET_SYMBOL@,
        decimals: DEFAULT_NATIVE_FAUCET_DECIMALS,
        max_supply: DEFAULT_NATIVE_FAUCET_MAX_SUPPLY,
        storage_mode: StorageMode::Public,
    }
}

/// An account that was read from a file, with the path of the file.
#[derive(Debug)]
pub struct LoadedAccount {
    pub path: String,
    pub account: Account,
}

/// The native faucet: made with a key, or read from a file.
#[derive(Debug)]
pub enum NativeFaucet {
    Default(KeyMaterial),
    Loaded(LoadedAccount),
}

/// The native faucet, as plain values.
pub enum NativeModel {
    Default(KeyModel),
    Loaded { path: Seq<char>, account: AccountModel },
}

impl View for NativeFaucet {
    type V = NativeModel;

    open spec fn view(&self) -> NativeModel {
        match *self {
            NativeFaucet::Default(key) => NativeModel::Default(key@),
            NativeFaucet::Loaded(file) => {
                NativeModel::Loaded { path: file.path@, account: file.account@ }
            },
        }
    }
}

impl NativeModel {
    /// A fungible faucet from a file keeps token metadata in its storage.
    pub open spec fn has_token(self) -> bool {
        match self {
            NativeModel::Default(_) => true,
            NativeModel::Loaded { account, .. } => type_of_id(account.id)
                == AccountType::FungibleFaucet ==> account.token is Some,
        }
    }
}

/// A faucet account under the symbol of its token.
pub struct FaucetEntry {
    pub symbol: Seq<char>,
    pub account: AccountModel,
}

/// The native faucet under its symbol, or why there is none.
pub open spec fn native_entry(native: NativeModel) -> Result<FaucetEntry, GenesisError> {
    match native {
        NativeModel::Default(key) => match built_faucet(default_native_faucet(), key) {
            Ok(account) => Ok(FaucetEntry { symbol: DEFAULT_NATIVE_FAUCET_SYMBOL@, account }),
            Err(e) => Err(e),
        },
        NativeModel::Loaded { path, account } => {
            if type_of_id(account.id) != AccountType::FungibleFaucet {
                Err(GenesisError::NativeFaucetNotFungible { path })
            } else {
                Ok(FaucetEntry { symbol: account.token.unwrap().symbol, account })
            }
        },
    }
}

/// What holds of every native faucet account: it is the one of its file, or a new faucet of the
/// default native token.
pub open spec fn is_native_faucet(native: NativeModel, account: AccountModel) -> bool {
    match native {
        NativeModel::Default(key) => is_new_faucet(default_native_faucet(), account)
            && is_made_with(default_native_faucet(), key, account),
        NativeModel::Loaded { account: loaded, .. } => account == loaded && type_of_id(account.id)
            == AccountType::FungibleFaucet,
    }
}

/// The secret that making the native faucet leaves behind: none for a faucet from a file.
pub open spec fn native_secret(native: NativeModel) -> Option<Seq<u8>> {
    match native {
        NativeModel::Default(key) => Some(key.secret_key),
        NativeModel::Loaded { .. } => None,
    }
}

/// The default native token has a valid symbol.
proof fn lemma_default_symbol()
    ensures
        crate::token::is_symbol(DEFAULT_NATIVE_FAUCET_SYMBOL@),
{
    reveal_strlit("MIDEN");
}

impl NativeFaucet {
    /// The native faucet of a configuration: the account of its file, or a new one with a fresh
    /// key.
    pub fn new(file: Option<LoadedAccount>) -> (r: Self)
        ensures
            match file {
                Some(loaded) => r == NativeFaucet::Loaded(loaded),
                None => exists|seed: Seq<u8>|
                    seed.len() == 32 && r@ == NativeModel::Default(#[trigger] key_material(seed)),
            },
    {
        match file {
            Some(loaded) => NativeFaucet::Loaded(loaded),
            None => NativeFaucet::Default(KeyMaterial::generate()),
        }
    }

    /// Makes or takes over the native faucet account.
    ///
    /// For a new faucet the secret key is handed out. An account from a file has to be a fungible
    /// faucet, and its symbol is that of the token in its storage.
    pub fn build_account(self) -> (r: Result<
        (Account, TokenSymbolStr, Option<SecretKey>),
        GenesisConfigError,
    >)
        requires
            self@.has_token(),
        ensures
            match native_entry(self@) {
                Ok(entry) => {
                    &&& r matches Ok(built)
                    &&& built.0@ == entry.account
                    &&& built.1@ == entry.symbol
                    &&& match native_secret(self@) {
                        Some(secret) => built.2 matches Some(key) && key@ == secret,
                        None => built.2 is None,
                    }
                },
                Err(e) => r matches Err(error) && error@ == e,
            },
            r matches Ok(built) ==> is_native_faucet(self@, built.0@),
    {
        match self {
            NativeFaucet::Default(key) => {
                proof {
                    lemma_default_symbol();
                }
                let symbol = TokenSymbolStr::from_str(DEFAULT_NATIVE_FAUCET_SYMBOL).unwrap();
                let config = FungibleFaucetConfig {
                    symbol: symbol.clone(),
                    decimals: DEFAULT_NATIVE_FAUCET_DECIMALS,
                    max_supply: DEFAULT_NATIVE_FAUCET_MAX_SUPPLY,
                    storage_mode: StorageMode::Public,
                };
                match config.build_account_with(&key) {
                    Ok(account) => Ok((account, symbol, Some(key.secret_key().clone()))),
                    Err(e) => Err(e),
                }
            },
            NativeFaucet::Loaded(file) => {
                if file.account.id().account_type() != AccountType::FungibleFaucet {
                    return Err(GenesisConfigError::NativeFaucetNotFungible { path: file.path });
                }
                match file.account.token_metadata() {
                    Ok(metadata) => {
                        let symbol = metadata.symbol().clone();
                        Ok((file.account, symbol, None))
                    },
                    Err(e) => Err(GenesisConfigError::FungibleFaucet(e)),
                }
            },
        }
    }
}

// ALL FAUCETS
// ================================================================================================

/// Whether one of the faucets issues the token.
pub open spec fn has_faucet(faucets: Seq<FaucetEntry>, symbol: Seq<char>) -> bool {
    exists|i: int| 0 <= i < faucets.len() && #[trigger] faucets[i].symbol == symbol
}

/// The native faucet followed by the first `n` configured faucets, or the first thing that is
/// wrong with them.
pub open spec fn faucets_before(
    native: FaucetEntry,
    configs: Seq<FaucetModel>,
    keys: Seq<KeyModel>,
    n: nat,
) -> Result<Seq<FaucetEntry>, GenesisError>
    decreases n,
{
    if n == 0 {
        Ok(seq![native])
    } else {
        match faucets_before(native, configs, keys, (n - 1) as nat) {
            Err(e) => Err(e),
            Ok(faucets) => {
                let config = configs[n - 1];
                match built_faucet(config, keys[n - 1]) {
                    Err(e) => Err(e),
                    Ok(account) => if has_faucet(faucets, config.symbol) {
                        Err(GenesisError::DuplicateFaucetDefinition { symbol: config.symbol })
                    } else {
                        Ok(faucets.push(FaucetEntry { symbol: config.symbol, account }))
                    },
                }
            },
        }
    }
}

/// What is wrong with the first faucets is wrong with more of them.
proof fn lemma_faucets_error(
    native: FaucetEntry,
    configs: Seq<FaucetModel>,
    keys: Seq<KeyModel>,
    n: nat,
    m: nat,
)
    requires
        n <= m,
        faucets_before(native, configs, keys, n) is Err,
    ensures
        faucets_before(native, configs, keys, m) == faucets_before(native, configs, keys, n),
    decreases m,
{
    if n < m {
        lemma_faucets_error(native, configs, keys, n, (m - 1) as nat);
    }
}

/// The faucet accounts of a genesis state, in the order of their definition, each under the
/// symbol of its token.
#[derive(Debug)]
pub struct FaucetTable {
    entries: Vec<(TokenSymbolStr, Account)>,
    index: IndexMap<String, usize>,
}

impl View for FaucetTable {
    type V = Seq<FaucetEntry>;

    closed spec fn view(&self) -> Seq<FaucetEntry> {
        self.entries@.map_values(
            |entry: (TokenSymbolStr, Account)|
                FaucetEntry { symbol: entry.0@, account: entry.1@ },
        )
    }
}

/// The position of the faucet that issues a token.
pub open spec fn faucet_position(faucets: Seq<FaucetEntry>, symbol: Seq<char>) -> int {
    choose|i: int| 0 <= i < faucets.len() && #[trigger] faucets[i].symbol == symbol
}

/// No token is issued by two faucets.
pub open spec fn distinct_symbols(faucets: Seq<FaucetEntry>) -> bool {
    forall|i: int, j: int|
        0 <= i < j < faucets.len() ==> (#[trigger] faucets[i]).symbol != (
        #[trigger] faucets[j]).symbol
}

impl FaucetTable {
    /// The index leads from each symbol to the position of its faucet, and from nothing else.
    pub closed spec fn wf(&self) -> bool {
        &&& distinct_symbols(self@)
        &&& forall|i: int|
            0 <= i < self@.len() ==> text_entries(self.index).contains_key(
                (#[trigger] self@[i]).symbol,
            )
        &&& forall|symbol: Seq<char>| #[trigger]
            text_entries(self.index).contains_key(symbol) ==> {
                let i = text_entries(self.index)[symbol];
                i < self@.len() && self@[i as int].symbol == symbol
            }
    }

    /// No token is issued by two faucets of a table.
    proof fn distinct(&self)
        requires
            self.wf(),
        ensures
            distinct_symbols(self@),
    {
    }

    /// A table that holds the native faucet.
    pub fn new(symbol: TokenSymbolStr, account: Account) -> (r: Self)
        ensures
            r.wf(),
            r@ == seq![FaucetEntry { symbol: symbol@, account: account@ }],
    {
        let mut index = new_text_index();
        let _ = insert_text(&mut index, symbol.as_str().to_owned(), 0);
        let mut entries: Vec<(TokenSymbolStr, Account)> = Vec::new();
        entries.push((symbol, account));
        let r = FaucetTable { entries, index };
        assert(r@ =~= seq![FaucetEntry { symbol: symbol@, account: account@ }]);
        r
    }

    /// Appends a faucet, unless another one issues the same token.
    pub fn insert(&mut self, symbol: TokenSymbolStr, account: Account) -> (inserted: bool)
        requires
            old(self).wf(),
        ensures
            final(self).wf(),
            inserted == !has_faucet(old(self)@, symbol@),
            final(self)@ == if inserted {
                old(self)@.push(FaucetEntry { symbol: symbol@, account: account@ })
            } else {
                old(self)@
            },
    {
        let ghost before = self@;
        let position: usize = self.entries.len();
        let replaced = insert_text(&mut self.index, symbol.as_str().to_owned(), position);
        if let Some(previous) = replaced {
            let _ = insert_text(&mut self.index, symbol.as_str().to_owned(), previous);
            assert(text_entries(self.index) =~= text_entries(old(self).index));
            assert(before[previous as int].symbol == symbol@);
            return false;
        }
        assert(!has_faucet(before, symbol@));
        let ghost entry = FaucetEntry { symbol: symbol@, account: account@ };
        self.entries.push((symbol, account));
        assert(self@ =~= before.push(entry));
        true
    }

    /// The number of faucets.
    pub fn len(&self) -> (r: usize)
        ensures
            r == self@.len(),
    {
        self.entries.len()
    }

    /// The faucet at a position, with the symbol of its token.
    pub fn entry(&self, i: usize) -> (r: (&TokenSymbolStr, &Account))
        requires
            i < self@.len(),
        ensures
            r.0@ == self@[i as int].symbol,
            r.1@ == self@[i as int].account,
    {
        let entry = &self.entries[i];
        (&entry.0, &entry.1)
    }

    /// The account of the faucet that issues a token.
    pub fn get(&self, symbol: &TokenSymbolStr) -> (r: Option<&Account>)
        requires
            self.wf(),
        ensures
            r is Some <==> has_faucet(self@, symbol@),
            r matches Some(account) ==> account@ == self@[faucet_position(
                self@,
                symbol@,
            )].account,
    {
        match get_text(&self.index, symbol.as_str()) {
            Some(i) => {
                assert(self@[i as int].symbol == symbol@);
                assert(faucet_position(self@, symbol@) == i);
                Some(&self.entries[i].1)
            },
            None => {
                assert(!has_faucet(self@, symbol@)) by {
                    if has_faucet(self@, symbol@) {
                        let i = faucet_position(self@, symbol@);
                        assert(text_entries(self.index).contains_key(self@[i].symbol));
                    }
                }
                None
            },
        }
    }
}

/// What holds of the faucets of every configuration: the native faucet comes first, then one new
/// faucet for each configured one, made with its key, and no token is issued twice.
pub open spec fn are_faucets(
    native: FaucetEntry,
    configs: Seq<FaucetModel>,
    keys: Seq<KeyModel>,
    faucets: Seq<FaucetEntry>,
) -> bool {
    &&& faucets.len() == configs.len() + 1
    &&& faucets[0] == native
    &&& distinct_symbols(faucets)
    &&& forall|i: int|
        1 <= i < faucets.len() ==> {
            &&& (#[trigger] faucets[i]).symbol == configs[i - 1].symbol
            &&& is_new_faucet(configs[i - 1], faucets[i].account)
            &&& is_made_with(configs[i - 1], keys[i - 1], faucets[i].account)
        }
}

/// Makes the configured faucets, each with its key, and puts them behind the native one.
pub fn build_faucets(
    symbol: TokenSymbolStr,
    native: Account,
    configs: &Vec<FungibleFaucetConfig>,
    keys: &Vec<KeyMaterial>,
) -> (r: Result<FaucetTable, GenesisConfigError>)
    requires
        keys@.len() == configs@.len(),
    ensures
        ({
            let first = FaucetEntry { symbol: symbol@, account: native@ };
            let models = faucet_models(configs@);
            match faucets_before(first, models, key_models(keys@), models.len()) {
                Ok(faucets) => {
                    &&& r matches Ok(table)
                    &&& table.wf()
                    &&& table@ == faucets
                    &&& are_faucets(first, models, key_models(keys@), faucets)
                },
                Err(e) => r matches Err(error) && error@ == e,
            }
        }),
{
    let ghost first = FaucetEntry { symbol: symbol@, account: native@ };
    let ghost models = faucet_models(configs@);
    let ghost key_seq = key_models(keys@);
    let mut table = FaucetTable::new(symbol, native);
    let mut i: usize = 0;
    while i < configs.len()
        invariant
            keys@.len() == configs@.len(),
            first == (FaucetEntry { symbol: symbol@, account: native@ }),
            models == faucet_models(configs@),
            key_seq == key_models(keys@),
            i <= configs@.len(),
            table.wf(),
            faucets_before(first, models, key_seq, i as nat) == Ok::<
                Seq<FaucetEntry>,
                GenesisError,
            >(table@),
            table@.len() == i + 1,
            table@[0] == first,
            forall|j: int|
                1 <= j < table@.len() ==> {
                    &&& (#[trigger] table@[j]).symbol == models[j - 1].symbol
                    &&& is_new_faucet(models[j - 1], table@[j].account)
                    &&& is_made_with(models[j - 1], key_seq[j - 1], table@[j].account)
                },
        decreases configs@.len() - i,
    {
        let config = &configs[i];
        let ghost next = faucets_before(first, models, key_seq, (i + 1) as nat);
        assert(models[i as int] == config@);
        assert(key_seq[i as int] == keys@[i as int]@);
        proof {
            if next is Err {
                lemma_faucets_error(first, models, key_seq, (i + 1) as nat, models.len());
            }
        }
        let account = match config.build_account_with(&keys[i]) {
            Ok(account) => account,
            Err(e) => { return Err(e); },
        };
        if !table.insert(config.symbol.clone(), account) {
            return Err(
                GenesisConfigError::DuplicateFaucetDefinition { symbol: config.symbol.clone() },
            );
        }
        i = i + 1;
    }
    proof {
        table.distinct();
    }
    Ok(table)
}

} // verus!
