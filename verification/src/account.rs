//! Accounts, in the encoded form that the protocol gives them, and what the node reads of them.

use miden_protocol::account::auth::AuthScheme;
use miden_protocol::account::{
    Account as ProtocolAccount, AccountBuilder, AccountDelta,
    AccountId as ProtocolAccountId, AccountStorageDelta,
    AccountStorageMode, AccountType as ProtocolAccountType, AccountVaultDelta, FungibleAssetDelta,
    NonFungibleAssetDelta,
};
use miden_protocol::asset::TokenSymbol;
use miden_protocol::errors::AccountError;
use miden_protocol::utils::serde::{Deserializable, Serializable};
use miden_protocol::{Felt, Word};
use miden_standards::account::auth::AuthSingleSig;
use miden_standards::account::faucets::{
    BasicFungibleFaucet, FungibleFaucetError, TokenMetadata as ProtocolTokenMetadata,
};
use miden_standards::account::mint_policies::AuthControlled;
use miden_standards::account::wallets::{create_basic_wallet, BasicWalletError};
use miden_standards::AuthMethod;
use vstd::prelude::*;

use crate::assets::{amount_of, delta_amounts};
use crate::token::{TokenMetadata, TokenModel, TokenSymbolStr, FIELD_ORDER, MAX_AMOUNT};

verus! {

// ACCOUNT ID
// ================================================================================================

/// What an account is for.
#[derive(Debug, Clone, Copy, PartialEq, Eq, Structural)]
pub enum AccountType {
    FungibleFaucet,
    NonFungibleFaucet,
    RegularAccountImmutableCode,
    RegularAccountUpdatableCode,
}

/// The weight of the two bits of an account identifier that hold the account type.
pub const ACCOUNT_TYPE_UNIT: u128 = 295_147_905_179_352_825_856;

/// The weight of the two bits of an account identifier that hold the storage mode.
pub const STORAGE_MODE_UNIT: u128 = 1_180_591_620_717_411_303_424;

/// The weight of the upper half of an account identifier.
pub const PREFIX_UNIT: u128 = 18_446_744_073_709_551_616;

/// The account type that an identifier holds.
pub open spec fn type_of_id(id: u128) -> AccountType {
    let bits = (id / ACCOUNT_TYPE_UNIT) % 4;
    if bits == 0 {
        AccountType::RegularAccountImmutableCode
    } else if bits == 1 {
        AccountType::RegularAccountUpdatableCode
    } else if bits == 2 {
        AccountType::FungibleFaucet
    } else {
        AccountType::NonFungibleFaucet
    }
}

/// The storage mode that an identifier holds.
pub open spec fn mode_of_id(id: u128) -> Option<StorageMode> {
    let bits = (id / STORAGE_MODE_UNIT) % 4;
    if bits == 0 {
        Some(StorageMode::Public)
    } else if bits == 1 {
        Some(StorageMode::Network)
    } else if bits == 2 {
        Some(StorageMode::Private)
    } else {
        None
    }
}

/// The numbers that are account identifiers: the upper half is a field element with version zero
/// and one of three storage modes, the lower half has a clear top bit and a clear last byte.
pub open spec fn is_account_id(id: u128) -> bool {
    &&& id / PREFIX_UNIT < FIELD_ORDER
    &&& (id / PREFIX_UNIT) % 16 == 0
    &&& (id / STORAGE_MODE_UNIT) % 4 != 3
    &&& id % PREFIX_UNIT < PREFIX_UNIT / 2
    &&& id % 256 == 0
}

/// Identifies an account.
#[derive(Debug, Clone, Copy, PartialEq, Eq, PartialOrd, Ord, Hash, Structural)]
pub struct AccountId {
    pub(crate) value: u128,
}

impl View for AccountId {
    type V = u128;

    closed spec fn view(&self) -> u128 {
        self.value
    }
}

impl AccountId {
    #[verifier::type_invariant]
    spec fn wf(&self) -> bool {
        is_account_id(self.value)
    }

    /// The identifier that a number stands for.
    pub fn new(value: u128) -> (r: Option<AccountId>)
        ensures
            r is Some <==> is_account_id(value),
            r matches Some(id) ==> id@ == value,
    {
        if value / PREFIX_UNIT < FIELD_ORDER as u128 && (value / PREFIX_UNIT) % 16 == 0 && (value
            / STORAGE_MODE_UNIT) % 4 != 3 && value % PREFIX_UNIT < PREFIX_UNIT / 2 && value % 256
            == 0 {
            Some(AccountId { value })
        } else {
            None
        }
    }

    /// The number that stands for the identifier.
    pub fn value(&self) -> (r: u128)
        ensures
            r == self@,
            is_account_id(r),
    {
        proof {
            use_type_invariant(self);
        }
        self.value
    }

    /// The account type that the identifier holds.
    pub open spec fn spec_account_type(self) -> AccountType {
        type_of_id(self@)
    }

    /// The account type that the identifier holds.
    pub fn account_type(&self) -> (r: AccountType)
        ensures
            r == self.spec_account_type(),
    {
        let bits: u128 = (self.value / ACCOUNT_TYPE_UNIT) % 4;
        if bits == 0 {
            AccountType::RegularAccountImmutableCode
        } else if bits == 1 {
            AccountType::RegularAccountUpdatableCode
        } else if bits == 2 {
            AccountType::FungibleFaucet
        } else {
            AccountType::NonFungibleFaucet
        }
    }
}

// OUTSIDE TYPES
// ================================================================================================

#[verifier::external_type_specification]
#[verifier::external_body]
pub struct ExAccountError(AccountError);

#[verifier::external_type_specification]
#[verifier::external_body]
pub struct ExBasicWalletError(BasicWalletError);

#[verifier::external_type_specification]
#[verifier::external_body]
pub struct ExFungibleFaucetError(FungibleFaucetError);

// STORAGE MODE
// ================================================================================================

/// Where the state of an account lives.
#[derive(Debug, Clone, Copy, PartialEq, Eq, Structural)]
pub enum StorageMode {
    /// Monitor for `Notes` related to the account, in addition to being `Public`.
    Network,
    /// A publicly stored account, lives on-chain.
    Public,
    /// A private account, which must be known by interactors.
    Private,
}

impl Default for StorageMode {
    fn default() -> (r: Self)
        ensures
            r == StorageMode::Network,
    {
        StorageMode::Network
    }
}

// ACCOUNT
// ================================================================================================

/// What an encoded account says, as plain values.
///
/// The commitment is the protocol's digest of the identifier, the nonce, and all of the vault,
/// the storage and the code. The token is there if storage holds token metadata. Balances are
/// those of plain fungible assets, and only those above zero are listed.
#[verifier::ext_equal]
pub struct AccountModel {
    pub id: u128,
    pub nonce: u64,
    pub commitment: Seq<u64>,
    pub token: Option<TokenModel>,
    pub balances: Map<u128, u64>,
}

impl AccountModel {
    /// The balance of the token of a faucet.
    pub open spec fn balance(self, faucet_id: u128) -> u64 {
        if self.balances.contains_key(faucet_id) {
            self.balances[faucet_id]
        } else {
            0
        }
    }
}

/// What `Account::read_from_bytes` finds in the bytes of an account.
pub uninterp spec fn decoded_account(bytes: Seq<u8>) -> Option<AccountModel>;

/// `Account::read_from_bytes`, then `Account::id` and `Account::nonce`.
///
/// Claimed: the bytes of an account give its identifier and its nonce. Of other bytes nothing is
/// claimed, as reading them may panic.
#[verifier::external_body]
fn read_account(bytes: &[u8]) -> (r: (u128, u64))
    requires
        decoded_account(bytes@) is Some,
    ensures
        r.0 == decoded_account(bytes@).unwrap().id,
        r.1 == decoded_account(bytes@).unwrap().nonce,
        is_account_id(r.0) && r.1 < FIELD_ORDER,
{
    let account = ProtocolAccount::read_from_bytes(bytes).expect("encoded account");
    (account.id().into(), account.nonce().as_canonical_u64())
}

/// `TokenMetadata::try_from` on the storage of an account.
///
/// Claimed: it yields the metadata that the storage holds, and an error if it holds none.
#[verifier::external_body]
fn read_token_metadata(bytes: &[u8]) -> (r: Result<TokenMetadata, FungibleFaucetError>)
    requires
        decoded_account(bytes@) is Some,
    ensures
        match decoded_account(bytes@).unwrap().token {
            Some(token) => r matches Ok(m) && m@ == token,
            None => r is Err,
        },
{
    let account = ProtocolAccount::read_from_bytes(bytes).expect("encoded account");
    let metadata = ProtocolTokenMetadata::try_from(account.storage())?;
    let encoded = metadata.symbol().as_element().as_canonical_u64();
    Ok(TokenMetadata {
        token_supply: metadata.token_supply().as_canonical_u64(),
        max_supply: metadata.max_supply().as_canonical_u64(),
        decimals: metadata.decimals(),
        symbol: TokenSymbolStr { raw: metadata.symbol().to_string(), encoded },
    })
}

/// `AssetVault::get_balance` on the vault of an account.
///
/// Claimed: it yields the balance of the faucet's plain asset. Of an account that is no fungible
/// faucet there is no balance.
#[verifier::external_body]
fn read_balance(bytes: &[u8], faucet_id: AccountId) -> (r: Option<u64>)
    requires
        decoded_account(bytes@) is Some,
    ensures
        r is Some <==> faucet_id.spec_account_type() == AccountType::FungibleFaucet,
        r matches Some(balance) ==> balance == decoded_account(bytes@).unwrap().balance(
            faucet_id@,
        ),
{
    let account = ProtocolAccount::read_from_bytes(bytes).expect("encoded account");
    let faucet_id = ProtocolAccountId::try_from(faucet_id.value).expect("valid account id");
    account.vault().get_balance(faucet_id).ok()
}

/// The account that `create_basic_wallet` makes for one key, if it makes one.
pub uninterp spec fn basic_wallet(
    init_seed: Seq<u8>,
    public_key: Seq<u64>,
    account_type: AccountType,
    storage_mode: StorageMode,
) -> Option<AccountModel>;

/// `create_basic_wallet` with a single Falcon key as its authentication.
///
/// Claimed: whether there is a wallet, and what it says, follows from the arguments; a new wallet
/// has the account type and the storage mode that were asked for, the nonce zero and an empty
/// vault.
#[verifier::external_body]
fn create_wallet(
    init_seed: &[u8; 32],
    public_key: &[u64; 4],
    account_type: AccountType,
    storage_mode: StorageMode,
) -> (r: Result<Vec<u8>, BasicWalletError>)
    ensures
        match basic_wallet(init_seed@, public_key@, account_type, storage_mode) {
            Some(wallet) => r matches Ok(bytes) && decoded_account(bytes@) == Some(wallet),
            None => r is Err,
        },
        r matches Ok(bytes) ==> {
            let wallet = decoded_account(bytes@).unwrap();
            &&& type_of_id(wallet.id) == account_type
            &&& mode_of_id(wallet.id) == Some(storage_mode)
            &&& wallet.nonce == 0
            &&& forall|faucet_id: u128| #[trigger] wallet.balance(faucet_id) == 0
        },
{
    let approver = (Word::from(public_key.map(Felt::new)).into(), AuthScheme::Falcon512Poseidon2);
    let account_type = match account_type {
        AccountType::FungibleFaucet => ProtocolAccountType::FungibleFaucet,
        AccountType::NonFungibleFaucet => ProtocolAccountType::NonFungibleFaucet,
        AccountType::RegularAccountImmutableCode => ProtocolAccountType::RegularAccountImmutableCode,
        AccountType::RegularAccountUpdatableCode => ProtocolAccountType::RegularAccountUpdatableCode,
    };
    let mode = match storage_mode {
        StorageMode::Network => AccountStorageMode::Network,
        StorageMode::Public => AccountStorageMode::Public,
        StorageMode::Private => AccountStorageMode::Private,
    };
    let auth = AuthMethod::SingleSig { approver };
    Ok(create_basic_wallet(*init_seed, auth, account_type, mode)?.to_bytes())
}

/// The faucet account that `AccountBuilder` makes for one key and one token, if it makes one.
pub uninterp spec fn faucet_account(
    init_seed: Seq<u8>,
    public_key: Seq<u64>,
    token: TokenModel,
    storage_mode: StorageMode,
) -> Option<AccountModel>;

/// `AccountBuilder::build` for a fungible faucet with a single Falcon key as its authentication
/// and a mint policy that allows all.
///
/// Claimed: whether there is a faucet, and what it says, follows from the arguments; a new faucet
/// has the type of a fungible faucet, the storage mode and the token that were asked for, and the
/// nonce zero.
#[verifier::external_body]
fn create_faucet(
    init_seed: &[u8; 32],
    public_key: &[u64; 4],
    token: &TokenMetadata,
    storage_mode: StorageMode,
) -> (r: Result<Vec<u8>, AccountError>)
    requires
        token@.valid(),
        token@.token_supply == 0,
    ensures
        match faucet_account(init_seed@, public_key@, token@, storage_mode) {
            Some(faucet) => r matches Ok(bytes) && decoded_account(bytes@) == Some(faucet),
            None => r is Err,
        },
        r matches Ok(bytes) ==> {
            let faucet = decoded_account(bytes@).unwrap();
            &&& type_of_id(faucet.id) == AccountType::FungibleFaucet
            &&& mode_of_id(faucet.id) == Some(storage_mode)
            &&& faucet.nonce == 0
            &&& faucet.token == Some(token@)
        },
{
    let mode = match storage_mode {
        StorageMode::Network => AccountStorageMode::Network,
        StorageMode::Public => AccountStorageMode::Public,
        StorageMode::Private => AccountStorageMode::Private,
    };
    let public_key = Word::from(public_key.map(Felt::new)).into();
    let symbol = TokenSymbol::new(&token.symbol.raw).expect("valid symbol");
    let faucet = BasicFungibleFaucet::new(symbol, token.decimals, Felt::new(token.max_supply));
    let builder = AccountBuilder::new(*init_seed)
        .account_type(ProtocolAccountType::FungibleFaucet)
        .storage_mode(mode)
        .with_auth_component(AuthSingleSig::new(public_key, AuthScheme::Falcon512Poseidon2))
        .with_component(faucet.expect("valid token"))
        .with_component(AuthControlled::allow_all());
    Ok(builder.build()?.to_bytes())
}

/// The account that `Account::apply_delta` leaves behind, if it accepts the delta: token metadata
/// to store, changes of balances, and the growth of the nonce.
pub uninterp spec fn account_after_delta(
    account: AccountModel,
    token: Option<TokenModel>,
    amounts: Map<(u128, u8), int>,
    nonce_delta: u64,
) -> Option<AccountModel>;

/// Whether the nonce would no longer be a field element.
pub open spec fn nonce_overflows(account: AccountModel, nonce_delta: u64) -> bool {
    account.nonce + nonce_delta >= FIELD_ORDER
}

/// `Account::apply_delta` with a delta that changes balances and the nonce.
///
/// Claimed: whether the delta is accepted, and the account that is left, follow from what the
/// account says and from the delta; identifier and token stay, the nonce grows by the given step,
/// each balance changes by the amount of its faucet. A nonce that would leave the field is refused,
/// and a delta without amounts is refused for no other reason.
#[verifier::external_body]
fn apply_balance_delta(bytes: &[u8], assets: &FungibleAssetDelta, nonce_delta: u64) -> (r: Result<
    Vec<u8>,
    AccountError,
>)
    requires
        decoded_account(bytes@) is Some,
        0 < nonce_delta < FIELD_ORDER,
        forall|key: (u128, u8)| #[trigger]
            delta_amounts(*assets).contains_key(key) ==> -MAX_AMOUNT <= delta_amounts(*assets)[key]
                <= MAX_AMOUNT,
    ensures
        match account_after_delta(
            decoded_account(bytes@).unwrap(),
            None,
            delta_amounts(*assets),
            nonce_delta,
        ) {
            Some(after) => r matches Ok(new) && decoded_account(new@) == Some(after),
            None => r is Err,
        },
        r matches Ok(new) ==> {
            let before = decoded_account(bytes@).unwrap();
            let after = decoded_account(new@).unwrap();
            &&& after.id == before.id
            &&& after.nonce == before.nonce + nonce_delta
            &&& after.token == before.token
            &&& forall|faucet_id: u128| #[trigger]
                after.balance(faucet_id) == before.balance(faucet_id) + amount_of(
                    delta_amounts(*assets),
                    faucet_id,
                )
        },
        nonce_overflows(decoded_account(bytes@).unwrap(), nonce_delta) ==> r is Err,
        !nonce_overflows(decoded_account(bytes@).unwrap(), nonce_delta) && delta_amounts(
            *assets,
        ).is_empty() ==> r is Ok,
{
    let mut account = ProtocolAccount::read_from_bytes(bytes).expect("encoded account");
    let vault = AccountVaultDelta::new(assets.clone(), NonFungibleAssetDelta::default());
    let storage = AccountStorageDelta::default();
    let delta = AccountDelta::new(account.id(), storage, vault, Felt::new(nonce_delta));
    account.apply_delta(&delta.expect("delta with a growing nonce"))?;
    Ok(account.to_bytes())
}

/// `Account::apply_delta` with a delta that stores token metadata and lets the nonce grow.
///
/// Claimed: whether the delta is accepted, and the account that is left, follow from what the
/// account says and from the delta; identifier and balances stay, the nonce grows by the given
/// step, and storage then holds the metadata. A nonce that would leave the field is refused.
#[verifier::external_body]
fn apply_token_delta(bytes: &[u8], token: &TokenMetadata, nonce_delta: u64) -> (r: Result<
    Vec<u8>,
    AccountError,
>)
    requires
        decoded_account(bytes@) is Some,
        0 < nonce_delta < FIELD_ORDER,
        token@.valid(),
    ensures
        match account_after_delta(
            decoded_account(bytes@).unwrap(),
            Some(token@),
            Map::empty(),
            nonce_delta,
        ) {
            Some(after) => r matches Ok(new) && decoded_account(new@) == Some(after),
            None => r is Err,
        },
        r matches Ok(new) ==> {
            let before = decoded_account(bytes@).unwrap();
            let after = decoded_account(new@).unwrap();
            &&& after.id == before.id
            &&& after.nonce == before.nonce + nonce_delta
            &&& after.token == Some(token@)
            &&& after.balances == before.balances
        },
        nonce_overflows(decoded_account(bytes@).unwrap(), nonce_delta) ==> r is Err,
{
    let mut account = ProtocolAccount::read_from_bytes(bytes).expect("encoded account");
    let symbol = TokenSymbol::new(&token.symbol.raw).expect("valid symbol");
    let (max, supply) = (Felt::new(token.max_supply), Felt::new(token.token_supply));
    let metadata = ProtocolTokenMetadata::with_supply(symbol, token.decimals, max, supply);
    let value = metadata.expect("valid token").into();
    let mut storage = AccountStorageDelta::default();
    storage.set_item(ProtocolTokenMetadata::metadata_slot().clone(), value).expect("first item");
    let vault = AccountVaultDelta::default();
    let delta = AccountDelta::new(account.id(), storage, vault, Felt::new(nonce_delta));
    account.apply_delta(&delta.expect("delta with a growing nonce"))?;
    Ok(account.to_bytes())
}

/// An account in the protocol's encoded form, with its identifier and nonce at hand.
#[derive(Debug)]
pub struct Account {
    encoded: Vec<u8>,
    id: AccountId,
    nonce: u64,
}

impl View for Account {
    type V = AccountModel;

    closed spec fn view(&self) -> AccountModel {
        decoded_account(self.encoded@).unwrap()
    }
}

/// What accounts say, as plain values.
pub open spec fn account_models(accounts: Seq<Account>) -> Seq<AccountModel> {
    accounts.map_values(|account: Account| account@)
}

impl Account {
    /// The bytes are those of an account with this identifier and nonce.
    #[verifier::type_invariant]
    spec fn wf(&self) -> bool {
        &&& decoded_account(self.encoded@) is Some
        &&& decoded_account(self.encoded@).unwrap().id == self.id@
        &&& decoded_account(self.encoded@).unwrap().nonce == self.nonce
        &&& self.nonce < FIELD_ORDER
    }

    /// The account that the given bytes encode.
    pub fn from_bytes(bytes: Vec<u8>) -> (r: Self)
        requires
            decoded_account(bytes@) is Some,
        ensures
            decoded_account(bytes@) == Some(r@),
    {
        let parts = read_account(bytes.as_slice());
        let id = AccountId { value: parts.0 };
        Account { encoded: bytes, id, nonce: parts.1 }
    }

    /// The bytes that encode the account.
    pub fn as_bytes(&self) -> (bytes: &[u8])
        ensures
            decoded_account(bytes@) == Some(self@),
    {
        proof {
            use_type_invariant(self);
        }
        self.encoded.as_slice()
    }

    /// The identifier of the account.
    pub fn id(&self) -> (id: AccountId)
        ensures
            id@ == self@.id,
            is_account_id(self@.id),
    {
        proof {
            use_type_invariant(self);
            use_type_invariant(&self.id);
        }
        self.id
    }

    /// The number of updates that the account has seen.
    pub fn nonce(&self) -> (nonce: u64)
        ensures
            nonce == self@.nonce,
            nonce < FIELD_ORDER,
    {
        proof {
            use_type_invariant(self);
        }
        self.nonce
    }

    /// Whether the account issues assets.
    pub fn is_faucet(&self) -> (r: bool)
        ensures
            r == (type_of_id(self@.id) == AccountType::FungibleFaucet || type_of_id(self@.id)
                == AccountType::NonFungibleFaucet),
    {
        let account_type = self.id().account_type();
        account_type == AccountType::FungibleFaucet || account_type
            == AccountType::NonFungibleFaucet
    }

    /// Whether the account is no faucet.
    pub fn is_regular_account(&self) -> (r: bool)
        ensures
            r == (type_of_id(self@.id) == AccountType::RegularAccountImmutableCode || type_of_id(
                self@.id,
            ) == AccountType::RegularAccountUpdatableCode),
    {
        !self.is_faucet()
    }

    /// The token metadata in the storage of the account.
    pub fn token_metadata(&self) -> (r: Result<TokenMetadata, FungibleFaucetError>)
        ensures
            match self@.token {
                Some(token) => r matches Ok(m) && m@ == token,
                None => r is Err,
            },
    {
        proof {
            use_type_invariant(self);
        }
        read_token_metadata(self.encoded.as_slice())
    }

    /// The balance of the token of a fungible faucet.
    pub fn get_balance(&self, faucet_id: AccountId) -> (r: Option<u64>)
        ensures
            r is Some <==> faucet_id.spec_account_type() == AccountType::FungibleFaucet,
            r matches Some(balance) ==> balance == self@.balance(faucet_id@),
    {
        proof {
            use_type_invariant(self);
        }
        read_balance(self.encoded.as_slice(), faucet_id)
    }

    /// A new wallet for one key.
    pub(crate) fn new_wallet(
        init_seed: &[u8; 32],
        public_key: &[u64; 4],
        account_type: AccountType,
        storage_mode: StorageMode,
    ) -> (r: Result<Self, BasicWalletError>)
        ensures
            match basic_wallet(init_seed@, public_key@, account_type, storage_mode) {
                Some(wallet) => r matches Ok(account) && account@ == wallet,
                None => r is Err,
            },
            r matches Ok(account) ==> {
                &&& type_of_id(account@.id) == account_type
                &&& mode_of_id(account@.id) == Some(storage_mode)
                &&& account@.nonce == 0
                &&& forall|faucet_id: u128| #[trigger] account@.balance(faucet_id) == 0
            },
    {
        match create_wallet(init_seed, public_key, account_type, storage_mode) {
            Ok(bytes) => Ok(Self::from_bytes(bytes)),
            Err(e) => Err(e),
        }
    }

    /// A new fungible faucet for one key and one token.
    pub(crate) fn new_faucet(
        init_seed: &[u8; 32],
        public_key: &[u64; 4],
        token: &TokenMetadata,
        storage_mode: StorageMode,
    ) -> (r: Result<Self, AccountError>)
        requires
            token@.token_supply == 0,
        ensures
            match faucet_account(init_seed@, public_key@, token@, storage_mode) {
                Some(faucet) => r matches Ok(account) && account@ == faucet,
                None => r is Err,
            },
            r matches Ok(account) ==> {
                &&& type_of_id(account@.id) == AccountType::FungibleFaucet
                &&& mode_of_id(account@.id) == Some(storage_mode)
                &&& account@.nonce == 0
                &&& account@.token == Some(token@)
            },
    {
        let _ = token.symbol();
        match create_faucet(init_seed, public_key, token, storage_mode) {
            Ok(bytes) => Ok(Self::from_bytes(bytes)),
            Err(e) => Err(e),
        }
    }

    /// The account after one update that changes its balances.
    pub(crate) fn with_balances(&self, assets: &FungibleAssetDelta) -> (r: Result<Self, AccountError>)
        requires
            forall|key: (u128, u8)| #[trigger]
                delta_amounts(*assets).contains_key(key) ==> -MAX_AMOUNT <= delta_amounts(
                    *assets,
                )[key] <= MAX_AMOUNT,
        ensures
            match account_after_delta(self@, None, delta_amounts(*assets), 1) {
                Some(after) => r matches Ok(account) && account@ == after,
                None => r is Err,
            },
            r matches Ok(account) ==> {
                &&& account@.id == self@.id
                &&& account@.nonce == self@.nonce + 1
                &&& account@.token == self@.token
                &&& forall|faucet_id: u128| #[trigger]
                    account@.balance(faucet_id) == self@.balance(faucet_id) + amount_of(
                        delta_amounts(*assets),
                        faucet_id,
                    )
            },
            nonce_overflows(self@, 1) ==> r is Err,
            !nonce_overflows(self@, 1) && delta_amounts(*assets).is_empty() ==> r is Ok,
    {
        proof {
            use_type_invariant(self);
        }
        match apply_balance_delta(self.encoded.as_slice(), assets, 1) {
            Ok(bytes) => Ok(Self::from_bytes(bytes)),
            Err(e) => Err(e),
        }
    }

    /// The account after one update that stores token metadata.
    pub(crate) fn with_token(&self, token: &TokenMetadata) -> (r: Result<Self, AccountError>)
        ensures
            match account_after_delta(self@, Some(token@), Map::empty(), 1) {
                Some(after) => r matches Ok(account) && account@ == after,
                None => r is Err,
            },
            r matches Ok(account) ==> {
                &&& account@.id == self@.id
                &&& account@.nonce == self@.nonce + 1
                &&& account@.token == Some(token@)
                &&& account@.balances == self@.balances
            },
            nonce_overflows(self@, 1) ==> r is Err,
    {
        proof {
            use_type_invariant(self);
        }
        let _ = token.symbol();
        match apply_token_delta(self.encoded.as_slice(), token, 1) {
            Ok(bytes) => Ok(Self::from_bytes(bytes)),
            Err(e) => Err(e),
        }
    }
}

impl Clone for Account {
    fn clone(&self) -> (r: Self)
        ensures
            r@ == self@,
    {
        proof {
            use_type_invariant(self);
        }
        Account { encoded: self.encoded.clone(), id: self.id, nonce: self.nonce }
    }
}

// LAWS
// ================================================================================================

/// The account type is held by bits 68 and 69 of an identifier, the storage mode by bits 70 and 71.
pub proof fn identifiers_hold_type_and_mode(id: u128)
    ensures
        type_of_id(id) == AccountType::RegularAccountImmutableCode <==> (id >> 68) & 3 == 0,
        type_of_id(id) == AccountType::RegularAccountUpdatableCode <==> (id >> 68) & 3 == 1,
        type_of_id(id) == AccountType::FungibleFaucet <==> (id >> 68) & 3 == 2,
        type_of_id(id) == AccountType::NonFungibleFaucet <==> (id >> 68) & 3 == 3,
        mode_of_id(id) == Some(StorageMode::Public) <==> (id >> 70) & 3 == 0,
        mode_of_id(id) == Some(StorageMode::Network) <==> (id >> 70) & 3 == 1,
        mode_of_id(id) == Some(StorageMode::Private) <==> (id >> 70) & 3 == 2,
        mode_of_id(id) is None <==> (id >> 70) & 3 == 3,
{
    assert((id / 295_147_905_179_352_825_856) % 4 == (id >> 68) & 3) by (bit_vector);
    assert((id / 1_180_591_620_717_411_303_424) % 4 == (id >> 70) & 3) by (bit_vector);
    assert((id >> 68) & 3 <= 3) by (bit_vector);
    assert((id >> 70) & 3 <= 3) by (bit_vector);
}

/// A number is an identifier exactly if its upper half is a field element with version zero, it
/// holds a storage mode, and its lower half has a clear top bit and a clear last byte.
pub proof fn identifiers_are_well_formed_numbers(id: u128)
    ensures
        is_account_id(id) <==> (id >> 64) < 18_446_744_069_414_584_321 && (id >> 64) & 15 == 0
            && (id >> 70) & 3 != 3 && (id >> 63) & 1 == 0 && id & 255 == 0,
{
    assert(id / 18_446_744_073_709_551_616 == id >> 64) by (bit_vector);
    assert((id / 18_446_744_073_709_551_616) % 16 == (id >> 64) & 15) by (bit_vector);
    assert((id / 1_180_591_620_717_411_303_424) % 4 == (id >> 70) & 3) by (bit_vector);
    assert(id % 18_446_744_073_709_551_616 < 9_223_372_036_854_775_808 <==> (id >> 63) & 1 == 0)
        by (bit_vector);
    assert(id % 256 == id & 255) by (bit_vector);
}

/// A nonce can grow as long as it stays below the field order.
pub proof fn nonces_stay_in_the_field(account: AccountModel, nonce_delta: u64)
    ensures
        nonce_overflows(account, nonce_delta) <==> account.nonce + nonce_delta
            >= 18_446_744_069_414_584_321,
{
}

/// The balance of a token is what the account lists for its faucet, and zero if it lists nothing.
pub proof fn balances_are_listed(account: AccountModel, faucet_id: u128)
    ensures
        account.balances.contains_key(faucet_id) ==> account.balance(faucet_id)
            == account.balances[faucet_id],
        !account.balances.contains_key(faucet_id) ==> account.balance(faucet_id) == 0,
{
}

/// The type of an identifier is the one that its number holds.
pub proof fn identifiers_have_the_type_of_their_number(id: AccountId)
    ensures
        id.spec_account_type() == type_of_id(id@),
{
}

} // verus!
