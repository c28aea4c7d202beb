//! What can be wrong with a genesis configuration.

use miden_protocol::errors::{AccountDeltaError, AccountError};
use miden_standards::account::faucets::FungibleFaucetError;
use miden_standards::account::wallets::BasicWalletError;
use vstd::prelude::*;

use crate::account::AccountId;
use crate::assets::AssetError;
use crate::token::{TokenMetadataError, TokenSymbolStr};

verus! {

/// Why a configuration yields no genesis state, or a secret no account file.
#[derive(Debug)]
pub enum GenesisConfigError {
    /// Two faucets issue the same token.
    DuplicateFaucetDefinition { symbol: TokenSymbolStr },
    /// A wallet holds a token that no faucet issues.
    MissingFaucetDefinition { symbol: TokenSymbolStr },
    /// The account in the native faucet's file is no fungible faucet.
    NativeFaucetNotFungible { path: String },
    /// The account that fees are paid to is no fungible faucet.
    NativeAssetNotFungible { account_id: AccountId },
    /// A secret belongs to an account that is not part of the genesis state.
    MissingGenesisAccount { account_id: AccountId },
    /// The wallets hold more of a token than its faucet may issue.
    MaxIssuanceExceeded { max_supply: u64, symbol: TokenSymbolStr, total_issuance: u64 },
    /// The wallets hold more of a token than 64 bits can count.
    IssuanceOverflow,
    /// A wallet holds more of a token than a vault can keep.
    WalletBalanceTooLarge,
    /// A wallet's entry is no asset.
    Asset(AssetError),
    /// The amounts of a wallet's entries do not add up within 64 bits with a sign.
    AccountDelta(AccountDeltaError),
    /// A faucet's token is not acceptable.
    TokenMetadata(TokenMetadataError),
    /// A faucet's storage holds no token metadata.
    FungibleFaucet(FungibleFaucetError),
    /// A wallet could not be made.
    BasicWallet(BasicWalletError),
    /// An account could not be made or updated.
    Account(AccountError),
}

/// The same, as plain values: of errors that the protocol reports, only which step they came from.
pub enum GenesisError {
    DuplicateFaucetDefinition { symbol: Seq<char> },
    MissingFaucetDefinition { symbol: Seq<char> },
    NativeFaucetNotFungible { path: Seq<char> },
    NativeAssetNotFungible { account_id: u128 },
    MissingGenesisAccount { account_id: u128 },
    MaxIssuanceExceeded { max_supply: u64, symbol: Seq<char>, total_issuance: u64 },
    IssuanceOverflow,
    WalletBalanceTooLarge,
    NoFungibleFaucet { account_id: u128 },
    AmountTooBig { amount: u64 },
    AccountDelta,
    TokenMetadata(TokenMetadataError),
    FungibleFaucet,
    BasicWallet,
    Account,
}

impl View for GenesisConfigError {
    type V = GenesisError;

    open spec fn view(&self) -> GenesisError {
        match *self {
            GenesisConfigError::DuplicateFaucetDefinition { symbol } => {
                GenesisError::DuplicateFaucetDefinition { symbol: symbol@ }
            },
            GenesisConfigError::MissingFaucetDefinition { symbol } => {
                GenesisError::MissingFaucetDefinition { symbol: symbol@ }
            },
            GenesisConfigError::NativeFaucetNotFungible { path } => {
                GenesisError::NativeFaucetNotFungible { path: path@ }
            },
            GenesisConfigError::NativeAssetNotFungible { account_id } => {
                GenesisError::NativeAssetNotFungible { account_id: account_id@ }
            },
            GenesisConfigError::MissingGenesisAccount { account_id } => {
                GenesisError::MissingGenesisAccount { account_id: account_id@ }
            },
            GenesisConfigError::MaxIssuanceExceeded { max_supply, symbol, total_issuance } => {
                GenesisError::MaxIssuanceExceeded { max_supply, symbol: symbol@, total_issuance }
            },
            GenesisConfigError::IssuanceOverflow => GenesisError::IssuanceOverflow,
            GenesisConfigError::WalletBalanceTooLarge => GenesisError::WalletBalanceTooLarge,
            GenesisConfigError::Asset(AssetError::FungibleFaucetIdTypeMismatch(account_id)) => {
                GenesisError::NoFungibleFaucet { account_id: account_id@ }
            },
            GenesisConfigError::Asset(AssetError::FungibleAssetAmountTooBig(amount)) => {
                GenesisError::AmountTooBig { amount }
            },
            GenesisConfigError::AccountDelta(_) => GenesisError::AccountDelta,
            GenesisConfigError::TokenMetadata(e) => GenesisError::TokenMetadata(e),
            GenesisConfigError::FungibleFaucet(_) => GenesisError::FungibleFaucet,
            GenesisConfigError::BasicWallet(_) => GenesisError::BasicWallet,
            GenesisConfigError::Account(_) => GenesisError::Account,
        }
    }
}

/// An error is what its name says and carries what it was given.
pub proof fn errors_are_what_they_are_named(error: GenesisConfigError)
    ensures
        match error {
            GenesisConfigError::DuplicateFaucetDefinition { symbol } => {
                error@ matches GenesisError::DuplicateFaucetDefinition { symbol: s } && s == symbol@
            },
            GenesisConfigError::MissingFaucetDefinition { symbol } => {
                error@ matches GenesisError::MissingFaucetDefinition { symbol: s } && s == symbol@
            },
            GenesisConfigError::NativeFaucetNotFungible { path } => {
                error@ matches GenesisError::NativeFaucetNotFungible { path: p } && p == path@
            },
            GenesisConfigError::NativeAssetNotFungible { account_id } => {
                error@ matches GenesisError::NativeAssetNotFungible { account_id: id } && id
                    == account_id@
            },
            GenesisConfigError::MissingGenesisAccount { account_id } => {
                error@ matches GenesisError::MissingGenesisAccount { account_id: id } && id
                    == account_id@
            },
            GenesisConfigError::MaxIssuanceExceeded { max_supply, symbol, total_issuance } => {
                error@ matches GenesisError::MaxIssuanceExceeded {
                    max_supply: m,
                    symbol: s,
                    total_issuance: t,
                } && m == max_supply && s == symbol@ && t == total_issuance
            },
            GenesisConfigError::IssuanceOverflow => error@ is IssuanceOverflow,
            GenesisConfigError::WalletBalanceTooLarge => error@ is WalletBalanceTooLarge,
            GenesisConfigError::Asset(AssetError::FungibleFaucetIdTypeMismatch(account_id)) => {
                error@ matches GenesisError::NoFungibleFaucet { account_id: id } && id
                    == account_id@
            },
            GenesisConfigError::Asset(AssetError::FungibleAssetAmountTooBig(amount)) => {
                error@ matches GenesisError::AmountTooBig { amount: a } && a == amount
            },
            GenesisConfigError::AccountDelta(_) => error@ is AccountDelta,
            GenesisConfigError::TokenMetadata(e) => {
                error@ matches GenesisError::TokenMetadata(inner) && inner == e
            },
            GenesisConfigError::FungibleFaucet(_) => error@ is FungibleFaucet,
            GenesisConfigError::BasicWallet(_) => error@ is BasicWallet,
            GenesisConfigError::Account(_) => error@ is Account,
        },
{
}

} // verus!
