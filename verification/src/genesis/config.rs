//! A genesis configuration: the faucets and wallets that the chain starts with.

use vstd::prelude::*;

use crate::account::StorageMode;
use crate::token::TokenSymbolStr;

verus! {

/// An account loaded from a `.mac` file, by the path of the file relative to the configuration.
#[derive(Debug)]
pub struct GenericAccountConfig {
    pub path: String,
}

/// The fee parameters.
#[derive(Debug, Clone, Copy)]
pub struct FeeParameterConfig {
    /// Verification base fee, in units of smallest denomination.
    pub verification_base_fee: u32,
}

/// A faucet with its token.
#[derive(Debug)]
pub struct FungibleFaucetConfig {
    pub symbol: TokenSymbolStr,
    pub decimals: u8,
    /// The largest amount that can be issued, in units of smallest denomination.
    pub max_supply: u64,
    pub storage_mode: StorageMode,
}

/// A faucet with its token, as plain values.
pub struct FaucetModel {
    pub symbol: Seq<char>,
    pub decimals: u8,
    pub max_supply: u64,
    pub storage_mode: StorageMode,
}

impl View for FungibleFaucetConfig {
    type V = FaucetModel;

    open spec fn view(&self) -> FaucetModel {
        FaucetModel {
            symbol: self.symbol@,
            decimals: self.decimals,
            max_supply: self.max_supply,
            storage_mode: self.storage_mode,
        }
    }
}

/// An amount of a token that a wallet starts with.
#[derive(Debug)]
pub struct AssetEntry {
    pub symbol: TokenSymbolStr,
    /// The amount, in units of smallest denomination.
    pub amount: u64,
}

/// An amount of a token, as plain values.
pub struct AssetModel {
    pub symbol: Seq<char>,
    pub amount: u64,
}

impl View for AssetEntry {
    type V = AssetModel;

    open spec fn view(&self) -> AssetModel {
        AssetModel { symbol: self.symbol@, amount: self.amount }
    }
}

/// The assets of a wallet, as plain values.
pub open spec fn asset_models(assets: Seq<AssetEntry>) -> Seq<AssetModel> {
    assets.map_values(|entry: AssetEntry| entry@)
}

/// A wallet with its assets.
#[derive(Debug)]
pub struct WalletConfig {
    pub has_updatable_code: bool,
    pub storage_mode: StorageMode,
    pub assets: Vec<AssetEntry>,
}

/// A wallet with its assets, as plain values.
pub struct WalletModel {
    pub has_updatable_code: bool,
    pub storage_mode: StorageMode,
    pub assets: Seq<AssetModel>,
}

impl View for WalletConfig {
    type V = WalletModel;

    open spec fn view(&self) -> WalletModel {
        WalletModel {
            has_updatable_code: self.has_updatable_code,
            storage_mode: self.storage_mode,
            assets: asset_models(self.assets@),
        }
    }
}

/// Wallets, as plain values.
pub open spec fn wallet_models(wallets: Seq<WalletConfig>) -> Seq<WalletModel> {
    wallets.map_values(|wallet: WalletConfig| wallet@)
}

/// Faucets, as plain values.
pub open spec fn faucet_models(faucets: Seq<FungibleFaucetConfig>) -> Seq<FaucetModel> {
    faucets.map_values(|faucet: FungibleFaucetConfig| faucet@)
}

/// A set of faucets and wallets with assets.
///
/// A wallet holds tokens of the faucets in the same configuration only. Accounts from files are
/// taken as they are.
#[derive(Debug)]
pub struct GenesisConfig {
    pub version: u32,
    pub timestamp: u32,
    /// The path of a faucet account that takes the place of the default native faucet.
    pub native_faucet: Option<String>,
    pub fee_parameters: FeeParameterConfig,
    pub wallet: Vec<WalletConfig>,
    pub fungible_faucet: Vec<FungibleFaucetConfig>,
    pub account: Vec<GenericAccountConfig>,
    /// The directory that relative paths start from.
    pub config_dir: String,
}

impl GenesisConfig {
    /// The configuration that stands in where none is given: no fees, the default native faucet,
    /// and nothing else. The time is given in seconds since the Unix epoch.
    pub fn default_at(unix_seconds: u64) -> (r: Self)
        requires
            unix_seconds <= u32::MAX,
        ensures
            r.version == 1,
            r.timestamp == unix_seconds,
            r.native_faucet is None,
            r.fee_parameters.verification_base_fee == 0,
            r.wallet@ == Seq::<WalletConfig>::empty(),
            r.fungible_faucet@ == Seq::<FungibleFaucetConfig>::empty(),
            r.account@ == Seq::<GenericAccountConfig>::empty(),
            r.config_dir@ == "."@,
    {
        GenesisConfig {
            version: 1,
            timestamp: unix_seconds as u32,
            native_faucet: None,
            fee_parameters: FeeParameterConfig { verification_base_fee: 0 },
            wallet: Vec::new(),
            fungible_faucet: Vec::new(),
            account: Vec::new(),
            config_dir: ".".to_owned(),
        }
    }
}

/// What a configuration says, as plain values, but for the files that it names.
pub struct ConfigModel {
    pub version: u32,
    pub timestamp: u32,
    pub verification_base_fee: u32,
    pub wallets: Seq<WalletModel>,
    pub faucets: Seq<FaucetModel>,
}

impl View for GenesisConfig {
    type V = ConfigModel;

    open spec fn view(&self) -> ConfigModel {
        ConfigModel {
            version: self.version,
            timestamp: self.timestamp,
            verification_base_fee: self.fee_parameters.verification_base_fee,
            wallets: wallet_models(self.wallet@),
            faucets: faucet_models(self.fungible_faucet@),
        }
    }
}

// LAWS
// ================================================================================================

/// An asset is taken as it is written: its symbol and its amount.
pub proof fn assets_are_taken_as_written(entry: AssetEntry)
    ensures
        entry@.symbol == entry.symbol@,
        entry@.amount == entry.amount,
{
}

/// A faucet is taken as it is written: its symbol, decimals, maximum and storage mode.
pub proof fn faucets_are_taken_as_written(faucet: FungibleFaucetConfig)
    ensures
        faucet@.symbol == faucet.symbol@,
        faucet@.decimals == faucet.decimals,
        faucet@.max_supply == faucet.max_supply,
        faucet@.storage_mode == faucet.storage_mode,
{
}

/// A wallet is taken as it is written: its kind of code, its storage mode, and its assets in their
/// order.
pub proof fn wallets_are_taken_as_written(wallet: WalletConfig)
    ensures
        wallet@.has_updatable_code == wallet.has_updatable_code,
        wallet@.storage_mode == wallet.storage_mode,
        wallet@.assets.len() == wallet.assets@.len(),
        forall|i: int|
            0 <= i < wallet.assets@.len() ==> {
                &&& (#[trigger] wallet@.assets[i]).symbol == wallet.assets@[i].symbol@
                &&& wallet@.assets[i].amount == wallet.assets@[i].amount
            },
{
}

/// A configuration is taken as it is written: its version, time and fee, and its faucets and
/// wallets in their order.
pub proof fn configurations_are_taken_as_written(config: GenesisConfig)
    ensures
        config@.version == config.version,
        config@.timestamp == config.timestamp,
        config@.verification_base_fee == config.fee_parameters.verification_base_fee,
        config@.faucets.len() == config.fungible_faucet@.len(),
        forall|i: int|
            0 <= i < config.fungible_faucet@.len() ==> #[trigger] config@.faucets[i]
                == config.fungible_faucet@[i]@,
        config@.wallets.len() == config.wallet@.len(),
        forall|i: int|
            0 <= i < config.wallet@.len() ==> #[trigger] config@.wallets[i] == config.wallet@[i]@,
{
}

} // verus!
