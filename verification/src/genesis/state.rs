//! The state that a chain starts with.

use vstd::prelude::*;

use crate::account::{account_models, type_of_id, Account, AccountId, AccountModel, AccountType};
use crate::genesis::error::{GenesisConfigError, GenesisError};

verus! {

/// The fees of a chain: what is paid for the verification of a transaction, in the native token.
#[derive(Debug, Clone, Copy)]
pub struct FeeParameters {
    native_asset_id: AccountId,
    verification_base_fee: u32,
}

/// The fees of a chain, as plain values.
pub struct FeeModel {
    pub native_asset_id: u128,
    pub verification_base_fee: u32,
}

impl View for FeeParameters {
    type V = FeeModel;

    closed spec fn view(&self) -> FeeModel {
        FeeModel {
            native_asset_id: self.native_asset_id@,
            verification_base_fee: self.verification_base_fee,
        }
    }
}

impl FeeParameters {
    /// The native token is issued by a fungible faucet.
    #[verifier::type_invariant]
    spec fn wf(&self) -> bool {
        type_of_id(self.native_asset_id@) == AccountType::FungibleFaucet
    }

    /// Fees in the token of a fungible faucet.
    pub fn new(native_asset_id: AccountId, verification_base_fee: u32) -> (r: Result<
        Self,
        GenesisConfigError,
    >)
        ensures
            if native_asset_id.spec_account_type() == AccountType::FungibleFaucet {
                r matches Ok(fees) && fees@ == (FeeModel {
                    native_asset_id: native_asset_id@,
                    verification_base_fee,
                })
            } else {
                r matches Err(error) && error@ == (GenesisError::NativeAssetNotFungible {
                    account_id: native_asset_id@,
                })
            },
    {
        if native_asset_id.account_type() != AccountType::FungibleFaucet {
            return Err(GenesisConfigError::NativeAssetNotFungible { account_id: native_asset_id });
        }
        Ok(FeeParameters { native_asset_id, verification_base_fee })
    }

    /// The faucet that issues the native token.
    pub fn native_asset_id(&self) -> (r: AccountId)
        ensures
            r@ == self@.native_asset_id,
            r.spec_account_type() == AccountType::FungibleFaucet,
    {
        proof {
            use_type_invariant(self);
        }
        self.native_asset_id
    }

    /// What is paid for a verification, in units of smallest denomination.
    pub fn verification_base_fee(&self) -> (r: u32)
        ensures
            r == self@.verification_base_fee,
    {
        self.verification_base_fee
    }
}

/// The state that a chain starts with, and who signs its first block.
#[derive(Debug)]
pub struct GenesisState<S> {
    pub fee_parameters: FeeParameters,
    pub accounts: Vec<Account>,
    pub version: u32,
    pub timestamp: u32,
    pub block_signer: S,
}

/// The state that a chain starts with, as plain values.
#[verifier::ext_equal]
pub struct StateModel {
    pub fees: FeeModel,
    pub accounts: Seq<AccountModel>,
    pub version: u32,
    pub timestamp: u32,
}

impl<S> View for GenesisState<S> {
    type V = StateModel;

    open spec fn view(&self) -> StateModel {
        StateModel {
            fees: self.fee_parameters@,
            accounts: account_models(self.accounts@),
            version: self.version,
            timestamp: self.timestamp,
        }
    }
}

} // verus!
