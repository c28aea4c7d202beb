//! Fungible assets and the changes of an account's balances that one transaction makes.

use miden_protocol::account::{AccountId as ProtocolAccountId, FungibleAssetDelta};
use miden_protocol::asset::FungibleAsset as ProtocolFungibleAsset;
use miden_protocol::errors::AccountDeltaError;
use vstd::prelude::*;

use crate::account::{type_of_id, AccountId, AccountType};
use crate::token::MAX_AMOUNT;

verus! {

// OUTSIDE TYPES
// ================================================================================================

#[verifier::external_type_specification]
#[verifier::external_body]
pub struct ExFungibleAssetDelta(FungibleAssetDelta);

#[verifier::external_type_specification]
#[verifier::external_body]
pub struct ExAccountDeltaError(AccountDeltaError);

// FUNGIBLE ASSET
// ================================================================================================

/// Why an amount is no asset of a faucet.
#[derive(Debug, Clone, Copy, PartialEq, Eq)]
pub enum AssetError {
    /// The account is no fungible faucet.
    FungibleFaucetIdTypeMismatch(AccountId),
    /// The amount is larger than any asset can be.
    FungibleAssetAmountTooBig(u64),
}

/// An amount of the token that a fungible faucet issues.
#[derive(Debug, Clone, Copy, PartialEq, Eq)]
pub struct FungibleAsset {
    pub(crate) faucet_id: AccountId,
    pub(crate) amount: u64,
}

/// Why `amount` is no asset of the faucet, if it is none.
pub open spec fn asset_error(faucet_id: AccountId, amount: u64) -> Option<AssetError> {
    if faucet_id.spec_account_type() != AccountType::FungibleFaucet {
        Some(AssetError::FungibleFaucetIdTypeMismatch(faucet_id))
    } else if amount > MAX_AMOUNT {
        Some(AssetError::FungibleAssetAmountTooBig(amount))
    } else {
        None
    }
}

impl FungibleAsset {
    #[verifier::type_invariant]
    spec fn wf(&self) -> bool {
        asset_error(self.faucet_id, self.amount) is None
    }

    /// The faucet that issued the asset.
    pub closed spec fn spec_faucet_id(self) -> AccountId {
        self.faucet_id
    }

    /// The amount of the asset.
    pub closed spec fn spec_amount(self) -> u64 {
        self.amount
    }

    /// The amount of the asset.
    pub fn amount(&self) -> (r: u64)
        ensures
            r == self.spec_amount(),
            r <= MAX_AMOUNT,
    {
        proof {
            use_type_invariant(self);
        }
        self.amount
    }

    /// The faucet that issued the asset.
    pub fn faucet_id(&self) -> (r: AccountId)
        ensures
            r == self.spec_faucet_id(),
            r.spec_account_type() == AccountType::FungibleFaucet,
    {
        proof {
            use_type_invariant(self);
        }
        self.faucet_id
    }

    /// An amount of the token of a faucet.
    pub fn new(faucet_id: AccountId, amount: u64) -> (r: Result<Self, AssetError>)
        ensures
            match asset_error(faucet_id, amount) {
                None => r matches Ok(asset) && asset.spec_faucet_id() == faucet_id
                    && asset.spec_amount() == amount,
                Some(e) => r == Err::<Self, AssetError>(e),
            },
    {
        match faucet_id.account_type() {
            AccountType::FungibleFaucet => {},
            _ => { return Err(AssetError::FungibleFaucetIdTypeMismatch(faucet_id)); },
        }
        if amount > MAX_AMOUNT {
            return Err(AssetError::FungibleAssetAmountTooBig(amount));
        }
        Ok(FungibleAsset { faucet_id, amount })
    }
}

// CHANGES OF BALANCES
// ================================================================================================

/// The callback flag of an asset that is moved without calling back its faucet.
pub const NO_CALLBACKS: u8 = 0;

/// What a set of balance changes holds: the change of each faucet's asset, by faucet and callback
/// flag.
pub uninterp spec fn delta_amounts(delta: FungibleAssetDelta) -> Map<(u128, u8), int>;

/// The change of the plain asset of a faucet.
pub open spec fn amount_of(amounts: Map<(u128, u8), int>, faucet_id: u128) -> int {
    if amounts.contains_key((faucet_id, NO_CALLBACKS)) {
        amounts[(faucet_id, NO_CALLBACKS)]
    } else {
        0
    }
}

/// The changes after one more amount of a faucet's plain asset came in. Sums of zero leave no
/// trace.
pub open spec fn with_amount(
    amounts: Map<(u128, u8), int>,
    faucet_id: u128,
    amount: int,
) -> Map<(u128, u8), int> {
    let sum = amount_of(amounts, faucet_id) + amount;
    if sum == 0 {
        amounts.remove((faucet_id, NO_CALLBACKS))
    } else {
        amounts.insert((faucet_id, NO_CALLBACKS), sum)
    }
}

/// `FungibleAssetDelta::default` holds no change.
#[verifier::external_body]
pub(crate) fn empty_delta() -> (r: FungibleAssetDelta)
    ensures
        delta_amounts(r) == (Map::<(u128, u8), int>::empty()),
{
    FungibleAssetDelta::default()
}

/// `FungibleAssetDelta::add` adds an asset without callbacks to the change of its faucet.
///
/// Claimed: it is refused exactly when the faucet has a change already and the sum does not fit
/// into 64 bits with a sign; a refused asset changes nothing; a sum of zero is dropped.
#[verifier::external_body]
pub(crate) fn add_to_delta(delta: &mut FungibleAssetDelta, asset: FungibleAsset) -> (r: Result<
    (),
    AccountDeltaError,
>)
    ensures
        ({
            let faucet_id = asset.spec_faucet_id()@;
            let before = delta_amounts(*old(delta));
            let sum = amount_of(before, faucet_id) + asset.spec_amount();
            if i64::MIN <= sum <= i64::MAX {
                r is Ok && delta_amounts(*final(delta)) == with_amount(
                    before,
                    faucet_id,
                    asset.spec_amount() as int,
                )
            } else {
                r is Err && delta_amounts(*final(delta)) == before
            }
        }),
{
    let faucet_id = ProtocolAccountId::try_from(asset.faucet_id.value).expect("valid account id");
    delta.add(ProtocolFungibleAsset::new(faucet_id, asset.amount).expect("valid asset"))
}

/// `FungibleAssetDelta::iter` goes through all changes, one for each faucet and callback flag.
///
/// Claimed: every change is listed once and nothing else is. The order is not claimed.
#[verifier::external_body]
pub(crate) fn delta_entries(delta: &FungibleAssetDelta) -> (r: Vec<((AccountId, u8), i64)>)
    ensures
        forall|i: int|
            0 <= i < r@.len() ==> {
                let key = ((#[trigger] r@[i]).0.0@, r@[i].0.1);
                &&& delta_amounts(*delta).contains_key(key)
                &&& delta_amounts(*delta)[key] == r@[i].1
            },
        forall|i: int, j: int|
            0 <= i < j < r@.len() ==> ((#[trigger] r@[i]).0.0@, r@[i].0.1) != (
                (#[trigger] r@[j]).0.0@,
                r@[j].0.1,
            ),
        forall|key: (u128, u8)| #[trigger]
            delta_amounts(*delta).contains_key(key) ==> exists|i: int|
                0 <= i < r@.len() && (#[trigger] r@[i]).0.0@ == key.0 && r@[i].0.1 == key.1,
{
    delta
        .iter()
        .map(|(key, amount)| {
            let faucet_id = AccountId { value: u128::from(key.faucet_id()) };
            ((faucet_id, key.callback_flag().as_u8()), *amount)
        })
        .collect()
}

// LAWS
// ================================================================================================

/// An amount is an asset exactly if its account is a fungible faucet and the amount is at most
/// `2^63 - 2^31`. The account is looked at first.
pub proof fn assets_are_bounded_amounts_of_faucets(faucet_id: AccountId, amount: u64)
    ensures
        match asset_error(faucet_id, amount) {
            None => type_of_id(faucet_id@) == AccountType::FungibleFaucet && amount
                <= 9_223_372_034_707_292_160,
            Some(AssetError::FungibleFaucetIdTypeMismatch(id)) => type_of_id(faucet_id@)
                != AccountType::FungibleFaucet && id == faucet_id,
            Some(AssetError::FungibleAssetAmountTooBig(reported)) => type_of_id(faucet_id@)
                == AccountType::FungibleFaucet && amount > 9_223_372_034_707_292_160 && reported
                == amount,
        },
{
}

/// An amount that comes in changes the balance of its faucet by itself and no other, and changes
/// of zero leave no trace.
pub proof fn amounts_add_up(
    amounts: Map<(u128, u8), int>,
    faucet_id: u128,
    amount: int,
    key: (u128, u8),
)
    ensures
        amount_of(with_amount(amounts, faucet_id, amount), faucet_id) == amount_of(
            amounts,
            faucet_id,
        ) + amount,
        with_amount(amounts, faucet_id, amount).contains_key((faucet_id, NO_CALLBACKS))
            <==> amount_of(amounts, faucet_id) + amount != 0,
        key != (faucet_id, NO_CALLBACKS) ==> {
            &&& with_amount(amounts, faucet_id, amount).contains_key(key) == amounts.contains_key(
                key,
            )
            &&& with_amount(amounts, faucet_id, amount)[key] == amounts[key]
        },
{
}

} // verus!
