//! The step that completes the faucets once it is known what the wallets hold.

use indexmap::IndexMap;
use vstd::prelude::*;

use crate::account::{
    account_after_delta, account_models, nonce_overflows, Account, AccountModel,
};
use crate::assets::{amount_of, empty_delta};
use crate::genesis::error::{GenesisConfigError, GenesisError};
use crate::genesis::faucets::{FaucetEntry, FaucetTable};
use crate::genesis::wallets::issuance_of;
use crate::index::{get_number, number_entries};
use crate::token::{canonical, felt, with_supply, TokenModel, TokenSymbolStr};

verus! {

/// The faucet account after its only update: the issued amount is stored, if there is any, and the
/// nonce grows by one.
pub open spec fn updated_faucet(account: AccountModel, total: u64) -> Result<
    AccountModel,
    GenesisError,
> {
    if total == 0 {
        match account_after_delta(account, None, Map::empty(), 1) {
            Some(updated) => Ok(updated),
            None => Err(GenesisError::Account),
        }
    } else {
        match account.token {
            None => Err(GenesisError::FungibleFaucet),
            Some(token) => match with_supply(token, canonical(total)) {
                Err(e) => Err(GenesisError::TokenMetadata(e)),
                Ok(token) => match account_after_delta(account, Some(token), Map::empty(), 1) {
                    Some(updated) => Ok(updated),
                    None => Err(GenesisError::Account),
                },
            },
        }
    }
}

/// The faucet account that the state starts with, when the given amount was issued, or why there
/// is none.
pub open spec fn deployed_faucet(faucet: FaucetEntry, total: u64) -> Result<
    AccountModel,
    GenesisError,
> {
    match updated_faucet(faucet.account, total) {
        Err(e) => Err(e),
        Ok(account) => match account.token {
            None => Err(GenesisError::FungibleFaucet),
            Some(token) => if token.max_supply < total {
                Err(
                    GenesisError::MaxIssuanceExceeded {
                        max_supply: token.max_supply,
                        symbol: faucet.symbol,
                        total_issuance: total,
                    },
                )
            } else {
                Ok(account)
            },
        },
    }
}

/// What holds of every faucet account that a state starts with: it is the faucet after one update,
/// its token is what it was but for the issued amount, and no more than the maximum was issued.
///
/// If the wallets hold none of the token, the issued amount stays what it was.
pub open spec fn is_deployed_faucet(
    faucet: FaucetEntry,
    total: u64,
    account: AccountModel,
) -> bool {
    &&& account.id == faucet.account.id
    &&& account.nonce == faucet.account.nonce + 1
    &&& faucet.account.token matches Some(token)
    &&& account.token == Some(
        TokenModel {
            token_supply: if total == 0 {
                token.token_supply
            } else {
                total
            },
            ..token
        },
    )
    &&& total <= token.max_supply
    &&& forall|id: u128| #[trigger] account.balance(id) == faucet.account.balance(id)
}

/// Stores the issued amount in a faucet and sets its nonce, which makes it ready for the chain.
pub fn deploy_faucet(symbol: &TokenSymbolStr, faucet: &Account, total: u64) -> (r: Result<
    Account,
    GenesisConfigError,
>)
    ensures
        ({
            let entry = FaucetEntry { symbol: symbol@, account: faucet@ };
            match deployed_faucet(entry, total) {
                Ok(account) => {
                    &&& r matches Ok(deployed)
                    &&& deployed@ == account
                    &&& is_deployed_faucet(entry, total, account)
                },
                Err(e) => r matches Err(error) && error@ == e,
            }
        }),
        nonce_overflows(faucet@, 1) ==> r is Err,
        total == 0 && faucet@.token is Some && !nonce_overflows(faucet@, 1) ==> r is Ok,
{
    let updated = if total != 0 {
        let current = match faucet.token_metadata() {
            Ok(current) => current,
            Err(e) => { return Err(GenesisConfigError::FungibleFaucet(e)); },
        };
        let metadata = match current.with_token_supply(felt(total)) {
            Ok(metadata) => metadata,
            Err(e) => { return Err(GenesisConfigError::TokenMetadata(e)); },
        };
        match faucet.with_token(&metadata) {
            Ok(updated) => updated,
            Err(e) => { return Err(GenesisConfigError::Account(e)); },
        }
    } else {
        let unchanged = empty_delta();
        match faucet.with_balances(&unchanged) {
            Ok(updated) => {
                assert forall|id: u128| #[trigger] updated@.balance(id) == faucet@.balance(
                    id,
                ) by {
                    assert(amount_of(Map::empty(), id) == 0);
                }
                updated
            },
            Err(e) => { return Err(GenesisConfigError::Account(e)); },
        }
    };
    let metadata = match updated.token_metadata() {
        Ok(metadata) => metadata,
        Err(e) => { return Err(GenesisConfigError::FungibleFaucet(e)); },
    };
    let max_supply: u64 = metadata.max_supply();
    if max_supply < total {
        return Err(
            GenesisConfigError::MaxIssuanceExceeded {
                max_supply,
                symbol: symbol.clone(),
                total_issuance: total,
            },
        );
    }
    let _ = metadata.symbol();
    Ok(updated)
}

/// The faucet accounts that the state starts with, or what is wrong with the first one with which
/// something is wrong.
pub open spec fn deployed_faucets(
    faucets: Seq<FaucetEntry>,
    issuance: spec_fn(u128) -> int,
) -> Result<Seq<AccountModel>, GenesisError>
    decreases faucets.len(),
{
    if faucets.len() == 0 {
        Ok(Seq::empty())
    } else {
        match deployed_faucets(faucets.drop_last(), issuance) {
            Err(e) => Err(e),
            Ok(accounts) => match deployed_faucet(
                faucets.last(),
                issuance(faucets.last().account.id) as u64,
            ) {
                Err(e) => Err(e),
                Ok(account) => Ok(accounts.push(account)),
            },
        }
    }
}

/// What is wrong with the first faucets is wrong with all of them.
proof fn lemma_deploy_error(
    faucets: Seq<FaucetEntry>,
    issuance: spec_fn(u128) -> int,
    n: int,
)
    requires
        0 <= n <= faucets.len(),
        deployed_faucets(faucets.take(n), issuance) is Err,
    ensures
        deployed_faucets(faucets, issuance) == deployed_faucets(faucets.take(n), issuance),
    decreases faucets.len() - n,
{
    if n < faucets.len() {
        assert(faucets.take(n + 1).drop_last() =~= faucets.take(n));
        lemma_deploy_error(faucets, issuance, n + 1);
    } else {
        assert(faucets.take(n) =~= faucets);
    }
}

/// Completes all faucets with what was issued of their tokens.
pub fn deploy_faucets(faucets: &FaucetTable, issuance: &IndexMap<u128, u64>) -> (r: Result<
    Vec<Account>,
    GenesisConfigError,
>)
    ensures
        ({
            let totals = |id: u128| issuance_of(number_entries(*issuance), id) as int;
            match deployed_faucets(faucets@, totals) {
                Ok(accounts) => {
                    &&& r matches Ok(deployed)
                    &&& account_models(deployed@) == accounts
                    &&& accounts.len() == faucets@.len()
                    &&& forall|i: int|
                        0 <= i < accounts.len() ==> is_deployed_faucet(
                            faucets@[i],
                            issuance_of(number_entries(*issuance), faucets@[i].account.id),
                            #[trigger] accounts[i],
                        )
                },
                Err(e) => r matches Err(error) && error@ == e,
            }
        }),
        (forall|i: int|
            0 <= i < faucets@.len() ==> {
                &&& issuance_of(number_entries(*issuance), (#[trigger] faucets@[i]).account.id) == 0
                &&& faucets@[i].account.token is Some
                &&& !nonce_overflows(faucets@[i].account, 1)
            }) ==> r is Ok,
        (exists|i: int|
            0 <= i < faucets@.len() && nonce_overflows((#[trigger] faucets@[i]).account, 1))
            ==> r is Err,
{
    let ghost entries = number_entries(*issuance);
    let ghost totals = |id: u128| issuance_of(entries, id) as int;
    let mut accounts: Vec<Account> = Vec::new();
    let mut i: usize = 0;
    assert(faucets@.take(0) =~= Seq::empty());
    assert(account_models(accounts@) =~= Seq::empty());
    while i < faucets.len()
        invariant
            entries == number_entries(*issuance),
            totals == (|id: u128| issuance_of(entries, id) as int),
            i <= faucets@.len(),
            accounts@.len() == i,
            deployed_faucets(faucets@.take(i as int), totals) == Ok::<
                Seq<AccountModel>,
                GenesisError,
            >(account_models(accounts@)),
            forall|j: int|
                0 <= j < i ==> is_deployed_faucet(
                    faucets@[j],
                    issuance_of(entries, faucets@[j].account.id),
                    (#[trigger] accounts@[j])@,
                ),
            forall|j: int|
                0 <= j < i ==> !nonce_overflows((#[trigger] faucets@[j]).account, 1),
        decreases faucets@.len() - i,
    {
        let (symbol, faucet) = faucets.entry(i);
        proof {
            assert(faucets@.take(i + 1).drop_last() =~= faucets@.take(i as int));
            assert(faucets@.take(i + 1).last() == faucets@[i as int]);
            if deployed_faucets(faucets@.take(i + 1), totals) is Err {
                lemma_deploy_error(faucets@, totals, i + 1);
            }
        }
        let total: u64 = match get_number(issuance, faucet.id().value()) {
            Some(total) => total,
            None => 0,
        };
        match deploy_faucet(symbol, faucet, total) {
            Ok(account) => {
                let ghost sofar = account_models(accounts@);
                accounts.push(account);
                assert(account_models(accounts@) =~= sofar.push(account@));
            },
            Err(e) => { return Err(e); },
        }
        i = i + 1;
    }
    assert(faucets@.take(i as int) =~= faucets@);
    Ok(accounts)
}

} // verus!
