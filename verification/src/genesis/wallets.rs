//! The wallets of a genesis state and the assets that they start with.

use indexmap::IndexMap;
use miden_protocol::account::FungibleAssetDelta;
use vstd::prelude::*;

use crate::account::{
    account_after_delta, account_models, basic_wallet, mode_of_id, type_of_id, Account,
    AccountModel, AccountType,
};
use crate::assets::{
    add_to_delta, amount_of, delta_amounts, delta_entries, empty_delta, with_amount, FungibleAsset,
    NO_CALLBACKS,
};
use crate::genesis::config::{
    asset_models, wallet_models, AssetEntry, AssetModel, WalletConfig, WalletModel,
};
use crate::genesis::error::{GenesisConfigError, GenesisError};
use crate::genesis::faucets::{faucet_position, has_faucet, FaucetEntry, FaucetTable};
use crate::index::{get_number, insert_number, new_number_index, number_entries};
use crate::keys::{key_models, KeyMaterial, KeyModel};
use crate::token::MAX_AMOUNT;

verus! {

// ASSETS
// ================================================================================================

/// The identifier of the faucet that issues a token.
pub open spec fn issuer(faucets: Seq<FaucetEntry>, symbol: Seq<char>) -> u128 {
    faucets[faucet_position(faucets, symbol)].account.id
}

/// What is wrong with one asset of a wallet: no faucet issues the token, the account under the
/// token's symbol is no fungible faucet, or the amount is too big.
pub open spec fn entry_error(faucets: Seq<FaucetEntry>, entry: AssetModel) -> Option<GenesisError> {
    if !has_faucet(faucets, entry.symbol) {
        Some(GenesisError::MissingFaucetDefinition { symbol: entry.symbol })
    } else if type_of_id(issuer(faucets, entry.symbol)) != AccountType::FungibleFaucet {
        Some(GenesisError::NoFungibleFaucet { account_id: issuer(faucets, entry.symbol) })
    } else if entry.amount > MAX_AMOUNT {
        Some(GenesisError::AmountTooBig { amount: entry.amount })
    } else {
        None
    }
}

/// What is wrong with the first of the assets with which something is wrong.
pub open spec fn entries_error(faucets: Seq<FaucetEntry>, assets: Seq<AssetModel>) -> Option<
    GenesisError,
>
    decreases assets.len(),
{
    if assets.len() == 0 {
        None
    } else {
        match entries_error(faucets, assets.drop_last()) {
            Some(e) => Some(e),
            None => entry_error(faucets, assets.last()),
        }
    }
}

/// How much of the token of a faucet the assets hold.
pub open spec fn held(faucets: Seq<FaucetEntry>, assets: Seq<AssetModel>, faucet_id: u128) -> int
    decreases assets.len(),
{
    if assets.len() == 0 {
        0
    } else {
        let entry = assets.last();
        held(faucets, assets.drop_last(), faucet_id) + if issuer(faucets, entry.symbol)
            == faucet_id {
            entry.amount as int
        } else {
            0
        }
    }
}

/// The assets as changes of balances, one for each faucet of whose token they hold anything.
pub open spec fn held_amounts(faucets: Seq<FaucetEntry>, assets: Seq<AssetModel>) -> Map<
    (u128, u8),
    int,
>
    decreases assets.len(),
{
    if assets.len() == 0 {
        Map::empty()
    } else {
        let entry = assets.last();
        with_amount(
            held_amounts(faucets, assets.drop_last()),
            issuer(faucets, entry.symbol),
            entry.amount as int,
        )
    }
}

/// The changes of balances hold for each faucet what the assets hold of its token, never less
/// than nothing, and name no faucet of whose token the assets hold nothing.
pub proof fn held_amounts_add_up(faucets: Seq<FaucetEntry>, assets: Seq<AssetModel>)
    ensures
        forall|id: u128| #[trigger]
            amount_of(held_amounts(faucets, assets), id) == held(faucets, assets, id),
        forall|id: u128| #[trigger] held(faucets, assets, id) >= 0,
        forall|key: (u128, u8)| #[trigger]
            held_amounts(faucets, assets).contains_key(key) <==> key.1 == NO_CALLBACKS && held(
                faucets,
                assets,
                key.0,
            ) > 0,
    decreases assets.len(),
{
    if assets.len() > 0 {
        held_amounts_add_up(faucets, assets.drop_last());
        let before = held_amounts(faucets, assets.drop_last());
        let after = held_amounts(faucets, assets);
        assert forall|id: u128| #[trigger] amount_of(after, id) == held(faucets, assets, id) by {
            assert(amount_of(before, id) == held(faucets, assets.drop_last(), id));
        }
        assert forall|id: u128| #[trigger] held(faucets, assets, id) >= 0 by {
            assert(held(faucets, assets.drop_last(), id) >= 0);
        }
        assert forall|key: (u128, u8)| #[trigger]
            after.contains_key(key) <==> key.1 == NO_CALLBACKS && held(faucets, assets, key.0)
                > 0 by {
            assert(held(faucets, assets.drop_last(), key.0) >= 0);
            assert(amount_of(before, key.0) == held(faucets, assets.drop_last(), key.0));
            assert(before.contains_key(key) <==> key.1 == NO_CALLBACKS && held(
                faucets,
                assets.drop_last(),
                key.0,
            ) > 0);
        }
    }
}

/// More assets hold no less.
proof fn lemma_held_grows(
    faucets: Seq<FaucetEntry>,
    assets: Seq<AssetModel>,
    n: int,
    faucet_id: u128,
)
    requires
        0 <= n <= assets.len(),
    ensures
        held(faucets, assets.take(n), faucet_id) <= held(faucets, assets, faucet_id),
    decreases assets.len() - n,
{
    if n < assets.len() {
        lemma_held_grows(faucets, assets, n + 1, faucet_id);
        assert(assets.take(n + 1).drop_last() =~= assets.take(n));
    } else {
        assert(assets.take(n) =~= assets);
    }
}

/// What is wrong with the first assets is wrong with all of them.
proof fn lemma_entries_error(faucets: Seq<FaucetEntry>, assets: Seq<AssetModel>, n: int)
    requires
        0 <= n <= assets.len(),
        entries_error(faucets, assets.take(n)) is Some,
    ensures
        entries_error(faucets, assets) == entries_error(faucets, assets.take(n)),
    decreases assets.len() - n,
{
    if n < assets.len() {
        assert(assets.take(n + 1).drop_last() =~= assets.take(n));
        lemma_entries_error(faucets, assets, n + 1);
    } else {
        assert(assets.take(n) =~= assets);
    }
}

/// How much of the token of a faucet has been issued.
pub open spec fn issuance_of(issuance: Map<u128, u64>, faucet_id: u128) -> u64 {
    if issuance.contains_key(faucet_id) {
        issuance[faucet_id]
    } else {
        0
    }
}

/// Whether the assets hold more of one token than the bound.
pub open spec fn holds_more_than(
    faucets: Seq<FaucetEntry>,
    assets: Seq<AssetModel>,
    bound: int,
) -> bool {
    exists|id: u128| #[trigger] held(faucets, assets, id) > bound
}

/// Whether 64 bits cannot count what has been issued of a token together with the assets.
pub open spec fn issuance_overflows(
    faucets: Seq<FaucetEntry>,
    assets: Seq<AssetModel>,
    issuance: spec_fn(u128) -> int,
) -> bool {
    exists|id: u128| issuance(id) + #[trigger] held(faucets, assets, id) > u64::MAX
}

/// Why the assets of a wallet cannot be issued, if they cannot: something is wrong with an entry,
/// the amounts of one token do not add up within 64 bits with a sign, or the issuance overflows.
pub open spec fn assets_error(
    faucets: Seq<FaucetEntry>,
    assets: Seq<AssetModel>,
    issuance: spec_fn(u128) -> int,
) -> Option<GenesisError> {
    if entries_error(faucets, assets) is Some {
        entries_error(faucets, assets)
    } else if holds_more_than(faucets, assets, i64::MAX as int) {
        Some(GenesisError::AccountDelta)
    } else if issuance_overflows(faucets, assets, issuance) {
        Some(GenesisError::IssuanceOverflow)
    } else {
        None
    }
}

/// Finds the faucet of each asset.
fn resolve_assets(assets: &Vec<AssetEntry>, faucets: &FaucetTable) -> (r: Result<
    Vec<FungibleAsset>,
    GenesisConfigError,
>)
    requires
        faucets.wf(),
    ensures
        match entries_error(faucets@, asset_models(assets@)) {
            Some(e) => r matches Err(error) && error@ == e,
            None => {
                &&& r matches Ok(resolved)
                &&& resolved@.len() == assets@.len()
                &&& forall|i: int|
                    0 <= i < resolved@.len() ==> {
                        &&& (#[trigger] resolved@[i]).spec_faucet_id()@ == issuer(
                            faucets@,
                            assets@[i].symbol@,
                        )
                        &&& resolved@[i].spec_amount() == assets@[i].amount
                    }
            },
        },
{
    let ghost entries = asset_models(assets@);
    let mut resolved: Vec<FungibleAsset> = Vec::new();
    let mut i: usize = 0;
    assert(entries.take(0) =~= Seq::empty());
    while i < assets.len()
        invariant
            faucets.wf(),
            entries == asset_models(assets@),
            i <= assets@.len(),
            entries_error(faucets@, entries.take(i as int)) is None,
            resolved@.len() == i,
            forall|j: int|
                0 <= j < i ==> {
                    &&& (#[trigger] resolved@[j]).spec_faucet_id()@ == issuer(
                        faucets@,
                        assets@[j].symbol@,
                    )
                    &&& resolved@[j].spec_amount() == assets@[j].amount
                },
        decreases assets@.len() - i,
    {
        let entry = &assets[i];
        proof {
            assert(entries.take(i + 1).drop_last() =~= entries.take(i as int));
            assert(entries.take(i + 1).last() == entry@);
            if entry_error(faucets@, entry@) is Some {
                lemma_entries_error(faucets@, entries, i + 1);
            }
        }
        let faucet_id = match faucets.get(&entry.symbol) {
            Some(account) => account.id(),
            None => {
                return Err(
                    GenesisConfigError::MissingFaucetDefinition { symbol: entry.symbol.clone() },
                );
            },
        };
        match FungibleAsset::new(faucet_id, entry.amount) {
            Ok(asset) => resolved.push(asset),
            Err(e) => { return Err(GenesisConfigError::Asset(e)); },
        }
        i = i + 1;
    }
    assert(entries.take(i as int) =~= entries);
    Ok(resolved)
}

/// Adds up the resolved assets, by faucet.
fn sum_assets(
    resolved: &Vec<FungibleAsset>,
    Ghost(faucets): Ghost<Seq<FaucetEntry>>,
    Ghost(assets): Ghost<Seq<AssetModel>>,
) -> (r: Result<FungibleAssetDelta, GenesisConfigError>)
    requires
        resolved@.len() == assets.len(),
        forall|i: int|
            0 <= i < resolved@.len() ==> {
                &&& (#[trigger] resolved@[i]).spec_faucet_id()@ == issuer(
                    faucets,
                    assets[i].symbol,
                )
                &&& resolved@[i].spec_amount() == assets[i].amount
            },
    ensures
        if holds_more_than(faucets, assets, i64::MAX as int) {
            r matches Err(error) && error@ == GenesisError::AccountDelta
        } else {
            r matches Ok(delta) && delta_amounts(delta) == held_amounts(faucets, assets)
        },
{
    let mut delta = empty_delta();
    let mut i: usize = 0;
    assert(assets.take(0) =~= Seq::empty());
    while i < resolved.len()
        invariant
            resolved@.len() == assets.len(),
            forall|i: int|
                0 <= i < resolved@.len() ==> {
                    &&& (#[trigger] resolved@[i]).spec_faucet_id()@ == issuer(
                        faucets,
                        assets[i].symbol,
                    )
                    &&& resolved@[i].spec_amount() == assets[i].amount
                },
            i <= resolved@.len(),
            delta_amounts(delta) == held_amounts(faucets, assets.take(i as int)),
            !holds_more_than(faucets, assets.take(i as int), i64::MAX as int),
        decreases resolved@.len() - i,
    {
        let asset = resolved[i];
        let ghost id = asset.spec_faucet_id()@;
        let ghost before = assets.take(i as int);
        let ghost after = assets.take(i + 1);
        proof {
            assert(after.drop_last() =~= before);
            assert(after.last() == assets[i as int]);
            held_amounts_add_up(faucets, before);
            held_amounts_add_up(faucets, after);
            assert(amount_of(held_amounts(faucets, before), id) == held(faucets, before, id));
            assert(held(faucets, after, id) == held(faucets, before, id) + asset.spec_amount());
            assert forall|other: u128| other != id implies held(faucets, after, other) == held(
                faucets,
                before,
                other,
            ) by {}
            lemma_held_grows(faucets, assets, i + 1, id);
        }
        match add_to_delta(&mut delta, asset) {
            Ok(()) => {},
            Err(e) => {
                assert(held(faucets, assets, id) > i64::MAX);
                return Err(GenesisConfigError::AccountDelta(e));
            },
        }
        assert(!holds_more_than(faucets, after, i64::MAX as int)) by {
            assert forall|other: u128| #[trigger] held(faucets, after, other) <= i64::MAX by {
                if other != id {
                    assert(held(faucets, before, other) <= i64::MAX);
                }
            }
        }
        i = i + 1;
    }
    assert(assets.take(i as int) =~= assets);
    Ok(delta)
}

/// Adds the changes of balances to what has been issued of each token.
fn issue(delta: &FungibleAssetDelta, issuance: &mut IndexMap<u128, u64>) -> (r: Result<
    (),
    GenesisConfigError,
>)
    requires
        forall|key: (u128, u8)| #[trigger]
            delta_amounts(*delta).contains_key(key) ==> key.1 == NO_CALLBACKS && delta_amounts(
                *delta,
            )[key] > 0,
    ensures
        match r {
            Ok(()) => {
                &&& forall|id: u128| #[trigger]
                    issuance_of(number_entries(*final(issuance)), id) == issuance_of(
                        number_entries(*old(issuance)),
                        id,
                    ) + amount_of(delta_amounts(*delta), id)
                &&& forall|id: u128| #[trigger]
                    number_entries(*final(issuance)).contains_key(id) <==> number_entries(
                        *old(issuance),
                    ).contains_key(id) || delta_amounts(*delta).contains_key((id, NO_CALLBACKS))
            },
            Err(error) => {
                &&& error@ == GenesisError::IssuanceOverflow
                &&& exists|id: u128|
                    issuance_of(number_entries(*old(issuance)), id) + #[trigger] amount_of(
                        delta_amounts(*delta),
                        id,
                    ) > u64::MAX
                &&& forall|id: u128|
                    {
                        let old_issuance = issuance_of(number_entries(*old(issuance)), id);
                        let new_issuance = #[trigger] issuance_of(
                            number_entries(*final(issuance)),
                            id,
                        );
                        ||| new_issuance == old_issuance
                        ||| new_issuance == old_issuance + amount_of(delta_amounts(*delta), id)
                    }
                &&& forall|id: u128|
                    {
                        let was_there = number_entries(*old(issuance)).contains_key(id);
                        let is_there = #[trigger] number_entries(*final(issuance)).contains_key(id);
                        &&& was_there ==> is_there
                        &&& is_there ==> was_there || delta_amounts(*delta).contains_key(
                            (id, NO_CALLBACKS),
                        )
                    }
            },
        },
{
    let entries = delta_entries(delta);
    let ghost amounts = delta_amounts(*delta);
    let ghost start = number_entries(*issuance);
    let mut i: usize = 0;
    while i < entries.len()
        invariant
            amounts == delta_amounts(*delta),
            start == number_entries(*old(issuance)),
            forall|key: (u128, u8)| #[trigger]
                amounts.contains_key(key) ==> key.1 == NO_CALLBACKS && amounts[key] > 0,
            i <= entries@.len(),
            forall|j: int|
                0 <= j < entries@.len() ==> {
                    let key = ((#[trigger] entries@[j]).0.0@, entries@[j].0.1);
                    amounts.contains_key(key) && amounts[key] == entries@[j].1
                },
            forall|j: int, k: int|
                0 <= j < k < entries@.len() ==> (
                    (#[trigger] entries@[j]).0.0@,
                    entries@[j].0.1,
                ) != ((#[trigger] entries@[k]).0.0@, entries@[k].0.1),
            forall|key: (u128, u8)| #[trigger]
                amounts.contains_key(key) ==> exists|j: int|
                    0 <= j < entries@.len() && (#[trigger] entries@[j]).0.0@ == key.0
                        && entries@[j].0.1 == key.1,
            forall|j: int|
                0 <= j < i ==> issuance_of(
                    number_entries(*issuance),
                    (#[trigger] entries@[j]).0.0@,
                ) == issuance_of(start, entries@[j].0.0@) + entries@[j].1,
            forall|id: u128|
                (forall|j: int| 0 <= j < i ==> (#[trigger] entries@[j]).0.0@ != id)
                    ==> #[trigger] issuance_of(number_entries(*issuance), id) == issuance_of(
                    start,
                    id,
                ),
            forall|id: u128| #[trigger]
                number_entries(*issuance).contains_key(id) <==> start.contains_key(id) || exists|
                    j: int,
                |
                    0 <= j < i && (#[trigger] entries@[j]).0.0@ == id,
        decreases entries@.len() - i,
    {
        let (key, amount) = entries[i];
        let faucet_id: u128 = key.0.value();
        let ghost before = number_entries(*issuance);
        let issued: u64 = match get_number(issuance, faucet_id) {
            Some(issued) => issued,
            None => 0,
        };
        assert(amounts.contains_key((entries@[i as int].0.0@, entries@[i as int].0.1)));
        assert(issued == issuance_of(before, faucet_id));
        assert forall|j: int| 0 <= j < entries@.len() && j != i implies (
        #[trigger] entries@[j]).0.0@ != faucet_id by {
            assert(amounts.contains_key((entries@[j].0.0@, entries@[j].0.1)));
            if j < i {
                assert((entries@[j].0.0@, entries@[j].0.1) != (
                    entries@[i as int].0.0@,
                    entries@[i as int].0.1,
                ));
            } else {
                assert((entries@[i as int].0.0@, entries@[i as int].0.1) != (
                    entries@[j].0.0@,
                    entries@[j].0.1,
                ));
            }
        }
        assert(issued == issuance_of(start, faucet_id));
        assert(amount_of(amounts, faucet_id) == amount);
        match issued.checked_add(amount as u64) {
            Some(sum) => {
                let _ = insert_number(issuance, faucet_id, sum);
                let ghost after = number_entries(*issuance);
                assert forall|id: u128| id != faucet_id implies #[trigger] issuance_of(after, id)
                    == issuance_of(before, id) by {}
                assert forall|id: u128| #[trigger] after.contains_key(id) <==> start.contains_key(
                    id,
                ) || exists|j: int| 0 <= j < i + 1 && (#[trigger] entries@[j]).0.0@ == id by {
                    if id == faucet_id {
                        assert(entries@[i as int].0.0@ == id);
                    } else {
                        assert(after.contains_key(id) == before.contains_key(id));
                    }
                }
            },
            None => {
                assert forall|id: u128|
                    {
                        let old_issuance = issuance_of(start, id);
                        let new_issuance = #[trigger] issuance_of(before, id);
                        ||| new_issuance == old_issuance
                        ||| new_issuance == old_issuance + amount_of(amounts, id)
                    } by {
                    if exists|j: int| 0 <= j < i && (#[trigger] entries@[j]).0.0@ == id {
                        let j = choose|j: int| 0 <= j < i && (#[trigger] entries@[j]).0.0@ == id;
                        assert(amounts.contains_key((entries@[j].0.0@, entries@[j].0.1)));
                    }
                }
                assert forall|id: u128| #[trigger] before.contains_key(id) implies start.contains_key(
                    id,
                ) || amounts.contains_key((id, NO_CALLBACKS)) by {
                    if !start.contains_key(id) {
                        let j = choose|j: int| 0 <= j < i && (#[trigger] entries@[j]).0.0@ == id;
                        assert(amounts.contains_key((entries@[j].0.0@, entries@[j].0.1)));
                    }
                }
                let ghost sum = issuance_of(start, faucet_id) + amount_of(amounts, faucet_id);
                assert(sum > u64::MAX);
                return Err(GenesisConfigError::IssuanceOverflow);
            },
        }
        i = i + 1;
    }
    proof {
        let end = number_entries(*issuance);
        assert forall|id: u128| #[trigger]
            issuance_of(end, id) == issuance_of(start, id) + amount_of(amounts, id) by {
            if amounts.contains_key((id, NO_CALLBACKS)) {
                let j = choose|j: int|
                    0 <= j < entries@.len() && (#[trigger] entries@[j]).0.0@ == id
                        && entries@[j].0.1 == NO_CALLBACKS;
                assert(issuance_of(end, entries@[j].0.0@) == issuance_of(start, id)
                    + entries@[j].1);
            } else {
                assert forall|j: int| 0 <= j < i implies (#[trigger] entries@[j]).0.0@ != id by {
                    assert(amounts.contains_key((entries@[j].0.0@, entries@[j].0.1)));
                }
            }
        }
        assert forall|id: u128| #[trigger] end.contains_key(id) <==> start.contains_key(id)
            || amounts.contains_key((id, NO_CALLBACKS)) by {
            if amounts.contains_key((id, NO_CALLBACKS)) {
                let j = choose|j: int|
                    0 <= j < entries@.len() && (#[trigger] entries@[j]).0.0@ == id
                        && entries@[j].0.1 == NO_CALLBACKS;
                assert(entries@[j].0.0@ == id);
            } else if end.contains_key(id) && !start.contains_key(id) {
                let j = choose|j: int| 0 <= j < i && (#[trigger] entries@[j]).0.0@ == id;
                assert(amounts.contains_key((entries@[j].0.0@, entries@[j].0.1)));
            }
        }
    }
    Ok(())
}

/// Turns the assets of a wallet into changes of its balances, and counts them as issued by their
/// faucets.
///
/// When the issuance overflows, some faucets may have been counted already.
pub fn prepare_fungible_asset_update(
    assets: &Vec<AssetEntry>,
    faucets: &FaucetTable,
    issuance: &mut IndexMap<u128, u64>,
) -> (r: Result<FungibleAssetDelta, GenesisConfigError>)
    requires
        faucets.wf(),
    ensures
        ({
            let entries = asset_models(assets@);
            let before = number_entries(*old(issuance));
            let after = number_entries(*final(issuance));
            match assets_error(faucets@, entries, |id: u128| issuance_of(before, id) as int) {
                None => {
                    &&& r matches Ok(delta)
                    &&& delta_amounts(delta) == held_amounts(faucets@, entries)
                    &&& forall|id: u128| #[trigger]
                        issuance_of(after, id) == issuance_of(before, id) + held(
                            faucets@,
                            entries,
                            id,
                        )
                    &&& forall|id: u128| #[trigger]
                        after.contains_key(id) <==> before.contains_key(id) || held(
                            faucets@,
                            entries,
                            id,
                        ) > 0
                },
                Some(e) => {
                    &&& r matches Err(error)
                    &&& error@ == e
                    &&& e == GenesisError::IssuanceOverflow || after == before
                    &&& forall|id: u128|
                        {
                            &&& before.contains_key(id) ==> #[trigger] after.contains_key(id)
                            &&& after.contains_key(id) ==> before.contains_key(id) || held(
                                faucets@,
                                entries,
                                id,
                            ) > 0
                        }
                    &&& forall|id: u128|
                        {
                            ||| #[trigger] issuance_of(after, id) == issuance_of(before, id)
                            ||| issuance_of(after, id) == issuance_of(before, id) + held(
                                faucets@,
                                entries,
                                id,
                            )
                        }
                },
            }
        }),
{
    let ghost entries = asset_models(assets@);
    let ghost before = number_entries(*issuance);
    let ghost counted = |id: u128| issuance_of(before, id) as int;
    let resolved = match resolve_assets(assets, faucets) {
        Ok(resolved) => resolved,
        Err(e) => { return Err(e); },
    };
    let delta = match sum_assets(&resolved, Ghost(faucets@), Ghost(entries)) {
        Ok(delta) => delta,
        Err(e) => { return Err(e); },
    };
    proof {
        held_amounts_add_up(faucets@, entries);
        let amounts = held_amounts(faucets@, entries);
        assert forall|key: (u128, u8)| #[trigger] amounts.contains_key(key) implies key.1
            == NO_CALLBACKS && amounts[key] > 0 by {
            assert(amount_of(amounts, key.0) == held(faucets@, entries, key.0));
        }
    }
    match issue(&delta, issuance) {
        Ok(()) => {
            proof {
                let after = number_entries(*issuance);
                assert forall|id: u128| issuance_of(before, id) + #[trigger] held(
                    faucets@,
                    entries,
                    id,
                ) <= u64::MAX by {
                    assert(issuance_of(after, id) == issuance_of(before, id) + amount_of(
                        held_amounts(faucets@, entries),
                        id,
                    ));
                }
                assert(!issuance_overflows(faucets@, entries, counted));
            }
            Ok(delta)
        },
        Err(e) => {
            proof {
                let id = choose|id: u128|
                    issuance_of(before, id) + #[trigger] amount_of(delta_amounts(delta), id)
                        > u64::MAX;
                assert(counted(id) + held(faucets@, entries, id) > u64::MAX);
                assert(issuance_overflows(faucets@, entries, counted));
            }
            Err(e)
        },
    }
}

// WALLETS
// ================================================================================================

/// The account type of a wallet.
pub open spec fn wallet_type(wallet: WalletModel) -> AccountType {
    if wallet.has_updatable_code {
        AccountType::RegularAccountUpdatableCode
    } else {
        AccountType::RegularAccountImmutableCode
    }
}

/// How much of the token of a faucet the wallets hold together.
pub open spec fn issued(
    faucets: Seq<FaucetEntry>,
    wallets: Seq<WalletModel>,
    faucet_id: u128,
) -> int
    decreases wallets.len(),
{
    if wallets.len() == 0 {
        0
    } else {
        issued(faucets, wallets.drop_last(), faucet_id) + held(
            faucets,
            wallets.last().assets,
            faucet_id,
        )
    }
}

/// The account of a wallet, made with the given key when the given amounts were issued already,
/// or why there is none.
pub open spec fn built_wallet(
    faucets: Seq<FaucetEntry>,
    wallet: WalletModel,
    key: KeyModel,
    issuance: spec_fn(u128) -> int,
) -> Result<AccountModel, GenesisError> {
    match basic_wallet(
        key.init_seed,
        key.public_key(),
        wallet_type(wallet),
        wallet.storage_mode,
    ) {
        None => Err(GenesisError::BasicWallet),
        Some(account) => match assets_error(faucets, wallet.assets, issuance) {
            Some(e) => Err(e),
            None => if holds_more_than(faucets, wallet.assets, MAX_AMOUNT as int) {
                Err(GenesisError::WalletBalanceTooLarge)
            } else {
                match account_after_delta(account, None, held_amounts(faucets, wallet.assets), 1) {
                    None => Err(GenesisError::Account),
                    Some(deployed) => Ok(deployed),
                }
            },
        },
    }
}

/// What holds of the account of every wallet: it has the configured type and storage mode and the
/// nonce one, it is the account that its key makes, of each token it holds the sum of the configured
/// amounts, and each token has its faucet.
pub open spec fn is_wallet(
    faucets: Seq<FaucetEntry>,
    wallet: WalletModel,
    key: KeyModel,
    account: AccountModel,
) -> bool {
    &&& basic_wallet(
        key.init_seed,
        key.public_key(),
        wallet_type(wallet),
        wallet.storage_mode,
    ) matches Some(made)
    &&& account.id == made.id
    &&& type_of_id(account.id) == wallet_type(wallet)
    &&& mode_of_id(account.id) == Some(wallet.storage_mode)
    &&& account.nonce == 1
    &&& entries_error(faucets, wallet.assets) is None
    &&& forall|id: u128| #[trigger] account.balance(id) == held(faucets, wallet.assets, id)
}

/// The accounts of the wallets, each made with its key, or what is wrong with the first wallet
/// with which something is wrong.
pub open spec fn built_wallets(
    faucets: Seq<FaucetEntry>,
    wallets: Seq<WalletModel>,
    keys: Seq<KeyModel>,
) -> Result<Seq<AccountModel>, GenesisError>
    decreases wallets.len(),
{
    if wallets.len() == 0 {
        Ok(Seq::empty())
    } else {
        match built_wallets(faucets, wallets.drop_last(), keys) {
            Err(e) => Err(e),
            Ok(accounts) => match built_wallet(
                faucets,
                wallets.last(),
                keys[wallets.len() - 1],
                |id: u128| issued(faucets, wallets.drop_last(), id),
            ) {
                Err(e) => Err(e),
                Ok(account) => Ok(accounts.push(account)),
            },
        }
    }
}

/// What is wrong with the first wallets is wrong with all of them.
proof fn lemma_wallets_error(
    faucets: Seq<FaucetEntry>,
    wallets: Seq<WalletModel>,
    keys: Seq<KeyModel>,
    n: int,
)
    requires
        0 <= n <= wallets.len(),
        built_wallets(faucets, wallets.take(n), keys) is Err,
    ensures
        built_wallets(faucets, wallets, keys) == built_wallets(faucets, wallets.take(n), keys),
    decreases wallets.len() - n,
{
    if n < wallets.len() {
        assert(wallets.take(n + 1).drop_last() =~= wallets.take(n));
        lemma_wallets_error(faucets, wallets, keys, n + 1);
    } else {
        assert(wallets.take(n) =~= wallets);
    }
}

impl WalletConfig {
    /// Makes the account of the wallet with the given key, fills it with its assets, and counts
    /// them as issued by their faucets.
    ///
    /// The account is deployed without a transaction, so its nonce is set to one.
    pub fn build_account_with(
        &self,
        key: &KeyMaterial,
        faucets: &FaucetTable,
        issuance: &mut IndexMap<u128, u64>,
    ) -> (r: Result<Account, GenesisConfigError>)
        requires
            faucets.wf(),
        ensures
            ({
                let before = number_entries(*old(issuance));
                let after = number_entries(*final(issuance));
                match built_wallet(faucets@, self@, key@, |id: u128| issuance_of(before, id) as int) {
                    Ok(account) => {
                        &&& r matches Ok(built)
                        &&& built@ == account
                        &&& is_wallet(faucets@, self@, key@, account)
                        &&& forall|id: u128| #[trigger]
                            issuance_of(after, id) == issuance_of(before, id) + held(
                                faucets@,
                                self@.assets,
                                id,
                            )
                        &&& forall|id: u128| #[trigger]
                            after.contains_key(id) <==> before.contains_key(id) || held(
                                faucets@,
                                self@.assets,
                                id,
                            ) > 0
                    },
                    Err(e) => {
                        &&& r matches Err(error)
                        &&& error@ == e
                        &&& forall|id: u128|
                            {
                                ||| #[trigger] issuance_of(after, id) == issuance_of(before, id)
                                ||| issuance_of(after, id) == issuance_of(before, id) + held(
                                    faucets@,
                                    self@.assets,
                                    id,
                                )
                            }
                    },
                }
            }),
            self@.assets.len() == 0 && basic_wallet(
                key@.init_seed,
                key@.public_key(),
                wallet_type(self@),
                self@.storage_mode,
            ) is Some ==> r is Ok,
    {
        let account_type = if self.has_updatable_code {
            AccountType::RegularAccountUpdatableCode
        } else {
            AccountType::RegularAccountImmutableCode
        };
        let wallet = match Account::new_wallet(
            key.init_seed(),
            key.public_key(),
            account_type,
            self.storage_mode,
        ) {
            Ok(wallet) => wallet,
            Err(e) => { return Err(GenesisConfigError::BasicWallet(e)); },
        };
        let delta = match prepare_fungible_asset_update(&self.assets, faucets, issuance) {
            Ok(delta) => delta,
            Err(e) => { return Err(e); },
        };
        let ghost entries = asset_models(self.assets@);
        proof {
            held_amounts_add_up(faucets@, entries);
        }
        if exceeds_vault(&delta) {
            proof {
                let key = choose|key: (u128, u8)| #[trigger]
                    delta_amounts(delta).contains_key(key) && delta_amounts(delta)[key]
                        > MAX_AMOUNT;
                assert(held_amounts(faucets@, entries).contains_key(key));
                assert(amount_of(held_amounts(faucets@, entries), key.0) == held(
                    faucets@,
                    entries,
                    key.0,
                ));
            }
            return Err(GenesisConfigError::WalletBalanceTooLarge);
        }
        proof {
            let amounts = delta_amounts(delta);
            assert forall|key: (u128, u8)| #[trigger] amounts.contains_key(key) implies -MAX_AMOUNT
                <= amounts[key] <= MAX_AMOUNT by {
                assert(amount_of(amounts, key.0) == held(faucets@, entries, key.0));
            }
            assert forall|id: u128| #[trigger] held(faucets@, entries, id) <= MAX_AMOUNT by {
                assert(amount_of(amounts, id) == held(faucets@, entries, id));
            }
        }
        match wallet.with_balances(&delta) {
            Ok(deployed) => {
                assert forall|id: u128| #[trigger] deployed@.balance(id) == held(
                    faucets@,
                    entries,
                    id,
                ) by {
                    assert(wallet@.balance(id) == 0);
                    assert(amount_of(delta_amounts(delta), id) == held(faucets@, entries, id));
                }
                Ok(deployed)
            },
            Err(e) => Err(GenesisConfigError::Account(e)),
        }
    }
}

/// Whether a change of balances is larger than a vault can keep.
fn exceeds_vault(delta: &FungibleAssetDelta) -> (r: bool)
    ensures
        r == exists|key: (u128, u8)| #[trigger]
            delta_amounts(*delta).contains_key(key) && delta_amounts(*delta)[key] > MAX_AMOUNT,
{
    let entries = delta_entries(delta);
    let mut i: usize = 0;
    while i < entries.len()
        invariant
            i <= entries@.len(),
            forall|j: int|
                0 <= j < entries@.len() ==> {
                    let key = ((#[trigger] entries@[j]).0.0@, entries@[j].0.1);
                    delta_amounts(*delta).contains_key(key) && delta_amounts(*delta)[key]
                        == entries@[j].1
                },
            forall|j: int| 0 <= j < i ==> (#[trigger] entries@[j]).1 <= MAX_AMOUNT,
        decreases entries@.len() - i,
    {
        let (key, amount) = entries[i];
        if amount > MAX_AMOUNT as i64 {
            assert(delta_amounts(*delta).contains_key(
                (entries@[i as int].0.0@, entries@[i as int].0.1),
            ));
            return true;
        }
        i = i + 1;
    }
    false
}

/// Makes the accounts of all wallets, each with its key, and counts what they hold as issued.
pub fn build_wallets(
    wallets: &Vec<WalletConfig>,
    keys: &Vec<KeyMaterial>,
    faucets: &FaucetTable,
) -> (r: Result<(Vec<Account>, IndexMap<u128, u64>), GenesisConfigError>)
    requires
        faucets.wf(),
        keys@.len() == wallets@.len(),
    ensures
        match built_wallets(faucets@, wallet_models(wallets@), key_models(keys@)) {
            Ok(accounts) => {
                &&& r matches Ok(built)
                &&& account_models(built.0@) == accounts
                &&& accounts.len() == wallets@.len()
                &&& forall|i: int|
                    0 <= i < accounts.len() ==> is_wallet(
                        faucets@,
                        wallets@[i]@,
                        keys@[i]@,
                        #[trigger] accounts[i],
                    )
                &&& forall|id: u128| #[trigger]
                    issuance_of(number_entries(built.1), id) == issued(
                        faucets@,
                        wallet_models(wallets@),
                        id,
                    )
                &&& forall|id: u128| #[trigger]
                    number_entries(built.1).contains_key(id) <==> issued(
                        faucets@,
                        wallet_models(wallets@),
                        id,
                    ) > 0
            },
            Err(e) => r matches Err(error) && error@ == e,
        },
        (forall|i: int|
            0 <= i < wallets@.len() ==> {
                &&& (#[trigger] wallets@[i])@.assets.len() == 0
                &&& basic_wallet(
                    keys@[i]@.init_seed,
                    keys@[i]@.public_key(),
                    wallet_type(wallets@[i]@),
                    wallets@[i].storage_mode,
                ) is Some
            }) ==> r is Ok,
{
    let ghost models = wallet_models(wallets@);
    let ghost key_seq = key_models(keys@);
    let mut issuance = new_number_index();
    let mut accounts: Vec<Account> = Vec::new();
    let mut i: usize = 0;
    assert(models.take(0) =~= Seq::empty());
    assert(account_models(accounts@) =~= Seq::empty());
    while i < wallets.len()
        invariant
            faucets.wf(),
            keys@.len() == wallets@.len(),
            models == wallet_models(wallets@),
            key_seq == key_models(keys@),
            i <= wallets@.len(),
            accounts@.len() == i,
            built_wallets(faucets@, models.take(i as int), key_seq) == Ok::<
                Seq<AccountModel>,
                GenesisError,
            >(account_models(accounts@)),
            forall|j: int|
                0 <= j < i ==> is_wallet(
                    faucets@,
                    wallets@[j]@,
                    keys@[j]@,
                    #[trigger] accounts@[j]@,
                ),
            forall|id: u128| #[trigger]
                issuance_of(number_entries(issuance), id) == issued(
                    faucets@,
                    models.take(i as int),
                    id,
                ),
            forall|id: u128| #[trigger]
                number_entries(issuance).contains_key(id) <==> issued(
                    faucets@,
                    models.take(i as int),
                    id,
                ) > 0,
        decreases wallets@.len() - i,
    {
        let ghost before = models.take(i as int);
        let ghost after = models.take(i + 1);
        let ghost entries = number_entries(issuance);
        let ghost from_index = |id: u128| issuance_of(entries, id) as int;
        let ghost from_wallets = |id: u128| issued(faucets@, after.drop_last(), id);
        proof {
            assert(after.drop_last() =~= before);
            assert(after.last() == wallets@[i as int]@);
            assert(from_index =~= from_wallets);
        }
        match wallets[i].build_account_with(&keys[i], faucets, &mut issuance) {
            Ok(account) => {
                let ghost sofar = account_models(accounts@);
                accounts.push(account);
                assert(account_models(accounts@) =~= sofar.push(account@));
                assert forall|id: u128| #[trigger]
                    issuance_of(number_entries(issuance), id) == issued(faucets@, after, id) by {
                    assert(issuance_of(entries, id) == issued(faucets@, before, id));
                }
                assert forall|id: u128| #[trigger]
                    number_entries(issuance).contains_key(id) <==> issued(faucets@, after, id)
                        > 0 by {
                    held_amounts_add_up(faucets@, wallets@[i as int]@.assets);
                    assert(issuance_of(entries, id) == issued(faucets@, before, id));
                    assert(held(faucets@, wallets@[i as int]@.assets, id) >= 0);
                    assert(entries.contains_key(id) <==> issued(faucets@, before, id) > 0);
                }
            },
            Err(e) => {
                proof {
                    lemma_wallets_error(faucets@, models, key_seq, i + 1);
                }
                return Err(e);
            },
        }
        i = i + 1;
    }
    assert(models.take(i as int) =~= models);
    Ok((accounts, issuance))
}

} // verus!
