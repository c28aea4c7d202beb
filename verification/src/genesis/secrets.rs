//! The secret keys of the accounts that a genesis state was made with, and the account files that
//! hold them.

use indexmap::IndexMap;
use vstd::arithmetic::power::pow;
use vstd::prelude::*;
use vstd::string::StringExecFns;

use crate::account::{account_models, Account, AccountId, AccountModel};
use crate::genesis::error::{GenesisConfigError, GenesisError};
use crate::genesis::state::GenesisState;
use crate::index::{get_number, insert_number, new_number_index, number_entries};
use crate::keys::SecretKey;
use crate::text::{
    decimal, decimal_value, decimals_are_canonical, ilog10, log10, logarithms_bound_their_numbers,
    lower, lower_is_injective, padded_decimal, padded_decimal_reads_back, padding_is_zeros,
    push_decimal, push_lower, push_padded_decimal,
};
use crate::token::is_symbol;

verus! {

// FILE NAMES
// ================================================================================================

/// The name of the file that holds the key of the faucet of a token.
pub open spec fn faucet_file(symbol: Seq<char>) -> Seq<char> {
    "faucet_"@ + lower(symbol) + ".mac"@
}

/// How many digits the number of a wallet has in a file name, at least, when there are `wallets`
/// of them.
pub open spec fn wallet_digits(wallets: nat) -> nat {
    log10(
        if wallets < 10 {
            10
        } else {
            wallets
        },
    )
}

/// The name of the file that holds the key of one of the wallets.
pub open spec fn wallet_file(index: nat, wallets: nat) -> Seq<char> {
    "wallet_"@ + padded_decimal(index, wallet_digits(wallets)) + ".mac"@
}

/// The name of the file that holds the key of the faucet of a token.
pub fn faucet_file_name(symbol: &str) -> (name: String)
    ensures
        name@ == faucet_file(symbol@),
{
    let mut name = "faucet_".to_owned();
    push_lower(&mut name, symbol);
    name.append(".mac");
    name
}

/// The name of the file that holds the key of one of the wallets.
pub fn wallet_file_name(index: usize, wallets: usize) -> (name: String)
    ensures
        name@ == wallet_file(index as nat, wallets as nat),
{
    let width: usize = ilog10(
        if wallets < 10 {
            10
        } else {
            wallets as u64
        },
    );
    let mut name = "wallet_".to_owned();
    push_padded_decimal(&mut name, index as u64, width);
    name.append(".mac");
    name
}

/// Different tokens have different files.
pub proof fn faucet_files_differ(a: Seq<char>, b: Seq<char>)
    requires
        is_symbol(a),
        is_symbol(b),
        faucet_file(a) == faucet_file(b),
    ensures
        a == b,
{
    reveal_strlit("faucet_");
    reveal_strlit(".mac");
    let name = faucet_file(a);
    let end = name.len() - 4;
    assert(name.subrange(7, end) =~= lower(a));
    assert(name.subrange(7, end) =~= lower(b));
    lower_is_injective(a, b);
}

/// Different wallets have different files.
pub proof fn wallet_files_differ(i: nat, j: nat, wallets: nat)
    requires
        wallet_file(i, wallets) == wallet_file(j, wallets),
    ensures
        i == j,
{
    reveal_strlit("wallet_");
    reveal_strlit(".mac");
    let name = wallet_file(i, wallets);
    let end = name.len() - 4;
    let width = wallet_digits(wallets);
    assert(name.subrange(7, end) =~= padded_decimal(i, width));
    assert(name.subrange(7, end) =~= padded_decimal(j, width));
    padded_decimal_reads_back(i, width);
    padded_decimal_reads_back(j, width);
}

/// The file of a faucet is no file of a wallet.
pub proof fn faucet_and_wallet_files_differ(symbol: Seq<char>, index: nat, wallets: nat)
    ensures
        faucet_file(symbol) != wallet_file(index, wallets),
{
    reveal_strlit("faucet_");
    reveal_strlit("wallet_");
    assert(faucet_file(symbol)[0] == 'f');
    assert(wallet_file(index, wallets)[0] == 'w');
}

/// The name of the file for a secret without a name: the time in seconds since the Unix epoch and
/// the position of the secret.
pub open spec fn unnamed_file(unix_seconds: nat, index: nat) -> Seq<char> {
    "account_"@ + decimal(unix_seconds) + "_"@ + decimal(index) + ".mac"@
}

/// The name of the file for a secret without a name.
pub fn unnamed_file_name(unix_seconds: u64, index: usize) -> (name: String)
    ensures
        name@ == unnamed_file(unix_seconds as nat, index as nat),
{
    let mut name = "account_".to_owned();
    push_decimal(&mut name, unix_seconds);
    name.append("_");
    push_decimal(&mut name, index as u64);
    name.append(".mac");
    name
}

/// At one time, the files of different secrets without a name differ.
pub proof fn unnamed_files_differ(unix_seconds: nat, i: nat, j: nat)
    requires
        unnamed_file(unix_seconds, i) == unnamed_file(unix_seconds, j),
    ensures
        i == j,
{
    reveal_strlit("account_");
    reveal_strlit("_");
    reveal_strlit(".mac");
    let name = unnamed_file(unix_seconds, i);
    let start = 9 + decimal(unix_seconds).len();
    let end = name.len() - 4;
    assert(name.subrange(start as int, end) =~= decimal(i));
    assert(name.subrange(start as int, end) =~= decimal(j));
    padded_decimal_reads_back(i, 0);
    padded_decimal_reads_back(j, 0);
}

/// The file of a secret without a name is no file of a faucet or a wallet.
pub proof fn unnamed_and_named_files_differ(
    unix_seconds: nat,
    i: nat,
    symbol: Seq<char>,
    index: nat,
    wallets: nat,
)
    ensures
        unnamed_file(unix_seconds, i) != faucet_file(symbol),
        unnamed_file(unix_seconds, i) != wallet_file(index, wallets),
{
    reveal_strlit("account_");
    reveal_strlit("faucet_");
    reveal_strlit("wallet_");
    assert(unnamed_file(unix_seconds, i)[0] == 'a');
    assert(faucet_file(symbol)[0] == 'f');
    assert(wallet_file(index, wallets)[0] == 'w');
}

/// The files of faucets are named after their token in lower case.
pub proof fn faucet_files_name_the_token(symbol: Seq<char>)
    ensures
        ({
            let name = faucet_file(symbol);
            let end = name.len() - 4;
            &&& name.len() == symbol.len() + 11
            &&& name.take(7) == seq!['f', 'a', 'u', 'c', 'e', 't', '_']
            &&& name.subrange(7, end) == lower(symbol)
            &&& name.skip(end) == seq!['.', 'm', 'a', 'c']
        }),
{
    reveal_strlit("faucet_");
    reveal_strlit(".mac");
    let name = faucet_file(symbol);
    let end = name.len() - 4;
    assert(name.take(7) =~= seq!['f', 'a', 'u', 'c', 'e', 't', '_']);
    assert(name.subrange(7, end) =~= lower(symbol));
    assert(name.skip(end) =~= seq!['.', 'm', 'a', 'c']);
}

/// The files of wallets are numbered. The numbers have no more leading zeros than it takes for as
/// many digits as the logarithm of the number of wallets says, and at least one digit.
pub proof fn wallet_files_are_numbered(index: nat, wallets: nat)
    ensures
        ({
            let name = wallet_file(index, wallets);
            let end = name.len() - 4;
            let digits = name.subrange(7, end);
            let width = wallet_digits(wallets);
            &&& name.len() > 11
            &&& name.take(7) == seq!['w', 'a', 'l', 'l', 'e', 't', '_']
            &&& name.skip(end) == seq!['.', 'm', 'a', 'c']
            &&& decimal_value(digits) == index
            &&& forall|i: int| 0 <= i < digits.len() ==> '0' <= #[trigger] digits[i] <= '9'
            &&& digits.len() >= width
            &&& digits.len() > width && digits.len() > 1 ==> digits[0] != '0'
            &&& width >= 1
            &&& wallets >= 10 ==> pow(10, width) <= wallets < pow(10, width + 1)
            &&& wallets < 10 ==> width == 1
        }),
{
    reveal_strlit("wallet_");
    reveal_strlit(".mac");
    let name = wallet_file(index, wallets);
    let end = name.len() - 4;
    let width = wallet_digits(wallets);
    assert(name.take(7) =~= seq!['w', 'a', 'l', 'l', 'e', 't', '_']);
    assert(name.subrange(7, end) =~= padded_decimal(index, width));
    assert(name.skip(end) =~= seq!['.', 'm', 'a', 'c']);
    padded_decimal_reads_back(index, width);
    padding_is_zeros(index, width);
    decimals_are_canonical(index);
    let digits = padded_decimal(index, width);
    let zeros = digits.len() - decimal(index).len();
    assert forall|i: int| 0 <= i < digits.len() implies '0' <= #[trigger] digits[i] <= '9' by {
        if i >= zeros {
            assert(digits.skip(zeros)[i - zeros] == digits[i]);
        }
    }
    assert(digits.skip(zeros)[0] == digits[zeros]);
    reveal_with_fuel(log10, 3);
    if wallets >= 10 {
        logarithms_bound_their_numbers(wallets);
    }
}

/// The files of secrets without a name are named after the time and their position.
pub proof fn unnamed_files_name_time_and_position(unix_seconds: nat, index: nat)
    ensures
        ({
            let name = unnamed_file(unix_seconds, index);
            let middle = 8 + decimal(unix_seconds).len() as int;
            let end = name.len() - 4;
            &&& name.take(8) == seq!['a', 'c', 'c', 'o', 'u', 'n', 't', '_']
            &&& decimal_value(name.subrange(8, middle)) == unix_seconds
            &&& name[middle] == '_'
            &&& decimal_value(name.subrange(middle + 1, end)) == index
            &&& name.skip(end) == seq!['.', 'm', 'a', 'c']
        }),
{
    reveal_strlit("account_");
    reveal_strlit("_");
    reveal_strlit(".mac");
    let name = unnamed_file(unix_seconds, index);
    let middle = 8 + decimal(unix_seconds).len() as int;
    let end = name.len() - 4;
    decimals_are_canonical(unix_seconds);
    decimals_are_canonical(index);
    assert(name.take(8) =~= seq!['a', 'c', 'c', 'o', 'u', 'n', 't', '_']);
    assert(name.subrange(8, middle) =~= decimal(unix_seconds));
    assert(name.subrange(middle + 1, end) =~= decimal(index));
    assert(name.skip(end) =~= seq!['.', 'm', 'a', 'c']);
}

// SECRETS
// ================================================================================================

/// A secret key with its account and the name of the file for both.
#[derive(Debug)]
pub struct AccountSecret {
    pub name: String,
    pub account_id: AccountId,
    pub secret_key: SecretKey,
}

/// A secret key with its account and the name of the file for both, as plain values.
#[verifier::ext_equal]
pub struct SecretModel {
    pub name: Seq<char>,
    pub account_id: u128,
    pub secret_key: Seq<u8>,
}

impl View for AccountSecret {
    type V = SecretModel;

    open spec fn view(&self) -> SecretModel {
        SecretModel {
            name: self.name@,
            account_id: self.account_id@,
            secret_key: self.secret_key@,
        }
    }
}

/// Secrets generated along with a genesis state.
#[derive(Debug)]
pub struct AccountSecrets {
    pub secrets: Vec<AccountSecret>,
}

impl View for AccountSecrets {
    type V = Seq<SecretModel>;

    open spec fn view(&self) -> Seq<SecretModel> {
        self.secrets@.map_values(|secret: AccountSecret| secret@)
    }
}

/// An account together with the keys that authenticate for it.
#[derive(Debug)]
pub struct AccountFile {
    pub account: Account,
    pub auth_secret_keys: Vec<SecretKey>,
}

/// An account file and its name.
#[derive(Debug)]
pub struct AccountFileWithName {
    pub name: String,
    pub account_file: AccountFile,
}

/// An account file with one key and its name, as plain values.
pub struct FileModel {
    pub name: Seq<char>,
    pub account: AccountModel,
    pub secret_key: Seq<u8>,
}

impl AccountFileWithName {
    /// Whether the file has the given name and holds the given account and key, and nothing else.
    pub open spec fn holds(&self, file: FileModel) -> bool {
        &&& self.name@ == file.name
        &&& self.account_file.account@ == file.account
        &&& self.account_file.auth_secret_keys@.len() == 1
        &&& self.account_file.auth_secret_keys@[0]@ == file.secret_key
    }
}

/// The last of the accounts with the given identifier.
pub open spec fn last_account(accounts: Seq<AccountModel>, id: u128) -> Option<AccountModel>
    decreases accounts.len(),
{
    if accounts.len() == 0 {
        None
    } else if accounts.last().id == id {
        Some(accounts.last())
    } else {
        last_account(accounts.drop_last(), id)
    }
}

/// The name of the file that a secret belongs into: the name of the secret if it has one, and
/// otherwise one that is made from the time and its position.
pub open spec fn file_name(name: Seq<char>, unix_seconds: nat, index: nat) -> Seq<char> {
    if name.len() > 0 {
        name
    } else {
        unnamed_file(unix_seconds, index)
    }
}

/// The file that the secret at a position belongs into: there is one if the account is part of the
/// state.
pub open spec fn file_of_secret(
    accounts: Seq<AccountModel>,
    secret: SecretModel,
    unix_seconds: nat,
    index: nat,
) -> Result<FileModel, GenesisError> {
    match last_account(accounts, secret.account_id) {
        Some(account) => Ok(
            FileModel {
                name: file_name(secret.name, unix_seconds, index),
                account,
                secret_key: secret.secret_key,
            },
        ),
        None => Err(GenesisError::MissingGenesisAccount { account_id: secret.account_id }),
    }
}

/// Every file has a name.
pub proof fn files_have_names(
    accounts: Seq<AccountModel>,
    secret: SecretModel,
    unix_seconds: nat,
    index: nat,
)
    ensures
        file_of_secret(accounts, secret, unix_seconds, index) matches Ok(file) ==> file.name.len()
            > 0,
{
    reveal_strlit("account_");
}

/// Finding the last account with an identifier fails exactly when no account has it, and finds an
/// account of the list with that identifier otherwise.
pub proof fn last_account_is_listed(accounts: Seq<AccountModel>, id: u128)
    ensures
        last_account(accounts, id) is Some <==> exists|i: int|
            0 <= i < accounts.len() && (#[trigger] accounts[i]).id == id,
        last_account(accounts, id) matches Some(account) ==> accounts.contains(account)
            && account.id == id,
    decreases accounts.len(),
{
    if accounts.len() > 0 {
        let rest = accounts.drop_last();
        last_account_is_listed(rest, id);
        if accounts.last().id == id {
            assert(accounts[accounts.len() - 1].id == id);
        } else {
            assert forall|i: int| 0 <= i < accounts.len() && (
            #[trigger] accounts[i]).id == id implies 0 <= i < rest.len() && rest[i].id == id by {}
            if last_account(rest, id) is Some {
                let i = choose|i: int| 0 <= i < rest.len() && (#[trigger] rest[i]).id == id;
                assert(accounts[i].id == id);
            }
        }
    }
}

/// If accounts have different identifiers, each is found under its own.
pub proof fn distinct_accounts_are_found(accounts: Seq<AccountModel>, i: int)
    requires
        0 <= i < accounts.len(),
        forall|j: int| 0 <= j < accounts.len() && j != i ==> (#[trigger] accounts[j]).id
            != accounts[i].id,
    ensures
        last_account(accounts, accounts[i].id) == Some(accounts[i]),
    decreases accounts.len(),
{
    if i < accounts.len() - 1 {
        assert(accounts[accounts.len() - 1].id != accounts[i].id);
        distinct_accounts_are_found(accounts.drop_last(), i);
    }
}

/// Whether every secret has a name.
pub open spec fn all_named(secrets: Seq<SecretModel>) -> bool {
    forall|i: int| 0 <= i < secrets.len() ==> (#[trigger] secrets[i]).name.len() > 0
}

/// Whether no two secrets go into the same file.
pub open spec fn distinct_names(secrets: Seq<SecretModel>) -> bool {
    forall|i: int, j: int|
        0 <= i < j < secrets.len() ==> (#[trigger] secrets[i]).name != (
        #[trigger] secrets[j]).name
}

/// The position of each account under its identifier; of several with one identifier, the last.
fn index_accounts(accounts: &Vec<Account>) -> (index: IndexMap<u128, u64>)
    ensures
        forall|id: u128|
            match #[trigger] number_entries(index).get(id) {
                Some(i) => i < accounts@.len() && last_account(
                    account_models(accounts@),
                    id,
                ) == Some(accounts@[i as int]@),
                None => last_account(account_models(accounts@), id) is None,
            },
{
    let ghost models = account_models(accounts@);
    let mut index = new_number_index();
    let mut i: usize = 0;
    assert(models.take(0) =~= Seq::empty());
    while i < accounts.len()
        invariant
            models == account_models(accounts@),
            i <= accounts@.len(),
            forall|id: u128|
                match #[trigger] number_entries(index).get(id) {
                    Some(j) => j < i && last_account(models.take(i as int), id) == Some(
                        accounts@[j as int]@,
                    ),
                    None => last_account(models.take(i as int), id) is None,
                },
        decreases accounts@.len() - i,
    {
        let ghost before = number_entries(index);
        let ghost id = accounts@[i as int]@.id;
        let _ = insert_number(&mut index, accounts[i].id().value(), i as u64);
        proof {
            let ghost after = models.take(i + 1);
            assert(after.drop_last() =~= models.take(i as int));
            assert(after.last() == accounts@[i as int]@);
            assert forall|other: u128|
                match #[trigger] number_entries(index).get(other) {
                    Some(j) => j < i + 1 && last_account(after, other) == Some(
                        accounts@[j as int]@,
                    ),
                    None => last_account(after, other) is None,
                } by {
                if other != id {
                    assert(number_entries(index).get(other) == before.get(other));
                }
            }
        }
        i = i + 1;
    }
    assert(models.take(i as int) =~= models);
    index
}

impl AccountSecrets {
    /// The account files that hold the secrets, one for each in the same order.
    ///
    /// If no name is present, a new one is made from the time, in seconds since the Unix epoch, and
    /// the position of the secret. A secret whose account is not part of the state yields an error
    /// in place of a file.
    pub fn as_account_files<S>(
        &self,
        genesis_state: &GenesisState<S>,
        unix_seconds: u64,
    ) -> (files: Vec<Result<AccountFileWithName, GenesisConfigError>>)
        ensures
            files@.len() == self@.len(),
            forall|i: int|
                0 <= i < files@.len() ==> match file_of_secret(
                    genesis_state@.accounts,
                    self@[i],
                    unix_seconds as nat,
                    i as nat,
                ) {
                    Ok(file) => (#[trigger] files@[i]) matches Ok(f) && f.holds(file),
                    Err(e) => files@[i] matches Err(error) && error@ == e,
                },
    {
        let index = index_accounts(&genesis_state.accounts);
        let mut files: Vec<Result<AccountFileWithName, GenesisConfigError>> = Vec::new();
        let mut i: usize = 0;
        while i < self.secrets.len()
            invariant
                i <= self.secrets@.len(),
                files@.len() == i,
                forall|id: u128|
                    match #[trigger] number_entries(index).get(id) {
                        Some(j) => j < genesis_state.accounts@.len() && last_account(
                            genesis_state@.accounts,
                            id,
                        ) == Some(genesis_state.accounts@[j as int]@),
                        None => last_account(genesis_state@.accounts, id) is None,
                    },
                forall|j: int|
                    0 <= j < files@.len() ==> match file_of_secret(
                        genesis_state@.accounts,
                        self@[j],
                        unix_seconds as nat,
                        j as nat,
                    ) {
                        Ok(file) => (#[trigger] files@[j]) matches Ok(f) && f.holds(file),
                        Err(e) => files@[j] matches Err(error) && error@ == e,
                    },
            decreases self.secrets@.len() - i,
        {
            let secret = &self.secrets[i];
            assert(self@[i as int] == secret@);
            match get_number(&index, secret.account_id.value()) {
                Some(position) => {
                    assert(position < genesis_state.accounts.len());
                    let account = genesis_state.accounts[position as usize].clone();
                    let name = if secret.name.as_str().is_empty() {
                        unnamed_file_name(unix_seconds, i)
                    } else {
                        secret.name.clone()
                    };
                    let mut auth_secret_keys: Vec<SecretKey> = Vec::new();
                    auth_secret_keys.push(secret.secret_key.clone());
                    files.push(
                        Ok(
                            AccountFileWithName {
                                name,
                                account_file: AccountFile { account, auth_secret_keys },
                            },
                        ),
                    );
                },
                None => {
                    files.push(
                        Err(
                            GenesisConfigError::MissingGenesisAccount {
                                account_id: secret.account_id,
                            },
                        ),
                    );
                },
            }
            i = i + 1;
        }
        files
    }
}

} // verus!
