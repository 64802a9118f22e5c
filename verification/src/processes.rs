//! What the commands of the program decide, apart from what they read and
//! print: the texts they show, the answers they accept, and the operations
//! of the vault that they start.

use vstd::prelude::*;
use vstd::string::*;

use crate::account::{registers, Account};
use crate::database::{EntityView, Table};
use crate::error::VaultError;
use crate::file_data::FileData;
use crate::vault::{deletion, insertion, removals, Transaction, Vault};

verus! {

/// The decimal digit of a number below ten.
pub open spec fn digit_of(d: nat) -> char {
    if d == 0 {
        '0'
    } else if d == 1 {
        '1'
    } else if d == 2 {
        '2'
    } else if d == 3 {
        '3'
    } else if d == 4 {
        '4'
    } else if d == 5 {
        '5'
    } else if d == 6 {
        '6'
    } else if d == 7 {
        '7'
    } else if d == 8 {
        '8'
    } else {
        '9'
    }
}

/// A number in decimal digits, without leading zeros.
pub open spec fn decimal_of(n: nat) -> Seq<char>
    decreases n,
{
    if n < 10 {
        seq![digit_of(n)]
    } else {
        decimal_of(n / 10) + seq![digit_of(n % 10)]
    }
}

/// The text of one decimal digit.
fn digit(d: usize) -> (text: &'static str)
    requires
        d < 10,
    ensures
        text@ == seq![digit_of(d as nat)],
{
    proof {
        reveal_strlit("0");
        reveal_strlit("1");
        reveal_strlit("2");
        reveal_strlit("3");
        reveal_strlit("4");
        reveal_strlit("5");
        reveal_strlit("6");
        reveal_strlit("7");
        reveal_strlit("8");
        reveal_strlit("9");
    }
    let text: &'static str = if d == 0 {
        "0"
    } else if d == 1 {
        "1"
    } else if d == 2 {
        "2"
    } else if d == 3 {
        "3"
    } else if d == 4 {
        "4"
    } else if d == 5 {
        "5"
    } else if d == 6 {
        "6"
    } else if d == 7 {
        "7"
    } else if d == 8 {
        "8"
    } else {
        "9"
    };
    assert(text@ =~= seq![digit_of(d as nat)]);
    text
}

/// A number in decimal digits.
pub fn decimal(n: usize) -> (text: String)
    ensures
        text@ == decimal_of(n as nat),
    decreases n,
{
    if n < 10 {
        String::from_str(digit(n))
    } else {
        let mut text: String = decimal(n / 10);
        text.append(digit(n % 10));
        text
    }
}

/// Whether two passwords, typed one after the other, are the same.
pub fn passwords_match(password: &str, confirm_password: &str) -> (same: bool)
    ensures
        same == (password@ == confirm_password@),
{
    let first: String = password.to_owned();
    let second: String = confirm_password.to_owned();
    first == second
}

/// Creates a new account, once its password has been typed a second time.
///
/// Fails with `AuthFailure` where the two passwords differ, and with
/// `IOFailure` where the random source fails. Else gives the account and
/// the transaction that stores it.
pub fn new_account(username: &str, password: &str, confirm_password: &str) -> (created: Result<
    (Account, Transaction),
    VaultError,
>)
    ensures
        match created {
            Ok((account, transaction)) => password@ == confirm_password@ && (exists|key: Seq<u8>|
                registers(account@, username@, password@, key)) && transaction@ == insertion(
                EntityView::Account(account@),
                Seq::empty(),
            ),
            Err(err) => if password@ == confirm_password@ {
                err == VaultError::IOFailure
            } else {
                err == VaultError::AuthFailure
            },
        },
{
    if !passwords_match(password, confirm_password) {
        return Err(VaultError::AuthFailure);
    }
    Vault::create_account(username, password)
}

/// The names in a list, each followed by a line break.
pub open spec fn lines(names: Seq<Seq<char>>) -> Seq<char>
    decreases names.len(),
{
    if names.len() == 0 {
        Seq::empty()
    } else {
        lines(names.drop_last()) + names.last() + seq!['\n']
    }
}

/// The names of a list of accounts.
pub open spec fn usernames(accounts: Seq<Account>) -> Seq<Seq<char>> {
    Seq::new(accounts.len(), |i: int| accounts[i]@.username)
}

/// The list of all accounts as it is shown: one name on each line, in the
/// order of the accounts.
pub fn list_accounts(accounts: &Vec<Account>) -> (listing: String)
    ensures
        listing@ == lines(usernames(accounts@)),
{
    let mut listing: String = String::new();
    let mut i: usize = 0;
    proof {
        reveal_strlit("\n");
        assert(usernames(accounts@).take(0) =~= Seq::<Seq<char>>::empty());
    }
    while i < accounts.len()
        invariant
            i <= accounts@.len(),
            listing@ == lines(usernames(accounts@).take(i as int)),
            "\n"@ == seq!['\n'],
        decreases accounts@.len() - i,
    {
        proof {
            let names = usernames(accounts@);
            assert(names.take(i + 1).drop_last() =~= names.take(i as int));
            assert(names.take(i + 1).last() == accounts@[i as int]@.username);
        }
        listing.append(accounts[i].username());
        listing.append("\n");
        i += 1;
    }
    assert(usernames(accounts@).take(i as int) =~= usernames(accounts@));
    listing
}

/// Whether a line that was typed starts with one of two letters.
pub open spec fn starts_with_either(input: Seq<char>, small: char, capital: char) -> bool {
    input.len() > 0 && (input[0] == small || input[0] == capital)
}

/// Whether an answer confirms. Where `default` is set the answer is read by
/// the letter `n`, else by the letter `y`, small or capital, at its start.
pub open spec fn confirms(input: Seq<char>, default: bool) -> bool {
    if default {
        starts_with_either(input, 'n', 'N')
    } else {
        starts_with_either(input, 'y', 'Y')
    }
}

/// Reads the answer to a question that asks for confirmation. An empty
/// answer, and one that starts with anything else, does not confirm.
pub fn cli_confirm(input: &str, default: bool) -> (confirmed: bool)
    ensures
        confirmed == confirms(input@, default),
{
    if input.unicode_len() == 0 {
        return false;
    }
    let first: char = input.get_char(0);
    if default {
        first == 'n' || first == 'N'
    } else {
        first == 'y' || first == 'Y'
    }
}

/// The question that is asked before an account is deleted.
pub open spec fn delete_question(username: Seq<char>, credentials: nat, files: nat) -> Seq<char> {
    "Really delete account "@ + username + " with "@ + decimal_of(credentials)
        + " credential(s) & "@ + decimal_of(files) + " file(s)? [y/N] "@
}

/// The question that is asked before an account is deleted: it names the
/// account and says how many credentials and files go with it.
pub fn delete_prompt(username: &str, credentials: usize, files: usize) -> (question: String)
    ensures
        question@ == delete_question(username@, credentials as nat, files as nat),
{
    let mut question: String = String::from_str("Really delete account ");
    question.append(username);
    question.append(" with ");
    question.append(decimal(credentials).as_str());
    question.append(" credential(s) & ");
    question.append(decimal(files).as_str());
    question.append(" file(s)? [y/N] ");
    question
}

/// Deletes an account with its credentials and files, unless the user says
/// no: gives the transaction that does so where `force` is set or the
/// answer to the question confirms, and nothing where it does not.
pub fn delete_account(username: &str, files: &Vec<FileData>, force: bool, answer: &str) -> (transaction:
    Option<Transaction>)
    ensures
        match transaction {
            Some(t) => (force || confirms(answer@, false)) && t@ == deletion(
                Table::Accounts,
                seq![username@],
                removals(files@),
            ),
            None => !force && !confirms(answer@, false),
        },
{
    if !force && !cli_confirm(answer, false) {
        return None;
    }
    Some(Vault::delete_account(username, files))
}

/// Creates a new credential. The command takes its arguments and succeeds;
/// it changes nothing.
pub fn new_credential(username: String, password: String, credentialname: String) -> (done: Result<
    (),
    VaultError,
>)
    ensures
        done == Ok::<(), VaultError>(()),
{
    Ok(())
}

/// Opens a credential to edit it. The command takes its arguments and
/// succeeds; it changes nothing.
pub fn open_credential(username: String, password: String, credentialname: String) -> (done:
    Result<(), VaultError>)
    ensures
        done == Ok::<(), VaultError>(()),
{
    Ok(())
}

/// Lists the credentials of an account. The command takes its arguments and
/// succeeds; it shows nothing.
pub fn list_credentials(username: String, password: String) -> (done: Result<(), VaultError>)
    ensures
        done == Ok::<(), VaultError>(()),
{
    Ok(())
}

/// Deletes a credential. The command takes its arguments and succeeds; it
/// changes nothing.
pub fn delete_credential(
    username: String,
    password: String,
    credentialname: String,
    force: bool,
) -> (done: Result<(), VaultError>)
    ensures
        done == Ok::<(), VaultError>(()),
{
    Ok(())
}

/// Creates a new file. The command takes its arguments and succeeds; it
/// changes nothing.
pub fn new_file(username: String, password: String, filename: String) -> (done: Result<
    (),
    VaultError,
>)
    ensures
        done == Ok::<(), VaultError>(()),
{
    Ok(())
}

/// Opens a file to edit it. The command takes its arguments and succeeds;
/// it changes nothing.
pub fn open_file(username: String, password: String, filename: String) -> (done: Result<
    (),
    VaultError,
>)
    ensures
        done == Ok::<(), VaultError>(()),
{
    Ok(())
}

/// Lists the files of an account. The command takes its arguments and
/// succeeds; it shows nothing.
pub fn list_files(username: String, password: String) -> (done: Result<(), VaultError>)
    ensures
        done == Ok::<(), VaultError>(()),
{
    Ok(())
}

/// Deletes a file. The command takes its arguments and succeeds; it changes
/// nothing.
pub fn delete_file(username: String, password: String, filename: String, force: bool) -> (done:
    Result<(), VaultError>)
    ensures
        done == Ok::<(), VaultError>(()),
{
    Ok(())
}

} // verus!
