//! The relational store, as far as the vault decides it: the three tables
//! and their statements, the encoding of keys, the encoding of entities as
//! rows, and the reading of what the store answers.
//!
//! Nothing here touches a store. A statement is a value that the caller
//! executes; what the store answered comes back as a value too.

use vstd::prelude::*;

use crate::account::{Account, AccountView, Salt, SALT_LEN};
use crate::codec::{
    decode_text, decoded_text, encode_text, encoded_text, lemma_decoded_encoded_text,
    lemma_encoded_text_injective,
};
use crate::credential::{Credential, CredentialView};
use crate::encrypted::{Aes256Key, Aes256Nonce, Encrypted, EncryptedView};
use crate::error::VaultError;
use crate::file_data::{FileData, FileDataView};
use crate::kdf::key_at;

verus! {

/// The tables of the store.
#[derive(Clone, Copy, Debug, PartialEq, Eq, Structural)]
pub enum Table {
    /// One row for each account.
    Accounts,
    /// One row for each credential. Every row refers to an account.
    Credentials,
    /// One row for each encrypted file. Every row refers to an account.
    FilesData,
}

/// Creates the table of accounts, unless it is there.
pub const CREATE_ACCOUNTS: &'static str =
    "CREATE TABLE IF NOT EXISTS accounts (username TEXT PRIMARY KEY NOT NULL, password_verifier TEXT NOT NULL, data_key_envelope_ciphertext TEXT NOT NULL, data_key_envelope_nonce TEXT NOT NULL)";

/// Creates the table of credentials, unless it is there.
pub const CREATE_CREDENTIALS: &'static str =
    "CREATE TABLE IF NOT EXISTS credentials (owner_username TEXT NOT NULL, encrypted_name_b64 TEXT NOT NULL, encrypted_name_nonce TEXT NOT NULL, encrypted_login_username TEXT NOT NULL, encrypted_login_username_nonce TEXT NOT NULL, encrypted_password TEXT NOT NULL, encrypted_password_nonce TEXT NOT NULL, encrypted_notes TEXT NOT NULL, encrypted_notes_nonce TEXT NOT NULL, PRIMARY KEY (owner_username, encrypted_name_b64), FOREIGN KEY (owner_username) REFERENCES accounts (username) ON DELETE CASCADE)";

/// Creates the table of file data, unless it is there.
pub const CREATE_FILES_DATA: &'static str =
    "CREATE TABLE IF NOT EXISTS files_data (path TEXT PRIMARY KEY NOT NULL, filename TEXT NOT NULL, owner_username TEXT NOT NULL, contents_nonce TEXT NOT NULL, FOREIGN KEY (owner_username) REFERENCES accounts (username) ON DELETE CASCADE)";

/// Selects the account of a name.
pub const SELECT_ACCOUNT: &'static str =
    "SELECT username, password_verifier, data_key_envelope_ciphertext, data_key_envelope_nonce FROM accounts WHERE username = ?1";

/// Selects the credential of an owner and an encrypted name.
pub const SELECT_CREDENTIAL: &'static str =
    "SELECT owner_username, encrypted_name_b64, encrypted_name_nonce, encrypted_login_username, encrypted_login_username_nonce, encrypted_password, encrypted_password_nonce, encrypted_notes, encrypted_notes_nonce FROM credentials WHERE owner_username = ?1 AND encrypted_name_b64 = ?2";

/// Selects the file data of a path.
pub const SELECT_FILE_DATA: &'static str =
    "SELECT path, filename, owner_username, contents_nonce FROM files_data WHERE path = ?1";

/// Selects all accounts.
pub const SELECT_ALL_ACCOUNTS: &'static str =
    "SELECT username, password_verifier, data_key_envelope_ciphertext, data_key_envelope_nonce FROM accounts ORDER BY username";

/// Selects all credentials.
pub const SELECT_ALL_CREDENTIALS: &'static str =
    "SELECT owner_username, encrypted_name_b64, encrypted_name_nonce, encrypted_login_username, encrypted_login_username_nonce, encrypted_password, encrypted_password_nonce, encrypted_notes, encrypted_notes_nonce FROM credentials ORDER BY owner_username, encrypted_name_b64";

/// Selects all file data.
pub const SELECT_ALL_FILES_DATA: &'static str =
    "SELECT path, filename, owner_username, contents_nonce FROM files_data ORDER BY path";

/// Selects the credentials of an owner.
pub const SELECT_OWNED_CREDENTIALS: &'static str =
    "SELECT owner_username, encrypted_name_b64, encrypted_name_nonce, encrypted_login_username, encrypted_login_username_nonce, encrypted_password, encrypted_password_nonce, encrypted_notes, encrypted_notes_nonce FROM credentials WHERE owner_username = ?1 ORDER BY encrypted_name_b64";

/// Selects the file data of an owner.
pub const SELECT_OWNED_FILES_DATA: &'static str =
    "SELECT path, filename, owner_username, contents_nonce FROM files_data WHERE owner_username = ?1 ORDER BY path";

/// Inserts an account.
pub const INSERT_ACCOUNT: &'static str =
    "INSERT INTO accounts (username, password_verifier, data_key_envelope_ciphertext, data_key_envelope_nonce) VALUES (?1, ?2, ?3, ?4)";

/// Inserts a credential.
pub const INSERT_CREDENTIAL: &'static str =
    "INSERT INTO credentials (owner_username, encrypted_name_b64, encrypted_name_nonce, encrypted_login_username, encrypted_login_username_nonce, encrypted_password, encrypted_password_nonce, encrypted_notes, encrypted_notes_nonce) VALUES (?1, ?2, ?3, ?4, ?5, ?6, ?7, ?8, ?9)";

/// Inserts file data.
pub const INSERT_FILE_DATA: &'static str =
    "INSERT INTO files_data (path, filename, owner_username, contents_nonce) VALUES (?1, ?2, ?3, ?4)";

/// Deletes the account of a name, and with it all that it owns.
pub const DELETE_ACCOUNT: &'static str = "DELETE FROM accounts WHERE username = ?1";

/// Deletes the credential of an owner and an encrypted name.
pub const DELETE_CREDENTIAL: &'static str =
    "DELETE FROM credentials WHERE owner_username = ?1 AND encrypted_name_b64 = ?2";

/// Deletes the file data of a path.
pub const DELETE_FILE_DATA: &'static str = "DELETE FROM files_data WHERE path = ?1";

/// Switches the enforcement of foreign keys on. The store leaves it off
/// unless it is told so, on every connection anew.
pub const ENABLE_FOREIGN_KEYS: &'static str = "PRAGMA foreign_keys = ON";

impl Table {
    /// The statement that creates this table with its constraints, unless
    /// the table is there.
    pub fn sql_create(&self) -> (sql: &'static str)
        ensures
            sql == Self::create_sql(*self),
    {
        match self {
            Table::Accounts => CREATE_ACCOUNTS,
            Table::Credentials => CREATE_CREDENTIALS,
            Table::FilesData => CREATE_FILES_DATA,
        }
    }

    /// The statement that selects the row of a key.
    pub fn sql_select(&self) -> (sql: &'static str)
        ensures
            sql == Self::select_sql(*self),
    {
        match self {
            Table::Accounts => SELECT_ACCOUNT,
            Table::Credentials => SELECT_CREDENTIAL,
            Table::FilesData => SELECT_FILE_DATA,
        }
    }

    /// The statement that selects all rows, in the order of their keys.
    pub fn sql_select_all(&self) -> (sql: &'static str)
        ensures
            sql == Self::select_all_sql(*self),
    {
        match self {
            Table::Accounts => SELECT_ALL_ACCOUNTS,
            Table::Credentials => SELECT_ALL_CREDENTIALS,
            Table::FilesData => SELECT_ALL_FILES_DATA,
        }
    }

    /// The statement that selects the rows of an owner. An account is its
    /// own owner.
    pub fn sql_select_owned(&self) -> (sql: &'static str)
        ensures
            sql == Self::select_owned_sql(*self),
    {
        match self {
            Table::Accounts => SELECT_ACCOUNT,
            Table::Credentials => SELECT_OWNED_CREDENTIALS,
            Table::FilesData => SELECT_OWNED_FILES_DATA,
        }
    }

    /// The statement that inserts a row.
    pub fn sql_insert(&self) -> (sql: &'static str)
        ensures
            sql == Self::insert_sql(*self),
    {
        match self {
            Table::Accounts => INSERT_ACCOUNT,
            Table::Credentials => INSERT_CREDENTIAL,
            Table::FilesData => INSERT_FILE_DATA,
        }
    }

    /// The statement that deletes the row of a key.
    pub fn sql_delete(&self) -> (sql: &'static str)
        ensures
            sql == Self::delete_sql(*self),
    {
        match self {
            Table::Accounts => DELETE_ACCOUNT,
            Table::Credentials => DELETE_CREDENTIAL,
            Table::FilesData => DELETE_FILE_DATA,
        }
    }

    /// The number of parts of the primary key.
    pub fn key_len(&self) -> (len: usize)
        ensures
            len == Self::key_parts(*self),
    {
        match self {
            Table::Accounts => 1,
            Table::Credentials => 2,
            Table::FilesData => 1,
        }
    }

    /// The number of columns of a row.
    pub fn row_len(&self) -> (len: usize)
        ensures
            len == Self::columns(*self),
    {
        match self {
            Table::Accounts => 4,
            Table::Credentials => 9,
            Table::FilesData => 4,
        }
    }

    /// The text of `sql_create`.
    pub open spec fn create_sql(table: Table) -> &'static str {
        match table {
            Table::Accounts => CREATE_ACCOUNTS,
            Table::Credentials => CREATE_CREDENTIALS,
            Table::FilesData => CREATE_FILES_DATA,
        }
    }

    /// The text of `sql_select`.
    pub open spec fn select_sql(table: Table) -> &'static str {
        match table {
            Table::Accounts => SELECT_ACCOUNT,
            Table::Credentials => SELECT_CREDENTIAL,
            Table::FilesData => SELECT_FILE_DATA,
        }
    }

    /// The text of `sql_select_all`.
    pub open spec fn select_all_sql(table: Table) -> &'static str {
        match table {
            Table::Accounts => SELECT_ALL_ACCOUNTS,
            Table::Credentials => SELECT_ALL_CREDENTIALS,
            Table::FilesData => SELECT_ALL_FILES_DATA,
        }
    }

    /// The text of `sql_select_owned`.
    pub open spec fn select_owned_sql(table: Table) -> &'static str {
        match table {
            Table::Accounts => SELECT_ACCOUNT,
            Table::Credentials => SELECT_OWNED_CREDENTIALS,
            Table::FilesData => SELECT_OWNED_FILES_DATA,
        }
    }

    /// The text of `sql_insert`.
    pub open spec fn insert_sql(table: Table) -> &'static str {
        match table {
            Table::Accounts => INSERT_ACCOUNT,
            Table::Credentials => INSERT_CREDENTIAL,
            Table::FilesData => INSERT_FILE_DATA,
        }
    }

    /// The text of `sql_delete`.
    pub open spec fn delete_sql(table: Table) -> &'static str {
        match table {
            Table::Accounts => DELETE_ACCOUNT,
            Table::Credentials => DELETE_CREDENTIAL,
            Table::FilesData => DELETE_FILE_DATA,
        }
    }

    /// The number of parts of the primary key of a table.
    pub open spec fn key_parts(table: Table) -> nat {
        match table {
            Table::Accounts => 1,
            Table::Credentials => 2,
            Table::FilesData => 1,
        }
    }

    /// The number of columns of a table.
    pub open spec fn columns(table: Table) -> nat {
        match table {
            Table::Accounts => 4,
            Table::Credentials => 9,
            Table::FilesData => 4,
        }
    }
}

/// The texts of a list of strings.
pub open spec fn texts(strings: Seq<String>) -> Seq<Seq<char>> {
    Seq::new(strings.len(), |i: int| strings[i]@)
}

/// The rows of a list of rows.
pub open spec fn tables(rows: Seq<Vec<String>>) -> Seq<Seq<Seq<char>>> {
    Seq::new(rows.len(), |i: int| texts(rows[i]@))
}

/// One part of a key: a text, or bytes that need not be a text.
#[derive(Debug, Clone, PartialEq, Eq)]
pub enum KeyPart {
    /// A part that is a text, such as the name of an account.
    Text(String),
    /// A part that is a byte string, such as a ciphertext.
    Bytes(Vec<u8>),
}

/// The text under which a part of a key is bound to a statement: a text as
/// it is, bytes encoded.
pub open spec fn bound_part(part: KeyPart) -> Seq<char> {
    match part {
        KeyPart::Text(text) => text@,
        KeyPart::Bytes(bytes) => encoded_text(bytes@),
    }
}

/// The texts under which the parts of a key are bound to a statement.
pub open spec fn bound_key(key: Seq<KeyPart>) -> Seq<Seq<char>> {
    Seq::new(key.len(), |i: int| bound_part(key[i]))
}

/// Two byte strings are bound under the same text only if they are the same
/// bytes: no two keys of bytes fall together.
pub proof fn lemma_bound_bytes_injective(a: Vec<u8>, b: Vec<u8>)
    requires
        bound_part(KeyPart::Bytes(a)) == bound_part(KeyPart::Bytes(b)),
    ensures
        a@ == b@,
{
    lemma_encoded_text_injective(a@, b@);
}

impl KeyPart {
    /// The text under which this part is bound to a statement.
    pub fn bind(&self) -> (text: String)
        ensures
            text@ == bound_part(*self),
    {
        match self {
            KeyPart::Text(text) => text.clone(),
            KeyPart::Bytes(bytes) => encode_text(bytes.as_slice()),
        }
    }
}

/// The texts under which the parts of a key are bound to a statement, in
/// their order.
pub fn get_params_iter(key: &Vec<KeyPart>) -> (params: Vec<String>)
    ensures
        texts(params@) == bound_key(key@),
{
    let mut params: Vec<String> = Vec::new();
    let mut i: usize = 0;
    while i < key.len()
        invariant
            i <= key@.len(),
            params@.len() == i,
            forall|j: int| 0 <= j < i ==> params@[j]@ == bound_part(key@[j]),
        decreases key@.len() - i,
    {
        params.push(key[i].bind());
        i += 1;
    }
    assert(texts(params@) =~= bound_key(key@));
    params
}

/// A statement for the store, with the texts bound to its parameters.
#[derive(Debug, Clone, PartialEq, Eq)]
pub struct Statement {
    /// The text of the statement.
    pub sql: &'static str,
    /// The texts bound to its parameters, the first to `?1`.
    pub params: Vec<String>,
}

/// What a statement holds.
pub struct StatementView {
    /// The text of the statement.
    pub sql: Seq<char>,
    /// The texts bound to its parameters.
    pub params: Seq<Seq<char>>,
}

impl View for Statement {
    type V = StatementView;

    open spec fn view(&self) -> StatementView {
        StatementView { sql: self.sql@, params: texts(self.params@) }
    }
}

/// The statement that selects from a table the row of a key.
pub fn select_entry(table: Table, key: &Vec<KeyPart>) -> (statement: Statement)
    ensures
        statement@ == (StatementView { sql: Table::select_sql(table)@, params: bound_key(key@) }),
{
    Statement { sql: table.sql_select(), params: get_params_iter(key) }
}

/// The statement that deletes from a table the row of a key.
pub fn delete_entry(table: Table, key: &Vec<KeyPart>) -> (statement: Statement)
    ensures
        statement@ == (StatementView { sql: Table::delete_sql(table)@, params: bound_key(key@) }),
{
    Statement { sql: table.sql_delete(), params: get_params_iter(key) }
}

/// The statement that selects all rows of a table.
pub fn select_all(table: Table) -> (statement: Statement)
    ensures
        statement@ == (StatementView {
            sql: Table::select_all_sql(table)@,
            params: Seq::<Seq<char>>::empty(),
        }),
{
    let statement = Statement { sql: table.sql_select_all(), params: Vec::new() };
    assert(texts(statement.params@) =~= Seq::<Seq<char>>::empty());
    statement
}

/// The statement that selects from a table the rows of an owner.
pub fn select_owned(table: Table, owner_username: &str) -> (statement: Statement)
    ensures
        statement@ == (StatementView {
            sql: Table::select_owned_sql(table)@,
            params: seq![owner_username@],
        }),
{
    let mut params: Vec<String> = Vec::new();
    params.push(owner_username.to_owned());
    assert(texts(params@) =~= seq![owner_username@]);
    Statement { sql: table.sql_select_owned(), params }
}

/// The statements with which a connection to the store begins: the first
/// switches the enforcement of foreign keys on, the others create the three
/// tables where they are missing. To execute them again changes nothing.
pub fn connect() -> (statements: Vec<Statement>)
    ensures
        statements@.len() == 4,
        statements@[0]@ == (StatementView { sql: ENABLE_FOREIGN_KEYS@, params: Seq::empty() }),
        statements@[1]@ == (StatementView { sql: CREATE_ACCOUNTS@, params: Seq::empty() }),
        statements@[2]@ == (StatementView { sql: CREATE_CREDENTIALS@, params: Seq::empty() }),
        statements@[3]@ == (StatementView { sql: CREATE_FILES_DATA@, params: Seq::empty() }),
{
    let mut statements: Vec<Statement> = Vec::new();
    statements.push(plain(ENABLE_FOREIGN_KEYS));
    statements.push(plain(Table::Accounts.sql_create()));
    statements.push(plain(Table::Credentials.sql_create()));
    statements.push(plain(Table::FilesData.sql_create()));
    statements
}

/// A statement without parameters.
fn plain(sql: &'static str) -> (statement: Statement)
    ensures
        statement@ == (StatementView { sql: sql@, params: Seq::empty() }),
{
    let statement = Statement { sql, params: Vec::new() };
    assert(texts(statement.params@) =~= Seq::<Seq<char>>::empty());
    statement
}

/// The two columns of an envelope: the ciphertext and the nonce, encoded.
pub open spec fn envelope_columns(envelope: EncryptedView) -> Seq<Seq<char>> {
    seq![encoded_text(envelope.cipherbytes), encoded_text(envelope.nonce)]
}

/// The envelope of two columns, where they hold a ciphertext and a nonce of
/// twelve bytes.
pub open spec fn columns_envelope(cipherbytes: Seq<char>, nonce: Seq<char>) -> Option<
    EncryptedView,
> {
    match (decoded_text(cipherbytes), decoded_text(nonce)) {
        (Some(c), Some(n)) => if n.len() == 12 {
            Some(EncryptedView { cipherbytes: c, nonce: n })
        } else {
            None
        },
        _ => None,
    }
}

/// The row of an account.
pub open spec fn account_row(account: AccountView) -> Seq<Seq<char>> {
    seq![
        account.username,
        encoded_text(account.salt + account.verifier),
        encoded_text(account.data_key_envelope.cipherbytes),
        encoded_text(account.data_key_envelope.nonce),
    ]
}

/// The account of a row, where the row holds one.
pub open spec fn row_account(row: Seq<Seq<char>>) -> Option<AccountView> {
    if row.len() != 4 {
        None
    } else {
        match (decoded_text(row[1]), columns_envelope(row[2], row[3])) {
            (Some(v), Some(envelope)) => if v.len() == 48 {
                Some(
                    AccountView {
                        username: row[0],
                        salt: v.subrange(0, 16),
                        verifier: v.subrange(16, 48),
                        data_key_envelope: envelope,
                    },
                )
            } else {
                None
            },
            _ => None,
        }
    }
}

/// The row of a credential.
pub open spec fn credential_row(credential: CredentialView) -> Seq<Seq<char>> {
    seq![
        credential.owner_username,
        encoded_text(credential.encrypted_name.cipherbytes),
        encoded_text(credential.encrypted_name.nonce),
        encoded_text(credential.encrypted_username.cipherbytes),
        encoded_text(credential.encrypted_username.nonce),
        encoded_text(credential.encrypted_password.cipherbytes),
        encoded_text(credential.encrypted_password.nonce),
        encoded_text(credential.encrypted_notes.cipherbytes),
        encoded_text(credential.encrypted_notes.nonce),
    ]
}

/// The credential of a row, where the row holds one.
pub open spec fn row_credential(row: Seq<Seq<char>>) -> Option<CredentialView> {
    if row.len() != 9 {
        None
    } else {
        match (
            columns_envelope(row[1], row[2]),
            columns_envelope(row[3], row[4]),
            columns_envelope(row[5], row[6]),
            columns_envelope(row[7], row[8]),
        ) {
            (Some(name), Some(username), Some(password), Some(notes)) => Some(
                CredentialView {
                    owner_username: row[0],
                    encrypted_name: name,
                    encrypted_username: username,
                    encrypted_password: password,
                    encrypted_notes: notes,
                },
            ),
            _ => None,
        }
    }
}

/// The row of the data of a file.
pub open spec fn file_data_row(file_data: FileDataView) -> Seq<Seq<char>> {
    seq![
        file_data.path,
        file_data.filename,
        file_data.owner_username,
        encoded_text(file_data.contents_nonce),
    ]
}

/// The data of a file of a row, where the row holds one.
pub open spec fn row_file_data(row: Seq<Seq<char>>) -> Option<FileDataView> {
    if row.len() != 4 {
        None
    } else {
        match decoded_text(row[3]) {
            Some(nonce) => if nonce.len() == 12 {
                Some(
                    FileDataView {
                        path: row[0],
                        filename: row[1],
                        owner_username: row[2],
                        contents_nonce: nonce,
                    },
                )
            } else {
                None
            },
            None => None,
        }
    }
}

/// An envelope with a nonce of twelve bytes is read back from its columns.
pub proof fn lemma_envelope_columns(envelope: EncryptedView)
    requires
        envelope.nonce.len() == 12,
    ensures
        columns_envelope(envelope_columns(envelope)[0], envelope_columns(envelope)[1]) == Some(
            envelope,
        ),
{
    lemma_decoded_encoded_text(envelope.cipherbytes);
    lemma_decoded_encoded_text(envelope.nonce);
}

/// An account is read back from its row.
pub proof fn lemma_account_row(account: AccountView)
    requires
        account.salt.len() == 16,
        account.verifier.len() == 32,
        account.data_key_envelope.nonce.len() == 12,
    ensures
        row_account(account_row(account)) == Some(account),
{
    let joined = account.salt + account.verifier;
    lemma_decoded_encoded_text(joined);
    lemma_envelope_columns(account.data_key_envelope);
    assert(joined.subrange(0, 16) =~= account.salt);
    assert(joined.subrange(16, 48) =~= account.verifier);
}

/// A credential is read back from its row.
pub proof fn lemma_credential_row(credential: CredentialView)
    requires
        credential.encrypted_name.nonce.len() == 12,
        credential.encrypted_username.nonce.len() == 12,
        credential.encrypted_password.nonce.len() == 12,
        credential.encrypted_notes.nonce.len() == 12,
    ensures
        row_credential(credential_row(credential)) == Some(credential),
{
    lemma_envelope_columns(credential.encrypted_name);
    lemma_envelope_columns(credential.encrypted_username);
    lemma_envelope_columns(credential.encrypted_password);
    lemma_envelope_columns(credential.encrypted_notes);
    let row = credential_row(credential);
    assert(columns_envelope(row[1], row[2]) == Some(credential.encrypted_name));
    assert(columns_envelope(row[3], row[4]) == Some(credential.encrypted_username));
    assert(columns_envelope(row[5], row[6]) == Some(credential.encrypted_password));
    assert(columns_envelope(row[7], row[8]) == Some(credential.encrypted_notes));
}

/// The data of a file is read back from its row.
pub proof fn lemma_file_data_row(file_data: FileDataView)
    requires
        file_data.contents_nonce.len() == 12,
    ensures
        row_file_data(file_data_row(file_data)) == Some(file_data),
{
    lemma_decoded_encoded_text(file_data.contents_nonce);
}

/// Appends the two columns of an envelope to a row.
fn push_envelope(row: &mut Vec<String>, envelope: &Encrypted)
    ensures
        texts(final(row)@) == texts(old(row)@) + envelope_columns(envelope@),
        envelope@.nonce.len() == 12,
{
    row.push(encode_text(envelope.cipherbytes()));
    let nonce: Aes256Nonce = envelope.nonce();
    row.push(encode_text(&nonce));
    assert(texts(row@) =~= texts(old(row)@) + envelope_columns(envelope@));
}

/// The nonce that a column holds, where it holds one.
fn read_nonce(column: &str) -> (nonce: Option<Aes256Nonce>)
    ensures
        match nonce {
            Some(n) => decoded_text(column@) == Some(n@),
            None => !(decoded_text(column@) matches Some(n) && n.len() == 12),
        },
{
    match decode_text(column) {
        Some(bytes) => {
            if bytes.len() != 12 {
                return None;
            }
            let mut nonce: Aes256Nonce = [0u8; 12];
            let mut i: usize = 0;
            while i < 12
                invariant
                    i <= 12,
                    bytes@.len() == 12,
                    forall|j: int| 0 <= j < i ==> nonce@[j] == bytes@[j],
                decreases 12 - i,
            {
                nonce[i] = bytes[i];
                i += 1;
            }
            assert(nonce@ =~= bytes@);
            Some(nonce)
        },
        None => None,
    }
}

/// The envelope that two columns hold, where they hold one.
fn read_envelope(cipherbytes: &str, nonce: &str) -> (envelope: Option<Encrypted>)
    ensures
        match envelope {
            Some(e) => columns_envelope(cipherbytes@, nonce@) == Some(e@),
            None => columns_envelope(cipherbytes@, nonce@) is None,
        },
{
    let bytes: Vec<u8> = match decode_text(cipherbytes) {
        Some(bytes) => bytes,
        None => {
            return None;
        },
    };
    match read_nonce(nonce) {
        Some(nonce) => Some(Encrypted::from_fields(bytes, nonce)),
        None => None,
    }
}

impl Account {
    /// The row that stands for this account in the store.
    pub fn into_database(&self) -> (row: Vec<String>)
        ensures
            texts(row@) == account_row(self@),
            row_account(texts(row@)) == Some(self@),
    {
        let mut row: Vec<String> = Vec::new();
        row.push(self.username().to_owned());
        let salt: Salt = self.salt();
        let verifier: Aes256Key = self.password_verifier();
        let mut joined: Vec<u8> = Vec::new();
        let mut i: usize = 0;
        while i < 16
            invariant
                i <= 16,
                joined@ == salt@.subrange(0, i as int),
            decreases 16 - i,
        {
            joined.push(salt[i]);
            assert(joined@ =~= salt@.subrange(0, i + 1));
            i += 1;
        }
        assert(joined@ =~= salt@);
        let mut j: usize = 0;
        while j < 32
            invariant
                j <= 32,
                joined@ == salt@ + verifier@.subrange(0, j as int),
            decreases 32 - j,
        {
            joined.push(verifier[j]);
            assert(joined@ =~= salt@ + verifier@.subrange(0, j + 1));
            j += 1;
        }
        assert(joined@ =~= salt@ + verifier@);
        row.push(encode_text(joined.as_slice()));
        assert(texts(row@) =~= seq![self@.username, encoded_text(self@.salt + self@.verifier)]);
        push_envelope(&mut row, self.data_key_envelope());
        assert(texts(row@) =~= account_row(self@));
        proof {
            lemma_account_row(self@);
        }
        row
    }

    /// The account that a row of the store stands for, or `CorruptRow`
    /// where the row stands for none.
    pub fn try_from_database(row: &Vec<String>) -> (account: Result<Account, VaultError>)
        ensures
            match account {
                Ok(a) => row_account(texts(row@)) == Some(a@),
                Err(err) => err == VaultError::CorruptRow && row_account(texts(row@)) is None,
            },
    {
        if row.len() != 4 {
            return Err(VaultError::CorruptRow);
        }
        let joined: Vec<u8> = match decode_text(row[1].as_str()) {
            Some(bytes) => bytes,
            None => {
                return Err(VaultError::CorruptRow);
            },
        };
        let envelope: Encrypted = match read_envelope(row[2].as_str(), row[3].as_str()) {
            Some(envelope) => envelope,
            None => {
                return Err(VaultError::CorruptRow);
            },
        };
        if joined.len() != 48 {
            return Err(VaultError::CorruptRow);
        }
        let mut salt: Salt = [0u8; 16];
        let mut i: usize = 0;
        while i < 16
            invariant
                i <= 16,
                joined@.len() == 48,
                forall|j: int| 0 <= j < i ==> salt@[j] == joined@[j],
            decreases 16 - i,
        {
            salt[i] = joined[i];
            i += 1;
        }
        assert(salt@ =~= joined@.subrange(0, 16));
        let verifier: Aes256Key = key_at(joined.as_slice(), SALT_LEN);
        Ok(Account::from_fields(row[0].clone(), salt, verifier, envelope))
    }
}

impl Credential {
    /// The row that stands for this credential in the store.
    pub fn into_database(&self) -> (row: Vec<String>)
        ensures
            texts(row@) == credential_row(self@),
            row_credential(texts(row@)) == Some(self@),
    {
        let mut row: Vec<String> = Vec::new();
        row.push(self.owner_username().to_owned());
        assert(texts(row@) =~= seq![self@.owner_username]);
        push_envelope(&mut row, self.encrypted_name());
        push_envelope(&mut row, self.encrypted_username());
        push_envelope(&mut row, self.encrypted_password());
        push_envelope(&mut row, self.encrypted_notes());
        assert(texts(row@) =~= credential_row(self@));
        proof {
            lemma_credential_row(self@);
        }
        row
    }

    /// The credential that a row of the store stands for, or `CorruptRow`
    /// where the row stands for none.
    pub fn try_from_database(row: &Vec<String>) -> (credential: Result<Credential, VaultError>)
        ensures
            match credential {
                Ok(c) => row_credential(texts(row@)) == Some(c@),
                Err(err) => err == VaultError::CorruptRow && row_credential(texts(row@)) is None,
            },
    {
        if row.len() != 9 {
            return Err(VaultError::CorruptRow);
        }
        let name: Encrypted = match read_envelope(row[1].as_str(), row[2].as_str()) {
            Some(envelope) => envelope,
            None => {
                return Err(VaultError::CorruptRow);
            },
        };
        let username: Encrypted = match read_envelope(row[3].as_str(), row[4].as_str()) {
            Some(envelope) => envelope,
            None => {
                return Err(VaultError::CorruptRow);
            },
        };
        let password: Encrypted = match read_envelope(row[5].as_str(), row[6].as_str()) {
            Some(envelope) => envelope,
            None => {
                return Err(VaultError::CorruptRow);
            },
        };
        let notes: Encrypted = match read_envelope(row[7].as_str(), row[8].as_str()) {
            Some(envelope) => envelope,
            None => {
                return Err(VaultError::CorruptRow);
            },
        };
        Ok(Credential::from_fields(row[0].clone(), name, username, password, notes))
    }

    /// The key under which this credential is stored: its owner and its
    /// encrypted name.
    pub fn primary_key(&self) -> (key: Vec<KeyPart>)
        ensures
            bound_key(key@) == seq![
                self@.owner_username,
                encoded_text(self@.encrypted_name.cipherbytes),
            ],
    {
        let mut key: Vec<KeyPart> = Vec::new();
        key.push(KeyPart::Text(self.owner_username().to_owned()));
        key.push(KeyPart::Bytes(vstd::slice::slice_to_vec(self.encrypted_name().cipherbytes())));
        assert(bound_key(key@) =~= seq![
            self@.owner_username,
            encoded_text(self@.encrypted_name.cipherbytes),
        ]);
        key
    }
}

impl FileData {
    /// The row that stands for this file in the store.
    pub fn into_database(&self) -> (row: Vec<String>)
        ensures
            texts(row@) == file_data_row(self@),
            row_file_data(texts(row@)) == Some(self@),
    {
        let mut row: Vec<String> = Vec::new();
        row.push(self.path().to_owned());
        row.push(self.filename().to_owned());
        row.push(self.owner_username().to_owned());
        let nonce: Aes256Nonce = self.contents_nonce();
        row.push(encode_text(&nonce));
        assert(texts(row@) =~= file_data_row(self@));
        proof {
            lemma_file_data_row(self@);
        }
        row
    }

    /// The data of a file that a row of the store stands for, or
    /// `CorruptRow` where the row stands for none.
    pub fn try_from_database(row: &Vec<String>) -> (file_data: Result<FileData, VaultError>)
        ensures
            match file_data {
                Ok(f) => row_file_data(texts(row@)) == Some(f@),
                Err(err) => err == VaultError::CorruptRow && row_file_data(texts(row@)) is None,
            },
    {
        if row.len() != 4 {
            return Err(VaultError::CorruptRow);
        }
        match read_nonce(row[3].as_str()) {
            Some(nonce) => Ok(
                FileData::new(row[0].clone(), row[1].clone(), row[2].clone(), nonce),
            ),
            None => Err(VaultError::CorruptRow),
        }
    }
}

/// A record of one of the three kinds.
#[derive(Debug, Clone, PartialEq, Eq)]
pub enum Entity {
    /// An account.
    Account(Account),
    /// A credential.
    Credential(Credential),
    /// The data of a file.
    FileData(FileData),
}

/// What a record holds.
pub enum EntityView {
    /// An account.
    Account(AccountView),
    /// A credential.
    Credential(CredentialView),
    /// The data of a file.
    FileData(FileDataView),
}

impl View for Entity {
    type V = EntityView;

    open spec fn view(&self) -> EntityView {
        match self {
            Entity::Account(account) => EntityView::Account(account@),
            Entity::Credential(credential) => EntityView::Credential(credential@),
            Entity::FileData(file_data) => EntityView::FileData(file_data@),
        }
    }
}

/// The table that holds a record.
pub open spec fn entity_table(entity: EntityView) -> Table {
    match entity {
        EntityView::Account(_) => Table::Accounts,
        EntityView::Credential(_) => Table::Credentials,
        EntityView::FileData(_) => Table::FilesData,
    }
}

/// The row of a record.
pub open spec fn entity_row(entity: EntityView) -> Seq<Seq<char>> {
    match entity {
        EntityView::Account(account) => account_row(account),
        EntityView::Credential(credential) => credential_row(credential),
        EntityView::FileData(file_data) => file_data_row(file_data),
    }
}

/// The record that a row of a table holds, where it holds one.
pub open spec fn row_entity(table: Table, row: Seq<Seq<char>>) -> Option<EntityView> {
    match table {
        Table::Accounts => match row_account(row) {
            Some(account) => Some(EntityView::Account(account)),
            None => None,
        },
        Table::Credentials => match row_credential(row) {
            Some(credential) => Some(EntityView::Credential(credential)),
            None => None,
        },
        Table::FilesData => match row_file_data(row) {
            Some(file_data) => Some(EntityView::FileData(file_data)),
            None => None,
        },
    }
}

impl Table {
    /// The record that a row of this table stands for, or `CorruptRow`
    /// where the row stands for none.
    pub fn decode_row(&self, row: &Vec<String>) -> (entity: Result<Entity, VaultError>)
        ensures
            match entity {
                Ok(e) => row_entity(*self, texts(row@)) == Some(e@),
                Err(err) => err == VaultError::CorruptRow && row_entity(*self, texts(row@)) is None,
            },
    {
        match self {
            Table::Accounts => match Account::try_from_database(row) {
                Ok(account) => Ok(Entity::Account(account)),
                Err(err) => Err(err),
            },
            Table::Credentials => match Credential::try_from_database(row) {
                Ok(credential) => Ok(Entity::Credential(credential)),
                Err(err) => Err(err),
            },
            Table::FilesData => match FileData::try_from_database(row) {
                Ok(file_data) => Ok(Entity::FileData(file_data)),
                Err(err) => Err(err),
            },
        }
    }
}

impl Entity {
    /// The table that holds this record.
    pub fn table(&self) -> (table: Table)
        ensures
            table == entity_table(self@),
    {
        match self {
            Entity::Account(_) => Table::Accounts,
            Entity::Credential(_) => Table::Credentials,
            Entity::FileData(_) => Table::FilesData,
        }
    }

    /// The row that stands for this record in the store.
    pub fn into_database(&self) -> (row: Vec<String>)
        ensures
            texts(row@) == entity_row(self@),
            row_entity(entity_table(self@), texts(row@)) == Some(self@),
    {
        match self {
            Entity::Account(account) => account.into_database(),
            Entity::Credential(credential) => credential.into_database(),
            Entity::FileData(file_data) => file_data.into_database(),
        }
    }
}

/// The statement that inserts a record into its table.
pub fn insert_entry(entity: &Entity) -> (statement: Statement)
    ensures
        statement@ == (StatementView {
            sql: Table::insert_sql(entity_table(entity@))@,
            params: entity_row(entity@),
        }),
{
    Statement { sql: entity.table().sql_insert(), params: entity.into_database() }
}

/// Why the store did not do what it was asked.
#[derive(Clone, Copy, Debug, PartialEq, Eq, Structural)]
pub enum Failure {
    /// A constraint of the schema forbids it: a primary key is taken, or a
    /// foreign key has no target.
    Constraint,
    /// Anything else: the store cannot be reached, or refuses the statement.
    Other,
}

/// What the store answered to a query for one row.
#[derive(Debug, Clone, PartialEq, Eq)]
pub enum Fetched {
    /// The row that matched.
    Row(Vec<String>),
    /// No row matched.
    NoRows,
    /// The query failed.
    Failed(Failure),
}

/// What the store answered to a statement that changes rows.
#[derive(Clone, Copy, Debug, PartialEq, Eq, Structural)]
pub enum Executed {
    /// The statement ran, and changed this many rows.
    Changed(usize),
    /// The statement failed.
    Failed(Failure),
}

/// The failure that the vault reports when the store fails.
pub open spec fn failure_error(failure: Failure) -> VaultError {
    match failure {
        Failure::Constraint => VaultError::ConstraintViolation,
        Failure::Other => VaultError::IOFailure,
    }
}

impl Failure {
    /// The failure that the vault reports for this failure of the store.
    pub fn error(&self) -> (err: VaultError)
        ensures
            err == failure_error(*self),
    {
        match self {
            Failure::Constraint => VaultError::ConstraintViolation,
            Failure::Other => VaultError::IOFailure,
        }
    }
}

/// What a select gives: the record of the row that matched, nothing where
/// no row matched, which is no failure, `CorruptRow` where the row that
/// matched holds no record, and the store's failure where the query failed.
pub fn selected(table: Table, fetched: &Fetched) -> (entity: Result<Option<Entity>, VaultError>)
    ensures
        match *fetched {
            Fetched::Row(row) => match row_entity(table, texts(row@)) {
                Some(found) => entity matches Ok(Some(e)) && e@ == found,
                None => entity == Err::<Option<Entity>, VaultError>(VaultError::CorruptRow),
            },
            Fetched::NoRows => entity == Ok::<Option<Entity>, VaultError>(None),
            Fetched::Failed(failure) => entity == Err::<Option<Entity>, VaultError>(
                failure_error(failure),
            ),
        },
{
    match fetched {
        Fetched::Row(row) => match table.decode_row(row) {
            Ok(entity) => Ok(Some(entity)),
            Err(err) => Err(err),
        },
        Fetched::NoRows => Ok(None),
        Fetched::Failed(failure) => Err(failure.error()),
    }
}

/// What an insert gives: success where the store took the row, and else the
/// store's failure, which is `ConstraintViolation` where the key is taken or
/// the owner is missing.
pub fn inserted(executed: Executed) -> (done: Result<(), VaultError>)
    ensures
        done == match executed {
            Executed::Changed(_) => Ok::<(), VaultError>(()),
            Executed::Failed(failure) => Err::<(), VaultError>(failure_error(failure)),
        },
{
    match executed {
        Executed::Changed(_) => Ok(()),
        Executed::Failed(failure) => Err(failure.error()),
    }
}

/// What a delete gives: success where rows were deleted, `NotFound` where
/// no row matched, and else the store's failure.
pub fn deleted(executed: Executed) -> (done: Result<(), VaultError>)
    ensures
        done == match executed {
            Executed::Changed(rows) => if rows == 0 {
                Err::<(), VaultError>(VaultError::NotFound)
            } else {
                Ok::<(), VaultError>(())
            },
            Executed::Failed(failure) => Err::<(), VaultError>(failure_error(failure)),
        },
{
    match executed {
        Executed::Changed(rows) => if rows == 0 {
            Err(VaultError::NotFound)
        } else {
            Ok(())
        },
        Executed::Failed(failure) => Err(failure.error()),
    }
}

/// The records of the rows of a table, in their order, or `CorruptRow`
/// where one of the rows holds no record.
pub fn decode_rows(table: Table, rows: &Vec<Vec<String>>) -> (entities: Result<
    Vec<Entity>,
    VaultError,
>)
    ensures
        match entities {
            Ok(list) => list@.len() == rows@.len() && forall|i: int|
                0 <= i < rows@.len() ==> row_entity(table, #[trigger] tables(rows@)[i]) == Some(
                    list@[i]@,
                ),
            Err(err) => err == VaultError::CorruptRow && exists|i: int|
                0 <= i < rows@.len() && row_entity(table, #[trigger] tables(rows@)[i]) is None,
        },
{
    let mut list: Vec<Entity> = Vec::new();
    let mut k: usize = 0;
    while k < rows.len()
        invariant
            k <= rows@.len(),
            list@.len() == k,
            forall|i: int|
                0 <= i < k ==> row_entity(table, #[trigger] tables(rows@)[i]) == Some(list@[i]@),
        decreases rows@.len() - k,
    {
        assert(tables(rows@)[k as int] == texts(rows@[k as int]@));
        match table.decode_row(&rows[k]) {
            Ok(entity) => {
                list.push(entity);
            },
            Err(err) => {
                return Err(err);
            },
        }
        k += 1;
    }
    Ok(list)
}

} // verus!
