use dgruft::account::Account;
use dgruft::credential::Credential;
use dgruft::database::{
    connect, decode_rows, delete_entry, deleted, insert_entry, inserted, select_all, select_entry,
    select_owned, selected, Entity, Executed, Failure, Fetched, KeyPart, Statement, Table,
};
use dgruft::encrypted::{new_rand_key, Encrypted};
use dgruft::error::VaultError;
use dgruft::file_data::FileData;
use rusqlite::{params_from_iter, Connection, ErrorCode};

fn failure(err: rusqlite::Error) -> Failure {
    match err {
        rusqlite::Error::SqliteFailure(e, _) if e.code == ErrorCode::ConstraintViolation => {
            Failure::Constraint
        }
        _ => Failure::Other,
    }
}

fn execute(conn: &Connection, statement: &Statement) -> Executed {
    match conn.execute(statement.sql, params_from_iter(statement.params.iter())) {
        Ok(rows) => Executed::Changed(rows),
        Err(err) => Executed::Failed(failure(err)),
    }
}

fn read_row(row: &rusqlite::Row) -> rusqlite::Result<Vec<String>> {
    let mut columns = Vec::new();
    for i in 0..row.as_ref().column_count() {
        columns.push(row.get::<usize, String>(i)?);
    }
    Ok(columns)
}

fn fetch(conn: &Connection, statement: &Statement) -> Fetched {
    match conn.query_row(statement.sql, params_from_iter(statement.params.iter()), read_row) {
        Ok(row) => Fetched::Row(row),
        Err(rusqlite::Error::QueryReturnedNoRows) => Fetched::NoRows,
        Err(err) => Fetched::Failed(failure(err)),
    }
}

fn fetch_all(conn: &Connection, statement: &Statement) -> Vec<Vec<String>> {
    let mut prepared = conn.prepare(statement.sql).unwrap();
    let rows = prepared
        .query_map(params_from_iter(statement.params.iter()), read_row)
        .unwrap();
    rows.map(|row| row.unwrap()).collect()
}

fn refresh_test_db() -> Connection {
    let conn = Connection::open_in_memory().unwrap();
    for statement in connect() {
        assert_eq!(execute(&conn, &statement), Executed::Changed(0));
    }
    conn
}

fn insert_row(conn: &Connection, entity: Entity) -> Result<(), VaultError> {
    inserted(execute(conn, &insert_entry(&entity)))
}

fn select_row(conn: &Connection, table: Table, key: Vec<KeyPart>) -> Result<Option<Entity>, VaultError> {
    selected(table, &fetch(conn, &select_entry(table, &key)))
}

fn delete_row(conn: &Connection, table: Table, key: Vec<KeyPart>) -> Result<(), VaultError> {
    deleted(execute(conn, &delete_entry(table, &key)))
}

fn text(s: &str) -> KeyPart {
    KeyPart::Text(s.to_string())
}

fn credential_key(credential: &Credential) -> Vec<KeyPart> {
    vec![
        text(credential.owner_username()),
        KeyPart::Bytes(credential.encrypted_name().cipherbytes().to_vec()),
    ]
}

#[test]
fn account_to_from() {
    let db = refresh_test_db();

    let username = "Mister Test";
    let password = "I'm the great Mister Test, I don't need a password!";
    let account = Account::new(username, password).unwrap();

    insert_row(&db, Entity::Account(account.clone())).unwrap();
    let loaded_account = match select_row(&db, Table::Accounts, vec![text(username)]).unwrap().unwrap() {
        Entity::Account(account) => account,
        other => panic!("{other:?}"),
    };

    assert_eq!(account, loaded_account);

    assert_eq!(loaded_account.username(), username);
}

#[test]
fn credential_to_from() {
    let db = refresh_test_db();

    let owner_username = "mister_owner_123";
    let owner_password = "123";
    let different_owner_username = "not_mister_owner";
    let key = new_rand_key().unwrap();
    let name = "maxgmr.ca login info";
    let username = "im_da_admin";
    let password = "blahblahblah";
    let notes = "dgruft很酷。";

    let cred = Credential::try_new(owner_username, key, name, username, password, notes).unwrap();

    // Trying to insert a credential without an existing, matching account should fail.
    let _ = insert_row(&db, Entity::Credential(cred.clone())).unwrap_err();

    let account = Account::new(owner_username, owner_password).unwrap();
    let other_account = Account::new(different_owner_username, owner_password).unwrap();

    insert_row(&db, Entity::Account(other_account.clone())).unwrap();

    // There is still no account that matches. Should still fail.
    let _ = insert_row(&db, Entity::Credential(cred.clone())).unwrap_err();

    insert_row(&db, Entity::Account(account.clone())).unwrap();

    insert_row(&db, Entity::Credential(cred.clone())).unwrap();
    let loaded_cred = match select_row(&db, Table::Credentials, credential_key(&cred)).unwrap().unwrap() {
        Entity::Credential(credential) => credential,
        other => panic!("{other:?}"),
    };

    assert_eq!(cred, loaded_cred);

    assert_eq!(loaded_cred.name(key).unwrap(), name);
    assert_eq!(loaded_cred.username(key).unwrap(), username);
    assert_eq!(loaded_cred.password(key).unwrap(), password);
    assert_eq!(loaded_cred.notes(key).unwrap(), notes);
}

#[test]
fn file_data_to_from() {
    let db = refresh_test_db();

    let path = String::from("src/backend/vault/database_traits.rs");
    let filename = String::from("database_traits.rs");
    let owner_username = String::from("i'm da owner");
    let owner_password = "open sesame!";
    let (encrypted_contents, key) = Encrypted::try_encrypt_new_key("test".as_bytes()).unwrap();
    let contents_nonce = encrypted_contents.nonce();

    let account = Account::new(&owner_username, owner_password).unwrap();
    insert_row(&db, Entity::Account(account)).unwrap();

    let file_data = FileData::new(
        path.clone(),
        filename.clone(),
        owner_username.clone(),
        contents_nonce,
    );

    insert_row(&db, Entity::FileData(file_data.clone())).unwrap();
    let loaded_file_data = match select_row(&db, Table::FilesData, vec![text(&path)]).unwrap().unwrap() {
        Entity::FileData(file_data) => file_data,
        other => panic!("{other:?}"),
    };

    assert_eq!(file_data, loaded_file_data);

    assert_eq!(path, loaded_file_data.path());
    assert_eq!(filename, loaded_file_data.filename());
    assert_eq!(owner_username, loaded_file_data.owner_username());
    assert_eq!(contents_nonce, loaded_file_data.contents_nonce());

    let decrypted_contents = Encrypted::from_fields(
        encrypted_contents.cipherbytes().to_vec(),
        loaded_file_data.contents_nonce(),
    )
    .decrypt_text(&key)
    .unwrap();
    assert_eq!(decrypted_contents, "test");
}

#[test]
fn delete() {
    let db = refresh_test_db();

    let dir = String::from("tests/");

    let uname_1 = "mr_test";
    let pwd_1 = "i_love_testing_123";
    let acc_1 = Account::new(uname_1, pwd_1).unwrap();
    insert_row(&db, Entity::Account(acc_1.clone())).unwrap();

    let uname_2 = "mr_awesome";
    let pwd_2 = "i am so so awesome!";
    let acc_2 = Account::new(uname_2, pwd_2).unwrap();
    insert_row(&db, Entity::Account(acc_2.clone())).unwrap();

    let path_1_1 = dir.clone() + "f_1_1";
    let (contents_1_1, key_1_1) = Encrypted::try_encrypt_new_key("test".as_bytes()).unwrap();
    let f_1_1 = FileData::new(
        path_1_1.clone(),
        "f_1_1".to_string(),
        uname_1.to_string(),
        contents_1_1.nonce(),
    );
    insert_row(&db, Entity::FileData(f_1_1.clone())).unwrap();

    let path_1_2 = dir.clone() + "f_1_2";
    let contents_1_2 = Encrypted::try_encrypt_with_key("test".as_bytes(), key_1_1).unwrap();
    let f_1_2 = FileData::new(
        path_1_2.clone(),
        "f_1_2".to_string(),
        uname_1.to_string(),
        contents_1_2.nonce(),
    );
    insert_row(&db, Entity::FileData(f_1_2.clone())).unwrap();

    let path_2_1 = dir.clone() + "f_2_1";
    let (contents_2_1, key_2_1) = Encrypted::try_encrypt_new_key("test".as_bytes()).unwrap();
    let f_2_1 = FileData::new(
        path_2_1.clone(),
        "f_2_1".to_string(),
        uname_2.to_string(),
        contents_2_1.nonce(),
    );
    insert_row(&db, Entity::FileData(f_2_1.clone())).unwrap();

    let cred_1 = Credential::try_new(uname_1, key_1_1, "cred_1", "u1", "p1", "").unwrap();
    insert_row(&db, Entity::Credential(cred_1.clone())).unwrap();
    let cred_2 = Credential::try_new(uname_2, key_2_1, "cred_2", "u2", "p2", "").unwrap();
    insert_row(&db, Entity::Credential(cred_2.clone())).unwrap();

    assert!(select_row(&db, Table::Accounts, vec![text(uname_1)]).unwrap().is_some());
    assert!(select_row(&db, Table::FilesData, vec![text(&path_1_1)]).unwrap().is_some());
    assert!(select_row(&db, Table::Credentials, credential_key(&cred_1)).unwrap().is_some());

    delete_row(&db, Table::Accounts, vec![text(uname_1)]).unwrap();
    assert!(select_row(&db, Table::Accounts, vec![text(uname_1)]).unwrap().is_none());
    assert!(select_row(&db, Table::Credentials, credential_key(&cred_1)).unwrap().is_none());
    assert!(select_row(&db, Table::FilesData, vec![text(&path_1_1)]).unwrap().is_none());
    assert!(select_row(&db, Table::FilesData, vec![text(&path_1_2)]).unwrap().is_none());
    assert!(select_row(&db, Table::Accounts, vec![text(uname_2)]).unwrap().is_some());
    assert!(select_row(&db, Table::FilesData, vec![text(&path_2_1)]).unwrap().is_some());
    assert!(select_row(&db, Table::Credentials, credential_key(&cred_2)).unwrap().is_some());

    delete_row(&db, Table::Credentials, credential_key(&cred_2)).unwrap();
    assert!(select_row(&db, Table::Accounts, vec![text(uname_2)]).unwrap().is_some());
    assert!(select_row(&db, Table::FilesData, vec![text(&path_2_1)]).unwrap().is_some());
    assert!(select_row(&db, Table::Credentials, credential_key(&cred_2)).unwrap().is_none());

    delete_row(&db, Table::FilesData, vec![text(&path_2_1)]).unwrap();
    assert!(select_row(&db, Table::Accounts, vec![text(uname_2)]).unwrap().is_some());
    assert!(select_row(&db, Table::FilesData, vec![text(&path_2_1)]).unwrap().is_none());
    assert!(select_row(&db, Table::Credentials, credential_key(&cred_2)).unwrap().is_none());
}

#[test]
fn insert_without_owner_is_a_constraint_violation() {
    let db = refresh_test_db();
    let key = [1u8; 32];
    let cred = Credential::try_new("nobody", key, "name", "u", "p", "n").unwrap();
    assert_eq!(
        insert_row(&db, Entity::Credential(cred.clone())),
        Err(VaultError::ConstraintViolation)
    );
    assert_eq!(select_row(&db, Table::Credentials, credential_key(&cred)), Ok(None));
    let file = FileData::new("p".into(), "f".into(), "nobody".into(), [0u8; 12]);
    assert_eq!(insert_row(&db, Entity::FileData(file)), Err(VaultError::ConstraintViolation));
    assert_eq!(select_row(&db, Table::FilesData, vec![text("p")]), Ok(None));
    assert!(fetch_all(&db, &select_all(Table::Credentials)).is_empty());
    assert!(fetch_all(&db, &select_all(Table::FilesData)).is_empty());
}

#[test]
fn insert_of_a_taken_key_is_a_constraint_violation() {
    let db = refresh_test_db();
    let account = Account::register("a", "pw", [1u8; 32], [2u8; 16], [3u8; 12]);
    insert_row(&db, Entity::Account(account.clone())).unwrap();
    assert_eq!(
        insert_row(&db, Entity::Account(account.clone())),
        Err(VaultError::ConstraintViolation)
    );
    let cred = Credential::seal("a", [1u8; 32], "n", "u", "p", "", ([1; 12], [2; 12], [3; 12])).unwrap();
    insert_row(&db, Entity::Credential(cred.clone())).unwrap();
    let same_name =
        Credential::seal("a", [1u8; 32], "n", "u2", "p2", "x", ([4; 12], [5; 12], [6; 12])).unwrap();
    assert_eq!(
        insert_row(&db, Entity::Credential(same_name)),
        Err(VaultError::ConstraintViolation)
    );
}

#[test]
fn delete_of_a_missing_row_is_not_found() {
    let db = refresh_test_db();
    assert_eq!(delete_row(&db, Table::Accounts, vec![text("nobody")]), Err(VaultError::NotFound));
    assert_eq!(delete_row(&db, Table::FilesData, vec![text("nowhere")]), Err(VaultError::NotFound));
    assert_eq!(
        delete_row(&db, Table::Credentials, vec![text("nobody"), KeyPart::Bytes(vec![1, 2, 3])]),
        Err(VaultError::NotFound)
    );
    assert_eq!(select_row(&db, Table::Accounts, vec![text("nobody")]), Ok(None));
}

#[test]
fn a_key_of_the_wrong_shape_fails() {
    let db = refresh_test_db();
    assert_eq!(
        delete_row(&db, Table::Credentials, vec![text("only one part")]),
        Err(VaultError::IOFailure)
    );
    assert_eq!(
        select_row(&db, Table::Accounts, vec![text("a"), text("b")]),
        Err(VaultError::IOFailure)
    );
}

#[test]
fn the_schema_is_created_once() {
    let db = refresh_test_db();
    let account = Account::register("a", "pw", [1u8; 32], [2u8; 16], [3u8; 12]);
    insert_row(&db, Entity::Account(account.clone())).unwrap();
    for statement in connect() {
        assert!(matches!(execute(&db, &statement), Executed::Changed(_)));
    }
    assert_eq!(
        select_row(&db, Table::Accounts, vec![text("a")]),
        Ok(Some(Entity::Account(account)))
    );
}

#[test]
fn all_rows_and_owned_rows() {
    let db = refresh_test_db();
    let key = [7u8; 32];
    for name in ["bob", "alice"] {
        insert_row(&db, Entity::Account(Account::register(name, "pw", key, [0; 16], [0; 12]))).unwrap();
    }
    let c1 = Credential::seal("alice", key, "one", "u", "p", "", ([1; 12], [2; 12], [3; 12])).unwrap();
    let c2 = Credential::seal("alice", key, "two", "u", "p", "", ([4; 12], [5; 12], [6; 12])).unwrap();
    let c3 = Credential::seal("bob", key, "one", "u", "p", "", ([7; 12], [8; 12], [9; 12])).unwrap();
    for c in [&c1, &c2, &c3] {
        insert_row(&db, Entity::Credential(c.clone())).unwrap();
    }
    let f1 = FileData::new("dir/b".into(), "b".into(), "alice".into(), [1; 12]);
    let f2 = FileData::new("dir/a".into(), "a".into(), "bob".into(), [2; 12]);
    insert_row(&db, Entity::FileData(f1.clone())).unwrap();
    insert_row(&db, Entity::FileData(f2.clone())).unwrap();

    let accounts = decode_rows(Table::Accounts, &fetch_all(&db, &select_all(Table::Accounts))).unwrap();
    let names: Vec<String> = accounts
        .iter()
        .map(|e| match e {
            Entity::Account(a) => a.username().to_string(),
            other => panic!("{other:?}"),
        })
        .collect();
    assert_eq!(names, vec!["alice", "bob"]);

    let all = decode_rows(Table::Credentials, &fetch_all(&db, &select_all(Table::Credentials))).unwrap();
    assert_eq!(all.len(), 3);
    let owned =
        decode_rows(Table::Credentials, &fetch_all(&db, &select_owned(Table::Credentials, "alice")))
            .unwrap();
    assert_eq!(owned.len(), 2);
    assert!(owned.contains(&Entity::Credential(c1)));
    assert!(owned.contains(&Entity::Credential(c2)));
    let files =
        decode_rows(Table::FilesData, &fetch_all(&db, &select_owned(Table::FilesData, "bob"))).unwrap();
    assert_eq!(files, vec![Entity::FileData(f2)]);
    let files = decode_rows(Table::FilesData, &fetch_all(&db, &select_all(Table::FilesData))).unwrap();
    assert_eq!(files.len(), 2);
    assert_eq!(files[1], Entity::FileData(f1));
    let nothing =
        decode_rows(Table::FilesData, &fetch_all(&db, &select_owned(Table::FilesData, "carol"))).unwrap();
    assert!(nothing.is_empty());
}
