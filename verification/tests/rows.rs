use dgruft::account::Account;
use dgruft::credential::Credential;
use dgruft::database::{
    decode_rows, deleted, get_params_iter, inserted, selected, Entity, Executed, Failure, Fetched,
    KeyPart, Table,
};
use dgruft::encrypted::Encrypted;
use dgruft::error::VaultError;
use dgruft::file_data::FileData;

fn account() -> Account {
    Account::from_fields(
        "name".to_string(),
        [1u8; 16],
        [2u8; 32],
        Encrypted::from_fields(vec![3u8; 48], [4u8; 12]),
    )
}

#[test]
fn the_row_of_an_account() {
    let row = account().into_database();
    assert_eq!(
        row,
        vec![
            "name".to_string(),
            "AQEBAQEBAQEBAQEBAQEBAQICAgICAgICAgICAgICAgICAgICAgICAgICAgICAgIC".to_string(),
            "AwMDAwMDAwMDAwMDAwMDAwMDAwMDAwMDAwMDAwMDAwMDAwMDAwMDAwMDAwMDAwMD".to_string(),
            "BAQEBAQEBAQEBAQE".to_string(),
        ]
    );
    assert_eq!(Account::try_from_database(&row), Ok(account()));
    assert_eq!(Table::Accounts.decode_row(&row), Ok(Entity::Account(account())));
    assert_eq!(Entity::Account(account()).into_database(), row);
    assert_eq!(Entity::Account(account()).table(), Table::Accounts);
}

#[test]
fn rows_that_hold_no_account() {
    let good = account().into_database();
    assert_eq!(Account::try_from_database(&good[..3].to_vec()), Err(VaultError::CorruptRow));
    let mut long = good.clone();
    long.push("AAAA".to_string());
    assert_eq!(Account::try_from_database(&long), Err(VaultError::CorruptRow));
    for column in 1..4 {
        let mut bad = good.clone();
        bad[column] = "not base64!".to_string();
        assert_eq!(Account::try_from_database(&bad), Err(VaultError::CorruptRow));
        let mut short = good.clone();
        short[column] = "AAAA".to_string();
        if column != 2 {
            assert_eq!(Account::try_from_database(&short), Err(VaultError::CorruptRow));
        } else {
            assert!(Account::try_from_database(&short).is_ok());
        }
    }
    assert_eq!(Account::try_from_database(&vec![]), Err(VaultError::CorruptRow));
    assert_eq!(Table::Credentials.decode_row(&good), Err(VaultError::CorruptRow));
}

#[test]
fn the_row_of_a_credential() {
    let credential = Credential::from_fields(
        "owner".to_string(),
        Encrypted::from_fields(vec![0xff; 3], [0; 12]),
        Encrypted::from_fields(vec![], [1; 12]),
        Encrypted::from_fields(vec![9], [2; 12]),
        Encrypted::from_fields(vec![8, 7], [3; 12]),
    );
    let row = credential.into_database();
    assert_eq!(
        row,
        vec![
            "owner", "////", "AAAAAAAAAAAAAAAA", "", "AQEBAQEBAQEBAQEB", "CQ==", "AgICAgICAgICAgIC",
            "CAc=", "AwMDAwMDAwMDAwMD",
        ]
    );
    assert_eq!(Credential::try_from_database(&row), Ok(credential.clone()));
    assert_eq!(
        get_params_iter(&credential.primary_key()),
        vec!["owner".to_string(), "////".to_string()]
    );
    let mut bad = row.clone();
    bad[8] = "AwMD".to_string();
    assert_eq!(Credential::try_from_database(&bad), Err(VaultError::CorruptRow));
    assert_eq!(Credential::try_from_database(&row[..8].to_vec()), Err(VaultError::CorruptRow));
    assert_eq!(Table::Accounts.decode_row(&row), Err(VaultError::CorruptRow));
}

#[test]
fn the_row_of_file_data() {
    let file = FileData::new("a/b".into(), "b".into(), "owner".into(), [0xab; 12]);
    let row = file.into_database();
    assert_eq!(row, vec!["a/b", "b", "owner", "q6urq6urq6urq6ur"]);
    assert_eq!(FileData::try_from_database(&row), Ok(file.clone()));
    assert_eq!(Entity::FileData(file).table(), Table::FilesData);
    let mut bad = row.clone();
    bad[3] = "q6urq6urq6urq6u".to_string();
    assert_eq!(FileData::try_from_database(&bad), Err(VaultError::CorruptRow));
    bad[3] = "q6urq6urq6urq6urq6ur".to_string();
    assert_eq!(FileData::try_from_database(&bad), Err(VaultError::CorruptRow));
}

#[test]
fn keys_are_bound_as_text() {
    let key = vec![
        KeyPart::Text("plain text".to_string()),
        KeyPart::Bytes(vec![0xff, 0x00, 0xfe]),
        KeyPart::Bytes(b"plain text".to_vec()),
        KeyPart::Text(String::new()),
        KeyPart::Bytes(vec![]),
    ];
    assert_eq!(get_params_iter(&key), vec!["plain text", "/wD+", "cGxhaW4gdGV4dA==", "", ""]);
    assert_eq!(KeyPart::Bytes(vec![1]).bind(), "AQ==");
    assert_eq!(get_params_iter(&vec![]), Vec::<String>::new());
}

#[test]
fn what_the_store_answers() {
    assert_eq!(selected(Table::Accounts, &Fetched::NoRows), Ok(None));
    assert_eq!(
        selected(Table::Accounts, &Fetched::Failed(Failure::Other)),
        Err(VaultError::IOFailure)
    );
    assert_eq!(
        selected(Table::Accounts, &Fetched::Failed(Failure::Constraint)),
        Err(VaultError::ConstraintViolation)
    );
    assert_eq!(
        selected(Table::Accounts, &Fetched::Row(vec!["x".to_string()])),
        Err(VaultError::CorruptRow)
    );
    assert_eq!(
        selected(Table::Accounts, &Fetched::Row(account().into_database())),
        Ok(Some(Entity::Account(account())))
    );
    assert_eq!(inserted(Executed::Changed(1)), Ok(()));
    assert_eq!(inserted(Executed::Changed(0)), Ok(()));
    assert_eq!(inserted(Executed::Failed(Failure::Constraint)), Err(VaultError::ConstraintViolation));
    assert_eq!(inserted(Executed::Failed(Failure::Other)), Err(VaultError::IOFailure));
    assert_eq!(deleted(Executed::Changed(0)), Err(VaultError::NotFound));
    assert_eq!(deleted(Executed::Changed(1)), Ok(()));
    assert_eq!(deleted(Executed::Changed(3)), Ok(()));
    assert_eq!(deleted(Executed::Failed(Failure::Constraint)), Err(VaultError::ConstraintViolation));
    assert_eq!(deleted(Executed::Failed(Failure::Other)), Err(VaultError::IOFailure));
    assert_eq!(Failure::Constraint.error(), VaultError::ConstraintViolation);
}

#[test]
fn many_rows() {
    let good = account().into_database();
    assert_eq!(decode_rows(Table::Accounts, &vec![]), Ok(vec![]));
    assert_eq!(
        decode_rows(Table::Accounts, &vec![good.clone(), good.clone()]),
        Ok(vec![Entity::Account(account()), Entity::Account(account())])
    );
    assert_eq!(
        decode_rows(Table::Accounts, &vec![good.clone(), vec![], good.clone()]),
        Err(VaultError::CorruptRow)
    );
}

#[test]
fn tables() {
    assert_eq!(Table::Accounts.key_len(), 1);
    assert_eq!(Table::Credentials.key_len(), 2);
    assert_eq!(Table::FilesData.key_len(), 1);
    assert_eq!(Table::Accounts.row_len(), 4);
    assert_eq!(Table::Credentials.row_len(), 9);
    assert_eq!(Table::FilesData.row_len(), 4);
    assert!(Table::Credentials.sql_create().contains("FOREIGN KEY (owner_username) REFERENCES accounts (username)"));
    assert!(Table::FilesData.sql_create().contains("FOREIGN KEY (owner_username) REFERENCES accounts (username)"));
    assert!(Table::Accounts.sql_create().starts_with("CREATE TABLE IF NOT EXISTS accounts"));
    assert!(Table::Accounts.sql_select().starts_with("SELECT username"));
    assert!(Table::Accounts.sql_select_owned().ends_with("WHERE username = ?1"));
    assert!(Table::Credentials.sql_select_all().ends_with("ORDER BY owner_username, encrypted_name_b64"));
    assert!(Table::FilesData.sql_insert().ends_with("VALUES (?1, ?2, ?3, ?4)"));
    assert_eq!(Table::FilesData.sql_delete(), "DELETE FROM files_data WHERE path = ?1");
}
