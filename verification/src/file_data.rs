//! File data: what the store knows of an encrypted file. The content of the
//! file is on disk, at the path recorded here, and nowhere in the store.

use vstd::prelude::*;

use crate::encrypted::Aes256Nonce;

verus! {

/// The record of an encrypted file.
#[derive(Debug, Clone, PartialEq, Eq)]
pub struct FileData {
    path: String,
    filename: String,
    owner_username: String,
    contents_nonce: Aes256Nonce,
}

/// What the record of a file holds.
pub struct FileDataView {
    /// Where the encrypted content is on disk. No two records share a path.
    pub path: Seq<char>,
    /// The name of the file.
    pub filename: Seq<char>,
    /// The name of the account that owns the file.
    pub owner_username: Seq<char>,
    /// The nonce under which the content was encrypted.
    pub contents_nonce: Seq<u8>,
}

impl View for FileData {
    type V = FileDataView;

    closed spec fn view(&self) -> FileDataView {
        FileDataView {
            path: self.path@,
            filename: self.filename@,
            owner_username: self.owner_username@,
            contents_nonce: self.contents_nonce@,
        }
    }
}

impl FileData {
    /// The record of a file.
    pub fn new(
        path: String,
        filename: String,
        owner_username: String,
        contents_nonce: Aes256Nonce,
    ) -> (file_data: FileData)
        ensures
            file_data@ == (FileDataView {
                path: path@,
                filename: filename@,
                owner_username: owner_username@,
                contents_nonce: contents_nonce@,
            }),
    {
        FileData { path, filename, owner_username, contents_nonce }
    }

    /// Where the encrypted content is on disk.
    pub fn path(&self) -> (path: &str)
        ensures
            path@ == self@.path,
    {
        self.path.as_str()
    }

    /// The name of the file.
    pub fn filename(&self) -> (filename: &str)
        ensures
            filename@ == self@.filename,
    {
        self.filename.as_str()
    }

    /// The name of the account that owns the file.
    pub fn owner_username(&self) -> (name: &str)
        ensures
            name@ == self@.owner_username,
    {
        self.owner_username.as_str()
    }

    /// The nonce under which the content was encrypted.
    pub fn contents_nonce(&self) -> (nonce: Aes256Nonce)
        ensures
            nonce@ == self@.contents_nonce,
    {
        self.contents_nonce
    }
}

} // verus!
