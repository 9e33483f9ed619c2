//! The key-value store in which settings are kept: a `sled` database that
//! the client opens and owns.

use crate::errors::KeyValueStoreErrorCodes;
use vstd::prelude::*;
use vstd::string::*;
use vstd::utf8::{decode_utf8, encode_utf8, valid_utf8};

verus! {

/// `sled::Db`, the handle of an open database.
#[verifier::external_type_specification]
#[verifier::external_body]
pub struct ExDb(sled::Db);

/// What a database holds: its values by their keys, as bytes.
pub uninterp spec fn stored(db: sled::Db) -> Map<Seq<u8>, Seq<u8>>;

/// The directory a database was opened in.
pub uninterp spec fn store_path(db: sled::Db) -> Seq<char>;

/// Calls `sled::open` on a path: the database in that directory, made if
/// it is not there, nothing where `sled` reports an error. A database that
/// is opened is the one in the directory named; what it holds is what was
/// left on disk.
#[verifier::external_body]
fn open_store(path: &str) -> (db: Option<sled::Db>)
    ensures
        db matches Some(opened) ==> store_path(opened) == path@,
{
    sled::open(path).ok()
}

/// Calls `insert` of `sled::Db` and tells whether it succeeded. After a
/// successful insert the database holds the value under the key and is
/// otherwise as before. It stays the database of its directory.
#[verifier::external_body]
fn store_insert(db: &mut sled::Db, key: &[u8], value: &[u8]) -> (inserted: bool)
    ensures
        inserted ==> stored(*final(db)) == stored(*old(db)).insert(key@, value@),
        store_path(*final(db)) == store_path(*old(db)),
{
    db.insert(key, value).is_ok()
}

/// Calls `get` of `sled::Db`: the value held under the key, `None` where
/// none is held, an error where `sled` reports one.
#[verifier::external_body]
fn store_get(db: &sled::Db, key: &[u8]) -> (found: Result<Option<Vec<u8>>, ()>)
    ensures
        match found {
            Ok(Some(value)) => stored(*db).dom().contains(key@) && stored(*db)[key@] == value@,
            Ok(None) => !stored(*db).dom().contains(key@),
            Err(_) => true,
        },
{
    match db.get(key) {
        Ok(Some(value)) => Ok(Some(value.to_vec())),
        Ok(None) => Ok(None),
        Err(_) => Err(()),
    }
}

/// Calls `String::from_utf8`: the text the bytes encode, nothing where
/// they are no UTF-8.
#[verifier::external_body]
fn utf8_text(bytes: Vec<u8>) -> (text: Option<String>)
    ensures
        match text {
            Some(t) => valid_utf8(bytes@) && t@ == decode_utf8(bytes@),
            None => !valid_utf8(bytes@),
        },
{
    String::from_utf8(bytes).ok()
}

/// The client of the key-value store.
pub struct KeyValueStoreClient {
    db: sled::Db,
}

impl View for KeyValueStoreClient {
    type V = Map<Seq<u8>, Seq<u8>>;

    closed spec fn view(&self) -> Map<Seq<u8>, Seq<u8>> {
        stored(self.db)
    }
}

impl KeyValueStoreClient {
    /// The directory the store lies in.
    pub closed spec fn path(&self) -> Seq<char> {
        store_path(self.db)
    }

    /// Makes the client of a database that was opened; the failure to open
    /// one is `DbInitializationError`. The client holds what the database
    /// holds, in the directory the database was opened in.
    pub fn from_opened(opened: Option<sled::Db>) -> (r: Result<
        KeyValueStoreClient,
        KeyValueStoreErrorCodes,
    >)
        ensures
            match r {
                Ok(client) => {
                    &&& opened matches Some(db)
                    &&& client@ == stored(db)
                    &&& client.path() == store_path(db)
                },
                Err(e) => opened.is_none() && e == KeyValueStoreErrorCodes::DbInitializationError,
            },
    {
        match opened {
            Some(db) => Ok(KeyValueStoreClient { db }),
            None => Err(KeyValueStoreErrorCodes::DbInitializationError),
        }
    }

    /// Opens the store in the directory `storage_path`. Whether it can be
    /// opened is for the database to say; a client that is handed back is
    /// the client of the store in that directory, and the only failure is
    /// `DbInitializationError`.
    pub fn new(storage_path: &str) -> (r: Result<KeyValueStoreClient, KeyValueStoreErrorCodes>)
        ensures
            match r {
                Ok(client) => client.path() == storage_path@,
                Err(e) => e == KeyValueStoreErrorCodes::DbInitializationError,
            },
    {
        Self::from_opened(open_store(storage_path))
    }

    /// Keeps `value` under `key`. Where the store takes it, the store
    /// holds the text under the key and everything else as before.
    pub fn set(&mut self, key: &str, value: &str) -> (r: Result<bool, KeyValueStoreErrorCodes>)
        ensures
            match r {
                Ok(kept) => kept && final(self)@ == old(self)@.insert(
                    encode_utf8(key@),
                    encode_utf8(value@),
                ),
                Err(e) => e == KeyValueStoreErrorCodes::InsertError,
            },
            final(self).path() == old(self).path(),
    {
        if store_insert(&mut self.db, key.as_bytes(), value.as_bytes()) {
            Ok(true)
        } else {
            Err(KeyValueStoreErrorCodes::InsertError)
        }
    }

    /// Reads the answer of the store: nothing kept is nothing read; what is
    /// kept is read as the text it encodes; an answer that is an error, or
    /// bytes that encode no text, give `RetrieveValueError`.
    pub fn read_answer(answer: Result<Option<Vec<u8>>, ()>) -> (r: Result<
        Option<String>,
        KeyValueStoreErrorCodes,
    >)
        ensures
            match answer {
                Ok(None) => r == Ok::<Option<String>, KeyValueStoreErrorCodes>(None),
                Ok(Some(bytes)) => if valid_utf8(bytes@) {
                    r matches Ok(Some(text)) && text@ == decode_utf8(bytes@)
                } else {
                    r == Err::<Option<String>, KeyValueStoreErrorCodes>(
                        KeyValueStoreErrorCodes::RetrieveValueError,
                    )
                },
                Err(_) => r == Err::<Option<String>, KeyValueStoreErrorCodes>(
                    KeyValueStoreErrorCodes::RetrieveValueError,
                ),
            },
    {
        match answer {
            Ok(Some(bytes)) => match utf8_text(bytes) {
                Some(text) => Ok(Some(text)),
                None => Err(KeyValueStoreErrorCodes::RetrieveValueError),
            },
            Ok(None) => Ok(None),
            Err(_) => Err(KeyValueStoreErrorCodes::RetrieveValueError),
        }
    }

    /// Reads the text kept under `key`: `None` where nothing is kept under
    /// it; an error where the store fails or what is kept is no text.
    pub fn get(&self, key: &str) -> (r: Result<Option<String>, KeyValueStoreErrorCodes>)
        ensures
            match r {
                Ok(Some(text)) => {
                    &&& self@.dom().contains(encode_utf8(key@))
                    &&& self@[encode_utf8(key@)] == encode_utf8(text@)
                },
                Ok(None) => !self@.dom().contains(encode_utf8(key@)),
                Err(e) => e == KeyValueStoreErrorCodes::RetrieveValueError,
            },
    {
        let answer = store_get(&self.db, key.as_bytes());
        let ghost held = answer;
        proof {
            match held {
                Ok(Some(bytes)) => {
                    if valid_utf8(bytes@) {
                        vstd::utf8::decode_utf8_encode_utf8(bytes@);
                    }
                },
                _ => {},
            }
        }
        Self::read_answer(answer)
    }
}

} // verus!
