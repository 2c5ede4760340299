//! The store of one node: a sled database behind a read-only switch, with
//! every acknowledged write flushed to disk.

use crate::error::ErrorKind;
use vstd::prelude::*;

verus! {

/// `sled::Db`, a handle to an open database, as an opaque value.
#[verifier::external_type_specification]
#[verifier::external_body]
pub struct ExDb(sled::Db);

/// `sled::Error`, as an opaque value.
#[verifier::external_type_specification]
#[verifier::external_body]
pub struct ExSledError(sled::Error);

/// The records that a `sled::Db` holds in its default tree, as a map from
/// key bytes to value bytes. The handle is taken to be the only writer of
/// its directory, which sled's lock on the directory enforces.
pub uninterp spec fn db_contents(db: sled::Db) -> Map<Seq<u8>, Seq<u8>>;

/// Whether every write made through a `sled::Db` had reached stable storage
/// when the handle took this value, so that it would be recovered after a
/// crash.
pub uninterp spec fn db_synced(db: sled::Db) -> bool;

/// `sled::open`: opens the database in the directory `path`, creating it
/// where there is none. Nothing is claimed of what the database holds.
#[verifier::external_body]
fn db_open(path: &str) -> (opened: Result<sled::Db, sled::Error>) {
    sled::open(path)
}

/// `sled::Tree::insert` on the default tree of the database. Where it
/// succeeds, the key is bound to the new value, every other binding stays,
/// and the value that the key had before is returned. Nothing is claimed of
/// the records after a failure.
#[verifier::external_body]
fn db_insert(db: &mut sled::Db, key: &[u8], value: &[u8]) -> (replaced: Result<
    Option<Vec<u8>>,
    sled::Error,
>)
    ensures
        replaced matches Ok(previous) ==> {
            &&& db_contents(*final(db)) == db_contents(*old(db)).insert(key@, value@)
            &&& previous matches Some(bytes) ==> db_contents(*old(db)).contains_key(key@)
                && db_contents(*old(db))[key@] == bytes@
            &&& previous is None ==> !db_contents(*old(db)).contains_key(key@)
        },
{
    match db.insert(key, value) {
        Ok(Some(previous)) => Ok(Some(previous.to_vec())),
        Ok(None) => Ok(None),
        Err(failure) => Err(failure),
    }
}

/// `sled::Tree::get` on the default tree of the database. Where it succeeds,
/// it returns the value bound to the key, or `None` where the key is unbound.
#[verifier::external_body]
fn db_get(db: &sled::Db, key: &[u8]) -> (fetched: Result<Option<Vec<u8>>, sled::Error>)
    ensures
        fetched matches Ok(found) ==> {
            &&& found matches Some(bytes) ==> db_contents(*db).contains_key(key@) && db_contents(
                *db,
            )[key@] == bytes@
            &&& found is None ==> !db_contents(*db).contains_key(key@)
        },
{
    match db.get(key) {
        Ok(Some(value)) => Ok(Some(value.to_vec())),
        Ok(None) => Ok(None),
        Err(failure) => Err(failure),
    }
}

/// `sled::Tree::remove` on the default tree of the database. Where it
/// succeeds, the key is unbound, every other binding stays, and the value
/// that the key had before is returned. Nothing is claimed of the records
/// after a failure.
#[verifier::external_body]
fn db_remove(db: &mut sled::Db, key: &[u8]) -> (removed: Result<Option<Vec<u8>>, sled::Error>)
    ensures
        removed matches Ok(previous) ==> {
            &&& db_contents(*final(db)) == db_contents(*old(db)).remove(key@)
            &&& previous matches Some(bytes) ==> db_contents(*old(db)).contains_key(key@)
                && db_contents(*old(db))[key@] == bytes@
            &&& previous is None ==> !db_contents(*old(db)).contains_key(key@)
        },
{
    match db.remove(key) {
        Ok(Some(previous)) => Ok(Some(previous.to_vec())),
        Ok(None) => Ok(None),
        Err(failure) => Err(failure),
    }
}

/// `sled::Tree::flush` on the database: writes all dirty buffers and calls
/// fsync. It changes no record; where it succeeds, every earlier write is on
/// stable storage. It returns the number of bytes flushed.
#[verifier::external_body]
fn db_flush(db: &mut sled::Db) -> (flushed: Result<usize, sled::Error>)
    ensures
        db_contents(*final(db)) == db_contents(*old(db)),
        flushed is Ok ==> db_synced(*final(db)),
{
    db.flush()
}

/// `String::from_utf8`: succeeds exactly on well-formed UTF-8, and the
/// string it returns is made of the bytes it was given.
#[verifier::external_body]
fn utf8_to_string(bytes: Vec<u8>) -> (text: Option<String>)
    ensures
        text is Some <==> vstd::utf8::valid_utf8(bytes@),
        text matches Some(s) ==> vstd::utf8::encode_utf8(s@) == bytes@,
{
    match String::from_utf8(bytes) {
        Ok(text) => Some(text),
        Err(_) => None,
    }
}

/// A store as a value: its records, whether it refuses writes, and whether
/// all of its records are on stable storage.
#[verifier::ext_equal]
pub struct Store {
    pub records: Map<Seq<u8>, Seq<u8>>,
    pub read_only: bool,
    pub durable: bool,
}

impl Store {
    /// The store after `key` was bound to `value` and the write was flushed.
    pub open spec fn put(self, key: Seq<char>, value: Seq<char>) -> Store {
        Store {
            records: self.records.insert(
                vstd::utf8::encode_utf8(key),
                vstd::utf8::encode_utf8(value),
            ),
            read_only: self.read_only,
            durable: true,
        }
    }

    /// The store after `key` was unbound and the write was flushed.
    pub open spec fn erase(self, key: Seq<char>) -> Store {
        Store {
            records: self.records.remove(vstd::utf8::encode_utf8(key)),
            read_only: self.read_only,
            durable: true,
        }
    }

    /// What a read of `key` finds: the text bound to it, or nothing where
    /// the key is unbound; a failure where it is bound to bytes that are no
    /// text.
    pub open spec fn read(self, key: Seq<char>) -> Result<Option<Seq<char>>, ErrorKind> {
        let bytes = vstd::utf8::encode_utf8(key);
        if !self.records.contains_key(bytes) {
            Ok(None)
        } else if vstd::utf8::valid_utf8(self.records[bytes]) {
            Ok(Some(vstd::utf8::decode_utf8(self.records[bytes])))
        } else {
            Err(ErrorKind::StorageIo)
        }
    }

    /// The text bound to `key`, if any.
    pub open spec fn lookup(self, key: Seq<char>) -> Option<Seq<char>> {
        unbound_on_failure(self.read(key))
    }
}

/// What a read means to a caller that does not tell a failure from an
/// unbound key: the text that was found, and nothing otherwise.
pub open spec fn unbound_on_failure(read: Result<Option<Seq<char>>, ErrorKind>) -> Option<
    Seq<char>,
> {
    match read {
        Ok(found) => found,
        Err(_) => None,
    }
}

/// What the storage engine's answer to a read means to a caller: the text,
/// where the engine found bytes that are well-formed UTF-8; nothing, where
/// it found the key unbound; a failure, where the bytes are no text or the
/// engine failed.
pub open spec fn decoded(fetched: Result<Option<Vec<u8>>, ErrorKind>) -> Result<
    Option<Seq<char>>,
    ErrorKind,
> {
    match fetched {
        Ok(Some(bytes)) => if vstd::utf8::valid_utf8(bytes@) {
            Ok(Some(vstd::utf8::decode_utf8(bytes@)))
        } else {
            Err(ErrorKind::StorageIo)
        },
        Ok(None) => Ok(None),
        Err(kind) => Err(kind),
    }
}

/// The text of an optional string.
pub open spec fn text_of(text: Option<String>) -> Option<Seq<char>> {
    match text {
        Some(s) => Some(s@),
        None => None,
    }
}

/// The text of what a read returned.
pub open spec fn found_text(found: Result<Option<String>, ErrorKind>) -> Result<
    Option<Seq<char>>,
    ErrorKind,
> {
    match found {
        Ok(text) => Ok(text_of(text)),
        Err(kind) => Err(kind),
    }
}

/// Turns a failure of the storage engine into `StorageIo`, and leaves a
/// success as it is.
pub fn storage_failure<T>(outcome: Result<T, sled::Error>) -> (mapped: Result<T, ErrorKind>)
    ensures
        outcome matches Ok(value) ==> mapped == Ok::<T, ErrorKind>(value),
        outcome is Err ==> mapped == Err::<T, ErrorKind>(ErrorKind::StorageIo),
{
    match outcome {
        Ok(value) => Ok(value),
        Err(_) => Err(ErrorKind::StorageIo),
    }
}

/// Turns the storage engine's answer to a read into the text that was
/// stored, if any. Stored bytes that are no text are a storage failure.
pub fn decode_fetched(fetched: Result<Option<Vec<u8>>, ErrorKind>) -> (found: Result<
    Option<String>,
    ErrorKind,
>)
    ensures
        found_text(found) == decoded(fetched),
{
    match fetched {
        Ok(Some(bytes)) => {
            match utf8_to_string(bytes) {
                Some(text) => {
                    proof {
                        vstd::utf8::encode_utf8_decode_utf8(text@);
                    }
                    Ok(Some(text))
                },
                None => Err(ErrorKind::StorageIo),
            }
        },
        Ok(None) => Ok(None),
        Err(kind) => Err(kind),
    }
}

/// Turns what a read returned into the text that was found, if any: a read
/// that failed counts as one that found the key unbound.
pub fn found_or_unbound(fetched: Result<Option<String>, ErrorKind>) -> (found: Option<String>)
    ensures
        fetched matches Ok(text) ==> found == text,
        fetched is Err ==> found is None,
        text_of(found) == unbound_on_failure(found_text(fetched)),
{
    match fetched {
        Ok(found) => found,
        Err(_) => None,
    }
}

/// The store of one node.
pub struct Database {
    db: sled::Db,
    read_only: bool,
}

impl View for Database {
    type V = Store;

    closed spec fn view(&self) -> Store {
        Store {
            records: db_contents(self.db),
            read_only: self.read_only,
            durable: db_synced(self.db),
        }
    }
}

impl Database {
    /// Opens the store in the directory `path`, creating it where there is
    /// none. A read-only store refuses every write.
    pub fn new(path: &str, read_only: bool) -> (opened: Result<Self, ErrorKind>)
        ensures
            opened matches Ok(store) ==> store@.read_only == read_only,
            opened matches Err(kind) ==> kind == ErrorKind::StorageIo,
    {
        match storage_failure(db_open(path)) {
            Ok(db) => Ok(Database { db, read_only }),
            Err(kind) => Err(kind),
        }
    }

    /// Whether the store refuses writes.
    pub fn is_read_only(&self) -> (read_only: bool)
        ensures
            read_only == self@.read_only,
    {
        self.read_only
    }

    /// Binds `key` to `value`. Success is reported only after the write was
    /// flushed to stable storage. A read-only store is left untouched.
    pub fn set(&mut self, key: &str, value: &str) -> (written: Result<(), ErrorKind>)
        ensures
            final(self)@.read_only == old(self)@.read_only,
            old(self)@.read_only ==> written == Err::<(), ErrorKind>(ErrorKind::ReadOnly)
                && final(self)@ == old(self)@,
            !old(self)@.read_only ==> written is Ok || written == Err::<(), ErrorKind>(
                ErrorKind::StorageIo,
            ),
            written is Ok ==> final(self)@ == old(self)@.put(key@, value@) && final(self)@.durable,
    {
        if self.read_only {
            return Err(ErrorKind::ReadOnly);
        }
        storage_failure(db_insert(&mut self.db, key.as_bytes(), value.as_bytes()))?;
        storage_failure(db_flush(&mut self.db))?;
        Ok(())
    }

    /// Reads the text bound to `key`. An unbound key is no error: it reads
    /// as `Ok(None)`, which differs from an empty text. A failure of the
    /// storage engine, or a value that is no text, is `StorageIo`.
    pub fn fetch(&self, key: &str) -> (found: Result<Option<String>, ErrorKind>)
        ensures
            found is Ok ==> found_text(found) == self@.read(key@),
            found matches Err(kind) ==> kind == ErrorKind::StorageIo,
    {
        decode_fetched(storage_failure(db_get(&self.db, key.as_bytes())))
    }

    /// The text bound to `key`, if any. An unbound key is no error; a key
    /// that cannot be read counts as unbound.
    pub fn get(&self, key: &str) -> (found: Option<String>)
        ensures
            found matches Some(text) ==> self@.lookup(key@) == Some(text@),
    {
        found_or_unbound(self.fetch(key))
    }

    /// Unbinds `key`; an unbound key stays unbound. Success is reported only
    /// after the write was flushed to stable storage. A read-only store is
    /// left untouched.
    pub fn delete(&mut self, key: &str) -> (deleted: Result<(), ErrorKind>)
        ensures
            final(self)@.read_only == old(self)@.read_only,
            old(self)@.read_only ==> deleted == Err::<(), ErrorKind>(ErrorKind::ReadOnly)
                && final(self)@ == old(self)@,
            !old(self)@.read_only ==> deleted is Ok || deleted == Err::<(), ErrorKind>(
                ErrorKind::StorageIo,
            ),
            deleted is Ok ==> final(self)@ == old(self)@.erase(key@) && final(self)@.durable,
    {
        if self.read_only {
            return Err(ErrorKind::ReadOnly);
        }
        storage_failure(db_remove(&mut self.db, key.as_bytes()))?;
        storage_failure(db_flush(&mut self.db))?;
        Ok(())
    }
}

/// A value that was put is the value that is looked up, whatever the key
/// held before; the binding of every other key stays as it was.
pub proof fn lemma_put_then_lookup(store: Store, key: Seq<char>, value: Seq<char>, other: Seq<char>)
    ensures
        store.put(key, value).read(key) == Ok::<Option<Seq<char>>, ErrorKind>(Some(value)),
        store.put(key, value).lookup(key) == Some(value),
        other != key ==> store.put(key, value).read(other) == store.read(other),
{
    vstd::utf8::encode_utf8_valid_utf8(value);
    vstd::utf8::encode_utf8_decode_utf8(value);
    vstd::utf8::encode_utf8_decode_utf8(key);
    vstd::utf8::encode_utf8_decode_utf8(other);
}

/// A key that was erased is unbound, whether or not it was bound before;
/// erasing it once more changes nothing, and erasing an unbound key changes
/// no record. The binding of every other key stays as it was.
pub proof fn lemma_erase_is_idempotent(store: Store, key: Seq<char>, other: Seq<char>)
    ensures
        store.erase(key).read(key) == Ok::<Option<Seq<char>>, ErrorKind>(None),
        store.erase(key).lookup(key) is None,
        store.erase(key).erase(key) == store.erase(key),
        !store.records.contains_key(vstd::utf8::encode_utf8(key)) ==> store.erase(key).records
            == store.records,
        other != key ==> store.erase(key).read(other) == store.read(other),
{
    vstd::utf8::encode_utf8_decode_utf8(key);
    vstd::utf8::encode_utf8_decode_utf8(other);
    assert(store.erase(key).erase(key).records =~= store.erase(key).records);
    if !store.records.contains_key(vstd::utf8::encode_utf8(key)) {
        assert(store.erase(key).records =~= store.records);
    }
}

} // verus!
