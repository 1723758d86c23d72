//! The location cache: a durable key-value store that maps content hashes to
//! the filesystem locations known to hold that content, and that keeps the
//! catalog metadata fetched for models and model versions.
//!
//! Keys are namespaced texts stored as their UTF-8 bytes:
//! `civitai:model:file:blake3:<HASH>` for location records (hash in upper
//! case), `civitai:model:<model id>` for model metadata and
//! `civitai:model:<model id>:<version id>` for model version metadata.
use vstd::prelude::*;
use vstd::string::StringExecFns;
use vstd::utf8::encode_utf8;

use crate::record::{
    encodable, encode_record, parse_record, record_encoding_round_trip, LocationRecord, RecordModel,
};
use crate::text::{ascii_upper, decimal, decimal_string, to_ascii_upper};

verus! {

#[verifier::external_type_specification]
#[verifier::external_body]
pub struct ExDb(sled::Db);

#[verifier::external_type_specification]
#[verifier::external_body]
pub struct ExSledError(sled::Error);

/// What a sled database holds: the bytes of each key mapped to the bytes of
/// its value.
pub uninterp spec fn db_contents(db: sled::Db) -> Map<Seq<u8>, Seq<u8>>;

/// Relies on sled::Tree::get (reached through `Db`'s `Deref`): on success it
/// gives the value stored under the key, or `None` where the key is absent.
#[verifier::external_body]
fn db_get(db: &sled::Db, key: &[u8]) -> (r: Result<Option<Vec<u8>>, sled::Error>)
    ensures
        match r {
            Ok(Some(v)) => db_contents(*db).contains_key(key@) && db_contents(*db)[key@] == v@,
            Ok(None) => !db_contents(*db).contains_key(key@),
            Err(_) => true,
        },
{
    db.get(key).map(|found| found.map(|v| v.to_vec()))
}

/// Relies on sled::Tree::contains_key: on success it tells whether a value is
/// stored under the key.
#[verifier::external_body]
fn db_contains_key(db: &sled::Db, key: &[u8]) -> (r: Result<bool, sled::Error>)
    ensures
        r matches Ok(b) ==> b == db_contents(*db).contains_key(key@),
{
    db.contains_key(key)
}

/// Relies on sled::Tree::insert: on success the key maps to the new value;
/// whatever the outcome, it writes no key but its own.
#[verifier::external_body]
fn db_insert(db: &mut sled::Db, key: &[u8], value: Vec<u8>) -> (r: Result<(), sled::Error>)
    ensures
        r is Ok ==> db_contents(*final(db)) == db_contents(*old(db)).insert(key@, value@),
        db_contents(*final(db)).remove(key@) == db_contents(*old(db)).remove(key@),
{
    db.insert(key, value).map(|_| ())
}

/// What a crash would leave of a sled database: the contents that reopening
/// it would recover.
pub uninterp spec fn db_durable(db: sled::Db) -> Map<Seq<u8>, Seq<u8>>;

/// Relies on sled::Tree::flush: it leaves the contents as they are, and on
/// success all previous writes are recovered after a crash.
#[verifier::external_body]
fn db_flush(db: &mut sled::Db) -> (r: Result<(), sled::Error>)
    ensures
        db_contents(*final(db)) == db_contents(*old(db)),
        r is Ok ==> db_durable(*final(db)) == db_contents(*final(db)),
{
    db.flush().map(|_| ())
}

/// Why a cache operation failed; each names the key it was working on.
#[derive(Debug)]
pub enum CacheError {
    /// The store could not be read.
    ReadFailed(String),
    /// The store could not be written or flushed.
    WriteFailed(String),
    /// The value under the key is not a location record.
    CorruptRecord(String),
}

/// The location cache, over a sled database handle that it alone uses for
/// writing. Its view is the database's contents.
pub struct LocationCache {
    db: sled::Db,
}

impl View for LocationCache {
    type V = Map<Seq<u8>, Seq<u8>>;

    closed spec fn view(&self) -> Map<Seq<u8>, Seq<u8>> {
        db_contents(self.db)
    }
}

pub open spec fn location_key(hash: Seq<char>) -> Seq<char> {
    "civitai:model:file:blake3:"@ + ascii_upper(hash)
}

pub open spec fn model_key(model_id: u64) -> Seq<char> {
    "civitai:model:"@ + decimal(model_id as nat)
}

pub open spec fn model_version_key(model_id: u64, version_id: u64) -> Seq<char> {
    "civitai:model:"@ + decimal(model_id as nat) + ":"@ + decimal(version_id as nat)
}

/// A lookup outcome that agrees with the contents: the record stored under
/// the hash, `None` where there is none, a corrupt-record error where the value
/// there is not a record, or a read failure.
pub open spec fn lookup_agrees(
    c: Map<Seq<u8>, Seq<u8>>,
    hash: Seq<char>,
    r: Result<Option<LocationRecord>, CacheError>,
) -> bool {
    let key = encode_utf8(location_key(hash));
    match r {
        Ok(Some(rec)) => c.contains_key(key) && parse_record(c[key]) == Some(rec@),
        Ok(None) => !c.contains_key(key),
        Err(CacheError::CorruptRecord(_)) => c.contains_key(key) && parse_record(c[key]) is None,
        Err(e) => e is ReadFailed,
    }
}

/// The record held under a key, where the value there decodes as one.
pub open spec fn stored_record(c: Map<Seq<u8>, Seq<u8>>, key: Seq<u8>) -> Option<RecordModel> {
    if c.contains_key(key) {
        parse_record(c[key])
    } else {
        None
    }
}

/// The record after a location is stored: a new record with that single
/// location, or the previous one with the location appended unless it is
/// already listed.
pub open spec fn record_after_store(
    prev: Option<RecordModel>,
    model_id: u64,
    version_id: u64,
    file_id: u64,
    path: Seq<char>,
) -> RecordModel {
    match prev {
        Some(r) => if r.locations.contains(path) {
            r
        } else {
            RecordModel { locations: r.locations.push(path), ..r }
        },
        None => RecordModel { model_id, version_id, file_id, locations: seq![path] },
    }
}

/// The cache contents after a location is stored for a hash.
pub open spec fn contents_after_store(
    c: Map<Seq<u8>, Seq<u8>>,
    hash: Seq<char>,
    model_id: u64,
    version_id: u64,
    file_id: u64,
    path: Seq<char>,
) -> Map<Seq<u8>, Seq<u8>> {
    let key = encode_utf8(location_key(hash));
    c.insert(
        key,
        encode_record(record_after_store(stored_record(c, key), model_id, version_id, file_id, path)),
    )
}

/// What a location store promises, whatever its outcome:
/// - on success the contents are `contents_after_store`, already durable;
/// - a value under the hash's key that is not a record gives `CorruptRecord`
///   and nothing else does; in that case the cache is unchanged;
/// - a read failure leaves the cache unchanged, and other failures are
///   write failures;
/// - no key but the hash's own ever changes.
pub open spec fn store_outcome(
    before: Map<Seq<u8>, Seq<u8>>,
    after: Map<Seq<u8>, Seq<u8>>,
    durable_after: Map<Seq<u8>, Seq<u8>>,
    hash: Seq<char>,
    model_id: u64,
    version_id: u64,
    file_id: u64,
    path: Seq<char>,
    r: Result<(), CacheError>,
) -> bool {
    let key = encode_utf8(location_key(hash));
    let corrupt = before.contains_key(key) && parse_record(before[key]) is None;
    &&& r is Ok ==> after == contents_after_store(before, hash, model_id, version_id, file_id, path)
    &&& r is Ok ==> durable_after == after
    &&& r is Ok ==> encodable(
        record_after_store(stored_record(before, key), model_id, version_id, file_id, path),
    )
    &&& corrupt ==> r is Err && after == before
    &&& r matches Err(CacheError::CorruptRecord(_)) ==> corrupt
    &&& r matches Err(CacheError::ReadFailed(_)) ==> after == before
    &&& after.remove(key) == before.remove(key)
}

fn location_key_string(hash: &str) -> (r: String)
    ensures
        r@ == location_key(hash@),
{
    let upper = to_ascii_upper(hash);
    let key = String::from_str("civitai:model:file:blake3:");
    key.concat(upper.as_str())
}

fn model_key_string(model_id: u64) -> (r: String)
    ensures
        r@ == model_key(model_id),
{
    let id = decimal_string(model_id);
    let key = String::from_str("civitai:model:");
    key.concat(id.as_str())
}

fn model_version_key_string(model_id: u64, version_id: u64) -> (r: String)
    ensures
        r@ == model_version_key(model_id, version_id),
{
    let mid = decimal_string(model_id);
    let vid = decimal_string(version_id);
    let key = String::from_str("civitai:model:");
    let key = key.concat(mid.as_str());
    let key = key.concat(":");
    key.concat(vid.as_str())
}

fn contains_text(items: &Vec<String>, s: &String) -> (r: bool)
    ensures
        r == items@.map_values(|t: String| t@).contains(s@),
{
    let ghost view = items@.map_values(|t: String| t@);
    let mut i: usize = 0;
    while i < items.len()
        invariant
            i <= items.len(),
            view == items@.map_values(|t: String| t@),
            forall|j: int| 0 <= j < i ==> view[j] != s@,
        decreases items.len() - i,
    {
        if items[i] == *s {
            assert(view[i as int] == s@);
            return true;
        }
        i = i + 1;
    }
    false
}

impl LocationCache {
    /// The contents that reopening the database after a crash would recover.
    pub closed spec fn durable(&self) -> Map<Seq<u8>, Seq<u8>> {
        db_durable(self.db)
    }

    /// A cache over an open database.
    pub fn new(db: sled::Db) -> (r: LocationCache)
        ensures
            r@ == db_contents(db),
    {
        LocationCache { db }
    }

    fn put(&mut self, key: &String, value: Vec<u8>) -> (r: Result<(), CacheError>)
        ensures
            r is Ok ==> final(self)@ == old(self)@.insert(encode_utf8(key@), value@),
            final(self)@.remove(encode_utf8(key@)) == old(self)@.remove(encode_utf8(key@)),
            r matches Err(e) ==> e is WriteFailed,
            r is Ok ==> final(self).durable() == final(self)@,
    {
        let k = key.as_str().as_bytes();
        match db_insert(&mut self.db, k, value) {
            Ok(()) => {},
            Err(_) => {
                return Err(CacheError::WriteFailed(key.clone()));
            },
        }
        match db_flush(&mut self.db) {
            Ok(()) => Ok(()),
            Err(_) => Err(CacheError::WriteFailed(key.clone())),
        }
    }

    fn get(&self, key: &String) -> (r: Result<Option<Vec<u8>>, CacheError>)
        ensures
            match r {
                Ok(Some(v)) => self@.contains_key(encode_utf8(key@)) && self@[encode_utf8(key@)]
                    == v@,
                Ok(None) => !self@.contains_key(encode_utf8(key@)),
                Err(e) => e is ReadFailed,
            },
    {
        match db_get(&self.db, key.as_str().as_bytes()) {
            Ok(v) => Ok(v),
            Err(_) => Err(CacheError::ReadFailed(key.clone())),
        }
    }

    fn has(&self, key: &String) -> (r: Result<bool, CacheError>)
        ensures
            r matches Ok(b) ==> b == self@.contains_key(encode_utf8(key@)),
            r matches Err(e) ==> e is ReadFailed,
    {
        match db_contains_key(&self.db, key.as_str().as_bytes()) {
            Ok(b) => Ok(b),
            Err(_) => Err(CacheError::ReadFailed(key.clone())),
        }
    }
}

/// Stores the encoded metadata of a model under its model key and flushes.
pub fn store_civitai_model(cache: &mut LocationCache, model_id: u64, model_meta: &[u8]) -> (r:
    Result<(), CacheError>)
    ensures
        r is Ok ==> final(cache)@ == old(cache)@.insert(
            encode_utf8(model_key(model_id)),
            model_meta@,
        ),
        final(cache)@.remove(encode_utf8(model_key(model_id))) == old(cache)@.remove(
            encode_utf8(model_key(model_id)),
        ),
        r is Ok ==> final(cache).durable() == final(cache)@,
        r matches Err(e) ==> e is WriteFailed,
{
    let key = model_key_string(model_id);
    cache.put(&key, vstd::slice::slice_to_vec(model_meta))
}

/// The stored metadata of a model, if any.
pub fn retreive_civitai_model(cache: &LocationCache, model_id: u64) -> (r: Result<
    Option<Vec<u8>>,
    CacheError,
>)
    ensures
        match r {
            Ok(Some(v)) => cache@.contains_key(encode_utf8(model_key(model_id))) && cache@[encode_utf8(
                model_key(model_id),
            )] == v@,
            Ok(None) => !cache@.contains_key(encode_utf8(model_key(model_id))),
            Err(e) => e is ReadFailed,
        },
{
    let key = model_key_string(model_id);
    cache.get(&key)
}

/// Whether metadata of a model is stored.
pub fn is_civitai_model_exists(cache: &LocationCache, model_id: u64) -> (r: Result<
    bool,
    CacheError,
>)
    ensures
        r matches Ok(b) ==> b == cache@.contains_key(encode_utf8(model_key(model_id))),
        r matches Err(e) ==> e is ReadFailed,
{
    let key = model_key_string(model_id);
    cache.has(&key)
}

/// Stores the encoded metadata of a model version under its version key and
/// flushes.
pub fn store_civitai_model_version(
    cache: &mut LocationCache,
    model_id: u64,
    version_id: u64,
    version_meta: &[u8],
) -> (r: Result<(), CacheError>)
    ensures
        r is Ok ==> final(cache)@ == old(cache)@.insert(
            encode_utf8(model_version_key(model_id, version_id)),
            version_meta@,
        ),
        final(cache)@.remove(encode_utf8(model_version_key(model_id, version_id))) == old(
            cache,
        )@.remove(encode_utf8(model_version_key(model_id, version_id))),
        r is Ok ==> final(cache).durable() == final(cache)@,
        r matches Err(e) ==> e is WriteFailed,
{
    let key = model_version_key_string(model_id, version_id);
    cache.put(&key, vstd::slice::slice_to_vec(version_meta))
}

/// The stored metadata of a model version, if any.
pub fn retreive_civitai_model_version(
    cache: &LocationCache,
    model_id: u64,
    version_id: u64,
) -> (r: Result<Option<Vec<u8>>, CacheError>)
    ensures
        match r {
            Ok(Some(v)) => cache@.contains_key(encode_utf8(model_version_key(model_id, version_id)))
                && cache@[encode_utf8(model_version_key(model_id, version_id))] == v@,
            Ok(None) => !cache@.contains_key(encode_utf8(model_version_key(model_id, version_id))),
            Err(e) => e is ReadFailed,
        },
{
    let key = model_version_key_string(model_id, version_id);
    cache.get(&key)
}

/// Whether metadata of a model version is stored.
pub fn is_civitai_model_version_exists(
    cache: &LocationCache,
    model_id: u64,
    version_id: u64,
) -> (r: Result<bool, CacheError>)
    ensures
        r matches Ok(b) ==> b == cache@.contains_key(
            encode_utf8(model_version_key(model_id, version_id)),
        ),
        r matches Err(e) ==> e is ReadFailed,
{
    let key = model_version_key_string(model_id, version_id);
    cache.has(&key)
}

/// The location record stored for a content hash, if any.
pub fn lookup_location_record(cache: &LocationCache, blake3_hash: &str) -> (r: Result<
    Option<LocationRecord>,
    CacheError,
>)
    ensures
        lookup_agrees(cache@, blake3_hash@, r),
{
    let key = location_key_string(blake3_hash);
    match cache.get(&key) {
        Err(e) => Err(e),
        Ok(None) => Ok(None),
        Ok(Some(bytes)) => match LocationRecord::from_bytes(bytes.as_slice()) {
            Some(rec) => Ok(Some(rec)),
            None => Err(CacheError::CorruptRecord(key)),
        },
    }
}

/// Whether a location record is stored for a content hash.
pub fn has_location_record(cache: &LocationCache, blake3_hash: &str) -> (r: Result<bool, CacheError>)
    ensures
        r matches Ok(b) ==> b == cache@.contains_key(encode_utf8(location_key(blake3_hash@))),
        r matches Err(e) ==> e is ReadFailed,
{
    let key = location_key_string(blake3_hash);
    cache.has(&key)
}

/// The locations recorded for a content hash, if any.
pub fn retreive_civitai_model_locations_by_blake3(cache: &LocationCache, hash: &str) -> (r: Result<
    Option<Vec<String>>,
    CacheError,
>)
    ensures
        ({
            let key = encode_utf8(location_key(hash@));
            match r {
                Ok(Some(locs)) => cache@.contains_key(key) && parse_record(cache@[key]) is Some
                    && locs@.map_values(|s: String| s@) == parse_record(cache@[key])->Some_0.locations,
                Ok(None) => !cache@.contains_key(key),
                Err(CacheError::CorruptRecord(_)) => cache@.contains_key(key) && parse_record(
                    cache@[key],
                ) is None,
                Err(e) => e is ReadFailed,
            }
        }),
{
    match lookup_location_record(cache, hash) {
        Ok(Some(rec)) => Ok(Some(rec.locations)),
        Ok(None) => Ok(None),
        Err(e) => Err(e),
    }
}

/// Records that `canonical_location` holds the content with hash
/// `blake3_hash`, and flushes before returning. An existing record for the hash
/// keeps its ids and gains the location unless it already lists it; otherwise
/// a record with this single location is created.
pub fn store_civitai_model_file_location(
    cache: &mut LocationCache,
    model_id: u64,
    version_id: u64,
    file_id: u64,
    blake3_hash: &str,
    canonical_location: &str,
) -> (r: Result<(), CacheError>)
    ensures
        store_outcome(
            old(cache)@,
            final(cache)@,
            final(cache).durable(),
            blake3_hash@,
            model_id,
            version_id,
            file_id,
            canonical_location@,
            r,
        ),
{
    let key = location_key_string(blake3_hash);
    let path = canonical_location.to_owned();
    let existing = match cache.get(&key) {
        Err(e) => {
            return Err(e);
        },
        Ok(found) => found,
    };
    let record = match existing {
        None => {
            let mut locations: Vec<String> = Vec::new();
            locations.push(path);
            proof {
                assert(locations@.map_values(|s: String| s@) =~= seq![canonical_location@]);
            }
            LocationRecord { model_id, version_id, file_id, locations }
        },
        Some(bytes) => match LocationRecord::from_bytes(bytes.as_slice()) {
            None => {
                return Err(CacheError::CorruptRecord(key));
            },
            Some(rec) => {
                if contains_text(&rec.locations, &path) {
                    rec
                } else {
                    let mut rec = rec;
                    let ghost before = rec@;
                    rec.locations.push(path);
                    proof {
                        assert(rec@.locations =~= before.locations.push(canonical_location@));
                    }
                    rec
                }
            },
        },
    };
    let bytes = record.to_bytes();
    cache.put(&key, bytes)
}

proof fn lemma_record_after_store_lists(
    prev: Option<RecordModel>,
    model_id: u64,
    version_id: u64,
    file_id: u64,
    path: Seq<char>,
)
    ensures
        record_after_store(prev, model_id, version_id, file_id, path).locations.contains(path),
{
    match prev {
        Some(r) => {
            if !r.locations.contains(path) {
                assert(r.locations.push(path)[r.locations.len() as int] == path);
            }
        },
        None => {
            assert(seq![path][0] == path);
        },
    }
}

/// After a location is stored for a hash, looking the hash up finds a record
/// that lists the location.
pub proof fn stored_location_is_found(
    c: Map<Seq<u8>, Seq<u8>>,
    hash: Seq<char>,
    model_id: u64,
    version_id: u64,
    file_id: u64,
    path: Seq<char>,
)
    requires
        encodable(
            record_after_store(
                stored_record(c, encode_utf8(location_key(hash))),
                model_id,
                version_id,
                file_id,
                path,
            ),
        ),
    ensures
        ({
            let after = contents_after_store(c, hash, model_id, version_id, file_id, path);
            let key = encode_utf8(location_key(hash));
            &&& after.contains_key(key)
            &&& parse_record(after[key]) is Some
            &&& parse_record(after[key])->Some_0.locations.contains(path)
        }),
{
    let key = encode_utf8(location_key(hash));
    let rec = record_after_store(stored_record(c, key), model_id, version_id, file_id, path);
    record_encoding_round_trip(rec);
    lemma_record_after_store_lists(stored_record(c, key), model_id, version_id, file_id, path);
}

/// Storing the same location for the same hash a second time leaves the cache
/// as the first store left it: locations are not duplicated.
pub proof fn storing_location_twice_is_idempotent(
    c: Map<Seq<u8>, Seq<u8>>,
    hash: Seq<char>,
    model_id: u64,
    version_id: u64,
    file_id: u64,
    path: Seq<char>,
)
    requires
        encodable(
            record_after_store(
                stored_record(c, encode_utf8(location_key(hash))),
                model_id,
                version_id,
                file_id,
                path,
            ),
        ),
    ensures
        contents_after_store(
            contents_after_store(c, hash, model_id, version_id, file_id, path),
            hash,
            model_id,
            version_id,
            file_id,
            path,
        ) == contents_after_store(c, hash, model_id, version_id, file_id, path),
{
    let key = encode_utf8(location_key(hash));
    let rec = record_after_store(stored_record(c, key), model_id, version_id, file_id, path);
    let once = contents_after_store(c, hash, model_id, version_id, file_id, path);
    record_encoding_round_trip(rec);
    lemma_record_after_store_lists(stored_record(c, key), model_id, version_id, file_id, path);
    assert(stored_record(once, key) == Some(rec));
    assert(once.insert(key, encode_record(rec)) =~= once);
}

} // verus!
