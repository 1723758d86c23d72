use imd::cache::{
    has_location_record, is_civitai_model_exists, is_civitai_model_version_exists, lookup_location_record,
    retreive_civitai_model, retreive_civitai_model_locations_by_blake3,
    retreive_civitai_model_version, store_civitai_model, store_civitai_model_file_location,
    store_civitai_model_version, CacheError, LocationCache,
};

const HASH: &str = "ABCD0123ABCD0123ABCD0123ABCD0123ABCD0123ABCD0123ABCD0123ABCD0123";

fn temp_db() -> sled::Db {
    sled::Config::new().temporary(true).open().expect("temporary database")
}

#[test]
fn stored_location_is_found_by_lookup() {
    let mut cache = LocationCache::new(temp_db());
    store_civitai_model_file_location(&mut cache, 1, 2, 3, HASH, "/models/m.safetensors").unwrap();
    let rec = lookup_location_record(&cache, HASH).unwrap().expect("record");
    assert_eq!(rec.model_id, 1);
    assert_eq!(rec.version_id, 2);
    assert_eq!(rec.file_id, 3);
    assert_eq!(rec.locations, vec!["/models/m.safetensors".to_string()]);
}

#[test]
fn storing_same_location_twice_keeps_one_entry() {
    let mut cache = LocationCache::new(temp_db());
    store_civitai_model_file_location(&mut cache, 1, 2, 3, HASH, "/a/m.bin").unwrap();
    store_civitai_model_file_location(&mut cache, 1, 2, 3, HASH, "/a/m.bin").unwrap();
    let locs = retreive_civitai_model_locations_by_blake3(&cache, HASH).unwrap().unwrap();
    assert_eq!(locs, vec!["/a/m.bin".to_string()]);
}

#[test]
fn second_location_is_appended_and_ids_kept() {
    let mut cache = LocationCache::new(temp_db());
    store_civitai_model_file_location(&mut cache, 1, 2, 3, HASH, "/a/m.bin").unwrap();
    store_civitai_model_file_location(&mut cache, 9, 9, 9, HASH, "/b/m.bin").unwrap();
    let rec = lookup_location_record(&cache, HASH).unwrap().unwrap();
    assert_eq!((rec.model_id, rec.version_id, rec.file_id), (1, 2, 3));
    assert_eq!(rec.locations, vec!["/a/m.bin".to_string(), "/b/m.bin".to_string()]);
}

#[test]
fn lookup_of_unknown_hash_is_none() {
    let cache = LocationCache::new(temp_db());
    assert!(lookup_location_record(&cache, HASH).unwrap().is_none());
    assert!(retreive_civitai_model_locations_by_blake3(&cache, HASH).unwrap().is_none());
}

#[test]
fn hash_key_ignores_case() {
    let mut cache = LocationCache::new(temp_db());
    store_civitai_model_file_location(&mut cache, 1, 2, 3, &HASH.to_lowercase(), "/a/m.bin").unwrap();
    assert!(lookup_location_record(&cache, HASH).unwrap().is_some());
}

#[test]
fn location_record_uses_namespaced_key() {
    let db = temp_db();
    let mut cache = LocationCache::new(db.clone());
    store_civitai_model_file_location(&mut cache, 1, 2, 3, "abcd", "/a/m.bin").unwrap();
    assert!(db.contains_key("civitai:model:file:blake3:ABCD").unwrap());
}

#[test]
fn corrupt_record_is_reported() {
    let db = temp_db();
    db.insert(format!("civitai:model:file:blake3:{HASH}"), vec![1u8, 2, 3]).unwrap();
    let mut cache = LocationCache::new(db);
    assert!(matches!(lookup_location_record(&cache, HASH), Err(CacheError::CorruptRecord(_))));
    let r = store_civitai_model_file_location(&mut cache, 1, 2, 3, HASH, "/a/m.bin");
    assert!(matches!(r, Err(CacheError::CorruptRecord(_))));
}

#[test]
fn model_metadata_is_stored_under_model_key() {
    let db = temp_db();
    let mut cache = LocationCache::new(db.clone());
    assert!(!is_civitai_model_exists(&cache, 42).unwrap());
    assert!(retreive_civitai_model(&cache, 42).unwrap().is_none());
    store_civitai_model(&mut cache, 42, b"{\"id\":42}").unwrap();
    assert!(is_civitai_model_exists(&cache, 42).unwrap());
    assert_eq!(retreive_civitai_model(&cache, 42).unwrap().unwrap(), b"{\"id\":42}".to_vec());
    assert!(db.contains_key("civitai:model:42").unwrap());
}

#[test]
fn model_version_metadata_is_stored_under_version_key() {
    let db = temp_db();
    let mut cache = LocationCache::new(db.clone());
    assert!(!is_civitai_model_version_exists(&cache, 42, 7).unwrap());
    store_civitai_model_version(&mut cache, 42, 7, b"v").unwrap();
    assert!(is_civitai_model_version_exists(&cache, 42, 7).unwrap());
    assert!(!is_civitai_model_version_exists(&cache, 42, 8).unwrap());
    assert_eq!(retreive_civitai_model_version(&cache, 42, 7).unwrap().unwrap(), b"v".to_vec());
    assert!(db.contains_key("civitai:model:42:7").unwrap());
}

#[test]
fn location_record_presence() {
    let mut cache = LocationCache::new(temp_db());
    assert!(!has_location_record(&cache, HASH).unwrap());
    store_civitai_model_file_location(&mut cache, 1, 2, 3, HASH, "/a/m.bin").unwrap();
    assert!(has_location_record(&cache, HASH).unwrap());
    assert!(has_location_record(&cache, &HASH.to_lowercase()).unwrap());
}
