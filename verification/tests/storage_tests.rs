use atomic_disk_drive::filename::decode_filename;
use atomic_disk_drive::filename::encode_filename;
use atomic_disk_drive::sectors_manager::recover_index;
use atomic_disk_drive::sectors_manager::SectorIndex;
use atomic_disk_drive::stable_storage::POSIXFileSystemStableStorage;
use atomic_disk_drive::stable_storage::StableStorageError;

#[test]
fn test_coding() {
    let test = (10, 2, 200);
    assert_eq!(decode_filename(encode_filename(test).as_str()).unwrap(), test);
    let test2 = (10000, 232, 200);
    assert_eq!(decode_filename(encode_filename(test2).as_str()).unwrap(), test2);
}

#[test]
fn sector_filenames_have_24_characters() {
    assert_eq!(encode_filename((0, 0, 0)).len(), 24);
    assert_eq!(encode_filename((u64::MAX, u64::MAX, u8::MAX)).len(), 24);
}

#[test]
fn distinct_triples_have_distinct_filenames() {
    assert_ne!(encode_filename((1, 2, 3)), encode_filename((1, 2, 4)));
    assert_ne!(encode_filename((1, 2, 3)), encode_filename((1, 3, 3)));
    assert_ne!(encode_filename((1, 2, 3)), encode_filename((2, 2, 3)));
}

#[test]
fn malformed_filenames_are_rejected() {
    // not base64 at all
    assert!(decode_filename("###").is_none());
    // valid base64, wrong decoded length
    assert!(decode_filename("AAAA").is_none());
    assert!(decode_filename("").is_none());
}

#[test]
fn fresh_index_reads_zero_metadata() {
    let index = SectorIndex::new();
    assert_eq!(index.read_metadata(42), (0, 0));
    assert!(index.data_filename(42).is_none());
}

#[test]
fn committed_write_updates_metadata_and_filename() {
    let mut index = SectorIndex::new();
    index.commit_write(5, 3, 2);
    assert_eq!(index.read_metadata(5), (3, 2));
    assert_eq!(index.read_metadata(6), (0, 0));
    assert_eq!(index.data_filename(5).unwrap(), encode_filename((5, 3, 2)));
    let (new_name, old_name) = index.plan_write(5, 4, 1);
    assert_eq!(new_name, encode_filename((5, 4, 1)));
    assert_eq!(old_name.unwrap(), encode_filename((5, 3, 2)));
}

#[test]
fn recovery_keeps_newest_triple_per_sector() {
    let entries = vec![
        (0, 1, 1),
        (0, 2, 1),
        (1, 5, 3),
        (0, 2, 2),
        (1, 4, 9),
    ];
    let (index, stale) = recover_index(&entries);
    assert_eq!(index.read_metadata(0), (2, 2));
    assert_eq!(index.read_metadata(1), (5, 3));
    assert_eq!(index.read_metadata(2), (0, 0));
    let mut stale_sorted = stale.clone();
    stale_sorted.sort();
    assert_eq!(stale_sorted, vec![(0, 1, 1), (0, 2, 1), (1, 4, 9)]);
}

#[test]
fn recovery_of_empty_directory_is_empty() {
    let entries: Vec<(u64, u64, u8)> = Vec::new();
    let (index, stale) = recover_index(&entries);
    assert_eq!(index.read_metadata(0), (0, 0));
    assert!(stale.is_empty());
}

#[test]
fn put_plan_rejects_long_keys() {
    let storage = POSIXFileSystemStableStorage::new(String::from("store"));
    let long_key: String = "k".repeat(256);
    assert_eq!(
        storage.put_plan(long_key.as_str(), &[1, 2, 3]),
        Err(StableStorageError::KeyTooLong)
    );
    assert!(storage.lookup_filename(long_key.as_str()).is_none());
}

#[test]
fn put_plan_rejects_long_values() {
    let storage = POSIXFileSystemStableStorage::new(String::from("store"));
    let value = vec![0u8; 65536];
    assert_eq!(
        storage.put_plan("rid", &value),
        Err(StableStorageError::ValueTooLong)
    );
}

#[test]
fn key_filenames_encode_a_full_digest() {
    // URL-safe unpadded base64 of a 32-byte SHA-256 digest is 43 characters
    let storage = POSIXFileSystemStableStorage::new(String::from("store"));
    assert_eq!(storage.lookup_filename("rid").unwrap().len(), 43);
    assert_eq!(storage.lookup_filename("").unwrap().len(), 43);
    assert_ne!(
        storage.lookup_filename("rid").unwrap(),
        storage.lookup_filename("rid2").unwrap()
    );
}

#[test]
fn put_plan_names_match_lookup_names() {
    let storage = POSIXFileSystemStableStorage::new(String::from("store"));
    let planned = storage.put_plan("rid", &7u64.to_be_bytes()).unwrap();
    let looked_up = storage.lookup_filename("rid").unwrap();
    assert_eq!(planned, looked_up);
    // the name depends on the key alone
    assert_eq!(planned, storage.put_plan("rid", &[0]).unwrap());
    assert_ne!(planned, storage.put_plan("other", &[0]).unwrap());
    // boundary sizes are accepted
    let max_key: String = "k".repeat(255);
    assert!(storage.put_plan(max_key.as_str(), &vec![0u8; 65535]).is_ok());
}
