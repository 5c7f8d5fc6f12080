use crsm7::bio_drive::BioDrive;

#[test]
fn test_hash_matches_fnv1a_vectors() {
    assert_eq!(BioDrive::hash_data(b""), 0xcbf29ce484222325);
    assert_eq!(BioDrive::hash_data(b"a"), 0xaf63dc4c8601ec8c);
    assert_eq!(BioDrive::hash_data(b"foobar"), 0x85944171f73967e8);
}

#[test]
fn test_store_load_round_trip_single_shard() {
    let mut drive = BioDrive::new(4);
    let data = b"nutrient payload";
    let hash = drive.store(data);
    assert_eq!(hash, BioDrive::hash_data(data));
    assert_eq!(drive.load(hash), Some(data.to_vec()));
}

#[test]
fn test_store_load_round_trip_multiple_shards() {
    let mut drive = BioDrive::new(8);
    let data: Vec<u8> = (0..512u32).map(|i| (i % 251) as u8).collect();
    let hash = drive.store(&data);
    assert_eq!(drive.load(hash), Some(data));
}

#[test]
fn test_store_keeps_only_whole_shards_of_long_data() {
    // With more than one whole shard, the trailing partial shard is not
    // stored: a 600-byte string keeps its first two 256-byte shards only.
    let mut drive = BioDrive::new(8);
    let data: Vec<u8> = (0..600u32).map(|i| (i % 251) as u8).collect();
    let hash = drive.store(&data);
    assert_eq!(drive.load(hash), Some(data[..512].to_vec()));
}

#[test]
fn test_load_unknown_hash_is_none() {
    let drive = BioDrive::new(4);
    assert_eq!(drive.load(12345), None);
}

#[test]
fn test_store_empty_data_loads_nothing() {
    let mut drive = BioDrive::new(4);
    let hash = drive.store(b"");
    assert_eq!(drive.load(hash), None);
}

#[test]
fn test_two_stored_files_load_independently() {
    let mut drive = BioDrive::new(5);
    let first = b"first file".to_vec();
    let second = b"second file, different bytes".to_vec();
    let h1 = drive.store(&first);
    let h2 = drive.store(&second);
    assert_ne!(h1, h2);
    assert_eq!(drive.load(h1), Some(first));
    assert_eq!(drive.load(h2), Some(second));
}

#[test]
fn test_node_count_and_readiness() {
    let drive = BioDrive::new(128);
    assert_eq!(drive.node_count(), 128);
    assert!(drive.is_ready());
    let empty = BioDrive::new(0);
    assert!(!empty.is_ready());
}
