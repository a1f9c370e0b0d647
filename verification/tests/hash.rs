use gxib::utils::hash::{decimal_string, file_contents_hash};

#[test]
fn decimal_matches_to_string() {
    for n in [0u64, 7, 10, 99, 100, 1234567890, u64::MAX] {
        assert_eq!(decimal_string(n), n.to_string());
    }
}

#[test]
fn file_hash_is_seahash_in_decimal() {
    let data = b"hello wasm";
    assert_eq!(file_contents_hash(data), seahash::hash(data).to_string());
    assert_ne!(file_contents_hash(data), file_contents_hash(b"other"));
}
