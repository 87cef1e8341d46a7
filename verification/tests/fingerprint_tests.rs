use static_stash::fingerprint::{fingerprint, FINGERPRINT_OFFSET_BASIS};

#[test]
fn fingerprint_is_deterministic() {
    let bytes = b"/* this is test.css */".to_vec();
    let first = fingerprint(&bytes);
    let second = fingerprint(&bytes);
    assert_eq!(first, second);
}

#[test]
fn fingerprint_of_empty_input_is_offset_basis() {
    let bytes: Vec<u8> = Vec::new();
    assert_eq!(fingerprint(&bytes), FINGERPRINT_OFFSET_BASIS);
}

#[test]
fn fingerprint_changes_on_single_byte_mutation() {
    let base = b"/* this is test.css */".to_vec();
    let mut mutated = base.clone();
    mutated[0] = b'!';
    assert_ne!(fingerprint(&base), fingerprint(&mutated));
}

#[test]
fn fingerprint_is_order_sensitive() {
    let ab = vec![b'a', b'b'];
    let ba = vec![b'b', b'a'];
    assert_ne!(fingerprint(&ab), fingerprint(&ba));
}

#[test]
fn fingerprint_matches_reference_value() {
    let bytes = b"/* this is test.css */".to_vec();
    assert_eq!(fingerprint(&bytes), 13915677119532516144u64);
}
