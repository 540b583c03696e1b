use sovereign_node::bytes::{append_bytes, bytes_equal};

#[test]
fn appending_keeps_what_was_there() {
    let mut out = vec![1u8, 2];
    append_bytes(&mut out, &[3, 4, 5]);
    assert_eq!(out, vec![1, 2, 3, 4, 5]);
    append_bytes(&mut out, &[]);
    assert_eq!(out, vec![1, 2, 3, 4, 5]);
}

#[test]
fn equal_byte_strings_are_told_from_unequal_ones() {
    assert!(bytes_equal(&[], &[]));
    assert!(bytes_equal(&[7, 8], &[7, 8]));
    assert!(!bytes_equal(&[7, 8], &[7, 9]));
    assert!(!bytes_equal(&[7, 8], &[7]));
    assert!(!bytes_equal(&[], &[0]));
}
