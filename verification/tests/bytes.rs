use haven_registry::bytes::{bytes_equal, copy_bytes, hashes_equal};
use haven_registry::Address;

#[test]
fn bytes_equal_compares_contents() {
    assert!(bytes_equal(&vec![1, 2, 3], &vec![1, 2, 3]));
    assert!(!bytes_equal(&vec![1, 2, 3], &vec![1, 2, 4]));
    assert!(!bytes_equal(&vec![1, 2], &vec![1, 2, 3]));
    assert!(bytes_equal(&vec![], &vec![]));
}

#[test]
fn hashes_equal_compares_all_bytes() {
    let a = [7u8; 32];
    let mut b = [7u8; 32];
    assert!(hashes_equal(&a, &b));
    b[31] = 8;
    assert!(!hashes_equal(&a, &b));
    b[31] = 7;
    b[0] = 0;
    assert!(!hashes_equal(&a, &b));
}

#[test]
fn copy_bytes_copies() {
    let v = vec![9u8, 8, 7];
    assert_eq!(copy_bytes(&v), v);
    assert_eq!(copy_bytes(&vec![]), Vec::<u8>::new());
}

#[test]
fn addresses_compare_by_strkey() {
    let a = Address::new(b"GABC".to_vec());
    assert_eq!(a.clone(), a);
    assert_ne!(a, Address::new(b"GABD".to_vec()));
}
