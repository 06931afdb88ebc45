use memory_buffer::symbols::null_terminated;
use memory_buffer::{LinkerSymbols, ERAVM_WORD_SIZE, ETHEREUM_ADDRESS_SIZE};

fn address(fill: u8) -> [u8; 20] {
    let mut a = [0u8; 20];
    for (i, b) in a.iter_mut().enumerate() {
        *b = fill.wrapping_add(i as u8);
    }
    a
}

#[test]
fn sizes() {
    assert_eq!(ETHEREUM_ADDRESS_SIZE, 20);
    assert_eq!(ERAVM_WORD_SIZE, 32);
}

#[test]
fn empty_table() {
    let t = LinkerSymbols::new();
    assert!(t.is_empty());
    assert_eq!(t.len(), 0);
    assert!(t.wire_keys().is_empty());
    assert!(t.wire_values().is_empty());
}

#[test]
fn insert_and_get() {
    let mut t = LinkerSymbols::new();
    t.insert("library_a".to_string(), address(1));
    t.insert("library_b".to_string(), address(100));
    assert_eq!(t.len(), 2);
    assert_eq!(t.get(&"library_a".to_string()), Some(address(1)));
    assert_eq!(t.get(&"library_b".to_string()), Some(address(100)));
    assert_eq!(t.get(&"library_c".to_string()), None);
    assert_eq!(t.position(&"library_b".to_string()), Some(1));
}

#[test]
fn insert_same_name_replaces_in_place() {
    let mut t = LinkerSymbols::new();
    t.insert("x".to_string(), address(1));
    t.insert("y".to_string(), address(2));
    t.insert("x".to_string(), address(3));
    assert_eq!(t.len(), 2);
    assert_eq!(t.position(&"x".to_string()), Some(0));
    assert_eq!(t.get(&"x".to_string()), Some(address(3)));
}

#[test]
fn from_pairs_later_wins() {
    let pairs = vec![
        ("a".to_string(), address(1)),
        ("b".to_string(), address(2)),
        ("a".to_string(), address(9)),
    ];
    let t = LinkerSymbols::from_pairs(&pairs);
    assert_eq!(t.len(), 2);
    assert_eq!(t.get(&"a".to_string()), Some(address(9)));
    assert_eq!(t.get(&"b".to_string()), Some(address(2)));
}

#[test]
fn null_terminated_appends_zero() {
    assert_eq!(null_terminated(""), vec![0u8]);
    assert_eq!(null_terminated("ab"), vec![b'a', b'b', 0]);
    assert_eq!(null_terminated("é"), vec![0xc3, 0xa9, 0]);
}

#[test]
fn wire_arrays_agree_by_index() {
    let mut t = LinkerSymbols::new();
    t.insert("first".to_string(), address(10));
    t.insert("second".to_string(), address(50));
    t.insert("third".to_string(), address(200));
    let keys = t.wire_keys();
    let values = t.wire_values();
    assert_eq!(keys.len(), 3);
    assert_eq!(values.len(), 3 * ETHEREUM_ADDRESS_SIZE);
    assert_eq!(keys[0], b"first\0".to_vec());
    assert_eq!(keys[1], b"second\0".to_vec());
    assert_eq!(keys[2], b"third\0".to_vec());
    assert_eq!(&values[0..20], &address(10)[..]);
    assert_eq!(&values[20..40], &address(50)[..]);
    assert_eq!(&values[40..60], &address(200)[..]);
}
