use memory_buffer::report::undefined_symbols;

#[test]
fn empty_report_gives_empty_list() {
    let reported: Vec<Vec<u8>> = Vec::new();
    assert_eq!(undefined_symbols(&reported), Ok(Vec::new()));
}

#[test]
fn names_keep_reported_order() {
    let reported = vec![b"library_b".to_vec(), b"library_a".to_vec()];
    assert_eq!(
        undefined_symbols(&reported),
        Ok(vec!["library_b".to_string(), "library_a".to_string()])
    );
}

#[test]
fn multibyte_names_are_decoded() {
    let reported = vec![vec![0xc3, 0xa9, b'x']];
    assert_eq!(undefined_symbols(&reported), Ok(vec!["éx".to_string()]));
}

#[test]
fn first_invalid_name_is_reported() {
    let reported = vec![b"ok".to_vec(), vec![0xff, 0xfe], vec![0xc3]];
    assert_eq!(undefined_symbols(&reported), Err(1));
}
