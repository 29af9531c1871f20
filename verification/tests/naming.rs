use stdf_reader::naming::extension_is_compliant;

#[test]
fn extensions_that_start_with_std_comply() {
    assert!(extension_is_compliant(b"STD"));
    assert!(extension_is_compliant(b"STDF"));
    assert!(extension_is_compliant(b"STD_gz"));
    assert!(extension_is_compliant("STDF".as_bytes()));
}

#[test]
fn other_extensions_do_not_comply() {
    assert!(!extension_is_compliant(b""));
    assert!(!extension_is_compliant(b"S"));
    assert!(!extension_is_compliant(b"ST"));
    assert!(!extension_is_compliant(b"std"));
    assert!(!extension_is_compliant(b"Std"));
    assert!(!extension_is_compliant(b"XSTD"));
    assert!(!extension_is_compliant(b"SDT"));
    assert!(!extension_is_compliant(b"STE"));
    assert!(!extension_is_compliant(b"txt"));
}
