use wslplugins::{cstring_from_str, encode_wide_null_terminated};

#[test]
fn test_encode_wide_null_terminated_no_nulls() {
    let input: Vec<u16> = "Hello".encode_utf16().collect();
    let expected: Vec<u16> = "Hello\0".encode_utf16().collect();
    assert_eq!(encode_wide_null_terminated(&input), expected);
}

#[test]
fn test_encode_wide_null_terminated_with_nulls() {
    let input: Vec<u16> = "Hel\0lo".encode_utf16().collect();
    let expected: Vec<u16> = "Hello\0".encode_utf16().collect();
    assert_eq!(encode_wide_null_terminated(&input), expected);
}

#[test]
fn test_cstring_from_str_no_nulls() {
    let input = "Hello";
    let cstring = cstring_from_str(input);
    assert_eq!(std::str::from_utf8(&cstring).unwrap(), input);
}

#[test]
fn test_cstring_from_str_with_nulls() {
    let input = "Hel\0lo";
    let cstring = cstring_from_str(input);
    let expected = "Hello".as_bytes();
    assert_eq!(cstring, expected);
}

#[test]
fn empty_and_all_nul_inputs() {
    assert_eq!(encode_wide_null_terminated(&[]), vec![0]);
    assert_eq!(encode_wide_null_terminated(&[0, 0]), vec![0]);
    assert_eq!(cstring_from_str("\0\0"), Vec::<u8>::new());
    assert_eq!(cstring_from_str("é\0"), "é".as_bytes());
}
