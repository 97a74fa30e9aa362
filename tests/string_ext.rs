use steamworks::string_ext::{
    nul_truncate, string_from_nul_terminated, string_from_nul_terminated_c_chars,
    string_from_nul_terminated_vec, FromUtf8NulTruncating,
};

#[test]
fn test_string_from_bytes_with_interior_nul() {
    assert_eq!(String::from_utf8_nul_truncating(&[0_u8][..]).unwrap(), "");
    assert_eq!(
        String::from_utf8_nul_truncating(&[65_u8, 0][..]).unwrap(),
        "A"
    );
    assert_eq!(
        String::from_utf8_nul_truncating(&[65_u8, 66, 0, 67][..]).unwrap(),
        "AB"
    );
    assert_eq!(
        String::from_utf8_nul_truncating(&[65_u8, 66, 0, 67, 0][..]).unwrap(),
        "AB"
    );
}

#[test]
fn nul_truncate_cuts_at_first_nul() {
    let mut v = vec![1_u8, 2, 0, 3, 0];
    nul_truncate(&mut v);
    assert_eq!(v, vec![1, 2]);

    let mut w = vec![7_u8, 8, 9];
    nul_truncate(&mut w);
    assert_eq!(w, vec![7, 8, 9]);

    let mut e: Vec<u8> = vec![];
    nul_truncate(&mut e);
    assert!(e.is_empty());
}

#[test]
fn buffer_without_nul_is_read_whole() {
    assert_eq!(string_from_nul_terminated(b"tag").unwrap(), "tag");
    assert_eq!(String::from_utf8_nul_truncating(vec![104_u8, 105]).unwrap(), "hi");
}

#[test]
fn c_chars_are_read_as_unsigned_bytes() {
    // "é" is 0xC3 0xA9 in UTF-8, negative as C characters.
    let buf: [i8; 4] = [-61, -87, 0, 65];
    assert_eq!(string_from_nul_terminated_c_chars(&buf).unwrap(), "é");
    assert_eq!(String::from_utf8_nul_truncating(&buf[..]).unwrap(), "é");
}

#[test]
fn invalid_utf8_before_nul_is_an_error() {
    assert!(string_from_nul_terminated(&[0xff_u8, 0][..]).is_err());
    assert!(string_from_nul_terminated_vec(vec![65, 0xc3]).is_err());
    // Invalid bytes after the nul are never read.
    assert_eq!(string_from_nul_terminated(&[65_u8, 0, 0xff][..]).unwrap(), "A");
}
