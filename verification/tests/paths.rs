use renamore::call::to_c_string;
use renamore::Error;

#[test]
fn c_strings_end_with_a_zero() {
    assert_eq!(to_c_string(b"a"), Ok(b"a\0".to_vec()));
    assert_eq!(to_c_string(b""), Ok(b"\0".to_vec()));
    assert_eq!(to_c_string(b"/tmp/x y/\xff"), Ok(b"/tmp/x y/\xff\0".to_vec()));
}

#[test]
fn c_strings_hold_no_zero_inside() {
    assert_eq!(to_c_string(b"\0"), Err(Error::InvalidPathEncoding));
    assert_eq!(to_c_string(b"a\0b"), Err(Error::InvalidPathEncoding));
    assert_eq!(to_c_string(b"ab\0"), Err(Error::InvalidPathEncoding));
    assert_eq!(to_c_string(b"\0ab"), Err(Error::InvalidPathEncoding));
}
