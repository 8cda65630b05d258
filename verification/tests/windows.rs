use renamore::windows::{rename_exclusive, rename_exclusive_is_atomic, to_wide, MOVE_FLAGS};
use renamore::{Call, Error, Returned, Step};

fn wide(s: &str) -> Vec<u16> {
    s.encode_utf16().collect()
}

#[test]
fn wide_strings_end_with_a_zero() {
    assert_eq!(to_wide(&wide("a")), Ok(vec![0x61, 0]));
    assert_eq!(to_wide(&[]), Ok(vec![0]));
    assert_eq!(to_wide(&wide("C:\\x\\é")), Ok(vec![0x43, 0x3a, 0x5c, 0x78, 0x5c, 0xe9, 0]));
    assert_eq!(to_wide(&[0xd800, 0xffff]), Ok(vec![0xd800, 0xffff, 0]));
}

#[test]
fn wide_strings_hold_no_zero_inside() {
    assert_eq!(to_wide(&[0]), Err(Error::InvalidPathEncoding));
    assert_eq!(to_wide(&[0x61, 0, 0x62]), Err(Error::InvalidPathEncoding));
    assert_eq!(to_wide(&[0x61, 0]), Err(Error::InvalidPathEncoding));
}

#[test]
fn rename_asks_for_a_move_without_flags() {
    assert_eq!(MOVE_FLAGS, 0);
    assert_eq!(
        rename_exclusive(&wide("a"), &wide("..\\b"), None),
        Step::Ask(Call::MoveFileExW {
            existing_file_name: vec![0x61, 0],
            new_file_name: vec![0x2e, 0x2e, 0x5c, 0x62, 0],
            flags: 0,
        })
    );
}

#[test]
fn windows_rename_refuses_a_path_with_a_zero_unit() {
    let refused = Step::Done(Err(Error::InvalidPathEncoding));
    assert_eq!(rename_exclusive(&[0x61, 0], &wide("b"), None), refused);
    assert_eq!(rename_exclusive(&wide("a"), &[0, 0x62], None), refused);
    assert_eq!(rename_exclusive(&wide("a"), &[0], Some(Returned { ret: 1, error: Error::NativeOs(0) })), refused);
}

#[test]
fn zero_is_the_failure_on_windows() {
    let failed = Returned { ret: 0, error: Error::AlreadyExists };
    assert_eq!(rename_exclusive(&wide("a"), &wide("b"), Some(failed)), Step::Done(Err(Error::AlreadyExists)));
    let denied = Returned { ret: 0, error: Error::NativeOs(5) };
    assert_eq!(rename_exclusive(&wide("a"), &wide("b"), Some(denied)), Step::Done(Err(Error::NativeOs(5))));
    for ret in [1, -1, 2, i32::MIN] {
        let fine = Returned { ret, error: Error::AlreadyExists };
        assert_eq!(rename_exclusive(&wide("a"), &wide("b"), Some(fine)), Step::Done(Ok(())));
    }
}

#[test]
fn windows_always_says_atomic() {
    assert_eq!(rename_exclusive_is_atomic(&wide(".")), Step::Done(Ok(true)));
    assert_eq!(rename_exclusive_is_atomic(&[]), Step::Done(Ok(true)));
    assert_eq!(rename_exclusive_is_atomic(&[0]), Step::Done(Ok(true)));
}
