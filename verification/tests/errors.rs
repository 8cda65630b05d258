use renamore::{Error, Kind};

#[test]
fn sorts_that_callers_act_on_keep_their_meaning() {
    assert_eq!(Error::from_io(Kind::AlreadyExists, Some(17)), Error::AlreadyExists);
    assert_eq!(Error::from_io(Kind::AlreadyExists, None), Error::AlreadyExists);
    assert_eq!(Error::from_io(Kind::Unsupported, Some(38)), Error::Unsupported);
    assert_eq!(Error::from_io(Kind::Unsupported, None), Error::Unsupported);
}

#[test]
fn other_failures_of_the_system_keep_their_code() {
    assert_eq!(Error::from_io(Kind::Other, Some(13)), Error::NativeOs(13));
    assert_eq!(Error::from_io(Kind::InvalidInput, Some(22)), Error::NativeOs(22));
    assert_eq!(Error::from_io(Kind::InvalidData, Some(5)), Error::NativeOs(5));
    assert_eq!(Error::from_io(Kind::Other, Some(-1)), Error::NativeOs(-1));
}

#[test]
fn failures_without_a_code() {
    assert_eq!(Error::from_io(Kind::InvalidInput, None), Error::InvalidPathEncoding);
    assert_eq!(Error::from_io(Kind::InvalidData, None), Error::DataFormat);
    assert_eq!(Error::from_io(Kind::Other, None), Error::NativeOs(0));
}

#[test]
fn kind_and_code_of_each_error() {
    assert_eq!(Error::AlreadyExists.kind(), Kind::AlreadyExists);
    assert_eq!(Error::Unsupported.kind(), Kind::Unsupported);
    assert_eq!(Error::NativeOs(18).kind(), Kind::Other);
    assert_eq!(Error::InvalidPathEncoding.kind(), Kind::InvalidInput);
    assert_eq!(Error::DataFormat.kind(), Kind::InvalidData);
    assert_eq!(Error::NativeOs(18).raw_os_error(), Some(18));
    assert_eq!(Error::AlreadyExists.raw_os_error(), None);
    assert_eq!(Error::Unsupported.raw_os_error(), None);
    assert_eq!(Error::InvalidPathEncoding.raw_os_error(), None);
    assert_eq!(Error::DataFormat.raw_os_error(), None);
}

#[test]
fn an_error_comes_back_from_its_kind_and_code() {
    let errors = [
        Error::AlreadyExists,
        Error::Unsupported,
        Error::NativeOs(0),
        Error::NativeOs(2),
        Error::NativeOs(i32::MIN),
        Error::InvalidPathEncoding,
        Error::DataFormat,
    ];
    for error in errors.iter() {
        assert_eq!(Error::from_io(error.kind(), error.raw_os_error()), *error);
    }
}
