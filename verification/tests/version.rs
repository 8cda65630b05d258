use renamore::{Error, Version};

fn parse(text: &str) -> Result<(u16, u16, u16), Error> {
    Version::parse(text.as_bytes()).map(|v| (v.major(), v.minor(), v.patch()))
}

#[test]
fn version_keeps_its_parts() {
    let v = Version::new(5, 15, 7);
    assert_eq!((v.major(), v.minor(), v.patch()), (5, 15, 7));
    let v = Version::new(65535, 0, 65535);
    assert_eq!((v.major(), v.minor(), v.patch()), (65535, 0, 65535));
    let v = Version::new(0, 65535, 0);
    assert_eq!((v.major(), v.minor(), v.patch()), (0, 65535, 0));
}

#[test]
fn version_order_is_lexicographic() {
    let v = Version::new(3, 15, 0);
    assert!(v.at_least(&Version::new(3, 15, 0)));
    assert!(v.at_least(&Version::new(3, 14, 65535)));
    assert!(v.at_least(&Version::new(2, 65535, 65535)));
    assert!(!v.at_least(&Version::new(3, 15, 1)));
    assert!(!v.at_least(&Version::new(3, 16, 0)));
    assert!(!v.at_least(&Version::new(4, 0, 0)));
    assert!(Version::new(4, 0, 0).at_least(&Version::new(3, 17, 9)));
    assert!(Version::new(3, 2, 0).at_least(&Version::new(3, 1, 9)));
    assert!(!Version::new(3, 1, 9).at_least(&Version::new(3, 2, 0)));
}

#[test]
fn version_operators_agree_with_at_least() {
    let versions = [
        Version::new(0, 0, 0),
        Version::new(0, 0, 1),
        Version::new(0, 1, 0),
        Version::new(1, 0, 0),
        Version::new(3, 15, 0),
        Version::new(3, 17, 0),
        Version::new(4, 9, 0),
        Version::new(65535, 65535, 65535),
    ];
    for a in versions.iter() {
        for b in versions.iter() {
            assert_eq!(a >= b, a.at_least(b));
            assert_eq!(a == b, a.at_least(b) && b.at_least(a));
        }
    }
}

#[test]
fn parses_a_release_with_a_suffix() {
    assert_eq!(parse("5.15.0-generic"), Ok((5, 15, 0)));
}

#[test]
fn parses_the_kernel_banner() {
    let banner = "Linux version 6.8.12-arch1-1 (linux@archlinux) (gcc (GCC) 14.1.1 20240522, GNU ld \
                  (GNU Binutils) 2.42.0) #1 SMP PREEMPT_DYNAMIC\n";
    assert_eq!(parse(banner), Ok((6, 8, 12)));
}

#[test]
fn parses_the_first_version_only() {
    assert_eq!(parse("3.15.0 4.9.0 "), Ok((3, 15, 0)));
    assert_eq!(parse("1.2.3.4"), Ok((1, 2, 3)));
}

#[test]
fn skips_what_comes_before_the_first_digit() {
    assert_eq!(parse("...v1.2.3\n"), Ok((1, 2, 3)));
    assert_eq!(parse("+1.2.3 "), Ok((1, 2, 3)));
}

#[test]
fn missing_second_dot_is_a_format_error() {
    assert_eq!(parse("5.15"), Err(Error::DataFormat));
    assert_eq!(parse("5.15 generic"), Err(Error::DataFormat));
    assert_eq!(parse("5.15-0 "), Err(Error::DataFormat));
    assert_eq!(parse("5 "), Err(Error::DataFormat));
}

#[test]
fn text_that_ends_with_a_number_is_a_format_error() {
    assert_eq!(parse("5.15.0"), Err(Error::DataFormat));
    assert_eq!(parse("5.15.01234"), Err(Error::DataFormat));
    assert_eq!(parse("5"), Err(Error::DataFormat));
    assert_eq!(parse("Linux version 5.15.0"), Err(Error::DataFormat));
}

#[test]
fn text_that_ends_with_a_dot_is_a_format_error() {
    assert_eq!(parse("5."), Err(Error::DataFormat));
    assert_eq!(parse("5.15."), Err(Error::DataFormat));
}

#[test]
fn text_without_digits_is_a_format_error() {
    assert_eq!(parse(""), Err(Error::DataFormat));
    assert_eq!(parse("Linux version unknown"), Err(Error::DataFormat));
    assert_eq!(parse(".."), Err(Error::DataFormat));
}

#[test]
fn a_missing_number_is_a_format_error() {
    assert_eq!(parse("5..0 "), Err(Error::DataFormat));
    assert_eq!(parse("5.15.x"), Err(Error::DataFormat));
    assert_eq!(parse("5.15. 0 "), Err(Error::DataFormat));
}

#[test]
fn a_number_must_be_digits_throughout() {
    assert_eq!(parse("5abc.15.0 "), Err(Error::DataFormat));
    assert_eq!(parse("5.15rc.0 "), Err(Error::DataFormat));
    assert_eq!(parse("5.+15.0 "), Err(Error::DataFormat));
    assert_eq!(parse("5.-15.0 "), Err(Error::DataFormat));
    assert_eq!(parse("5 .15.0 "), Err(Error::DataFormat));
}

#[test]
fn each_number_must_fit_sixteen_bits() {
    assert_eq!(parse("65535.65535.65535\n"), Ok((65535, 65535, 65535)));
    assert_eq!(parse("65536.0.0 "), Err(Error::DataFormat));
    assert_eq!(parse("0.65536.0 "), Err(Error::DataFormat));
    assert_eq!(parse("0.0.65536 "), Err(Error::DataFormat));
    assert_eq!(parse("1.2.99999999999999999999999999999999 "), Err(Error::DataFormat));
    assert_eq!(parse("4294967296.0.0 "), Err(Error::DataFormat));
    assert_eq!(parse("4294967301.0.0 "), Err(Error::DataFormat));
}

#[test]
fn leading_zeros_do_not_count() {
    assert_eq!(parse("005.0015.000 "), Ok((5, 15, 0)));
    assert_eq!(parse("0000000000000000000000065535.0.0 "), Ok((65535, 0, 0)));
}

#[test]
fn any_byte_that_is_no_digit_ends_the_version() {
    assert_eq!(Version::parse(b"2.6.32\0").map(|v| v.patch()), Ok(32));
    assert_eq!(Version::parse(b"2.6.32\xff").map(|v| v.patch()), Ok(32));
    assert_eq!(Version::parse(b"2.6.32/").map(|v| v.patch()), Ok(32));
    assert_eq!(Version::parse(b"2.6.32:").map(|v| v.patch()), Ok(32));
}

#[test]
fn trailing_text_does_not_change_the_version() {
    let text = b"5.15.0-generic".to_vec();
    let rests: [&[u8]; 4] = [b"", b"0", b".1.2.3 ", b"\n6.1.0 "];
    for rest in rests.iter() {
        let mut longer = text.clone();
        longer.extend_from_slice(rest);
        assert_eq!(Version::parse(&longer), Version::parse(&text));
    }
}

#[test]
fn digits_at_the_end_complete_no_version() {
    let heads: [&[u8]; 5] = [b"", b"5.", b"5.15.", b"5.15.0", b"Linux "];
    for head in heads.iter() {
        assert_eq!(Version::parse(head), Err(Error::DataFormat));
        let mut longer = head.to_vec();
        longer.extend_from_slice(b"2024");
        assert_eq!(Version::parse(&longer), Err(Error::DataFormat));
    }
}
