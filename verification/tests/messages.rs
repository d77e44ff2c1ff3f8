use hdiffpatch_rs::{decimal_string, Error};

#[test]
fn fixed_messages() {
    assert_eq!(Error::Null.message(), "null argument");
    assert_eq!(Error::Range.message(), "argument out of range");
    assert_eq!(Error::Capacity.message(), "output buffer too small");
    assert_eq!(Error::Invalid.message(), "invalid diff data");
    assert_eq!(Error::Io.message(), "I/O failure");
    assert_eq!(Error::Internal.message(), "internal HDiffPatch failure");
    assert_eq!(Error::Checksum.message(), "checksum mismatch");
    assert_eq!(Error::OutOfMem.message(), "out of memory");
}

#[test]
fn code_messages_carry_the_word() {
    assert_eq!(Error::Code(-42).message(), "hdiffpatch error code -42");
    assert_eq!(Error::Code(-9).message(), "hdiffpatch error code -9");
    assert_eq!(
        Error::Code(i64::MIN).message(),
        "hdiffpatch error code -9223372036854775808"
    );
}

#[test]
fn decimal_matches_std_formatting() {
    for c in [0i64, 1, 9, 10, 11, 99, 100, 12345, -1, -10, -99, -100, i64::MAX, i64::MIN] {
        assert_eq!(decimal_string(c), format!("{}", c));
    }
    let mut c: i64 = 1;
    while c < i64::MAX / 7 {
        assert_eq!(decimal_string(c), format!("{}", c));
        assert_eq!(decimal_string(-c), format!("{}", -c));
        c = c * 7 + 3;
    }
}
