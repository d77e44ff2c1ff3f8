use hdiffpatch_rs::{status, unit, Error, HdpResult};

#[test]
fn non_negative_words_are_byte_counts() {
    assert_eq!(status(0), Ok(0));
    assert_eq!(status(17), Ok(17));
    assert_eq!(status(i64::MAX), Ok(i64::MAX));
    assert_eq!(unit(0), Ok(()));
    assert_eq!(unit(5), Ok(()));
}

#[test]
fn each_error_code_names_its_error() {
    assert_eq!(status(-1), Err(Error::Null));
    assert_eq!(status(-2), Err(Error::Range));
    assert_eq!(status(-3), Err(Error::Capacity));
    assert_eq!(status(-4), Err(Error::Invalid));
    assert_eq!(status(-5), Err(Error::Io));
    assert_eq!(status(-6), Err(Error::Internal));
    assert_eq!(status(-7), Err(Error::Checksum));
    assert_eq!(status(-8), Err(Error::OutOfMem));
}

#[test]
fn unit_reads_the_same_codes() {
    assert_eq!(unit(-1), Err(Error::Null));
    assert_eq!(unit(-4), Err(Error::Invalid));
    assert_eq!(unit(-7), Err(Error::Checksum));
    assert_eq!(unit(-8), Err(Error::OutOfMem));
}

#[test]
fn unknown_codes_are_kept_whole() {
    assert_eq!(status(-9), Err(Error::Code(-9)));
    assert_eq!(status(-1000), Err(Error::Code(-1000)));
    assert_eq!(unit(-9), Err(Error::Code(-9)));
    assert_eq!(unit(i32::MIN), Err(Error::Code(i32::MIN as i64)));
    assert_eq!(status(i64::MIN), Err(Error::Code(i64::MIN)));
}

#[test]
fn only_the_low_word_names_a_code() {
    // -(2^32) - 1 has low 32 bits 0xFFFF_FFFF, which reads as -1.
    assert_eq!(status(-4_294_967_297), Err(Error::Null));
    // -(2^32) + (-4 as u32) has low word -4.
    assert_eq!(status(-4_294_967_296 - 4), Err(Error::Invalid));
    // -(2^32) has low word 0: no error code, so the word is kept.
    assert_eq!(status(-4_294_967_296), Err(Error::Code(-4_294_967_296)));
}

#[test]
fn status_codes_have_their_values() {
    assert_eq!(HdpResult::Success.code(), 0);
    assert_eq!(HdpResult::Null.code(), -1);
    assert_eq!(HdpResult::Range.code(), -2);
    assert_eq!(HdpResult::Capacity.code(), -3);
    assert_eq!(HdpResult::Invalid.code(), -4);
    assert_eq!(HdpResult::Io.code(), -5);
    assert_eq!(HdpResult::Internal.code(), -6);
    assert_eq!(HdpResult::Checksum.code(), -7);
    assert_eq!(HdpResult::OutOfMem.code(), -8);
}

#[test]
fn codes_read_back_as_the_errors_they_name() {
    let pairs = [
        (HdpResult::Null, Error::Null),
        (HdpResult::Range, Error::Range),
        (HdpResult::Capacity, Error::Capacity),
        (HdpResult::Invalid, Error::Invalid),
        (HdpResult::Io, Error::Io),
        (HdpResult::Internal, Error::Internal),
        (HdpResult::Checksum, Error::Checksum),
        (HdpResult::OutOfMem, Error::OutOfMem),
    ];
    for (r, e) in pairs {
        assert_eq!(status(r.code() as i64), Err(e));
        assert_eq!(unit(r.code()), Err(e));
    }
}
