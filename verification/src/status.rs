//! The status words that the diff engine returns, and the errors they stand for.
//!
//! Every call into the engine answers with one word: a non-negative value is
//! a byte count (or plain success), a negative value is one of the codes of
//! [`HdpResult`]. Only the low 32 bits of a negative word name the code; a
//! word whose low 32 bits name no code is kept whole in [`Error::Code`].
use vstd::prelude::*;

verus! {

/// The status codes of the engine. Only the negative ones are errors;
/// non-negative status words are byte counts returned directly.
#[derive(Debug, Clone, Copy, PartialEq, Eq, Structural)]
pub enum HdpResult {
    Success,
    Null,
    Range,
    Capacity,
    Invalid,
    Io,
    Internal,
    Checksum,
    OutOfMem,
}

/// Errors returned by the library.
///
/// The `Code` variant carries the raw negative status word from the engine
/// for forward compatibility with codes not yet modeled here.
#[derive(Debug, Clone, Copy, PartialEq, Eq, Structural)]
pub enum Error {
    /// A null pointer would have been passed across the boundary.
    Null,
    /// A numeric argument was out of its valid range.
    Range,
    /// The caller-supplied output buffer was too small.
    Capacity,
    /// The diff data was malformed / not a valid single-compressed diff.
    Invalid,
    /// A file or stream I/O operation failed.
    Io,
    /// An internal HDiffPatch failure (exception, unexpected `hpatch_FALSE`).
    Internal,
    /// A checksum mismatch was detected while patching.
    Checksum,
    /// An allocation failed inside the engine.
    OutOfMem,
    /// An unrecognized negative status code.
    Code(i64),
}

/// The numeric value of each status code.
pub open spec fn code_value(r: HdpResult) -> i32 {
    match r {
        HdpResult::Success => 0i32,
        HdpResult::Null => -1i32,
        HdpResult::Range => -2i32,
        HdpResult::Capacity => -3i32,
        HdpResult::Invalid => -4i32,
        HdpResult::Io => -5i32,
        HdpResult::Internal => -6i32,
        HdpResult::Checksum => -7i32,
        HdpResult::OutOfMem => -8i32,
    }
}

/// The error that each negative status code names.
pub open spec fn named_error(r: HdpResult) -> Error {
    match r {
        HdpResult::Success => Error::Code(0),
        HdpResult::Null => Error::Null,
        HdpResult::Range => Error::Range,
        HdpResult::Capacity => Error::Capacity,
        HdpResult::Invalid => Error::Invalid,
        HdpResult::Io => Error::Io,
        HdpResult::Internal => Error::Internal,
        HdpResult::Checksum => Error::Checksum,
        HdpResult::OutOfMem => Error::OutOfMem,
    }
}

impl HdpResult {
    /// The numeric value of this status code, as the engine writes it.
    pub fn code(self) -> (c: i32)
        ensures
            c == code_value(self),
    {
        match self {
            HdpResult::Success => 0,
            HdpResult::Null => -1,
            HdpResult::Range => -2,
            HdpResult::Capacity => -3,
            HdpResult::Invalid => -4,
            HdpResult::Io => -5,
            HdpResult::Internal => -6,
            HdpResult::Checksum => -7,
            HdpResult::OutOfMem => -8,
        }
    }
}

/// The low 32 bits of a status word, read as a signed 32-bit value.
pub open spec fn low_word(code: i64) -> i32 {
    code as i32
}

/// The error that a negative status word stands for: the named error when
/// its low 32 bits are the value of one of the error codes, otherwise the
/// whole word kept in `Error::Code`.
pub open spec fn error_of(code: i64) -> Error {
    let x = low_word(code);
    if x == -1 {
        Error::Null
    } else if x == -2 {
        Error::Range
    } else if x == -3 {
        Error::Capacity
    } else if x == -4 {
        Error::Invalid
    } else if x == -5 {
        Error::Io
    } else if x == -6 {
        Error::Internal
    } else if x == -7 {
        Error::Checksum
    } else if x == -8 {
        Error::OutOfMem
    } else {
        Error::Code(code)
    }
}

/// A status word read as a result: the byte count itself when it is not
/// negative, otherwise the error it stands for.
pub open spec fn status_of(code: i64) -> Result<i64, Error> {
    if code >= 0 {
        Ok(code)
    } else {
        Err(error_of(code))
    }
}

/// A 32-bit status word read as a result without a value.
pub open spec fn unit_of(code: i32) -> Result<(), Error> {
    match status_of(code as i64) {
        Ok(_) => Ok(()),
        Err(e) => Err(e),
    }
}

/// Map a status word (negative code or non-negative byte count) into a result.
pub fn status(code: i64) -> (r: Result<i64, Error>)
    ensures
        r == status_of(code),
{
    if code >= 0 {
        Ok(code)
    } else {
        let x: i32 = #[verifier::truncate] (code as i32);
        let e = if x == HdpResult::Null.code() {
            Error::Null
        } else if x == HdpResult::Range.code() {
            Error::Range
        } else if x == HdpResult::Capacity.code() {
            Error::Capacity
        } else if x == HdpResult::Invalid.code() {
            Error::Invalid
        } else if x == HdpResult::Io.code() {
            Error::Io
        } else if x == HdpResult::Internal.code() {
            Error::Internal
        } else if x == HdpResult::Checksum.code() {
            Error::Checksum
        } else if x == HdpResult::OutOfMem.code() {
            Error::OutOfMem
        } else {
            Error::Code(code)
        };
        Err(e)
    }
}

/// Map a 32-bit status word into a result without a value.
pub fn unit(code: i32) -> (r: Result<(), Error>)
    ensures
        r == unit_of(code),
{
    match status(code as i64) {
        Ok(_) => Ok(()),
        Err(e) => Err(e),
    }
}

/// Each error code of the engine, written as a status word of either width,
/// reads back as the error that it names.
pub proof fn lemma_codes_name_errors(r: HdpResult)
    requires
        r != HdpResult::Success,
    ensures
        status_of(code_value(r) as i64) == Err::<i64, Error>(named_error(r)),
        unit_of(code_value(r)) == Err::<(), Error>(named_error(r)),
{
}

/// Distinct error codes have distinct values and name distinct errors.
pub proof fn lemma_codes_distinct(a: HdpResult, b: HdpResult)
    requires
        a != b,
    ensures
        code_value(a) != code_value(b),
        a != HdpResult::Success && b != HdpResult::Success ==> named_error(a) != named_error(b),
{
}

/// Only the low 32 bits of a word decide which code it is: the low word is
/// the word's remainder modulo 2^32, read as a signed 32-bit value.
pub proof fn lemma_low_word_is_low_32_bits(code: i64)
    ensures
        low_word(code) as int == if (code as int) % 0x1_0000_0000 >= 0x8000_0000 {
            (code as int) % 0x1_0000_0000 - 0x1_0000_0000
        } else {
            (code as int) % 0x1_0000_0000
        },
{
    let m: i64 = code & 0xffff_ffffi64;
    assert(((code as i32) as int) == (if m >= 0x8000_0000i64 {
        m - 0x1_0000_0000int
    } else {
        m as int
    })) by (bit_vector)
        requires
            m == code & 0xffff_ffffi64,
    ;
    assert(m as int == (code as int) % 0x1_0000_0000) by (bit_vector)
        requires
            m == code & 0xffff_ffffi64,
    ;
}

/// A negative status word is the error that its low 32 bits name: the
/// remainder of the word modulo 2^32 is the code plus 2^32. A word whose
/// remainder names no code comes back whole.
pub proof fn lemma_negative_words(code: i64)
    requires
        code < 0,
    ensures
        (code as int) % 0x1_0000_0000 == 0xffff_ffff ==> status_of(code) == Err::<i64, Error>(Error::Null),
        (code as int) % 0x1_0000_0000 == 0xffff_fffe ==> status_of(code) == Err::<i64, Error>(Error::Range),
        (code as int) % 0x1_0000_0000 == 0xffff_fffd ==> status_of(code) == Err::<i64, Error>(Error::Capacity),
        (code as int) % 0x1_0000_0000 == 0xffff_fffc ==> status_of(code) == Err::<i64, Error>(Error::Invalid),
        (code as int) % 0x1_0000_0000 == 0xffff_fffb ==> status_of(code) == Err::<i64, Error>(Error::Io),
        (code as int) % 0x1_0000_0000 == 0xffff_fffa ==> status_of(code) == Err::<i64, Error>(Error::Internal),
        (code as int) % 0x1_0000_0000 == 0xffff_fff9 ==> status_of(code) == Err::<i64, Error>(Error::Checksum),
        (code as int) % 0x1_0000_0000 == 0xffff_fff8 ==> status_of(code) == Err::<i64, Error>(Error::OutOfMem),
        (code as int) % 0x1_0000_0000 < 0xffff_fff8 ==> status_of(code) == Err::<i64, Error>(Error::Code(code)),
{
    lemma_low_word_is_low_32_bits(code);
}

/// A 32-bit status word: not negative is success, -1 to -8 are the named
/// errors, and any other negative word comes back whole.
pub proof fn lemma_unit_words(code: i32)
    ensures
        code >= 0 ==> unit_of(code) == Ok::<(), Error>(()),
        code == -1 ==> unit_of(code) == Err::<(), Error>(Error::Null),
        code == -2 ==> unit_of(code) == Err::<(), Error>(Error::Range),
        code == -3 ==> unit_of(code) == Err::<(), Error>(Error::Capacity),
        code == -4 ==> unit_of(code) == Err::<(), Error>(Error::Invalid),
        code == -5 ==> unit_of(code) == Err::<(), Error>(Error::Io),
        code == -6 ==> unit_of(code) == Err::<(), Error>(Error::Internal),
        code == -7 ==> unit_of(code) == Err::<(), Error>(Error::Checksum),
        code == -8 ==> unit_of(code) == Err::<(), Error>(Error::OutOfMem),
        code < -8 ==> unit_of(code) == Err::<(), Error>(Error::Code(code as i64)),
{
    if code < 0 {
        lemma_negative_words(code as i64);
    }
}

/// A status word succeeds exactly when it is not negative, and then it is
/// its own byte count.
pub proof fn lemma_status_succeeds_iff_not_negative(code: i64)
    ensures
        status_of(code) is Ok <==> code >= 0,
        code >= 0 ==> status_of(code) == Ok::<i64, Error>(code),
{
}

/// A negative 32-bit status word that is not one of the error codes comes
/// back whole, as `Error::Code`.
pub proof fn lemma_unknown_codes_kept(code: i32)
    requires
        code < -8,
    ensures
        unit_of(code) == Err::<(), Error>(Error::Code(code as i64)),
{
}

} // verus!
