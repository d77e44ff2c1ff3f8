//! Human-readable messages for the library's errors.
use vstd::prelude::*;

use crate::status::Error;

verus! {

/// The character of a decimal digit.
pub open spec fn digit_char(d: nat) -> char {
    if d == 0 {
        '0'
    } else if d == 1 {
        '1'
    } else if d == 2 {
        '2'
    } else if d == 3 {
        '3'
    } else if d == 4 {
        '4'
    } else if d == 5 {
        '5'
    } else if d == 6 {
        '6'
    } else if d == 7 {
        '7'
    } else if d == 8 {
        '8'
    } else {
        '9'
    }
}

/// The decimal digits of a natural number, most significant first, with no
/// leading zeros (zero itself is written `0`).
pub open spec fn decimal_digits(n: nat) -> Seq<char>
    decreases n,
{
    if n < 10 {
        seq![digit_char(n)]
    } else {
        decimal_digits(n / 10).push(digit_char(n % 10))
    }
}

/// An integer written in decimal, with a leading `-` when it is negative.
pub open spec fn decimal(c: int) -> Seq<char> {
    if c < 0 {
        seq!['-'] + decimal_digits((-c) as nat)
    } else {
        decimal_digits(c as nat)
    }
}

/// The value of a decimal digit character.
pub open spec fn digit_value(c: char) -> int {
    (c as int) - ('0' as int)
}

/// The number that a string of decimal digits denotes, most significant first.
pub open spec fn digits_value(s: Seq<char>) -> int
    decreases s.len(),
{
    if s.len() == 0 {
        0
    } else {
        digits_value(s.drop_last()) * 10 + digit_value(s.last())
    }
}

/// Each digit character stands for its digit.
pub proof fn lemma_digit_char_value(d: nat)
    requires
        d < 10,
    ensures
        digit_value(digit_char(d)) == d,
        '0' <= digit_char(d) <= '9',
{
}

/// Writing a natural number in decimal uses only the characters `0` to `9`,
/// has no leading zero, and reads back as the number.
pub proof fn lemma_decimal_digits_read_back(n: nat)
    ensures
        decimal_digits(n).len() >= 1,
        forall|i: int|
            0 <= i < decimal_digits(n).len() ==> '0' <= #[trigger] decimal_digits(n)[i] <= '9',
        n > 0 ==> decimal_digits(n)[0] != '0',
        n == 0 ==> decimal_digits(n) == seq!['0'],
        digits_value(decimal_digits(n)) == n,
    decreases n,
{
    lemma_digit_char_value(n % 10);
    let ds = decimal_digits(n);
    if n >= 10 {
        lemma_decimal_digits_read_back(n / 10);
        let prev = decimal_digits(n / 10);
        assert(ds.drop_last() =~= prev);
        assert(ds.last() == digit_char(n % 10));
        assert(digits_value(ds) == digits_value(prev) * 10 + digit_value(digit_char(n % 10)));
        assert((n / 10) * 10 + n % 10 == n) by (nonlinear_arith);
        assert(ds[0] == prev[0]);
    } else {
        lemma_digit_char_value(n);
        assert(ds.drop_last() =~= Seq::<char>::empty());
        assert(digits_value(Seq::<char>::empty()) == 0);
        assert(digits_value(ds) == digit_value(digit_char(n)));
    }
}

/// An integer written in decimal is a `-` for a negative number followed by
/// the digits of its magnitude, which read back as that magnitude.
pub proof fn lemma_decimal_reads_back(c: int)
    ensures
        c < 0 ==> decimal(c)[0] == '-' && digits_value(decimal(c).drop_first()) == -c,
        c >= 0 ==> digits_value(decimal(c)) == c,
        c < 0 ==> forall|i: int| 1 <= i < decimal(c).len() ==> '0' <= #[trigger] decimal(c)[i] <= '9',
        c >= 0 ==> forall|i: int| 0 <= i < decimal(c).len() ==> '0' <= #[trigger] decimal(c)[i] <= '9',
{
    if c < 0 {
        lemma_decimal_digits_read_back((-c) as nat);
        assert(decimal(c).drop_first() =~= decimal_digits((-c) as nat));
        assert forall|i: int| 1 <= i < decimal(c).len() implies '0' <= #[trigger] decimal(c)[i] <= '9' by {
            assert(decimal(c)[i] == decimal_digits((-c) as nat)[i - 1]);
        }
    } else {
        lemma_decimal_digits_read_back(c as nat);
    }
}

/// The message of each error.
pub open spec fn message_of(e: Error) -> Seq<char> {
    match e {
        Error::Null => "null argument"@,
        Error::Range => "argument out of range"@,
        Error::Capacity => "output buffer too small"@,
        Error::Invalid => "invalid diff data"@,
        Error::Io => "I/O failure"@,
        Error::Internal => "internal HDiffPatch failure"@,
        Error::Checksum => "checksum mismatch"@,
        Error::OutOfMem => "out of memory"@,
        Error::Code(c) => "hdiffpatch error code "@ + decimal(c as int),
    }
}

/// The one-character string of a decimal digit.
fn digit_str(d: u64) -> (s: &'static str)
    requires
        d < 10,
    ensures
        s@ == seq![digit_char(d as nat)],
{
    if d == 0 {
        proof { reveal_strlit("0"); }
        "0"
    } else if d == 1 {
        proof { reveal_strlit("1"); }
        "1"
    } else if d == 2 {
        proof { reveal_strlit("2"); }
        "2"
    } else if d == 3 {
        proof { reveal_strlit("3"); }
        "3"
    } else if d == 4 {
        proof { reveal_strlit("4"); }
        "4"
    } else if d == 5 {
        proof { reveal_strlit("5"); }
        "5"
    } else if d == 6 {
        proof { reveal_strlit("6"); }
        "6"
    } else if d == 7 {
        proof { reveal_strlit("7"); }
        "7"
    } else if d == 8 {
        proof { reveal_strlit("8"); }
        "8"
    } else {
        proof { reveal_strlit("9"); }
        "9"
    }
}

/// Appends the decimal digits of `n` to `s`.
fn append_digits(s: &mut String, n: u64)
    ensures
        final(s)@ == old(s)@ + decimal_digits(n as nat),
    decreases n,
{
    if n >= 10 {
        append_digits(s, n / 10);
    }
    s.append(digit_str(n % 10));
}

/// Writes an integer in decimal.
pub fn decimal_string(c: i64) -> (s: String)
    ensures
        s@ == decimal(c as int),
{
    if c < 0 {
        proof { reveal_strlit("-"); }
        let mut s = String::from_str("-");
        let magnitude: u64 = if c == i64::MIN {
            9223372036854775808u64
        } else {
            (-c) as u64
        };
        append_digits(&mut s, magnitude);
        s
    } else {
        let mut s = String::new();
        append_digits(&mut s, c as u64);
        s
    }
}

impl Error {
    /// The message that describes this error.
    pub fn message(&self) -> (m: String)
        ensures
            m@ == message_of(*self),
    {
        match self {
            Error::Null => String::from_str("null argument"),
            Error::Range => String::from_str("argument out of range"),
            Error::Capacity => String::from_str("output buffer too small"),
            Error::Invalid => String::from_str("invalid diff data"),
            Error::Io => String::from_str("I/O failure"),
            Error::Internal => String::from_str("internal HDiffPatch failure"),
            Error::Checksum => String::from_str("checksum mismatch"),
            Error::OutOfMem => String::from_str("out of memory"),
            Error::Code(c) => {
                let mut m = String::from_str("hdiffpatch error code ");
                let digits = decimal_string(*c);
                m.append(digits.as_str());
                m
            },
        }
    }
}

} // verus!
