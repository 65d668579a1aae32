//! How many bytes each pass writes: the size given on the command line, with
//! an optional binary suffix, or the length of the file itself.

use vstd::prelude::*;
use vstd::string::StrSliceExecFns;

verus! {

/// Why a size text was rejected.
#[derive(Clone, Copy, Debug, PartialEq, Eq, Structural)]
pub enum SizeError {
    /// The number is missing or holds something that is no decimal digit.
    InvalidNumber,
    /// The text ends in a character that is neither a digit nor one of
    /// `k`, `m`, `g` in either case.
    UnknownSuffix,
    /// The size does not fit in 64 bits.
    TooLarge,
}

/// `c` is one of the ten decimal digits.
pub open spec fn is_digit(c: char) -> bool {
    '0' <= c <= '9'
}

/// The number that the digit `c` stands for.
pub open spec fn digit_value(c: char) -> nat
    recommends
        is_digit(c),
{
    (c as int - '0' as int) as nat
}

/// Every character of `s` is a decimal digit.
pub open spec fn all_digits(s: Seq<char>) -> bool {
    forall|i: int| 0 <= i < s.len() ==> is_digit(#[trigger] s[i])
}

/// The number written by the digits of `s`, most significant first; 0 for
/// the empty text.
pub open spec fn decimal_value(s: Seq<char>) -> nat
    recommends
        all_digits(s),
    decreases s.len(),
{
    if s.len() == 0 {
        0
    } else {
        decimal_value(s.drop_last()) * 10 + digit_value(s.last())
    }
}

/// The factor that a size suffix stands for: 1024 for `k`, 1024² for `m`,
/// 1024³ for `g`, in either case; `None` for any other character.
pub open spec fn suffix_multiplier(c: char) -> Option<nat> {
    if c == 'k' || c == 'K' {
        Some(1024nat)
    } else if c == 'm' || c == 'M' {
        Some(1_048_576nat)
    } else if c == 'g' || c == 'G' {
        Some(1_073_741_824nat)
    } else {
        None
    }
}

/// What a run of digits is worth as a 64-bit number.
pub open spec fn number_of(s: Seq<char>) -> Result<u64, SizeError> {
    if s.len() == 0 || !all_digits(s) {
        Err(SizeError::InvalidNumber)
    } else if decimal_value(s) > u64::MAX {
        Err(SizeError::TooLarge)
    } else {
        Ok(decimal_value(s) as u64)
    }
}

/// What a size text is worth in bytes: a decimal number, optionally followed
/// by one suffix character that multiplies it.
///
/// The number is judged first, then the suffix, then the product.
pub open spec fn size_of_text(s: Seq<char>) -> Result<u64, SizeError> {
    if s.len() == 0 {
        Err(SizeError::InvalidNumber)
    } else if is_digit(s.last()) {
        number_of(s)
    } else {
        match number_of(s.drop_last()) {
            Err(e) => Err(e),
            Ok(n) => match suffix_multiplier(s.last()) {
                None => Err(SizeError::UnknownSuffix),
                Some(m) => if n * m > u64::MAX {
                    Err(SizeError::TooLarge)
                } else {
                    Ok((n * m) as u64)
                },
            },
        }
    }
}

fn digit_of(c: char) -> (d: Option<u64>)
    ensures
        d is Some <==> is_digit(c),
        d matches Some(v) ==> v == digit_value(c),
{
    if '0' <= c && c <= '9' {
        Some((c as u32 - '0' as u32) as u64)
    } else {
        None
    }
}

/// Appending a digit to a run of digits never makes its value smaller.
proof fn lemma_decimal_value_push(s: Seq<char>, c: char)
    requires
        is_digit(c),
    ensures
        decimal_value(s.push(c)) == decimal_value(s) * 10 + digit_value(c),
        decimal_value(s.push(c)) >= decimal_value(s),
{
    assert(s.push(c).drop_last() =~= s);
    assert(s.push(c).last() == c);
}

/// Reads a run of decimal digits as a 64-bit number.
fn parse_number(text: &str) -> (r: Result<u64, SizeError>)
    ensures
        r == number_of(text@),
{
    let mut value: u64 = 0;
    let mut fits = true;
    let mut valid = true;
    let mut seen = false;
    for c in it: text.chars()
        invariant
            it.seq() == text@,
            seen == (it.index() > 0),
            valid == all_digits(text@.take(it.index() as int)),
            valid && fits ==> value == decimal_value(text@.take(it.index() as int)),
            valid && !fits ==> decimal_value(text@.take(it.index() as int)) > u64::MAX,
    {
        let ghost before = text@.take(it.index() as int);
        proof {
            assert(text@.take(it.index() + 1) =~= before.push(c));
            if is_digit(c) {
                lemma_decimal_value_push(before, c);
            }
        }
        seen = true;
        match digit_of(c) {
            None => {
                valid = false;
            },
            Some(d) => {
                if valid && fits {
                    match value.checked_mul(10) {
                        None => {
                            fits = false;
                        },
                        Some(shifted) => match shifted.checked_add(d) {
                            None => {
                                fits = false;
                            },
                            Some(sum) => {
                                value = sum;
                            },
                        },
                    }
                }
            },
        }
    }
    proof {
        assert(text@.take(text@.len() as int) =~= text@);
    }
    if !seen || !valid {
        Err(SizeError::InvalidNumber)
    } else if !fits {
        Err(SizeError::TooLarge)
    } else {
        Ok(value)
    }
}

fn multiplier_of(c: char) -> (m: Option<u64>)
    ensures
        m is Some <==> suffix_multiplier(c) is Some,
        m matches Some(v) ==> v == suffix_multiplier(c)->0,
{
    if c == 'k' || c == 'K' {
        Some(1024)
    } else if c == 'm' || c == 'M' {
        Some(1_048_576)
    } else if c == 'g' || c == 'G' {
        Some(1_073_741_824)
    } else {
        None
    }
}

/// Parses a size: a decimal number that one of `k`, `m`, `g` (in either
/// case) may follow, multiplying it by 1024, 1024² or 1024³.
///
/// The text is rejected when the number is missing or holds a character that
/// is no digit, when the last character is neither a digit nor a known
/// suffix, and when the size does not fit in 64 bits.
pub fn parse_size(size_str: &str) -> (r: Result<u64, SizeError>)
    ensures
        r == size_of_text(size_str@),
{
    let len = size_str.unicode_len();
    if len == 0 {
        return Err(SizeError::InvalidNumber);
    }
    let last = size_str.get_char(len - 1);
    if digit_of(last).is_some() {
        return parse_number(size_str);
    }
    let number = size_str.substring_char(0, len - 1);
    assert(number@ =~= size_str@.drop_last());
    match parse_number(number) {
        Err(e) => Err(e),
        Ok(n) => match multiplier_of(last) {
            None => Err(SizeError::UnknownSuffix),
            Some(m) => match n.checked_mul(m) {
                None => Err(SizeError::TooLarge),
                Some(bytes) => Ok(bytes),
            },
        },
    }
}

/// The number of bytes that each pass writes: the size parsed from
/// `size_str` where `size_present` is set, else `file_size`, whatever
/// `size_str` holds.
pub fn get_size_to_write(size_present: bool, size_str: &str, file_size: u64) -> (r: Result<
    u64,
    SizeError,
>)
    ensures
        size_present ==> r == size_of_text(size_str@),
        !size_present ==> r == Ok::<u64, SizeError>(file_size),
{
    if size_present {
        parse_size(size_str)
    } else {
        Ok(file_size)
    }
}

/// A size text is accepted exactly when it is one or more digits, or one or
/// more digits and a known suffix, and the size it writes fits in 64 bits.
/// A character that is no digit anywhere before the last makes the number
/// invalid, and a last character that is neither a digit nor a known suffix
/// is never accepted.
pub proof fn lemma_size_accepted(s: Seq<char>)
    ensures
        size_of_text(s) is Ok <==> {
            ||| s.len() > 0 && all_digits(s) && decimal_value(s) <= u64::MAX
            ||| {
                &&& s.len() > 1
                &&& all_digits(s.drop_last())
                &&& suffix_multiplier(s.last()) matches Some(m)
                &&& decimal_value(s.drop_last()) * m <= u64::MAX
            }
        },
        (exists|i: int| 0 <= i < s.len() - 1 && !is_digit(s[i])) ==> size_of_text(s) == Err::<
            u64,
            SizeError,
        >(SizeError::InvalidNumber),
        s.len() > 0 && !is_digit(s.last()) && suffix_multiplier(s.last()) is None ==> size_of_text(
            s,
        ) is Err,
{
    if s.len() > 0 {
        let number = s.drop_last();
        assert(forall|i: int| 0 <= i < number.len() ==> number[i] == s[i]);
        if is_digit(s.last()) {
            assert(all_digits(s) ==> all_digits(number));
            if all_digits(number) {
                assert(all_digits(s));
            }
        } else {
            assert(!all_digits(s));
            if all_digits(number) && number.len() > 0 {
                if let Some(m) = suffix_multiplier(s.last()) {
                    assert(decimal_value(number) * m >= decimal_value(number)) by (nonlinear_arith)
                        requires
                            m >= 1,
                    ;
                }
            }
        }
    }
}

} // verus!
