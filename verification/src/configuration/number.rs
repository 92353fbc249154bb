//! Decimal numbers as text: how an integer is written, and how the text of
//! an unsigned integer is read.

use crate::utils::char_iterator::chars_of;
use vstd::prelude::*;

verus! {

/// The character that writes the digit `d`.
pub open spec fn digit_char(d: nat) -> char {
    if d == 0 {
        '0'
    } else if d == 1 {
        '1'
    } else if d == 2 {
        '2'
    } else if d == 3 {
        '3'
    } else if d == 4 {
        '4'
    } else if d == 5 {
        '5'
    } else if d == 6 {
        '6'
    } else if d == 7 {
        '7'
    } else if d == 8 {
        '8'
    } else {
        '9'
    }
}

/// The digit that `c` writes, if it writes one.
pub open spec fn digit_of(c: char) -> Option<nat> {
    if '0' <= c <= '9' {
        Some((c as nat - '0' as nat) as nat)
    } else {
        None
    }
}

/// The digits of `n`, without a sign and without leading zeros.
pub open spec fn natural_text(n: nat) -> Seq<char>
    decreases n,
{
    if n < 10 {
        seq![digit_char(n)]
    } else {
        natural_text(n / 10).push(digit_char(n % 10))
    }
}

/// `n` as decimal text: a minus sign where it is negative, then its digits.
pub open spec fn decimal_text(n: int) -> Seq<char> {
    if n < 0 {
        seq!['-'] + natural_text((-n) as nat)
    } else {
        natural_text(n as nat)
    }
}

/// Why a text is not an unsigned number.
#[derive(Clone, Copy, PartialEq, Eq, Debug, Structural)]
pub enum NumberError {
    /// The text is empty.
    Empty,
    /// A character is no digit, or a sign stands alone.
    InvalidDigit,
    /// The number is above the largest that is accepted.
    TooLarge,
}

impl NumberError {
    /// The words that describe the error.
    pub open spec fn words(self) -> Seq<char> {
        match self {
            NumberError::Empty => "cannot parse integer from empty string"@,
            NumberError::InvalidDigit => "invalid digit found in string"@,
            NumberError::TooLarge => "number too large to fit in target type"@,
        }
    }

    /// The words that describe the error.
    pub fn message(self) -> (r: &'static str)
        ensures
            r@ == self.words(),
    {
        match self {
            NumberError::Empty => "cannot parse integer from empty string",
            NumberError::InvalidDigit => "invalid digit found in string",
            NumberError::TooLarge => "number too large to fit in target type",
        }
    }
}

/// The number that the digits `digits` write, read from the left. The first
/// character that is no digit, or with which the number passes `max`, decides
/// the error.
pub open spec fn digits_number(digits: Seq<char>, max: nat) -> Result<nat, NumberError>
    decreases digits.len(),
{
    if digits.len() == 0 {
        Ok(0)
    } else {
        match digits_number(digits.drop_last(), max) {
            Err(e) => Err(e),
            Ok(n) => match digit_of(digits.last()) {
                None => Err(NumberError::InvalidDigit),
                Some(d) => if n * 10 + d > max {
                    Err(NumberError::TooLarge)
                } else {
                    Ok(n * 10 + d)
                },
            },
        }
    }
}

/// The unsigned number, at most `max`, that `text` writes: digits, with an
/// optional plus sign before them.
pub open spec fn text_number(text: Seq<char>, max: nat) -> Result<nat, NumberError> {
    if text.len() == 0 {
        Err(NumberError::Empty)
    } else if text.len() == 1 && (text[0] == '+' || text[0] == '-') {
        Err(NumberError::InvalidDigit)
    } else if text[0] == '+' {
        digits_number(text.skip(1), max)
    } else {
        digits_number(text, max)
    }
}

/// An error in the digits read so far stays the error of the whole.
pub proof fn lemma_digits_error_stays(digits: Seq<char>, n: int, max: nat)
    requires
        0 <= n <= digits.len(),
        digits_number(digits.take(n), max) is Err,
    ensures
        digits_number(digits, max) == digits_number(digits.take(n), max),
    decreases digits.len() - n,
{
    if n < digits.len() {
        assert(digits.take(n + 1).drop_last() =~= digits.take(n));
        lemma_digits_error_stays(digits, n + 1, max);
    } else {
        assert(digits.take(n) =~= digits);
    }
}

/// Reading the digits of a number gives the number back.
pub proof fn lemma_natural_text_reads_back(n: nat, max: nat)
    requires
        n <= max,
    ensures
        digits_number(natural_text(n), max) == Ok::<nat, NumberError>(n),
        natural_text(n).len() >= 1,
        digit_of(natural_text(n)[0]) is Some,
    decreases n,
{
    if n < 10 {
        assert(natural_text(n).drop_last() =~= Seq::<char>::empty());
        assert(digits_number(Seq::<char>::empty(), max) == Ok::<nat, NumberError>(0));
    } else {
        lemma_natural_text_reads_back(n / 10, max);
        assert(natural_text(n).drop_last() =~= natural_text(n / 10));
    }
}

/// The text of a number that is not negative reads back as that number; the
/// text of a negative number is no unsigned number, for its sign.
pub proof fn lemma_decimal_text_reads_back(n: int, max: nat)
    ensures
        0 <= n <= max ==> text_number(decimal_text(n), max) == Ok::<nat, NumberError>(n as nat),
        n < 0 ==> text_number(decimal_text(n), max) == Err::<nat, NumberError>(
            NumberError::InvalidDigit,
        ),
        n > max ==> text_number(decimal_text(n), max) == Err::<nat, NumberError>(
            NumberError::TooLarge,
        ),
{
    if n < 0 {
        let text = decimal_text(n);
        lemma_natural_text_reads_back((-n) as nat, (-n) as nat);
        assert(text.len() >= 2);
        assert(text.take(1) =~= seq!['-']);
        assert(text.take(1).drop_last() =~= Seq::<char>::empty());
        assert(digits_number(Seq::<char>::empty(), max) == Ok::<nat, NumberError>(0));
        assert(digits_number(text.take(1), max) == Err::<nat, NumberError>(
            NumberError::InvalidDigit,
        ));
        lemma_digits_error_stays(text, 1, max);
    } else if n <= max {
        lemma_natural_text_reads_back(n as nat, max);
    } else {
        lemma_natural_text_too_large(n as nat, max);
        lemma_natural_text_reads_back(n as nat, n as nat);
    }
}

/// The digits of a number above `max` read as too large.
pub proof fn lemma_natural_text_too_large(n: nat, max: nat)
    requires
        n > max,
    ensures
        digits_number(natural_text(n), max) == Err::<nat, NumberError>(NumberError::TooLarge),
    decreases n,
{
    if n < 10 {
        assert(natural_text(n).drop_last() =~= Seq::<char>::empty());
        assert(digits_number(Seq::<char>::empty(), max) == Ok::<nat, NumberError>(0));
    } else {
        assert(natural_text(n).drop_last() =~= natural_text(n / 10));
        if n / 10 > max {
            lemma_natural_text_too_large(n / 10, max);
        } else {
            lemma_natural_text_reads_back(n / 10, max);
        }
    }
}

/// Reads `text` as an unsigned number that is at most `max`.
pub fn parse_number(text: &str, max: u32) -> (r: Result<u32, NumberError>)
    ensures
        match r {
            Ok(n) => text_number(text@, max as nat) == Ok::<nat, NumberError>(n as nat),
            Err(e) => text_number(text@, max as nat) == Err::<nat, NumberError>(e),
        },
{
    let chars = chars_of(text);
    if chars.len() == 0 {
        return Err(NumberError::Empty);
    }
    if chars.len() == 1 && (chars[0] == '+' || chars[0] == '-') {
        return Err(NumberError::InvalidDigit);
    }
    let start: usize = if chars[0] == '+' {
        1
    } else {
        0
    };
    let ghost digits = chars@.skip(start as int);
    let mut number: u32 = 0;
    let mut i: usize = start;
    proof {
        assert(digits.take(0) =~= Seq::<char>::empty());
    }
    while i < chars.len()
        invariant
            start <= i <= chars.len(),
            chars@ == text@,
            chars.len() > 0,
            !(chars.len() == 1 && (chars[0] == '+' || chars[0] == '-')),
            start == if chars[0] == '+' { 1usize } else { 0usize },
            digits == chars@.skip(start as int),
            number <= max,
            digits_number(digits.take(i - start), max as nat) == Ok::<nat, NumberError>(
                number as nat,
            ),
        decreases chars.len() - i,
    {
        let c = chars[i];
        proof {
            assert(digits.take(i - start + 1).drop_last() =~= digits.take(i - start));
            assert(digits.take(i - start + 1).last() == c);
        }
        if c < '0' || c > '9' {
            proof {
                lemma_digits_error_stays(digits, i - start + 1, max as nat);
                assert(chars@.skip(0) =~= chars@);
            }
            return Err(NumberError::InvalidDigit);
        }
        let d: u64 = (c as u64) - ('0' as u64);
        let next: u64 = (number as u64) * 10 + d;
        if next > max as u64 {
            proof {
                lemma_digits_error_stays(digits, i - start + 1, max as nat);
                assert(chars@.skip(0) =~= chars@);
            }
            return Err(NumberError::TooLarge);
        }
        number = next as u32;
        i = i + 1;
    }
    proof {
        assert(digits.take(i - start) =~= digits);
        assert(chars@.skip(0) =~= chars@);
    }
    Ok(number)
}

} // verus!
