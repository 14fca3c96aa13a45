//! Money as text: amounts are kept in minor units (cents) and written with
//! two decimal places.

use crate::text::all_digits;
use crate::text::digit_char;
use crate::text::digit_str;
use crate::text::digit_value;
use crate::text::digits_value;
use crate::text::find_char;
use crate::text::first_index;
use crate::text::is_digit;
use crate::text::lemma_first_index;
use crate::text::lemma_first_index_bounds;
use crate::text::lemma_nat_text_reads_back;
use crate::text::nat_text;
use crate::text::push_nat;
use crate::text::range_all_digits;
use crate::text::read_digits;
use crate::text::str_chars;
use crate::text::trim_str;
use crate::text::trimmed;
use vstd::prelude::*;
use vstd::string::StringExecFns;

verus! {

/// Why a text is not an amount of money.
#[derive(Debug, Clone, Copy, PartialEq, Eq, Structural)]
pub enum MoneyError {
    /// The text is not digits, optionally followed by a point and one or
    /// two digits.
    InvalidFormat,
    /// The amount in cents does not fit in an `i64`.
    OutOfRange,
}

impl MoneyError {
    pub open spec fn message_text(self) -> Seq<char> {
        match self {
            MoneyError::InvalidFormat => "amount must match 0.00 format"@,
            MoneyError::OutOfRange => "amount exceeds supported range"@,
        }
    }

    /// The sentence shown to the user for this error.
    pub fn message(&self) -> (r: String)
        ensures
            r@ == self.message_text(),
    {
        match self {
            MoneyError::InvalidFormat => String::from_str("amount must match 0.00 format"),
            MoneyError::OutOfRange => String::from_str("amount exceeds supported range"),
        }
    }
}

/// The whole-units part of a price text: what stands before the first
/// point.
pub open spec fn price_major(t: Seq<char>) -> Seq<char> {
    t.subrange(0, first_index(t, '.'))
}

/// The fractional part of a price text: what stands after the first point,
/// empty where there is no point.
pub open spec fn price_fraction(t: Seq<char>) -> Seq<char> {
    if first_index(t, '.') < t.len() {
        t.subrange(first_index(t, '.') + 1, t.len() as int)
    } else {
        Seq::empty()
    }
}

/// Whether `t` is one or more digits, optionally followed by a point and
/// one or two digits.
pub open spec fn is_price(t: Seq<char>) -> bool {
    &&& price_major(t).len() > 0
    &&& all_digits(price_major(t))
    &&& all_digits(price_fraction(t))
    &&& first_index(t, '.') < t.len() ==> 1 <= price_fraction(t).len() <= 2
}

/// The cents that a fractional part stands for; a single digit counts
/// tenths.
pub open spec fn fraction_cents(f: Seq<char>) -> int {
    if f.len() == 0 {
        0
    } else if f.len() == 1 {
        digit_value(f[0]) * 10
    } else {
        digit_value(f[0]) * 10 + digit_value(f[1])
    }
}

/// The amount in cents that a price text stands for.
pub open spec fn price_cents(t: Seq<char>) -> int {
    digits_value(price_major(t)) * 100 + fraction_cents(price_fraction(t))
}

/// What a trimmed text means as money.
pub open spec fn money_of_text(t: Seq<char>) -> Result<i64, MoneyError> {
    if !is_price(t) {
        Err(MoneyError::InvalidFormat)
    } else if price_cents(t) > i64::MAX {
        Err(MoneyError::OutOfRange)
    } else {
        Ok(price_cents(t) as i64)
    }
}

/// Reads an amount of money from a text that has been trimmed already.
pub fn parse_trimmed_money(text: &str) -> (r: Result<i64, MoneyError>)
    ensures
        r == money_of_text(text@),
{
    let t = str_chars(text);
    let n = t.len();
    let dot = find_char(&t, 0, '.');
    proof {
        assert(t@.subrange(0, n as int) == t@);
        lemma_first_index_bounds(t@, '.');
    }
    if dot == 0 || !range_all_digits(&t, 0, dot) {
        return Err(MoneyError::InvalidFormat);
    }
    let mut minor: u64 = 0;
    if dot < n {
        let width = n - dot - 1;
        if width < 1 || width > 2 || !range_all_digits(&t, dot + 1, n) {
            return Err(MoneyError::InvalidFormat);
        }
        let ghost f = price_fraction(t@);
        assert(is_digit(f[0]));
        minor = (t[dot + 1] as u32 - 0x30) as u64 * 10;
        if width == 2 {
            assert(is_digit(f[1]));
            minor = minor + (t[dot + 2] as u32 - 0x30) as u64;
        }
    }
    assert(is_price(t@));
    assert(minor == fraction_cents(price_fraction(t@)));
    match read_digits(&t, 0, dot, 92233720368547758) {
        None => Err(MoneyError::OutOfRange),
        Some(major) => {
            let cents: u64 = major * 100 + minor;
            if cents > 0x7fff_ffff_ffff_ffff {
                Err(MoneyError::OutOfRange)
            } else {
                Ok(cents as i64)
            }
        },
    }
}

/// Reads an amount of money, in cents, from a text such as `10`, `10.5` or
/// `10.55`; white space around it is ignored.
pub fn parse_money_to_cents(input: &str) -> (r: Result<i64, MoneyError>)
    ensures
        r == money_of_text(trimmed(input@)),
{
    parse_trimmed_money(trim_str(input))
}

/// An amount of cents as a number with two decimal places, with a minus
/// sign where it is negative.
pub open spec fn amount_text(amount: int) -> Seq<char> {
    let m = if amount < 0 {
        -amount
    } else {
        amount
    };
    (if amount < 0 {
        seq!['-']
    } else {
        Seq::empty()
    }) + nat_text((m / 100) as nat) + seq!['.', digit_char(m / 10 % 10), digit_char(m % 10)]
}

/// An amount of cents as text: the currency label, then the amount with
/// two decimal places.
pub open spec fn cents_text(amount: int) -> Seq<char> {
    "AED "@ + amount_text(amount)
}

/// Every amount that fits, written with two decimal places, reads back as
/// itself; and whatever reads as money is not negative.
pub proof fn law_written_amounts_read_back(cents: i64, text: Seq<char>)
    requires
        cents >= 0,
    ensures
        money_of_text(amount_text(cents as int)) == Ok::<i64, MoneyError>(cents),
        money_of_text(text) matches Ok(value) ==> value >= 0,
{
    let c = cents as int;
    let whole = nat_text((c / 100) as nat);
    let tens = digit_char(c / 10 % 10);
    let ones = digit_char(c % 10);
    let t = amount_text(c);
    lemma_nat_text_reads_back((c / 100) as nat);
    assert(t =~= whole + seq!['.', tens, ones]);
    assert(t.len() == whole.len() + 3);
    assert forall|j: int| 0 <= j < whole.len() implies t[j] != '.' by {
        assert(t[j] == whole[j]);
        assert(is_digit(whole[j]));
    }
    assert(t[whole.len() as int] == '.');
    lemma_first_index(t, '.', whole.len() as int);
    assert(price_major(t) =~= whole);
    assert(price_fraction(t) =~= seq![tens, ones]);
    assert(is_digit(tens) && is_digit(ones));
    assert(digit_value(tens) == c / 10 % 10);
    assert(digit_value(ones) == c % 10);
    assert(c == (c / 100) * 100 + (c / 10 % 10) * 10 + c % 10);
    assert(is_price(t));
    assert(price_cents(t) == c);
}

/// Appends an amount of cents as text.
pub fn push_cents(out: &mut String, amount: i64)
    ensures
        final(out)@ == old(out)@ + cents_text(amount as int),
{
    let m: u64 = if amount == i64::MIN {
        0x8000_0000_0000_0000
    } else if amount < 0 {
        (-amount) as u64
    } else {
        amount as u64
    };
    proof {
        reveal_strlit("-");
        reveal_strlit(".");
    }
    out.append("AED ");
    if amount < 0 {
        out.append("-");
    }
    push_nat(out, m / 100);
    out.append(".");
    out.append(digit_str(m / 10 % 10));
    out.append(digit_str(m % 10));
    assert(out@ =~= old(out)@ + cents_text(amount as int));
}

/// Writes an amount of cents with its currency label and two decimal
/// places.
pub fn format_cents(amount: i64) -> (r: String)
    ensures
        r@ == cents_text(amount as int),
{
    let mut out = String::new();
    push_cents(&mut out, amount);
    assert(out@ =~= cents_text(amount as int));
    out
}

} // verus!
