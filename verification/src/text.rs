//! Text formatter: renders a bounded-length numeric value into a small ASCII
//! buffer.
//!
//! Three formats are recognised: a plain integer count, a currency amount
//! with a leading dollar sign and exactly two fractional digits, and a
//! measurement with exactly one fractional digit.  Money is carried as whole
//! cents and measurements as whole tenths, so every value is exact.  A value
//! whose text would not fit in the fixed buffer is reported as a recoverable
//! overflow, never a crash.

use vstd::prelude::*;

verus! {

/// Capacity of one field's text buffer, in bytes.
pub const FIELD_CAPACITY: usize = 16;

/// A formatting failure.
#[derive(Clone, Copy, PartialEq, Eq, Structural, Debug)]
pub enum FormatError {
    /// The rendered text would exceed `FIELD_CAPACITY` bytes.
    Overflow,
}

/// The decimal digits of `n`, most significant first, as ASCII bytes.
pub open spec fn dec_digits(n: nat) -> Seq<u8>
    decreases n,
{
    if n < 10 {
        seq![(48 + n) as u8]
    } else {
        dec_digits(n / 10).push((48 + n % 10) as u8)
    }
}

/// The number a sequence of ASCII digits denotes.
pub open spec fn digits_value(s: Seq<u8>) -> int
    decreases s.len(),
{
    if s.len() == 0 {
        0
    } else {
        digits_value(s.drop_last()) * 10 + s.last() - 48
    }
}

/// The currency text for an amount of `cents`: a dollar sign, the whole
/// dollars, a point, and exactly two fractional digits.
pub open spec fn price_text(cents: nat) -> Seq<u8> {
    seq![36u8] + dec_digits(cents / 100)
        + seq![46u8, (48 + (cents % 100) / 10) as u8, (48 + cents % 10) as u8]
}

/// The measurement text for a value of `tenths`: the whole part, a point,
/// and exactly one fractional digit.
pub open spec fn tenths_text(tenths: nat) -> Seq<u8> {
    dec_digits(tenths / 10) + seq![46u8, (48 + tenths % 10) as u8]
}

/// Every byte of `dec_digits(n)` is an ASCII digit.
pub proof fn lemma_dec_digits_are_digits(n: nat)
    ensures
        forall|i: int| 0 <= i < dec_digits(n).len() ==> 48 <= #[trigger] dec_digits(n)[i] <= 57,
    decreases n,
{
    if n < 10 {
        assert(dec_digits(n)[0] == (48 + n) as u8);
    } else {
        lemma_dec_digits_are_digits(n / 10);
        let d = dec_digits(n / 10);
        let c = (48 + n % 10) as u8;
        assert forall|i: int| 0 <= i < dec_digits(n).len()
            implies 48 <= #[trigger] dec_digits(n)[i] <= 57 by {
            if i < d.len() {
                assert(dec_digits(n)[i] == d[i]);
            } else {
                assert(dec_digits(n)[i] == c);
            }
        }
    }
}

/// Formatted counts parse back to the same number: reading the decimal
/// digits of `n` yields `n` again, for every non-negative `n`.
pub proof fn lemma_count_round_trip(n: nat)
    ensures
        digits_value(dec_digits(n)) == n,
    decreases n,
{
    if n < 10 {
        let s = dec_digits(n);
        assert(s.drop_last() =~= Seq::<u8>::empty());
        assert(s.last() == (48 + n) as u8);
        assert(digits_value(s) == digits_value(s.drop_last()) * 10 + s.last() - 48);
    } else {
        lemma_count_round_trip(n / 10);
        let s = dec_digits(n);
        assert(s.drop_last() =~= dec_digits(n / 10));
        assert(s.last() == (48 + n % 10) as u8);
        assert(digits_value(s) == digits_value(dec_digits(n / 10)) * 10 + s.last() - 48);
        vstd::arithmetic::div_mod::lemma_fundamental_div_mod(n as int, 10);
    }
}

/// Shape of every formatted price: a leading dollar sign, then only digits,
/// with a single point followed by exactly two fractional digits at the end.
pub proof fn lemma_price_text_shape(cents: nat)
    ensures
        price_text(cents).len() >= 5,
        price_text(cents)[0] == 36,
        price_text(cents)[price_text(cents).len() - 3] == 46,
        forall|i: int|
            1 <= i < price_text(cents).len() && i != price_text(cents).len() - 3
                ==> 48 <= #[trigger] price_text(cents)[i] <= 57,
{
    lemma_dec_digits_are_digits(cents / 100);
    let t = price_text(cents);
    let d = dec_digits(cents / 100);
    assert forall|i: int|
        1 <= i < t.len() && i != t.len() - 3 implies 48 <= #[trigger] t[i] <= 57 by {
        if i < t.len() - 3 {
            assert(t[i] == d[i - 1]);
        }
    }
}

/// Appends the decimal digits of `n` to `out`.
pub fn push_digits(n: u64, out: &mut Vec<u8>)
    ensures
        final(out)@ == old(out)@ + dec_digits(n as nat),
    decreases n,
{
    if n < 10 {
        out.push(48 + n as u8);
        assert(out@ =~= old(out)@ + dec_digits(n as nat));
    } else {
        push_digits(n / 10, out);
        out.push(48 + (n % 10) as u8);
        assert(out@ =~= old(out)@ + dec_digits(n as nat));
    }
}

/// Formats an integer count.  Succeeds exactly when the digits fit the
/// buffer, and then returns precisely the decimal digits of `n`.
pub fn format_count(n: u64) -> (r: Result<Vec<u8>, FormatError>)
    ensures
        r is Ok <==> dec_digits(n as nat).len() <= FIELD_CAPACITY,
        r matches Ok(t) ==> t@ == dec_digits(n as nat),
        r matches Err(e) ==> e == FormatError::Overflow,
{
    let mut v: Vec<u8> = Vec::new();
    push_digits(n, &mut v);
    assert(v@ =~= dec_digits(n as nat));
    if v.len() <= FIELD_CAPACITY {
        Ok(v)
    } else {
        Err(FormatError::Overflow)
    }
}

/// Formats a price given in whole cents.  Succeeds exactly when the text
/// fits the buffer, and then returns precisely `price_text(cents)`.
pub fn format_price(cents: u64) -> (r: Result<Vec<u8>, FormatError>)
    ensures
        r is Ok <==> price_text(cents as nat).len() <= FIELD_CAPACITY,
        r matches Ok(t) ==> t@ == price_text(cents as nat),
        r matches Err(e) ==> e == FormatError::Overflow,
{
    let mut v: Vec<u8> = Vec::new();
    v.push(36);
    push_digits(cents / 100, &mut v);
    v.push(46);
    v.push(48 + ((cents % 100) / 10) as u8);
    v.push(48 + (cents % 10) as u8);
    assert(v@ =~= price_text(cents as nat));
    if v.len() <= FIELD_CAPACITY {
        Ok(v)
    } else {
        Err(FormatError::Overflow)
    }
}

/// Formats a measurement given in whole tenths.  Succeeds exactly when the
/// text fits the buffer, and then returns precisely `tenths_text(tenths)`.
pub fn format_tenths(tenths: u64) -> (r: Result<Vec<u8>, FormatError>)
    ensures
        r is Ok <==> tenths_text(tenths as nat).len() <= FIELD_CAPACITY,
        r matches Ok(t) ==> t@ == tenths_text(tenths as nat),
        r matches Err(e) ==> e == FormatError::Overflow,
{
    let mut v: Vec<u8> = Vec::new();
    push_digits(tenths / 10, &mut v);
    v.push(46);
    v.push(48 + (tenths % 10) as u8);
    assert(v@ =~= tenths_text(tenths as nat));
    if v.len() <= FIELD_CAPACITY {
        Ok(v)
    } else {
        Err(FormatError::Overflow)
    }
}

} // verus!
