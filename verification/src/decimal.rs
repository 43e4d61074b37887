//! Decimal text of integers, as bytes.

use vstd::prelude::*;

verus! {

/// The ASCII byte of the digit `d`.
pub open spec fn digit(d: nat) -> u8
    recommends
        d < 10,
{
    (48 + d) as u8
}

/// The decimal digits of `n`, most significant first, without leading
/// zeros; zero is the single digit `0`.
pub open spec fn digits(n: nat) -> Seq<u8>
    decreases n,
{
    if n < 10 {
        seq![digit(n)]
    } else {
        digits(n / 10).push(digit(n % 10))
    }
}

/// The decimal text of `n`: a minus sign for a negative number, then the
/// digits of its magnitude.
pub open spec fn decimal(n: int) -> Seq<u8> {
    if n < 0 {
        seq![45u8] + digits((-n) as nat)
    } else {
        digits(n as nat)
    }
}

/// The magnitude of `n`, which fits a `u64` for every `i64`.
fn magnitude(n: i64) -> (m: u64)
    ensures
        m as int == if n < 0 {
            -(n as int)
        } else {
            n as int
        },
{
    if n < 0 {
        let below: i64 = -(n + 1);
        below as u64 + 1
    } else {
        n as u64
    }
}

/// The digits of `m`, least significant first.
fn reversed_digits(m: u64) -> (rev: Vec<u8>)
    ensures
        rev@.reverse() == digits(m as nat),
{
    let mut rev: Vec<u8> = Vec::new();
    let mut rest: u64 = m / 10;
    rev.push(48u8 + (m % 10) as u8);
    while rest > 0
        invariant
            rest > 0 ==> digits(m as nat) == digits(rest as nat) + rev@.reverse(),
            rest == 0 ==> digits(m as nat) == rev@.reverse(),
        decreases rest,
    {
        rev.push(48u8 + (rest % 10) as u8);
        rest = rest / 10;
    }
    rev
}

/// Appends the decimal text of `n` to `buf`.
pub fn push_decimal(buf: &mut Vec<u8>, n: i64)
    ensures
        final(buf)@ == old(buf)@ + decimal(n as int),
{
    let rev: Vec<u8> = reversed_digits(magnitude(n));
    if n < 0 {
        buf.push(45u8);
    }
    let ghost head = buf@;
    let mut left: usize = rev.len();
    while left > 0
        invariant
            left <= rev.len(),
            buf@ == head + rev@.reverse().subrange(0, rev.len() - left),
        decreases left,
    {
        left = left - 1;
        buf.push(rev[left]);
    }
}

/// The decimal text of `n` in a buffer of its own.
pub fn decimal_text(n: i64) -> (text: Vec<u8>)
    ensures
        text@ == decimal(n as int),
{
    let mut text: Vec<u8> = Vec::new();
    push_decimal(&mut text, n);
    text
}

} // verus!
