//! Text of the command line: lists separated by a character, and numbers.

use vstd::prelude::*;
use vstd::string::StrSliceExecFns;

verus! {

/// The parts of `s` between the occurrences of `sep`, in order. There is
/// always one part more than there are separators, so the parts of an empty
/// text are one empty part, and a separator at either end gives an empty
/// part there.
pub open spec fn split_on(s: Seq<char>, sep: char) -> Seq<Seq<char>>
    decreases s.len(),
{
    if s.len() == 0 {
        seq![Seq::empty()]
    } else {
        let before = split_on(s.drop_last(), sep);
        if s.last() == sep {
            before.push(Seq::empty())
        } else {
            before.drop_last().push(before.last().push(s.last()))
        }
    }
}

/// The parts joined again, with `sep` between each two of them.
pub open spec fn join_with(parts: Seq<Seq<char>>, sep: char) -> Seq<char>
    decreases parts.len(),
{
    if parts.len() == 0 {
        Seq::empty()
    } else if parts.len() == 1 {
        parts[0]
    } else {
        join_with(parts.drop_last(), sep).push(sep) + parts.last()
    }
}

/// Splitting loses nothing and leaves no separator behind: there is at
/// least one part, no part holds the separator, and the parts joined with
/// the separator are the text again.
pub proof fn lemma_split_on(s: Seq<char>, sep: char)
    ensures
        split_on(s, sep).len() >= 1,
        forall|k: int, i: int|
            0 <= k < split_on(s, sep).len() && 0 <= i < split_on(s, sep)[k].len() ==> (
            #[trigger] split_on(s, sep)[k][i]) != sep,
        join_with(split_on(s, sep), sep) == s,
    decreases s.len(),
{
    if s.len() > 0 {
        let short = s.drop_last();
        let before = split_on(short, sep);
        let parts = split_on(s, sep);
        lemma_split_on(short, sep);
        if s.last() == sep {
            assert(parts.drop_last() =~= before);
        } else if before.len() > 1 {
            assert(parts.drop_last() =~= before.drop_last());
            assert(join_with(parts, sep) =~= join_with(before, sep).push(s.last()));
        }
    }
}

/// Splits `s` at every `sep`.
pub fn split(s: &str, sep: char) -> (parts: Vec<String>)
    ensures
        parts.deep_view() == split_on(s@, sep),
{
    let n: usize = s.unicode_len();
    let mut parts: Vec<String> = Vec::new();
    let mut start: usize = 0;
    let mut i: usize = 0;
    assert(s@.take(0) =~= Seq::<char>::empty());
    while i < n
        invariant
            n == s@.len(),
            start <= i <= n,
            split_on(s@.take(i as int), sep) == parts.deep_view().push(
                s@.subrange(start as int, i as int),
            ),
        decreases n - i,
    {
        let ghost open = s@.subrange(start as int, i as int);
        assert(s@.take(i + 1).drop_last() =~= s@.take(i as int));
        if s.get_char(i) == sep {
            let part: String = s.substring_char(start, i).to_owned();
            parts.push(part);
            start = i + 1;
            assert(s@.subrange(start as int, i + 1) =~= Seq::<char>::empty());
        } else {
            assert(s@.subrange(start as int, i + 1) =~= open.push(s@[i as int]));
        }
        i = i + 1;
    }
    let last: String = s.substring_char(start, n).to_owned();
    parts.push(last);
    assert(s@.take(n as int) =~= s@);
    parts
}

/// A decimal digit.
pub open spec fn is_digit_char(c: char) -> bool {
    '0' <= c <= '9'
}

/// That `s` holds decimal digits only.
pub open spec fn all_digits(s: Seq<char>) -> bool {
    forall|i: int| 0 <= i < s.len() ==> is_digit_char(#[trigger] s[i])
}

/// The number that the digits of `s` write in base ten.
pub open spec fn digits_value(s: Seq<char>) -> nat
    decreases s.len(),
{
    if s.len() == 0 {
        0
    } else {
        digits_value(s.drop_last()) * 10 + (s.last() as nat - 48) as nat
    }
}

/// The number that `s` writes: an optional `+` or `-`, then one digit or
/// more and nothing else.
pub open spec fn signed_value(s: Seq<char>) -> Option<int> {
    let signed = s.len() > 0 && (s[0] == '+' || s[0] == '-');
    let body = if signed {
        s.drop_first()
    } else {
        s
    };
    if body.len() > 0 && all_digits(body) {
        if signed && s[0] == '-' {
            Some(-(digits_value(body) as int))
        } else {
            Some(digits_value(body) as int)
        }
    } else {
        None
    }
}

/// The `i32` that `s` writes, if it writes a number and the number fits.
pub open spec fn parsed_i32(s: Seq<char>) -> Option<i32> {
    match signed_value(s) {
        Some(v) => if i32::MIN <= v <= i32::MAX {
            Some(v as i32)
        } else {
            None
        },
        None => None,
    }
}

/// One more than the largest magnitude of an `i32`: the value at which the
/// parser stops counting.
const MAGNITUDE_CAP: i64 = 2_147_483_649;

/// Reads a decimal `i32`: an optional sign, then digits only. Any number
/// of leading zeros is accepted; a number outside the range of `i32` is
/// not.
pub fn parse_i32(s: &str) -> (r: Option<i32>)
    ensures
        r == parsed_i32(s@),
{
    let n: usize = s.unicode_len();
    if n == 0 {
        return None;
    }
    let first: char = s.get_char(0);
    let signed: bool = first == '+' || first == '-';
    let start: usize = if signed {
        1
    } else {
        0
    };
    if start == n {
        return None;
    }
    let ghost body = s@.subrange(start as int, n as int);
    let mut capped: i64 = 0;
    let mut i: usize = start;
    while i < n
        invariant
            n == s@.len(),
            start <= i <= n,
            body == s@.subrange(start as int, n as int),
            body == if signed {
                s@.drop_first()
            } else {
                s@
            },
            signed == (s@[0] == '+' || s@[0] == '-'),
            all_digits(body.take(i - start)),
            0 <= capped <= MAGNITUDE_CAP,
            capped == if digits_value(body.take(i - start)) < MAGNITUDE_CAP {
                digits_value(body.take(i - start)) as int
            } else {
                MAGNITUDE_CAP as int
            },
        decreases n - i,
    {
        let c: char = s.get_char(i);
        if c < '0' || c > '9' {
            assert(!is_digit_char(body[i - start]));
            return None;
        }
        let d: i64 = (c as u32 - 48) as i64;
        assert(body.take(i - start + 1).drop_last() =~= body.take(i - start));
        let next: i64 = capped * 10 + d;
        capped = if next < MAGNITUDE_CAP {
            next
        } else {
            MAGNITUDE_CAP
        };
        i = i + 1;
    }
    assert(body.take(n - start) =~= body);
    if first == '-' {
        if capped <= 2_147_483_648 {
            Some((-capped) as i32)
        } else {
            None
        }
    } else {
        if capped <= 2_147_483_647 {
            Some(capped as i32)
        } else {
            None
        }
    }
}

} // verus!
