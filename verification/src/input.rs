use vstd::prelude::*;

verus! {

/// An ASCII whitespace byte: horizontal tab, line feed, vertical tab, form
/// feed, carriage return or space.
pub open spec fn is_space(b: u8) -> bool {
    b == 32 || (9 <= b && b <= 13)
}

/// An ASCII decimal digit.
pub open spec fn is_digit(b: u8) -> bool {
    48 <= b && b <= 57
}

/// The index of the first byte at or after `i` that is not whitespace, or
/// the end of `s` if only whitespace follows.
pub open spec fn span_spaces(s: Seq<u8>, i: int) -> int
    recommends
        0 <= i <= s.len(),
    decreases s.len() - i,
{
    if i < s.len() && is_space(s[i]) {
        span_spaces(s, i + 1)
    } else {
        i
    }
}

/// The index of the first byte at or after `i` that is not a decimal
/// digit, or the end of `s` if only digits follow.
pub open spec fn span_digits(s: Seq<u8>, i: int) -> int
    recommends
        0 <= i <= s.len(),
    decreases s.len() - i,
{
    if i < s.len() && is_digit(s[i]) {
        span_digits(s, i + 1)
    } else {
        i
    }
}

/// The number denoted by the digit run `s[i..j)`, read in decimal.
pub open spec fn digits_value(s: Seq<u8>, i: int, j: int) -> int
    recommends
        0 <= i <= j <= s.len(),
    decreases j - i,
{
    if i >= j {
        0
    } else {
        digits_value(s, i, j - 1) * 10 + (s[j - 1] - 48)
    }
}

/// The move denoted by the byte string `s`, if `s` consists of exactly two
/// runs of decimal digits, separated by whitespace and surrounded by
/// optional whitespace: the two numbers, in order. Any other content — a
/// non-digit inside a run, fewer or more than two runs, nothing at all —
/// denotes no move.
pub open spec fn decoded_move(s: Seq<u8>) -> Option<(int, int)> {
    let a0 = span_spaces(s, 0);
    let a1 = span_digits(s, a0);
    let a2 = span_spaces(s, a1);
    let a3 = span_digits(s, a2);
    let a4 = span_spaces(s, a3);
    if a1 > a0 && a2 > a1 && a3 > a2 && a4 == s.len() {
        Some((digits_value(s, a0, a1), digits_value(s, a2, a3)))
    } else {
        None
    }
}

/// The move that [`decode_move`] yields for `s`: the denoted move, unless
/// either number is too large for `usize`.
pub open spec fn spec_decode(s: Seq<u8>) -> Option<(int, int)> {
    match decoded_move(s) {
        Some((row, col)) => if row <= usize::MAX && col <= usize::MAX {
            Some((row, col))
        } else {
            None
        },
        None => None,
    }
}

/// The pair `p` with both coordinates read as unbounded integers.
pub open spec fn as_int_pair(p: Option<(usize, usize)>) -> Option<(int, int)> {
    match p {
        Some((row, col)) => Some((row as int, col as int)),
        None => None,
    }
}

/// True iff `b` is an ASCII whitespace byte.
fn is_space_byte(b: u8) -> (r: bool)
    ensures
        r == is_space(b),
{
    b == 32 || (9 <= b && b <= 13)
}

/// True iff `b` is an ASCII decimal digit.
fn is_digit_byte(b: u8) -> (r: bool)
    ensures
        r == is_digit(b),
{
    48 <= b && b <= 57
}

/// The index of the first byte at or after `i` that is not whitespace.
fn skip_spaces(s: &[u8], i: usize) -> (r: usize)
    requires
        i <= s@.len(),
    ensures
        r == span_spaces(s@, i as int),
        i <= r <= s@.len(),
{
    let mut j: usize = i;
    while j < s.len() && is_space_byte(s[j])
        invariant
            i <= j <= s@.len(),
            span_spaces(s@, i as int) == span_spaces(s@, j as int),
        decreases s@.len() - j,
    {
        j = j + 1;
    }
    j
}

/// Reads the digit run that starts at `i`: its end, and its value unless
/// that value does not fit in `usize`.
fn scan_number(s: &[u8], i: usize) -> (r: (usize, Option<usize>))
    requires
        i <= s@.len(),
    ensures
        r.0 == span_digits(s@, i as int),
        i <= r.0 <= s@.len(),
        match r.1 {
            Some(v) => v == digits_value(s@, i as int, r.0 as int),
            None => digits_value(s@, i as int, r.0 as int) > usize::MAX,
        },
{
    let mut j: usize = i;
    let mut acc: usize = 0;
    let mut over: bool = false;
    while j < s.len() && is_digit_byte(s[j])
        invariant
            i <= j <= s@.len(),
            span_digits(s@, i as int) == span_digits(s@, j as int),
            forall|m: int| i <= m < j ==> is_digit(s@[m]),
            !over ==> acc == digits_value(s@, i as int, j as int),
            over ==> digits_value(s@, i as int, j as int) > usize::MAX,
        decreases s@.len() - j,
    {
        let d: u8 = s[j] - 48;
        proof {
            assert(digits_value(s@, i as int, j + 1) == digits_value(s@, i as int, j as int) * 10
                + d);
        }
        if !over {
            if acc > (usize::MAX - d as usize) / 10 {
                proof {
                    assert(acc * 10 + d > usize::MAX) by (nonlinear_arith)
                        requires
                            acc > (usize::MAX - d as usize) / 10,
                            0 <= d <= 9,
                    ;
                }
                over = true;
            } else {
                proof {
                    assert(acc * 10 + d <= usize::MAX) by (nonlinear_arith)
                        requires
                            acc <= (usize::MAX - d as usize) / 10,
                            0 <= d <= 9,
                    ;
                }
                acc = acc * 10 + d as usize;
            }
        } else {
            proof {
                assert(digits_value(s@, i as int, j as int) * 10 >= digits_value(
                    s@,
                    i as int,
                    j as int,
                )) by (nonlinear_arith)
                    requires
                        digits_value(s@, i as int, j as int) >= 0,
                ;
            }
        }
        j = j + 1;
    }
    (j, if over {
        None
    } else {
        Some(acc)
    })
}

/// Decodes a textual move message into its row and column. The message
/// must hold exactly two decimal numbers, separated by whitespace and
/// surrounded by optional whitespace; anything else — missing or extra
/// tokens, a non-digit inside a token, a number too large for `usize` —
/// yields `None`, so that the caller can solicit a fresh move instead.
pub fn decode_move(s: &[u8]) -> (r: Option<(usize, usize)>)
    ensures
        as_int_pair(r) == spec_decode(s@),
{
    let a0 = skip_spaces(s, 0);
    let (a1, v1) = scan_number(s, a0);
    if a1 == a0 {
        return None;
    }
    let a2 = skip_spaces(s, a1);
    if a2 == a1 {
        return None;
    }
    let (a3, v2) = scan_number(s, a2);
    if a3 == a2 {
        return None;
    }
    let a4 = skip_spaces(s, a3);
    if a4 != s.len() {
        return None;
    }
    match (v1, v2) {
        (Some(row), Some(col)) => Some((row, col)),
        _ => None,
    }
}

} // verus!
