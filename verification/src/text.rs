//! Grammars of numeric literals, read byte by byte.
//!
//! A literal reaches the store as UTF-8 text. Whether it is the text of an
//! integer or of a floating-point number is decided here, on its bytes.

use vstd::prelude::*;

verus! {

pub const PLUS: u8 = 0x2B;

pub const MINUS: u8 = 0x2D;

pub const DOT: u8 = 0x2E;

/// The largest magnitude a negative 64-bit integer can have.
pub const SIGNED_MIN_MAGNITUDE: u64 = 0x8000_0000_0000_0000;

/// The largest value a signed 64-bit integer can have.
pub const SIGNED_MAX: u64 = 0x7FFF_FFFF_FFFF_FFFF;

pub open spec fn is_digit(b: u8) -> bool {
    0x30 <= b && b <= 0x39
}

pub open spec fn is_sign(b: u8) -> bool {
    b == PLUS || b == MINUS
}

pub open spec fn is_exponent_mark(b: u8) -> bool {
    b == 0x65 || b == 0x45
}

/// `s` is one decimal digit or more, and nothing else.
pub open spec fn all_digits(s: Seq<u8>) -> bool {
    s.len() > 0 && forall|i: int| 0 <= i < s.len() ==> is_digit(#[trigger] s[i])
}

/// The number that the decimal digits of `s` write.
pub open spec fn digits_value(s: Seq<u8>) -> nat
    decreases s.len(),
{
    if s.len() == 0 {
        0
    } else {
        digits_value(s.drop_last()) * 10 + (s.last() - 0x30) as nat
    }
}

/// `s` without one leading plus sign.
pub open spec fn without_plus(s: Seq<u8>) -> Seq<u8> {
    if s.len() > 0 && s[0] == PLUS {
        s.skip(1)
    } else {
        s
    }
}

/// `s` is the text of an unsigned 64-bit integer: an optional `+`, then
/// digits whose value fits.
pub open spec fn unsigned_text(s: Seq<u8>) -> bool {
    all_digits(without_plus(s)) && digits_value(without_plus(s)) <= u64::MAX
}

/// `s` is the text of a signed 64-bit integer: an optional `+` or `-`, then
/// digits whose value, with that sign, fits.
pub open spec fn signed_text(s: Seq<u8>) -> bool {
    if s.len() > 0 && s[0] == MINUS {
        all_digits(s.skip(1)) && digits_value(s.skip(1)) <= SIGNED_MIN_MAGNITUDE
    } else {
        all_digits(without_plus(s)) && digits_value(without_plus(s)) <= SIGNED_MAX
    }
}

/// How many decimal digits stand in a row in `s` from index `from` on.
pub open spec fn digit_run(s: Seq<u8>, from: int) -> nat
    decreases s.len() - from,
{
    if 0 <= from < s.len() && is_digit(s[from]) {
        1 + digit_run(s, from + 1)
    } else {
        0
    }
}

pub open spec fn lower(b: u8) -> u8 {
    if 0x41 <= b && b <= 0x5A {
        (b + 0x20) as u8
    } else {
        b
    }
}

/// `s` spells `word` when upper and lower case are taken as one.
pub open spec fn spells(s: Seq<u8>, word: Seq<u8>) -> bool {
    s.len() == word.len() && forall|i: int| 0 <= i < s.len() ==> lower(#[trigger] s[i]) == word[i]
}

pub open spec fn word_inf() -> Seq<u8> {
    seq![0x69u8, 0x6E, 0x66]
}

pub open spec fn word_infinity() -> Seq<u8> {
    seq![0x69u8, 0x6E, 0x66, 0x69, 0x6E, 0x69, 0x74, 0x79]
}

pub open spec fn word_nan() -> Seq<u8> {
    seq![0x6Eu8, 0x61, 0x6E]
}

/// `s` is `inf`, `infinity` or `nan`, in any case.
pub open spec fn special_float(s: Seq<u8>) -> bool {
    spells(s, word_inf()) || spells(s, word_infinity()) || spells(s, word_nan())
}

/// From index `at` to its end, `s` is an exponent's value: an optional sign,
/// then one digit or more.
pub open spec fn exponent_text(s: Seq<u8>, at: int) -> bool {
    let first = if at < s.len() && is_sign(s[at]) {
        at + 1
    } else {
        at
    };
    digit_run(s, first) >= 1 && first + digit_run(s, first) == s.len()
}

/// From index `at` to its end, `s` is a decimal number: digits, at most one
/// point among them, at least one digit in all, and then an optional
/// exponent.
pub open spec fn number_text(s: Seq<u8>, at: int) -> bool {
    let whole = digit_run(s, at);
    let point = at + whole;
    let pointed = point < s.len() && s[point] == DOT;
    let fraction = if pointed {
        digit_run(s, point + 1)
    } else {
        0
    };
    let end = if pointed {
        point + 1 + fraction
    } else {
        point
    };
    whole + fraction >= 1 && (end == s.len() || (end < s.len() && is_exponent_mark(s[end])
        && exponent_text(s, end + 1)))
}

/// `s` is the text of a floating-point number: an optional sign, then
/// `inf`, `infinity`, `nan` or a decimal number.
pub open spec fn float_text(s: Seq<u8>) -> bool {
    let at: int = if s.len() > 0 && is_sign(s[0]) {
        1
    } else {
        0
    };
    special_float(s.skip(at)) || number_text(s, at)
}

/// Index `i` holds a point, and no other index of `s` does.
pub open spec fn is_only_point(s: Seq<u8>, i: int) -> bool {
    0 <= i < s.len() && s[i] == DOT && forall|j: int|
        0 <= j < s.len() && j != i ==> #[trigger] s[j] != DOT
}

/// `s` is a decimal literal within `precision` and `scale`: it is the text
/// of a floating-point number with exactly one point, it has at most
/// `precision` bytes beside the point and, where a scale is given, at most
/// `scale` bytes behind it.
pub open spec fn decimal_text(s: Seq<u8>, precision: u64, scale: Option<u64>) -> bool {
    float_text(s) && exists|i: int|
        #![trigger is_only_point(s, i)]
        is_only_point(s, i) && s.len() - 1 <= precision && (scale matches Some(limit) ==> s.len()
            - 1 - i <= limit)
}

/// A leading part of a row of digits writes no larger number than the row.
pub proof fn digits_value_grows(s: Seq<u8>, k: int)
    requires
        0 <= k <= s.len(),
    ensures
        digits_value(s.take(k)) <= digits_value(s),
    decreases s.len() - k,
{
    if k < s.len() {
        digits_value_grows(s, k + 1);
        assert(s.take(k + 1).drop_last() =~= s.take(k));
    } else {
        assert(s.take(k) =~= s);
    }
}

pub fn is_digit_byte(b: u8) -> (r: bool)
    ensures
        r == is_digit(b),
{
    0x30 <= b && b <= 0x39
}

/// Whether `b`, from index `start` on, is a row of digits that writes a
/// number of at most `limit`.
pub fn digits_within(b: &[u8], start: usize, limit: u64) -> (r: bool)
    requires
        start <= b.len(),
        limit >= 9,
    ensures
        r == (all_digits(b@.skip(start as int)) && digits_value(b@.skip(start as int)) <= limit),
{
    let ghost tail = b@.skip(start as int);
    if start == b.len() {
        return false;
    }
    let mut i: usize = start;
    let mut acc: u64 = 0;
    while i < b.len()
        invariant
            start <= i <= b.len(),
            limit >= 9,
            tail == b@.skip(start as int),
            forall|j: int| 0 <= j < i - start ==> is_digit(#[trigger] tail[j]),
            acc == digits_value(tail.take(i - start)),
            acc <= limit,
        decreases b.len() - i,
    {
        let d: u8 = b[i];
        assert(tail[i - start] == d);
        if !is_digit_byte(d) {
            return false;
        }
        let v: u64 = (d - 0x30) as u64;
        proof {
            assert(tail.take(i - start + 1).drop_last() =~= tail.take(i - start));
            assert(digits_value(tail.take(i - start + 1)) == acc * 10 + v);
        }
        if acc > (limit - v) / 10 {
            proof {
                digits_value_grows(tail, i - start + 1);
            }
            return false;
        }
        acc = acc * 10 + v;
        i += 1;
    }
    proof {
        assert(tail.take(i - start) =~= tail);
    }
    true
}

/// Whether `b` is the text of an unsigned 64-bit integer.
pub fn is_unsigned_text(b: &[u8]) -> (r: bool)
    ensures
        r == unsigned_text(b@),
{
    if b.len() > 0 && b[0] == PLUS {
        digits_within(b, 1, u64::MAX)
    } else {
        assert(b@.skip(0) =~= b@);
        digits_within(b, 0, u64::MAX)
    }
}

/// Whether `b` is the text of a signed 64-bit integer.
pub fn is_signed_text(b: &[u8]) -> (r: bool)
    ensures
        r == signed_text(b@),
{
    if b.len() > 0 && b[0] == MINUS {
        digits_within(b, 1, SIGNED_MIN_MAGNITUDE)
    } else if b.len() > 0 && b[0] == PLUS {
        digits_within(b, 1, SIGNED_MAX)
    } else {
        assert(b@.skip(0) =~= b@);
        digits_within(b, 0, SIGNED_MAX)
    }
}

/// The index at which the row of digits that starts at `from` ends.
pub fn skip_digits(b: &[u8], from: usize) -> (end: usize)
    requires
        from <= b.len(),
    ensures
        end == from + digit_run(b@, from as int),
        end <= b.len(),
{
    let mut i: usize = from;
    while i < b.len() && is_digit_byte(b[i])
        invariant
            from <= i <= b.len(),
            digit_run(b@, from as int) == (i - from) + digit_run(b@, i as int),
        decreases b.len() - i,
    {
        i += 1;
    }
    i
}

pub fn lower_byte(b: u8) -> (r: u8)
    ensures
        r == lower(b),
{
    if 0x41 <= b && b <= 0x5A {
        b + 0x20
    } else {
        b
    }
}

/// Whether `b`, from index `from` on, spells one of the words for a number
/// that is no number or has no end.
pub fn is_special_float(b: &[u8], from: usize) -> (r: bool)
    requires
        from <= b.len(),
    ensures
        r == special_float(b@.skip(from as int)),
{
    let ghost tail = b@.skip(from as int);
    let n: usize = b.len() - from;
    if n == 3 {
        let c0: u8 = lower_byte(b[from]);
        let c1: u8 = lower_byte(b[from + 1]);
        let c2: u8 = lower_byte(b[from + 2]);
        assert(tail[0] == b@[from as int] && tail[1] == b@[from + 1] && tail[2] == b@[from + 2]);
        (c0 == 0x69 && c1 == 0x6E && c2 == 0x66) || (c0 == 0x6E && c1 == 0x61 && c2 == 0x6E)
    } else if n == 8 {
        let c0: u8 = lower_byte(b[from]);
        let c1: u8 = lower_byte(b[from + 1]);
        let c2: u8 = lower_byte(b[from + 2]);
        let c3: u8 = lower_byte(b[from + 3]);
        let c4: u8 = lower_byte(b[from + 4]);
        let c5: u8 = lower_byte(b[from + 5]);
        let c6: u8 = lower_byte(b[from + 6]);
        let c7: u8 = lower_byte(b[from + 7]);
        assert(tail[0] == b@[from as int] && tail[1] == b@[from + 1] && tail[2] == b@[from + 2]
            && tail[3] == b@[from + 3] && tail[4] == b@[from + 4] && tail[5] == b@[from + 5]
            && tail[6] == b@[from + 6] && tail[7] == b@[from + 7]);
        c0 == 0x69 && c1 == 0x6E && c2 == 0x66 && c3 == 0x69 && c4 == 0x6E && c5 == 0x69 && c6
            == 0x74 && c7 == 0x79
    } else {
        false
    }
}

/// Whether `b`, from index `at` on, is an exponent's value.
pub fn is_exponent_text(b: &[u8], at: usize) -> (r: bool)
    requires
        at <= b.len(),
    ensures
        r == exponent_text(b@, at as int),
{
    let first: usize = if at < b.len() && (b[at] == PLUS || b[at] == MINUS) {
        at + 1
    } else {
        at
    };
    let end: usize = skip_digits(b, first);
    end > first && end == b.len()
}

/// Whether `b`, from index `at` on, is a decimal number.
pub fn is_number_text(b: &[u8], at: usize) -> (r: bool)
    requires
        at <= b.len(),
    ensures
        r == number_text(b@, at as int),
{
    let point: usize = skip_digits(b, at);
    let whole: usize = point - at;
    let pointed: bool = point < b.len() && b[point] == DOT;
    let end: usize = if pointed {
        skip_digits(b, point + 1)
    } else {
        point
    };
    let fraction: usize = if pointed {
        end - point - 1
    } else {
        0
    };
    if whole == 0 && fraction == 0 {
        false
    } else if end == b.len() {
        true
    } else if b[end] == 0x65 || b[end] == 0x45 {
        is_exponent_text(b, end + 1)
    } else {
        false
    }
}

/// Whether `b` is the text of a floating-point number.
pub fn is_float_text(b: &[u8]) -> (r: bool)
    ensures
        r == float_text(b@),
{
    let at: usize = if b.len() > 0 && (b[0] == PLUS || b[0] == MINUS) {
        1
    } else {
        0
    };
    is_special_float(b, at) || is_number_text(b, at)
}

/// The index of the one point in `b`, if `b` holds exactly one.
pub fn only_point(b: &[u8]) -> (r: Option<usize>)
    ensures
        match r {
            Some(i) => is_only_point(b@, i as int),
            None => forall|i: int| !is_only_point(b@, i),
        },
{
    let mut found: Option<usize> = None;
    let mut i: usize = 0;
    while i < b.len()
        invariant
            i <= b.len(),
            match found {
                Some(p) => p < i && b@[p as int] == DOT && forall|j: int|
                    0 <= j < i && j != p ==> #[trigger] b@[j] != DOT,
                None => forall|j: int| 0 <= j < i ==> #[trigger] b@[j] != DOT,
            },
        decreases b.len() - i,
    {
        if b[i] == DOT {
            match found {
                Some(p) => {
                    assert forall|k: int| !is_only_point(b@, k) by {
                        if is_only_point(b@, k) {
                            if k == p as int {
                                assert(b@[i as int] != DOT);
                            } else {
                                assert(b@[p as int] != DOT);
                            }
                        }
                    }
                    return None;
                },
                None => {
                    found = Some(i);
                },
            }
        }
        i += 1;
    }
    proof {
        if found is None {
            assert forall|k: int| !is_only_point(b@, k) by {
                if is_only_point(b@, k) {
                    assert(b@[k] != DOT);
                }
            }
        }
    }
    found
}

/// Whether `b` is a decimal literal within `precision` and `scale`.
pub fn is_decimal_text(b: &[u8], precision: u64, scale: Option<u64>) -> (r: bool)
    ensures
        r == decimal_text(b@, precision, scale),
{
    if !is_float_text(b) {
        return false;
    }
    match only_point(b) {
        None => false,
        Some(i) => {
            assert forall|k: int| is_only_point(b@, k) implies k == i by {
                if k != i {
                    assert(b@[i as int] != DOT);
                }
            }
            let beside: usize = b.len() - 1;
            let behind: usize = b.len() - 1 - i;
            let fits: bool = beside as u64 <= precision && match scale {
                Some(limit) => behind as u64 <= limit,
                None => true,
            };
            fits
        },
    }
}

} // verus!
