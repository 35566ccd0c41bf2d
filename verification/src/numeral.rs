//! Decimal numerals: parsing with the exact acceptance and overflow
//! behaviour of `str::parse` for integers, and printing.

use vstd::prelude::*;
use vstd::string::*;

use crate::text::chars_to_string;

verus! {

/// An ASCII decimal digit.
pub open spec fn is_digit(c: char) -> bool {
    48 <= c as u32 && c as u32 <= 57
}

/// The value of one digit.
pub open spec fn digit_val(c: char) -> int {
    c as u32 - 48
}

/// Every character of `s` is a digit.
pub open spec fn all_digits(s: Seq<char>) -> bool {
    forall|i: int| 0 <= i < s.len() ==> is_digit(s[i])
}

/// The value of a digit string, most significant first.
pub open spec fn digits_val(s: Seq<char>) -> int
    decreases s.len(),
{
    if s.len() == 0 {
        0
    } else {
        digits_val(s.drop_last()) * 10 + digit_val(s.last())
    }
}

/// The digits of a signed numeral: everything past a leading sign.
pub open spec fn numeral_body(s: Seq<char>) -> Seq<char> {
    if s.len() > 0 && (s[0] == '+' || s[0] == '-') {
        s.drop_first()
    } else {
        s
    }
}

/// The numeral denotes a negative value.
pub open spec fn numeral_neg(s: Seq<char>) -> bool {
    s.len() > 0 && s[0] == '-'
}

/// A signed decimal numeral: an optional sign, then at least one digit.
pub open spec fn is_valid_numeral(s: Seq<char>) -> bool {
    numeral_body(s).len() > 0 && all_digits(numeral_body(s))
}

/// The value of a signed decimal numeral.
pub open spec fn numeral_val(s: Seq<char>) -> int {
    if numeral_neg(s) {
        -digits_val(numeral_body(s))
    } else {
        digits_val(numeral_body(s))
    }
}

/// The digits of an unsigned numeral: everything past a leading plus.
pub open spec fn unsigned_body(s: Seq<char>) -> Seq<char> {
    if s.len() > 0 && s[0] == '+' {
        s.drop_first()
    } else {
        s
    }
}

/// An unsigned decimal numeral: an optional plus, then at least one digit.
pub open spec fn is_valid_unsigned(s: Seq<char>) -> bool {
    unsigned_body(s).len() > 0 && all_digits(unsigned_body(s))
}

/// The value of an unsigned decimal numeral.
pub open spec fn unsigned_val(s: Seq<char>) -> int {
    digits_val(unsigned_body(s))
}

proof fn lemma_digits_val_nonneg(s: Seq<char>)
    requires
        all_digits(s),
    ensures
        digits_val(s) >= 0,
    decreases s.len(),
{
    if s.len() > 0 {
        assert(all_digits(s.drop_last()));
        lemma_digits_val_nonneg(s.drop_last());
        assert(digits_val(s.drop_last()) * 10 >= 0) by (nonlinear_arith)
            requires
                digits_val(s.drop_last()) >= 0,
        ;
    }
}

/// A digit string is worth at least any of its prefixes.
proof fn lemma_digits_val_prefix_le(s: Seq<char>, k: int)
    requires
        all_digits(s),
        0 <= k <= s.len(),
    ensures
        digits_val(s.take(k)) <= digits_val(s),
    decreases s.len() - k,
{
    if k == s.len() {
        assert(s.take(k) =~= s);
    } else {
        let p = s.take(k);
        let q = s.take(k + 1);
        assert(q.drop_last() =~= p);
        assert(all_digits(p));
        lemma_digits_val_nonneg(p);
        assert(digits_val(p) * 10 >= digits_val(p)) by (nonlinear_arith)
            requires
                digits_val(p) >= 0,
        ;
        assert(digits_val(q) >= digits_val(p));
        lemma_digits_val_prefix_le(s, k + 1);
    }
}

/// Parse a signed decimal numeral exactly as `str::parse::<i64>` does: an
/// optional sign, then one or more digits, rejected when the value does not
/// fit.
pub fn parse_i64(s: &str) -> (r: Option<i64>)
    ensures
        match r {
            Some(v) => is_valid_numeral(s@) && v == numeral_val(s@),
            None => !is_valid_numeral(s@) || numeral_val(s@) < i64::MIN || numeral_val(s@)
                > i64::MAX,
        },
{
    let n = s.unicode_len();
    if n == 0 {
        return None;
    }
    let c0 = s.get_char(0);
    let neg = c0 == '-';
    let start: usize = if c0 == '-' || c0 == '+' {
        1
    } else {
        0
    };
    proof {
        assert(numeral_body(s@) =~= s@.subrange(start as int, n as int));
    }
    if n == start {
        return None;
    }
    let ghost body = s@.subrange(start as int, n as int);
    let mut acc: i64 = 0;
    let mut i: usize = start;
    while i < n
        invariant
            start <= i <= n,
            n == s@.len(),
            start <= 1,
            body == s@.subrange(start as int, n as int),
            body == numeral_body(s@),
            neg == numeral_neg(s@),
            body.len() > 0,
            all_digits(s@.subrange(start as int, i as int)),
            neg ==> acc == -digits_val(s@.subrange(start as int, i as int)),
            !neg ==> acc == digits_val(s@.subrange(start as int, i as int)),
        decreases n - i,
    {
        let c = s.get_char(i);
        let u = c as u32;
        if !(48 <= u && u <= 57) {
            assert(!all_digits(body)) by {
                assert(body[i - start as int] == s@[i as int]);
            }
            return None;
        }
        let d = (u - 48) as i64;
        let ghost pre = s@.subrange(start as int, i as int);
        let ghost cur = s@.subrange(start as int, i + 1);
        proof {
            assert(cur.drop_last() =~= pre);
            assert(cur.last() == s@[i as int]);
            assert(all_digits(cur));
            assert(digits_val(cur) == digits_val(pre) * 10 + d);
        }
        let stepped = match acc.checked_mul(10) {
            Some(a) => {
                if neg {
                    a.checked_sub(d)
                } else {
                    a.checked_add(d)
                }
            },
            None => None,
        };
        match stepped {
            Some(a2) => {
                acc = a2;
            },
            None => {
                proof {
                    lemma_digits_val_nonneg(pre);
                    if all_digits(body) {
                        assert(body.take(i + 1 - start as int) =~= cur);
                        lemma_digits_val_prefix_le(body, i + 1 - start as int);
                    }
                }
                return None;
            },
        }
        i += 1;
    }
    proof {
        assert(s@.subrange(start as int, n as int) == body);
    }
    Some(acc)
}

/// Parse an unsigned decimal numeral exactly as `str::parse::<usize>` does.
pub fn parse_usize(s: &str) -> (r: Option<usize>)
    ensures
        match r {
            Some(v) => is_valid_unsigned(s@) && v == unsigned_val(s@),
            None => !is_valid_unsigned(s@) || unsigned_val(s@) > usize::MAX,
        },
{
    let n = s.unicode_len();
    if n == 0 {
        return None;
    }
    let c0 = s.get_char(0);
    let start: usize = if c0 == '+' {
        1
    } else {
        0
    };
    proof {
        assert(unsigned_body(s@) =~= s@.subrange(start as int, n as int));
    }
    if n == start {
        return None;
    }
    let ghost body = s@.subrange(start as int, n as int);
    let mut acc: usize = 0;
    let mut i: usize = start;
    while i < n
        invariant
            start <= i <= n,
            n == s@.len(),
            start <= 1,
            body == s@.subrange(start as int, n as int),
            body == unsigned_body(s@),
            body.len() > 0,
            all_digits(s@.subrange(start as int, i as int)),
            acc == digits_val(s@.subrange(start as int, i as int)),
        decreases n - i,
    {
        let c = s.get_char(i);
        let u = c as u32;
        if !(48 <= u && u <= 57) {
            assert(!all_digits(body)) by {
                assert(body[i - start as int] == s@[i as int]);
            }
            return None;
        }
        let d = (u - 48) as usize;
        let ghost pre = s@.subrange(start as int, i as int);
        let ghost cur = s@.subrange(start as int, i + 1);
        proof {
            assert(cur.drop_last() =~= pre);
            assert(cur.last() == s@[i as int]);
            assert(all_digits(cur));
            assert(digits_val(cur) == digits_val(pre) * 10 + d);
        }
        let stepped = match acc.checked_mul(10) {
            Some(a) => a.checked_add(d),
            None => None,
        };
        match stepped {
            Some(a2) => {
                acc = a2;
            },
            None => {
                proof {
                    lemma_digits_val_nonneg(pre);
                    if all_digits(body) {
                        assert(body.take(i + 1 - start as int) =~= cur);
                        lemma_digits_val_prefix_le(body, i + 1 - start as int);
                    }
                }
                return None;
            },
        }
        i += 1;
    }
    Some(acc)
}

/// The digit character for a value below ten.
pub open spec fn digit_char(d: int) -> char {
    if d == 0 {
        '0'
    } else if d == 1 {
        '1'
    } else if d == 2 {
        '2'
    } else if d == 3 {
        '3'
    } else if d == 4 {
        '4'
    } else if d == 5 {
        '5'
    } else if d == 6 {
        '6'
    } else if d == 7 {
        '7'
    } else if d == 8 {
        '8'
    } else {
        '9'
    }
}

/// The decimal form of a nonnegative value.
pub open spec fn dec_nat(n: int) -> Seq<char>
    decreases n,
{
    if n < 10 {
        seq![digit_char(n)]
    } else {
        dec_nat(n / 10) + seq![digit_char(n % 10)]
    }
}

/// The decimal form of a signed value.
pub open spec fn dec_int(v: int) -> Seq<char> {
    if v >= 0 {
        dec_nat(v)
    } else {
        seq!['-'] + dec_nat(-v)
    }
}

fn digit_char_exec(d: u64) -> (c: char)
    requires
        d < 10,
    ensures
        c == digit_char(d as int),
{
    match d {
        0 => '0',
        1 => '1',
        2 => '2',
        3 => '3',
        4 => '4',
        5 => '5',
        6 => '6',
        7 => '7',
        8 => '8',
        _ => '9',
    }
}

fn push_dec_u64(n: u64, out: &mut Vec<char>)
    ensures
        final(out)@ == old(out)@ + dec_nat(n as int),
    decreases n,
{
    if n < 10 {
        out.push(digit_char_exec(n));
        assert(final(out)@ =~= old(out)@ + dec_nat(n as int));
    } else {
        push_dec_u64(n / 10, out);
        out.push(digit_char_exec(n % 10));
        assert(final(out)@ =~= old(out)@ + dec_nat(n as int));
    }
}

/// The decimal form of a signed value.
pub fn i64_to_string(v: i64) -> (s: String)
    ensures
        s@ == dec_int(v as int),
{
    let mut out: Vec<char> = Vec::new();
    if v >= 0 {
        push_dec_u64(v as u64, &mut out);
        assert(out@ =~= dec_int(v as int));
    } else {
        out.push('-');
        let m: u64 = ((-(v + 1)) as u64) + 1;
        assert(m as int == -(v as int));
        push_dec_u64(m, &mut out);
        assert(out@ =~= dec_int(v as int));
    }
    chars_to_string(&out)
}

} // verus!
