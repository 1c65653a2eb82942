//! Decimal numerals: parsing and printing, with round-trip lemmas.
//!
//! Parsing follows the grammar of the standard integer parsers: an optional
//! single sign (`+` or `-`; unsigned values take only `+`) followed by one or
//! more decimal digits, with the value required to fit the target type.

use vstd::prelude::*;

verus! {

pub open spec fn is_digit(c: char) -> bool {
    '0' <= c && c <= '9'
}

pub open spec fn digit_val(c: char) -> int {
    c as u32 - '0' as u32
}

pub open spec fn digit_char(d: int) -> char {
    ((48 + d) as u8) as char
}

pub open spec fn all_digits(s: Seq<char>) -> bool {
    forall|i: int| 0 <= i < s.len() ==> is_digit(#[trigger] s[i])
}

/// The value of a digit string, most significant digit first.
pub open spec fn dec_value(s: Seq<char>) -> int
    decreases s.len(),
{
    if s.len() == 0 {
        0
    } else {
        dec_value(s.drop_last()) * 10 + digit_val(s.last())
    }
}

/// One or more digits, and their value; `None` on anything else.
pub open spec fn spec_parse_digits(s: Seq<char>) -> Option<int> {
    if s.len() > 0 && all_digits(s) {
        Some(dec_value(s))
    } else {
        None
    }
}

/// An unsigned numeral: optional leading `+`, then digits.
pub open spec fn spec_parse_nat(s: Seq<char>) -> Option<int> {
    if s.len() > 0 && s[0] == '+' {
        spec_parse_digits(s.skip(1))
    } else {
        spec_parse_digits(s)
    }
}

/// A signed numeral: optional leading `-` or `+`, then digits.
pub open spec fn spec_parse_int(s: Seq<char>) -> Option<int> {
    if s.len() > 0 && s[0] == '-' {
        match spec_parse_digits(s.skip(1)) {
            Some(v) => Some(-v),
            None => None,
        }
    } else {
        spec_parse_nat(s)
    }
}

pub open spec fn spec_parse_u32(s: Seq<char>) -> Option<u32> {
    match spec_parse_nat(s) {
        Some(v) => if v <= u32::MAX { Some(v as u32) } else { None },
        None => None,
    }
}

pub open spec fn spec_parse_i64(s: Seq<char>) -> Option<i64> {
    match spec_parse_int(s) {
        Some(v) => if i64::MIN <= v <= i64::MAX { Some(v as i64) } else { None },
        None => None,
    }
}

pub open spec fn spec_parse_i32(s: Seq<char>) -> Option<i32> {
    match spec_parse_int(s) {
        Some(v) => if i32::MIN <= v <= i32::MAX { Some(v as i32) } else { None },
        None => None,
    }
}

pub open spec fn spec_parse_i16(s: Seq<char>) -> Option<i16> {
    match spec_parse_int(s) {
        Some(v) => if i16::MIN <= v <= i16::MAX { Some(v as i16) } else { None },
        None => None,
    }
}

/// Digit strings are non-negative.
pub proof fn lemma_dec_value_nonneg(s: Seq<char>)
    requires
        all_digits(s),
    ensures
        dec_value(s) >= 0,
    decreases s.len(),
{
    if s.len() > 0 {
        assert(all_digits(s.drop_last())) by {
            assert(forall|i: int| 0 <= i < s.len() - 1 ==> s.drop_last()[i] == s[i]);
        }
        lemma_dec_value_nonneg(s.drop_last());
    }
}

/// Extending a digit string cannot shrink its value.
pub proof fn lemma_dec_value_monotone(s: Seq<char>, i: int, j: int)
    requires
        all_digits(s),
        0 <= i <= j <= s.len(),
    ensures
        dec_value(s.take(i)) <= dec_value(s.take(j)),
    decreases j - i,
{
    if i < j {
        lemma_dec_value_monotone(s, i, j - 1);
        let p = s.take(j);
        assert(p.drop_last() =~= s.take(j - 1));
        assert(all_digits(s.take(j - 1)));
        lemma_dec_value_nonneg(s.take(j - 1));
        assert(dec_value(p) == dec_value(s.take(j - 1)) * 10 + digit_val(p.last()));
        assert(dec_value(s.take(j - 1)) * 10 >= dec_value(s.take(j - 1)));
    }
}

/// Parses the digit run `s[from..]` as a `u64`.
///
/// Returns `None` when the run is empty, contains a non-digit, or exceeds
/// `u64::MAX`.
pub fn parse_digits_u64(s: &Vec<char>, from: usize) -> (r: Option<u64>)
    requires
        from <= s@.len(),
    ensures
        match spec_parse_digits(s@.skip(from as int)) {
            Some(v) => r == if v <= u64::MAX { Some(v as u64) } else { None::<u64> },
            None => r == None::<u64>,
        },
{
    let ghost t = s@.skip(from as int);
    let n = s.len();
    if from == n {
        return None;
    }
    let mut acc: u64 = 0;
    let mut i: usize = from;
    while i < n
        invariant
            from <= i <= n,
            n == s@.len(),
            t == s@.skip(from as int),
            all_digits(t.take(i - from)),
            acc == dec_value(t.take(i - from)),
        decreases n - i,
    {
        let c = s[i];
        if c < '0' || c > '9' {
            assert(t[i - from] == c);
            assert(!all_digits(t));
            return None;
        }
        let d: u64 = (c as u32 - 48) as u64;
        assert(d == digit_val(c) && d <= 9);
        let cap: u64 = (u64::MAX - d) / 10;
        if acc > cap {
            proof {
                let k = i - from + 1;
                assert(t.take(k).drop_last() =~= t.take(k - 1));
                assert(t.take(k).last() == c);
                assert(dec_value(t.take(k)) == acc * 10 + d);
                assert(cap * 10 + 10 > u64::MAX - d) by {
                    assert(u64::MAX - d == 10 * ((u64::MAX - d) / 10) + (u64::MAX - d) % 10);
                };
                assert(acc * 10 >= cap * 10 + 10);
                assert(dec_value(t.take(k)) > u64::MAX);
                if all_digits(t) {
                    lemma_dec_value_monotone(t, k, t.len() as int);
                    assert(t.take(t.len() as int) =~= t);
                    assert(dec_value(t) > u64::MAX);
                }
            }
            return None;
        }
        proof {
            assert(cap * 10 <= u64::MAX - d) by {
                assert(u64::MAX - d == 10 * ((u64::MAX - d) / 10) + (u64::MAX - d) % 10);
            };
            assert(acc * 10 <= cap * 10);
            let k = i - from + 1;
            assert(t.take(k).drop_last() =~= t.take(k - 1));
            assert(t.take(k).last() == c);
        }
        acc = acc * 10 + d;
        i = i + 1;
    }
    proof {
        assert(t.take(t.len() as int) =~= t);
    }
    Some(acc)
}

/// Parses a full character buffer as a `u32` numeral.
pub fn parse_u32_chars(s: &Vec<char>) -> (r: Option<u32>)
    ensures
        r == spec_parse_u32(s@),
{
    let from: usize = if s.len() > 0 && s[0] == '+' { 1 } else { 0 };
    let ghost t = if from == 1 { s@.skip(1) } else { s@ };
    proof {
        if from == 0 {
            assert(s@.skip(0) =~= s@);
        }
    }
    match parse_digits_u64(s, from) {
        Some(v) => {
            proof {
                if spec_parse_nat(s@) is Some {
                    lemma_dec_value_nonneg(t);
                }
            }
            if v <= u32::MAX as u64 {
                Some(v as u32)
            } else {
                None
            }
        },
        None => None,
    }
}

/// Sign and magnitude of a signed numeral; `None` when malformed or when the
/// magnitude exceeds `u64::MAX`.
fn parse_sign_mag(s: &Vec<char>) -> (r: Option<(bool, u64)>)
    ensures
        match spec_parse_int(s@) {
            Some(v) => {
                &&& (-(u64::MAX as int) <= v <= u64::MAX ==> r == Some(
                    (v < 0, (if v < 0 { -v } else { v }) as u64),
                ))
                &&& (!(-(u64::MAX as int) <= v <= u64::MAX) ==> r == None::<(bool, u64)>)
            },
            None => r == None::<(bool, u64)>,
        },
{
    let neg = s.len() > 0 && s[0] == '-';
    let from: usize = if s.len() > 0 && (s[0] == '-' || s[0] == '+') { 1 } else { 0 };
    let ghost t = s@.skip(from as int);
    proof {
        if from == 0 {
            assert(s@.skip(0) =~= s@);
        }
        if spec_parse_digits(t) is Some {
            lemma_dec_value_nonneg(t);
        }
    }
    match parse_digits_u64(s, from) {
        Some(v) => {
            if neg && v == 0 {
                Some((false, 0))
            } else {
                Some((neg, v))
            }
        },
        None => None,
    }
}

/// Parses a full character buffer as an `i64` numeral.
pub fn parse_i64_chars(s: &Vec<char>) -> (r: Option<i64>)
    ensures
        r == spec_parse_i64(s@),
{
    match parse_sign_mag(s) {
        Some((neg, mag)) => {
            if neg {
                if mag <= i64::MAX as u64 {
                    Some(-(mag as i64))
                } else if mag == i64::MAX as u64 + 1 {
                    Some(i64::MIN)
                } else {
                    None
                }
            } else {
                if mag <= i64::MAX as u64 {
                    Some(mag as i64)
                } else {
                    None
                }
            }
        },
        None => None,
    }
}

/// Parses a full character buffer as an `i32` numeral.
pub fn parse_i32_chars(s: &Vec<char>) -> (r: Option<i32>)
    ensures
        r == spec_parse_i32(s@),
{
    match parse_i64_chars(s) {
        Some(v) => {
            if i32::MIN as i64 <= v && v <= i32::MAX as i64 {
                Some(v as i32)
            } else {
                None
            }
        },
        None => None,
    }
}

/// Parses a full character buffer as an `i16` numeral.
pub fn parse_i16_chars(s: &Vec<char>) -> (r: Option<i16>)
    ensures
        r == spec_parse_i16(s@),
{
    match parse_i64_chars(s) {
        Some(v) => {
            if i16::MIN as i64 <= v && v <= i16::MAX as i64 {
                Some(v as i16)
            } else {
                None
            }
        },
        None => None,
    }
}

/// The canonical decimal numeral of a non-negative value.
pub open spec fn spec_nat_dec(n: int) -> Seq<char>
    decreases n,
{
    if n < 10 {
        seq![digit_char(if n >= 0 { n } else { 0 })]
    } else {
        spec_nat_dec(n / 10) + seq![digit_char(n % 10)]
    }
}

/// The canonical decimal numeral of a signed value: `-` then digits.
pub open spec fn spec_int_dec(v: int) -> Seq<char> {
    if v < 0 {
        seq!['-'] + spec_nat_dec(-v)
    } else {
        spec_nat_dec(v)
    }
}

/// Every character of a canonical non-negative numeral is a digit, the
/// numeral is non-empty, and its value is the number it was made from.
pub proof fn lemma_nat_dec_digits(n: int)
    requires
        n >= 0,
    ensures
        spec_nat_dec(n).len() >= 1,
        all_digits(spec_nat_dec(n)),
        dec_value(spec_nat_dec(n)) == n,
    decreases n,
{
    if n < 10 {
        let s = spec_nat_dec(n);
        assert(s.len() == 1);
        assert(is_digit(digit_char(n)));
        assert(s.drop_last() =~= Seq::<char>::empty());
        assert(dec_value(Seq::<char>::empty()) == 0);
        assert(s.last() == digit_char(n));
        assert(dec_value(s) == digit_val(digit_char(n)));
    } else {
        lemma_nat_dec_digits(n / 10);
        let s = spec_nat_dec(n);
        let p = spec_nat_dec(n / 10);
        assert(s.drop_last() =~= p);
        assert(s.last() == digit_char(n % 10));
        assert(0 <= n % 10 < 10);
        assert(is_digit(digit_char(n % 10)));
        assert(digit_val(digit_char(n % 10)) == n % 10);
        assert(dec_value(s) == (n / 10) * 10 + n % 10);
        assert(n == 10 * (n / 10) + n % 10);
    }
}

/// Round trip for unsigned numerals: printing then parsing restores the value.
pub proof fn lemma_parse_nat_dec(n: int)
    requires
        0 <= n,
    ensures
        spec_parse_nat(spec_nat_dec(n)) == Some(n),
        spec_parse_int(spec_nat_dec(n)) == Some(n),
        is_digit(spec_nat_dec(n)[0]),
{
    lemma_nat_dec_digits(n);
    let s = spec_nat_dec(n);
    assert(is_digit(s[0]));
    assert(s[0] != '+' && s[0] != '-');
}

/// Round trip for signed numerals: printing then parsing restores the value.
pub proof fn lemma_parse_int_dec(v: int)
    ensures
        spec_parse_int(spec_int_dec(v)) == Some(v),
{
    if v < 0 {
        lemma_nat_dec_digits(-v);
        let s = spec_int_dec(v);
        assert(s[0] == '-');
        assert(s.skip(1) =~= spec_nat_dec(-v));
    } else {
        lemma_parse_nat_dec(v);
    }
}

/// The first character of a canonical numeral is a digit or `-`.
pub proof fn lemma_int_dec_head(v: int)
    ensures
        spec_int_dec(v).len() >= 1,
        is_digit(spec_int_dec(v)[0]) || spec_int_dec(v)[0] == '-',
{
    if v < 0 {
        lemma_nat_dec_digits(-v);
    } else {
        lemma_nat_dec_digits(v);
    }
}

/// The canonical numeral of `n`, as characters.
pub fn nat_dec_chars_u64(n: u64) -> (r: Vec<char>)
    ensures
        r@ == spec_nat_dec(n as int),
    decreases n,
{
    if n < 10 {
        let c = ((48 + n) as u8) as char;
        let mut r: Vec<char> = Vec::new();
        r.push(c);
        proof {
            assert(r@ =~= seq![digit_char(n as int)]);
        }
        r
    } else {
        let mut r = nat_dec_chars_u64(n / 10);
        let c = ((48 + n % 10) as u8) as char;
        r.push(c);
        proof {
            assert(r@ =~= spec_nat_dec(n as int / 10) + seq![digit_char(n as int % 10)]);
        }
        r
    }
}

/// The canonical numeral of `v`, as characters.
pub fn int_dec_chars_i64(v: i64) -> (r: Vec<char>)
    ensures
        r@ == spec_int_dec(v as int),
{
    if v < 0 {
        let mag: u64 = if v == i64::MIN {
            i64::MAX as u64 + 1
        } else {
            (-v) as u64
        };
        let tail = nat_dec_chars_u64(mag);
        let mut r: Vec<char> = Vec::new();
        r.push('-');
        let mut i: usize = 0;
        while i < tail.len()
            invariant
                i <= tail@.len(),
                r@ == seq!['-'] + tail@.take(i as int),
            decreases tail@.len() - i,
        {
            r.push(tail[i]);
            i = i + 1;
            proof {
                assert(r@ =~= seq!['-'] + tail@.take(i as int));
            }
        }
        proof {
            assert(tail@.take(tail@.len() as int) =~= tail@);
        }
        r
    } else {
        nat_dec_chars_u64(v as u64)
    }
}

} // verus!
