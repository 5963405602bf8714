//! Decimal text of signed 64-bit numbers: writing a number out and reading
//! it back.

use vstd::prelude::*;
use crate::identifier::is_decimal_digit;
use crate::text::to_chars;

verus! {

/// The character that writes the digit `d`.
pub open spec fn digit_char(d: int) -> char {
    (d + 48) as char
}

/// The digit that a character writes.
pub open spec fn digit_value(c: char) -> int {
    c as int - 48
}

/// The decimal text of a natural number, without leading zeros.
pub open spec fn nat_text(n: nat) -> Seq<char>
    decreases n,
{
    if n < 10 {
        seq![digit_char(n as int)]
    } else {
        nat_text(n / 10).push(digit_char((n % 10) as int))
    }
}

/// The decimal text of an integer: a minus sign in front of a negative one.
pub open spec fn int_text(v: int) -> Seq<char> {
    if v < 0 {
        seq!['-'] + nat_text((-v) as nat)
    } else {
        nat_text(v as nat)
    }
}

/// Whether every character is a decimal digit.
pub open spec fn all_digits(s: Seq<char>) -> bool {
    forall|i: int| 0 <= i < s.len() ==> is_decimal_digit(#[trigger] s[i])
}

/// The number that a run of digits writes, leading zeros allowed.
pub open spec fn digits_value(s: Seq<char>) -> nat
    decreases s.len(),
{
    if s.len() == 0 {
        0
    } else {
        (digits_value(s.drop_last()) * 10 + digit_value(s.last())) as nat
    }
}

/// The integer that a text writes: one or more digits, with an optional
/// minus sign in front. Any other text writes none.
pub open spec fn read_int(s: Seq<char>) -> Option<int> {
    if s.len() > 0 && s[0] == '-' {
        let digits = s.subrange(1, s.len() as int);
        if digits.len() > 0 && all_digits(digits) {
            Some(-(digits_value(digits) as int))
        } else {
            None
        }
    } else if s.len() > 0 && all_digits(s) {
        Some(digits_value(s) as int)
    } else {
        None
    }
}

/// The 64-bit number that a text writes; none where the text writes no
/// integer or one outside the 64-bit range.
pub open spec fn read_i64(s: Seq<char>) -> Option<i64> {
    match read_int(s) {
        Some(v) => if i64::MIN <= v <= i64::MAX {
            Some(v as i64)
        } else {
            None
        },
        None => None,
    }
}

/// The text of a natural number is a non-empty run of digits that writes
/// that number.
pub proof fn lemma_nat_text(n: nat)
    ensures
        nat_text(n).len() > 0,
        all_digits(nat_text(n)),
        digits_value(nat_text(n)) == n,
    decreases n,
{
    if n < 10 {
        let s = nat_text(n);
        assert(s.drop_last() =~= Seq::<char>::empty());
        assert(digits_value(s.drop_last()) == 0);
    } else {
        lemma_nat_text(n / 10);
        let s = nat_text(n);
        assert(s.drop_last() =~= nat_text(n / 10));
        assert forall|i: int| 0 <= i < s.len() implies is_decimal_digit(#[trigger] s[i]) by {
            if i < s.len() - 1 {
                assert(s[i] == nat_text(n / 10)[i]);
            }
        }
    }
}

/// Reading the text of an integer gives the integer back.
pub proof fn lemma_read_int_text(v: int)
    ensures
        read_int(int_text(v)) == Some(v),
{
    if v < 0 {
        let n = (-v) as nat;
        lemma_nat_text(n);
        let s = int_text(v);
        assert(s.subrange(1, s.len() as int) =~= nat_text(n));
    } else {
        lemma_nat_text(v as nat);
        let s = int_text(v);
        assert(is_decimal_digit(s[0]));
    }
}

/// The text of an integer holds no character but digits and the minus sign.
pub proof fn lemma_int_text_chars(v: int)
    ensures
        int_text(v).len() > 0,
        forall|i: int|
            0 <= i < int_text(v).len() ==> (is_decimal_digit(#[trigger] int_text(v)[i])
                || int_text(v)[i] == '-'),
{
    if v < 0 {
        lemma_nat_text((-v) as nat);
        let s = int_text(v);
        assert forall|i: int| 0 <= i < s.len() implies (is_decimal_digit(#[trigger] s[i]) || s[i]
            == '-') by {
            if i > 0 {
                assert(s[i] == nat_text((-v) as nat)[i - 1]);
            }
        }
    } else {
        lemma_nat_text(v as nat);
    }
}

/// A run of digits writes at least what any of its prefixes writes.
pub proof fn lemma_digits_value_prefix(s: Seq<char>, k: int)
    requires
        all_digits(s),
        0 <= k <= s.len(),
    ensures
        digits_value(s.take(k)) <= digits_value(s),
    decreases s.len(),
{
    if k == s.len() {
        assert(s.take(k) =~= s);
    } else {
        let t = s.drop_last();
        assert(is_decimal_digit(s[s.len() - 1]));
        assert forall|i: int| 0 <= i < t.len() implies is_decimal_digit(#[trigger] t[i]) by {
            assert(t[i] == s[i]);
        }
        lemma_digits_value_prefix(t, k);
        assert(t.take(k) =~= s.take(k));
    }
}

/// Appends the decimal text of `n` to `out`.
fn push_nat(out: &mut String, n: u64)
    ensures
        final(out)@ == old(out)@ + nat_text(n as nat),
    decreases n,
{
    if n >= 10 {
        push_nat(out, n / 10);
    }
    let d: u8 = (n % 10) as u8;
    out.push((d + 48) as char);
    assert(final(out)@ =~= old(out)@ + nat_text(n as nat));
}

/// Writes a number out in decimal.
pub fn format_i64(v: i64) -> (s: String)
    ensures
        s@ == int_text(v as int),
{
    let mut s: String = String::new();
    if v < 0 {
        s.push('-');
        let magnitude: u64 = ((-(v + 1)) as u64) + 1;
        push_nat(&mut s, magnitude);
        assert(s@ =~= int_text(v as int));
    } else {
        push_nat(&mut s, v as u64);
        assert(s@ =~= int_text(v as int));
    }
    s
}

/// The largest magnitude a 64-bit number can have: that of the least one.
pub const MAGNITUDE_LIMIT: u128 = 9223372036854775808;

/// Reads the digits `chars[from..]` as a magnitude of at most
/// `MAGNITUDE_LIMIT`; `None` where a character is no digit, where there is
/// no digit at all, or where the magnitude is larger.
fn read_digits(chars: &Vec<char>, from: usize) -> (r: Option<u128>)
    requires
        from <= chars@.len(),
    ensures
        ({
            let digits = chars@.subrange(from as int, chars@.len() as int);
            match r {
                Some(m) => digits.len() > 0 && all_digits(digits) && m == digits_value(digits) && m
                    <= MAGNITUDE_LIMIT,
                None => digits.len() == 0 || !all_digits(digits) || digits_value(digits)
                    > MAGNITUDE_LIMIT,
            }
        }),
{
    let ghost digits = chars@.subrange(from as int, chars@.len() as int);
    let n: usize = chars.len();
    if from == n {
        return None;
    }
    let mut acc: u128 = 0;
    let mut i: usize = from;
    while i < n
        invariant
            from <= i <= n,
            n == chars@.len(),
            digits == chars@.subrange(from as int, n as int),
            all_digits(digits.take(i - from)),
            acc == digits_value(digits.take(i - from)),
            acc <= MAGNITUDE_LIMIT,
        decreases n - i,
    {
        let c: char = chars[i];
        assert(c == digits[i - from]);
        if !('0' <= c && c <= '9') {
            return None;
        }
        let d: u128 = (c as u32 - 48) as u128;
        let next: u128 = acc * 10 + d;
        proof {
            let longer = digits.take(i - from + 1);
            assert(longer.drop_last() =~= digits.take(i - from));
            assert(longer.last() == c);
            assert(next == digits_value(longer));
            assert forall|j: int| 0 <= j < longer.len() implies is_decimal_digit(
                #[trigger] longer[j],
            ) by {
                if j < longer.len() - 1 {
                    assert(longer[j] == digits.take(i - from)[j]);
                }
            }
        }
        if next > MAGNITUDE_LIMIT {
            proof {
                if all_digits(digits) {
                    lemma_digits_value_prefix(digits, i - from + 1);
                }
            }
            return None;
        }
        acc = next;
        i += 1;
    }
    assert(digits.take(n - from) =~= digits);
    Some(acc)
}

/// Reads a number written in decimal. The text may carry a minus sign and
/// leading zeros, and nothing else beside its digits.
pub fn parse_i64(s: &str) -> (r: Option<i64>)
    ensures
        r == read_i64(s@),
{
    let chars: Vec<char> = to_chars(s);
    let n: usize = chars.len();
    if n > 0 && chars[0] == '-' {
        match read_digits(&chars, 1) {
            Some(m) => {
                if m == MAGNITUDE_LIMIT {
                    Some(i64::MIN)
                } else {
                    Some(-(m as i64))
                }
            },
            None => None,
        }
    } else {
        assert(chars@.subrange(0, n as int) =~= chars@);
        match read_digits(&chars, 0) {
            Some(m) => {
                if m == MAGNITUDE_LIMIT {
                    None
                } else {
                    Some(m as i64)
                }
            },
            None => None,
        }
    }
}

} // verus!
