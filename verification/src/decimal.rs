//! Decimal integers as they appear in request parameters and replies.
use vstd::prelude::*;

verus! {

broadcast use vstd::string::group_string_axioms;

/// `c` is one of the ASCII digits `0` to `9`.
pub open spec fn is_digit(c: char) -> bool {
    '0' <= c && c <= '9'
}

/// The value of an ASCII digit.
pub open spec fn digit_value(c: char) -> int {
    (c as int) - ('0' as int)
}

/// Every character of `s` is an ASCII digit.
pub open spec fn all_digits(s: Seq<char>) -> bool {
    forall|i: int| 0 <= i < s.len() ==> is_digit(#[trigger] s[i])
}

/// The value of a string of digits, read in base ten.
pub open spec fn digits_value(s: Seq<char>) -> int
    decreases s.len(),
{
    if s.len() == 0 {
        0
    } else {
        10 * digits_value(s.drop_last()) + digit_value(s.last())
    }
}

/// An optional leading sign split off a numeral: whether it was `-`, and the rest.
pub open spec fn split_sign(s: Seq<char>) -> (bool, Seq<char>) {
    if s.len() > 0 && s[0] == '-' {
        (true, s.drop_first())
    } else if s.len() > 0 && s[0] == '+' {
        (false, s.drop_first())
    } else {
        (false, s)
    }
}

/// The integer that `s` writes: an optional `+` or `-` followed by at least one
/// digit and nothing else; `None` for any other text.
pub open spec fn numeral_value(s: Seq<char>) -> Option<int> {
    let (negative, body) = split_sign(s);
    if body.len() == 0 || !all_digits(body) {
        None
    } else if negative {
        Some(-digits_value(body))
    } else {
        Some(digits_value(body))
    }
}

/// The `i64` that `s` writes, or `None` when `s` is no numeral or its value
/// does not fit in an `i64`: the rule of `i64::from_str`.
pub open spec fn parse_i64_spec(s: Seq<char>) -> Option<i64> {
    match numeral_value(s) {
        Some(v) => if i64::MIN <= v && v <= i64::MAX {
            Some(v as i64)
        } else {
            None
        },
        None => None,
    }
}

/// The digit character for `d < 10`.
pub open spec fn digit_char(d: nat) -> char {
    (('0' as int) + d) as char
}

/// The digits of `m` in base ten, most significant first, without leading zeros.
pub open spec fn digits_of(m: nat) -> Seq<char>
    decreases m,
{
    if m < 10 {
        seq![digit_char(m)]
    } else {
        digits_of(m / 10) + seq![digit_char(m % 10)]
    }
}

/// How `n` is written in decimal: a `-` for negative values, then the digits of
/// its magnitude.
pub open spec fn decimal_text(n: int) -> Seq<char> {
    if n < 0 {
        seq!['-'] + digits_of((-n) as nat)
    } else {
        digits_of(n as nat)
    }
}

proof fn lemma_digits_value_nonneg(s: Seq<char>)
    requires
        all_digits(s),
    ensures
        digits_value(s) >= 0,
    decreases s.len(),
{
    if s.len() > 0 {
        lemma_digits_value_nonneg(s.drop_last());
    }
}

/// A prefix of a digit string is worth no more than the whole string.
proof fn lemma_prefix_value_le(s: Seq<char>, j: int)
    requires
        all_digits(s),
        0 <= j <= s.len(),
    ensures
        digits_value(s.take(j)) <= digits_value(s),
    decreases s.len(),
{
    if j < s.len() {
        assert(s.drop_last().take(j) =~= s.take(j));
        lemma_prefix_value_le(s.drop_last(), j);
        lemma_digits_value_nonneg(s.drop_last());
    } else {
        assert(s.take(j) =~= s);
    }
}

proof fn lemma_digits_of(m: nat)
    ensures
        digits_of(m).len() >= 1,
        all_digits(digits_of(m)),
        digits_value(digits_of(m)) == m,
    decreases m,
{
    if m < 10 {
        let s = digits_of(m);
        assert(s.drop_last() =~= Seq::<char>::empty());
        assert(digit_value(digit_char(m)) == m);
        assert(digits_value(s.drop_last()) == 0);
        assert(s.last() == digit_char(m));
    } else {
        lemma_digits_of(m / 10);
        let s = digits_of(m);
        assert(s.drop_last() =~= digits_of(m / 10));
        assert(digit_value(digit_char(m % 10)) == m % 10);
        assert(s.last() == digit_char(m % 10));
        assert(m == 10 * (m / 10) + m % 10);
        assert forall|i: int| 0 <= i < s.len() implies is_digit(#[trigger] s[i]) by {
            if i < s.len() - 1 {
                assert(s[i] == digits_of(m / 10)[i]);
            }
        }
    }
}

/// Reading back what `decimal_text` writes gives the number again.
pub proof fn lemma_decimal_round_trip(n: i64)
    ensures
        parse_i64_spec(decimal_text(n as int)) == Some(n),
{
    if n < 0 {
        let m = (-(n as int)) as nat;
        lemma_digits_of(m);
        let s = decimal_text(n as int);
        assert(s.drop_first() =~= digits_of(m));
    } else {
        lemma_digits_of(n as nat);
        let s = digits_of(n as nat);
        assert(is_digit(s[0]));
    }
}

/// What `i64::from_str` accepts: one optional `+` or `-`, then one or more
/// ASCII digits and nothing else (no spaces, no underscores); and a numeral
/// with a leading `-` reads as a value no greater than zero, one without as a
/// value no less than zero.
pub proof fn lemma_accepted_numerals(s: Seq<char>)
    ensures
        parse_i64_spec(s) is Some ==> s.len() >= 1 && (is_digit(s[0]) || s[0] == '+' || s[0] == '-'),
        parse_i64_spec(s) is Some ==> forall|i: int| 1 <= i < s.len() ==> is_digit(#[trigger] s[i]),
        parse_i64_spec(s) is Some && (s[0] == '+' || s[0] == '-') ==> s.len() >= 2,
        parse_i64_spec(s) is Some && s[0] == '-' ==> parse_i64_spec(s)->0 <= 0,
        parse_i64_spec(s) is Some && s[0] != '-' ==> parse_i64_spec(s)->0 >= 0,
        s.len() == 0 ==> parse_i64_spec(s) is None,
{
    if parse_i64_spec(s) is Some {
        let (negative, body) = split_sign(s);
        lemma_digits_value_nonneg(body);
        if s[0] == '+' || s[0] == '-' {
            assert forall|i: int| 1 <= i < s.len() implies is_digit(#[trigger] s[i]) by {
                assert(s[i] == body[i - 1]);
            }
        } else {
            assert(body == s);
        }
    }
}

/// The characters of a string slice, in order.
pub fn chars_of(s: &str) -> (v: Vec<char>)
    ensures
        v@ == s@,
{
    let mut v: Vec<char> = Vec::new();
    for c in it: s.chars()
        invariant
            it.seq() == s@,
            v@ == it.seq().take(it.index()),
    {
        v.push(c);
    }
    v
}

/// Reads an `i64` from the characters `s` by the rule of `i64::from_str`: an
/// optional sign, then one or more digits, and a value that fits.
pub fn parse_i64(s: &[char]) -> (r: Option<i64>)
    ensures
        r == parse_i64_spec(s@),
{
    let n = s.len();
    if n == 0 {
        return None;
    }
    let mut start: usize = 0;
    let mut negative = false;
    if s[0] == '-' {
        negative = true;
        start = 1;
    } else if s[0] == '+' {
        start = 1;
    }
    let ghost body = s@.subrange(start as int, n as int);
    assert(split_sign(s@) == (negative, body)) by {
        if start == 1 {
            assert(body =~= s@.drop_first());
        } else {
            assert(body =~= s@);
        }
    }
    if start == n {
        return None;
    }
    let mut acc: i128 = 0;
    let mut i: usize = start;
    while i < n
        invariant
            start <= i <= n,
            start < n,
            n == s@.len(),
            body == s@.subrange(start as int, n as int),
            split_sign(s@) == (negative, body),
            all_digits(body.take(i - start)),
            negative ==> acc == -digits_value(body.take(i - start)),
            !negative ==> acc == digits_value(body.take(i - start)),
            i64::MIN <= acc <= i64::MAX,
        decreases n - i,
    {
        let c = s[i];
        let ghost k = (i - start) as int;
        if !('0' <= c && c <= '9') {
            assert(body[k] == c);
            return None;
        }
        let d = ((c as u32) - ('0' as u32)) as i128;
        assert(body.take(k + 1).drop_last() =~= body.take(k));
        assert(body.take(k + 1).last() == c);
        assert(all_digits(body.take(k + 1))) by {
            assert forall|j: int| 0 <= j < k + 1 implies is_digit(#[trigger] body.take(k + 1)[j]) by {
                if j < k {
                    assert(body.take(k + 1)[j] == body.take(k)[j]);
                }
            }
        }
        if negative {
            acc = acc * 10 - d;
        } else {
            acc = acc * 10 + d;
        }
        if acc < (i64::MIN as i128) || acc > (i64::MAX as i128) {
            proof {
                if all_digits(body) {
                    lemma_prefix_value_le(body, k + 1);
                    lemma_digits_value_nonneg(body.take(k + 1));
                }
            }
            return None;
        }
        i = i + 1;
    }
    assert(body.take(n - start) =~= body);
    Some(acc as i64)
}

/// The one-character string of the digit `d`.
fn digit_str(d: u64) -> (r: &'static str)
    requires
        d < 10,
    ensures
        r@ == seq![digit_char(d as nat)],
{
    proof {
        reveal_strlit("0");
        reveal_strlit("1");
        reveal_strlit("2");
        reveal_strlit("3");
        reveal_strlit("4");
        reveal_strlit("5");
        reveal_strlit("6");
        reveal_strlit("7");
        reveal_strlit("8");
        reveal_strlit("9");
    }
    if d == 0 {
        "0"
    } else if d == 1 {
        "1"
    } else if d == 2 {
        "2"
    } else if d == 3 {
        "3"
    } else if d == 4 {
        "4"
    } else if d == 5 {
        "5"
    } else if d == 6 {
        "6"
    } else if d == 7 {
        "7"
    } else if d == 8 {
        "8"
    } else {
        "9"
    }
}

/// Appends the decimal digits of `m` to `out`.
fn push_digits(out: &mut String, m: u64)
    ensures
        final(out)@ == old(out)@ + digits_of(m as nat),
    decreases m,
{
    if m >= 10 {
        push_digits(out, m / 10);
        out.append(digit_str(m % 10));
        assert(final(out)@ =~= old(out)@ + digits_of(m as nat));
    } else {
        out.append(digit_str(m));
    }
}

/// Writes `n` in decimal, as `i64::to_string` does.
pub fn format_i64(n: i64) -> (r: String)
    ensures
        r@ == decimal_text(n as int),
{
    let mut out = String::new();
    if n < 0 {
        proof {
            reveal_strlit("-");
        }
        out.append("-");
        let magnitude: u64 = ((-(n as i128)) as u64);
        push_digits(&mut out, magnitude);
    } else {
        push_digits(&mut out, n as u64);
    }
    assert(out@ =~= decimal_text(n as int));
    out
}

} // verus!
