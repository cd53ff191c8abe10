//! Key lifetimes as they are written in requests: `12h`, `3d`, `2m`.
use vstd::prelude::*;
use crate::decimal::{chars_of, decimal_text, format_i64, parse_i64, parse_i64_spec, lemma_decimal_round_trip};

verus! {

broadcast use vstd::string::group_string_axioms;

pub const SECS_PER_HOUR: i64 = 3600;

pub const SECS_PER_DAY: i64 = 86400;

/// A month counts as thirty days.
pub const DAYS_PER_MONTH: i64 = 30;

/// The largest span, in whole seconds, that a time delta can hold: `i64::MAX`
/// milliseconds, the bound of chrono's `TimeDelta`.
pub const MAX_SPAN_SECS: i64 = 9_223_372_036_854_775;

/// Why a lifetime text was refused.
#[derive(PartialEq, Eq, Structural, Debug, Clone, Copy)]
pub enum DurationError {
    /// The text is not a number followed by `h`, `d` or `m`.
    InvalidFormat,
    /// The number is well formed but the span does not fit in a time delta.
    OutOfRange,
}

/// A span of `secs` seconds, when a time delta can hold it.
pub open spec fn span_from(secs: int) -> Result<i64, DurationError> {
    if -MAX_SPAN_SECS <= secs && secs <= MAX_SPAN_SECS {
        Ok(secs as i64)
    } else {
        Err(DurationError::OutOfRange)
    }
}

/// The span, in seconds, that a lifetime text stands for: a whole number of
/// hours (`h`), days (`d`) or thirty-day months (`m`).
pub open spec fn duration_spec(s: Seq<char>) -> Result<i64, DurationError> {
    if s.len() == 0 {
        Err(DurationError::InvalidFormat)
    } else {
        let unit = s.last();
        let secs_per_unit: int = if unit == 'h' {
            SECS_PER_HOUR as int
        } else if unit == 'd' {
            SECS_PER_DAY as int
        } else {
            DAYS_PER_MONTH * SECS_PER_DAY
        };
        if unit != 'h' && unit != 'd' && unit != 'm' {
            Err(DurationError::InvalidFormat)
        } else {
            match parse_i64_spec(s.drop_last()) {
                Some(n) => span_from(n * secs_per_unit),
                None => Err(DurationError::InvalidFormat),
            }
        }
    }
}

/// Division that rounds toward zero, as Rust's `/` does, for a positive divisor.
pub open spec fn div_toward_zero(a: int, b: int) -> int {
    if a >= 0 {
        a / b
    } else {
        -((-a) / b)
    }
}

/// The remainder that goes with `div_toward_zero`, as Rust's `%` does.
pub open spec fn rem_toward_zero(a: int, b: int) -> int {
    a - b * div_toward_zero(a, b)
}

/// How a span is written back: in hours when they are not whole days, else in
/// days when they are not whole months, else in months.
pub open spec fn duration_text(secs: int) -> Seq<char> {
    let hours = div_toward_zero(secs, SECS_PER_HOUR as int);
    let days = div_toward_zero(secs, SECS_PER_DAY as int);
    if rem_toward_zero(hours, 24) != 0 {
        decimal_text(hours) + seq!['h']
    } else if rem_toward_zero(days, DAYS_PER_MONTH as int) != 0 {
        decimal_text(days) + seq!['d']
    } else {
        decimal_text(div_toward_zero(days, DAYS_PER_MONTH as int)) + seq!['m']
    }
}

/// Reads a key lifetime such as `12h`, `3d` or `2m` (a month is thirty days)
/// and gives its span in seconds.
pub fn deserialize_duration(s: &str) -> (r: Result<i64, DurationError>)
    ensures
        r == duration_spec(s@),
{
    let mut chars = chars_of(s);
    let n = chars.len();
    if n == 0 {
        return Err(DurationError::InvalidFormat);
    }
    let unit = chars[n - 1];
    let secs_per_unit: i128 = if unit == 'h' {
        3600
    } else if unit == 'd' {
        86400
    } else if unit == 'm' {
        2592000
    } else {
        return Err(DurationError::InvalidFormat);
    };
    let ghost whole = chars@;
    chars.pop();
    assert(chars@ =~= whole.drop_last());
    match parse_i64(chars.as_slice()) {
        Some(count) => {
            let secs: i128 = (count as i128) * secs_per_unit;
            if -(MAX_SPAN_SECS as i128) <= secs && secs <= (MAX_SPAN_SECS as i128) {
                Ok(secs as i64)
            } else {
                Err(DurationError::OutOfRange)
            }
        },
        None => Err(DurationError::InvalidFormat),
    }
}

/// `a / b` rounded toward zero, for a positive `b`.
fn div_i128(a: i128, b: i128) -> (q: i128)
    requires
        b > 0,
        a > i128::MIN,
    ensures
        q == div_toward_zero(a as int, b as int),
{
    if a >= 0 {
        a / b
    } else {
        -((-a) / b)
    }
}

/// Writes a span back as a lifetime text: whole hours as `Nh` unless they make
/// whole days, whole days as `Nd` unless they make whole thirty-day months, and
/// otherwise `Nm`.
pub fn serialize_duration(secs: i64) -> (r: String)
    ensures
        r@ == duration_text(secs as int),
{
    let hours = div_i128(secs as i128, 3600);
    let days = div_i128(secs as i128, 86400);
    let hours_rem = hours - 24 * div_i128(hours, 24);
    let days_rem = days - 30 * div_i128(days, 30);
    proof {
        reveal_strlit("h");
        reveal_strlit("d");
        reveal_strlit("m");
    }
    if hours_rem != 0 {
        let mut out = format_i64(hours as i64);
        out.append("h");
        out
    } else if days_rem != 0 {
        let mut out = format_i64(days as i64);
        out.append("d");
        out
    } else {
        let mut out = format_i64(div_i128(days, 30) as i64);
        out.append("m");
        out
    }
}

/// The units of a lifetime: `Nh` is `N * 3600` seconds, `Nd` is `N * 86400`
/// seconds and `Nm` is `N * 2592000` seconds (thirty days), whenever the span
/// stays within 9223372036854775 seconds either way, and out of range beyond;
/// a text before the unit that is no numeral is refused as badly formed.
pub proof fn lemma_duration_units(n: i64, prefix: Seq<char>)
    ensures
        duration_spec(decimal_text(n as int) + seq!['h']) == (if -9223372036854775 <= n * 3600
            <= 9223372036854775 {
            Ok::<i64, DurationError>((n * 3600) as i64)
        } else {
            Err(DurationError::OutOfRange)
        }),
        duration_spec(decimal_text(n as int) + seq!['d']) == (if -9223372036854775 <= n * 86400
            <= 9223372036854775 {
            Ok::<i64, DurationError>((n * 86400) as i64)
        } else {
            Err(DurationError::OutOfRange)
        }),
        duration_spec(decimal_text(n as int) + seq!['m']) == (if -9223372036854775 <= n * 2592000
            <= 9223372036854775 {
            Ok::<i64, DurationError>((n * 2592000) as i64)
        } else {
            Err(DurationError::OutOfRange)
        }),
        parse_i64_spec(prefix) is None ==> duration_spec(prefix + seq!['h']) == Err::<i64, DurationError>(
            DurationError::InvalidFormat,
        ),
        parse_i64_spec(prefix) is None ==> duration_spec(prefix + seq!['d']) == Err::<i64, DurationError>(
            DurationError::InvalidFormat,
        ),
        parse_i64_spec(prefix) is None ==> duration_spec(prefix + seq!['m']) == Err::<i64, DurationError>(
            DurationError::InvalidFormat,
        ),
{
    lemma_decimal_round_trip(n);
    let t = decimal_text(n as int);
    assert((t + seq!['h']).drop_last() =~= t);
    assert((t + seq!['d']).drop_last() =~= t);
    assert((t + seq!['m']).drop_last() =~= t);
    assert((prefix + seq!['h']).drop_last() =~= prefix);
    assert((prefix + seq!['d']).drop_last() =~= prefix);
    assert((prefix + seq!['m']).drop_last() =~= prefix);
}

/// How a span of whole hours is written: in hours (`Nh`) unless they make whole
/// days, in days (`Nd`) unless those make whole thirty-day months, else in
/// months (`Nm`); a negative span is written as its magnitude with a `-` in front.
pub proof fn lemma_duration_text_units(h: int)
    requires
        h > 0,
    ensures
        h % 24 != 0 ==> duration_text(h * 3600) == decimal_text(h) + seq!['h'],
        h % 24 == 0 && (h / 24) % 30 != 0 ==> duration_text(h * 3600) == decimal_text(h / 24) + seq!['d'],
        h % 720 == 0 ==> duration_text(h * 3600) == decimal_text(h / 720) + seq!['m'],
        duration_text(-(h * 3600)) == seq!['-'] + duration_text(h * 3600),
{
    let secs = h * 3600;
    assert(secs / 3600 == h) by (nonlinear_arith) requires secs == h * 3600;
    assert((-secs) / 3600 == -h) by (nonlinear_arith) requires secs == h * 3600;
    assert(div_toward_zero(secs, 3600) == h);
    assert(div_toward_zero(-secs, 3600) == -h);
    let d = secs / 86400;
    assert(d == h / 24) by (nonlinear_arith) requires secs == h * 3600, d == secs / 86400, h > 0;
    assert(div_toward_zero(secs, 86400) == h / 24);
    assert(div_toward_zero(-secs, 86400) == -(h / 24));
    assert(h / 24 >= 0);
    assert(div_toward_zero(h, 24) == h / 24);
    assert(div_toward_zero(-h, 24) == -(h / 24));
    assert(div_toward_zero(h / 24, 30) == (h / 24) / 30);
    assert(div_toward_zero(-(h / 24), 30) == -((h / 24) / 30));
    if h % 720 == 0 {
        assert((h / 24) / 30 == h / 720) by (nonlinear_arith) requires h % 720 == 0, h > 0;
        assert(h % 24 == 0) by (nonlinear_arith) requires h % 720 == 0, h > 0;
        assert((h / 24) % 30 == 0) by (nonlinear_arith) requires h % 720 == 0, h > 0;
    }
    if h % 24 != 0 {
        assert(rem_toward_zero(h, 24) != 0);
        assert(rem_toward_zero(-h, 24) != 0);
        assert(decimal_text(-h) =~= seq!['-'] + decimal_text(h));
        assert(duration_text(-secs) =~= seq!['-'] + duration_text(secs));
    } else {
        assert(rem_toward_zero(h, 24) == 0);
        assert(rem_toward_zero(-h, 24) == 0);
        assert(h / 24 > 0);
        assert(decimal_text(-(h / 24)) =~= seq!['-'] + decimal_text(h / 24));
        if (h / 24) % 30 != 0 {
            assert(duration_text(-secs) =~= seq!['-'] + duration_text(secs));
        } else {
            assert((h / 24) / 30 > 0);
            assert(decimal_text(-((h / 24) / 30)) =~= seq!['-'] + decimal_text((h / 24) / 30));
            assert(duration_text(-secs) =~= seq!['-'] + duration_text(secs));
        }
    }
}

/// Writing a span back and reading it again gives the same span, for every
/// span of whole hours that a time delta can hold.
pub proof fn lemma_duration_round_trip(secs: i64)
    requires
        secs % SECS_PER_HOUR == 0,
        -MAX_SPAN_SECS <= secs <= MAX_SPAN_SECS,
    ensures
        duration_spec(duration_text(secs as int)) == Ok::<i64, DurationError>(secs),
{
    let hours = div_toward_zero(secs as int, 3600);
    let days = div_toward_zero(secs as int, 86400);
    assert(hours * 3600 == secs);
    let t = duration_text(secs as int);
    if rem_toward_zero(hours, 24) != 0 {
        lemma_decimal_round_trip(hours as i64);
        assert(t.drop_last() =~= decimal_text(hours));
    } else {
        assert(hours == 24 * div_toward_zero(hours, 24));
        assert(days == div_toward_zero(hours, 24));
        assert(days * 86400 == secs);
        if rem_toward_zero(days, 30) != 0 {
            lemma_decimal_round_trip(days as i64);
            assert(t.drop_last() =~= decimal_text(days));
        } else {
            let months = div_toward_zero(days, 30);
            assert(months * 30 == days);
            lemma_decimal_round_trip(months as i64);
            assert(t.drop_last() =~= decimal_text(months));
            assert(months * (30 * 86400) == secs) by (nonlinear_arith)
                requires
                    months * 30 == days,
                    days * 86400 == secs,
            ;
        }
    }
}

} // verus!
