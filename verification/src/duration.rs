//! Verified parsing of duration expressions into milliseconds.
//!
//! A duration is an unsigned decimal magnitude followed by an optional
//! unit: `ms` (milliseconds), `s` (seconds), `m` (minutes) or `h`
//! (hours); a bare magnitude counts as milliseconds. The result is the
//! magnitude scaled to milliseconds; an expression whose value does not
//! fit `u64` is rejected.

use vstd::prelude::*;

use crate::numbers::{all_dec_digits, dec_value, lemma_dec_value_nonneg, parse_u64};

verus! {

/// The value of `s` as a decimal magnitude scaled by `unit_ms`, or
/// nothing when `s` is not a nonempty run of digits.
pub open spec fn scaled_magnitude(s: Seq<char>, unit_ms: int) -> Option<int> {
    if s.len() > 0 && all_dec_digits(s) {
        Some(dec_value(s) * unit_ms)
    } else {
        None
    }
}

/// The mathematical value in milliseconds of the duration expression
/// `s`, or nothing when `s` is malformed.
pub open spec fn duration_ms(s: Seq<char>) -> Option<int> {
    if s.len() >= 2 && s[s.len() - 2] == 'm' && s[s.len() - 1] == 's' {
        scaled_magnitude(s.subrange(0, s.len() - 2), 1)
    } else if s.len() >= 1 && s.last() == 's' {
        scaled_magnitude(s.subrange(0, s.len() - 1), 1000)
    } else if s.len() >= 1 && s.last() == 'm' {
        scaled_magnitude(s.subrange(0, s.len() - 1), 60000)
    } else if s.len() >= 1 && s.last() == 'h' {
        scaled_magnitude(s.subrange(0, s.len() - 1), 3600000)
    } else {
        scaled_magnitude(s, 1)
    }
}

/// Parse the duration expression `s` into milliseconds.
pub fn parse_duration_ms(s: &str) -> (r: Option<u64>)
    ensures
        r is Some <==> (duration_ms(s@) matches Some(v) && v <= u64::MAX),
        r matches Some(v) ==> duration_ms(s@) == Some(v as int),
{
    let n = s.unicode_len();
    if n >= 2 && s.get_char(n - 2) == 'm' && s.get_char(n - 1) == 's' {
        let mag = s.substring_char(0, n - 2);
        parse_u64(mag)
    } else if n >= 1 && s.get_char(n - 1) == 's' {
        let mag = s.substring_char(0, n - 1);
        scale_magnitude(mag, 1000)
    } else if n >= 1 && s.get_char(n - 1) == 'm' {
        let mag = s.substring_char(0, n - 1);
        scale_magnitude(mag, 60000)
    } else if n >= 1 && s.get_char(n - 1) == 'h' {
        let mag = s.substring_char(0, n - 1);
        scale_magnitude(mag, 3600000)
    } else {
        parse_u64(s)
    }
}

/// Parse `mag` as a decimal magnitude and scale it by `unit_ms`,
/// rejecting products that do not fit `u64`.
fn scale_magnitude(mag: &str, unit_ms: u64) -> (r: Option<u64>)
    requires
        unit_ms >= 1,
    ensures
        r is Some <==> (scaled_magnitude(mag@, unit_ms as int) matches Some(v) && v <= u64::MAX),
        r matches Some(v) ==> scaled_magnitude(mag@, unit_ms as int) == Some(v as int),
{
    match parse_u64(mag) {
        Some(v) => {
            if v <= u64::MAX / unit_ms {
                proof {
                    assert(v * unit_ms <= (u64::MAX / unit_ms) * unit_ms) by (nonlinear_arith)
                        requires
                            v <= u64::MAX / unit_ms,
                            unit_ms >= 1,
                    ;
                    assert((u64::MAX / unit_ms) * unit_ms <= u64::MAX) by (nonlinear_arith)
                        requires
                            unit_ms >= 1,
                    ;
                }
                Some(v * unit_ms)
            } else {
                proof {
                    assert(v * unit_ms > u64::MAX) by (nonlinear_arith)
                        requires
                            v > u64::MAX / unit_ms,
                            unit_ms >= 1,
                    ;
                }
                None
            }
        },
        None => {
            proof {
                if all_dec_digits(mag@) && mag@.len() > 0 {
                    lemma_dec_value_nonneg(mag@);
                    assert(dec_value(mag@) > u64::MAX);
                    assert(dec_value(mag@) * unit_ms >= dec_value(mag@)) by (nonlinear_arith)
                        requires
                            unit_ms >= 1,
                            dec_value(mag@) >= 0,
                    ;
                }
            }
            None
        },
    }
}

} // verus!
