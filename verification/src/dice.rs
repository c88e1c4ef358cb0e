//! Dice expressions such as `2d6+1`.

use vstd::prelude::*;
use crate::text::{
    chars_of, digit_run, int_of, magnitude_limit, magnitude_of, parse_int_range, parse_magnitude,
    scan_digits,
};

verus! {

/// What a dice expression denotes: `(dice, sides, bonus)`.
///
/// A dice expression is a run of digits (how many dice), the letter `d`, a
/// run of digits (how many sides), and optionally a signed bonus: `+` or `-`
/// and a run of digits. Nothing may stand before, between or after these
/// parts, and each number has to fit in 32 bits. Without a bonus part the
/// bonus is zero. Every other text denotes nothing.
pub open spec fn dice_of(s: Seq<char>) -> Option<(int, int, int)> {
    let n_len = digit_run(s) as int;
    if n_len >= s.len() || s[n_len] != 'd' {
        None
    } else {
        let rest = s.skip(n_len + 1);
        let d_len = digit_run(rest) as int;
        let tail = rest.skip(d_len);
        match (magnitude_of(s.take(n_len)), magnitude_of(rest.take(d_len))) {
            (Some(n), Some(d)) => {
                if n >= magnitude_limit() || d >= magnitude_limit() {
                    None
                } else if tail.len() == 0 {
                    Some((n, d, 0))
                } else {
                    match int_of(tail) {
                        Some(b) => Some((n, d, b)),
                        None => None,
                    }
                }
            },
            _ => None,
        }
    }
}

/// Parses a dice expression such as `2d6+1` into `(dice, sides, bonus)`.
pub fn parse_dice_string(dice: &str) -> (r: Option<(i32, i32, i32)>)
    ensures
        r is Some <==> dice_of(dice@) is Some,
        r matches Some(t) ==> dice_of(dice@) == Some((t.0 as int, t.1 as int, t.2 as int)),
{
    let v = chars_of(dice);
    let ghost s = v@;
    assert(s.skip(0) =~= s);
    let n_end = scan_digits(&v, 0);
    if n_end >= v.len() || v[n_end] != 'd' {
        return None;
    }
    let d_start = n_end + 1;
    let d_end = scan_digits(&v, d_start);
    let ghost rest = s.skip(d_start as int);
    let ghost tail = rest.skip(d_end - d_start);
    proof {
        assert(s.take(n_end as int) =~= s.subrange(0, n_end as int));
        assert(rest.take(d_end - d_start) =~= s.subrange(d_start as int, d_end as int));
        assert(tail =~= s.subrange(d_end as int, s.len() as int));
    }
    let n = match parse_magnitude(&v, 0, n_end) {
        Some(n) => n,
        None => {
            return None;
        },
    };
    let d = match parse_magnitude(&v, d_start, d_end) {
        Some(d) => d,
        None => {
            return None;
        },
    };
    if n >= 0x8000_0000 || d >= 0x8000_0000 {
        return None;
    }
    if d_end == v.len() {
        return Some((n as i32, d as i32, 0));
    }
    match parse_int_range(&v, d_end, v.len()) {
        Some(b) => Some((n as i32, d as i32, b)),
        None => None,
    }
}

} // verus!
