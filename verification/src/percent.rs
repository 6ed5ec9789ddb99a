//! Parsing and clamping of utilization percentages.
//!
//! A percentage is stored in hundredths of a percent, clamped to
//! `[0, 10_000]`. Textual inputs accept a plain decimal number — optional
//! `+` sign, digits, an optional fraction — after ASCII-whitespace trimming;
//! anything else (including a negative number, which would clamp to zero
//! anyway) yields `0`. Fractional digits beyond the second are dropped,
//! which never moves a value across a whole-percent or threshold boundary.

use vstd::prelude::*;

use crate::strings::{is_space_char, trim_of, trim_spec};
use crate::types::{valid_percent, PERCENT_MAX_HUNDREDTHS};

verus! {

pub open spec fn is_digit(c: char) -> bool {
    '0' <= c && c <= '9'
}

pub open spec fn digit_val(c: char) -> nat {
    if is_digit(c) {
        (c as u32 - '0' as u32) as nat
    } else {
        0
    }
}

/// Value of a digit string read as a base-ten integer.
pub open spec fn int_val(s: Seq<char>) -> nat
    decreases s.len(),
{
    if s.len() == 0 {
        0
    } else {
        int_val(s.take(s.len() - 1)) * 10 + digit_val(s[s.len() - 1])
    }
}

pub open spec fn all_digits(s: Seq<char>) -> bool {
    forall|i: int| 0 <= i < s.len() ==> is_digit(#[trigger] s[i])
}

/// Length of the longest digit prefix.
pub open spec fn digits_prefix_len(s: Seq<char>) -> int
    decreases s.len(),
{
    if s.len() > 0 && is_digit(s[0]) {
        1 + digits_prefix_len(s.skip(1))
    } else {
        0
    }
}

/// Hundredths contributed by a fraction: the first digit counts as tenths of
/// a percent, the second as hundredths, the rest are dropped.
pub open spec fn frac_hundredths(frac: Seq<char>) -> nat {
    (if frac.len() >= 1 {
        digit_val(frac[0]) * 10
    } else {
        0
    }) + (if frac.len() >= 2 {
        digit_val(frac[1])
    } else {
        0
    })
}

pub open spec fn clamp_hundredths(n: nat) -> u32 {
    if n > PERCENT_MAX_HUNDREDTHS {
        PERCENT_MAX_HUNDREDTHS
    } else {
        n as u32
    }
}

/// The percentage a piece of text denotes, in clamped hundredths: trim it,
/// allow one leading `+`, then read `digits[.digits]`; any other shape is 0.
pub open spec fn percent_from_text(raw: Seq<char>) -> u32 {
    let t = trim_spec(raw);
    let body = if t.len() > 0 && t[0] == '+' {
        t.skip(1)
    } else {
        t
    };
    let d = digits_prefix_len(body);
    if body.len() == 0 {
        0
    } else if d == body.len() {
        clamp_hundredths(int_val(body) * 100)
    } else if body[d] == '.' && all_digits(body.skip(d + 1)) && !(d == 0 && body.len() == 1) {
        clamp_hundredths(int_val(body.take(d)) * 100 + frac_hundredths(body.skip(d + 1)))
    } else {
        0
    }
}

/// Integer values above 100 all clamp alike, so the scanner may saturate its
/// accumulator at 101 without changing the outcome.
pub open spec fn capped(n: nat) -> u32 {
    if n > 100 {
        101
    } else {
        n as u32
    }
}

proof fn lemma_digits_prefix(s: Seq<char>, m: int)
    requires
        0 <= m <= s.len(),
        forall|k: int| 0 <= k < m ==> is_digit(#[trigger] s[k]),
        m == s.len() || !is_digit(s[m]),
    ensures
        digits_prefix_len(s) == m,
    decreases m,
{
    if m == 0 {
    } else {
        assert(is_digit(s[0]));
        lemma_digits_prefix(s.skip(1), m - 1);
    }
}

/// Parsing always lands in the clamped range; non-numeric text yields 0.
pub proof fn lemma_percent_from_text_clamped(raw: Seq<char>)
    ensures
        valid_percent(percent_from_text(raw)),
{
}

pub fn is_digit_char(c: char) -> (r: bool)
    ensures
        r == is_digit(c),
{
    '0' <= c && c <= '9'
}

/// Parse a percentage out of text, clamped to hundredths in `[0, 10_000]`.
pub fn parse_percent_hundredths(s: &str) -> (r: u32)
    ensures
        r == percent_from_text(s@),
        valid_percent(r),
{
    let t = trim_of(s);
    let ts = t.as_str();
    let len = ts.unicode_len();
    let idx: usize = if len > 0 && ts.get_char(0) == '+' {
        1
    } else {
        0
    };
    let ghost body = if t@.len() > 0 && t@[0] == '+' {
        t@.skip(1)
    } else {
        t@
    };
    proof {
        if idx == 1 {
            assert(body =~= t@.subrange(1, len as int));
        } else {
            assert(body =~= t@.subrange(0, len as int));
        }
    }

    let mut i: usize = idx;
    let mut acc: u32 = 0;
    while i < len && is_digit_char(ts.get_char(i))
        invariant
            idx <= i <= len,
            len == t@.len(),
            ts@ == t@,
            idx == 0 || idx == 1,
            body == t@.subrange(idx as int, len as int),
            forall|k: int| idx <= k < i ==> is_digit(#[trigger] t@[k]),
            acc == capped(int_val(t@.subrange(idx as int, i as int))),
        decreases len - i,
    {
        let c = ts.get_char(i);
        let d = (c as u32) - ('0' as u32);
        proof {
            let prefix = t@.subrange(idx as int, i as int);
            let next = t@.subrange(idx as int, i as int + 1);
            assert(next.take(next.len() - 1) =~= prefix);
            assert(next[next.len() - 1] == t@[i as int]);
        }
        let full = acc * 10 + d;
        acc = if full > 100 {
            101
        } else {
            full
        };
        i = i + 1;
    }
    proof {
        lemma_digits_prefix(body, i - idx);
        assert(body.take(i - idx) =~= t@.subrange(idx as int, i as int));
    }

    if i == len {
        // Plain integer (or an empty body, which is worth 0 anyway).
        proof {
            assert(body =~= t@.subrange(idx as int, i as int));
        }
        if acc > 100 {
            return PERCENT_MAX_HUNDREDTHS;
        }
        return acc * 100;
    }

    if ts.get_char(i) != '.' {
        return 0;
    }
    if i == idx && i + 1 == len {
        // A bare dot carries no digits.
        return 0;
    }

    let mut j: usize = i + 1;
    let mut frac_h: u32 = 0;
    while j < len
        invariant
            i + 1 <= j <= len,
            len == t@.len(),
            ts@ == t@,
            idx <= i < len,
            idx == 0 || idx == 1,
            body == t@.subrange(idx as int, len as int),
            t@ == trim_spec(s@),
            (idx == 1) == (t@.len() > 0 && t@[0] == '+'),
            digits_prefix_len(body) == i - idx,
            t@[i as int] == '.',
            forall|k: int| i + 1 <= k < j ==> is_digit(#[trigger] t@[k]),
            frac_h == (if j >= i + 2 {
                digit_val(t@[i as int + 1]) * 10
            } else {
                0
            }) + (if j >= i + 3 {
                digit_val(t@[i as int + 2])
            } else {
                0
            }),
        decreases len - j,
    {
        let c = ts.get_char(j);
        if !is_digit_char(c) {
            proof {
                let tt = trim_spec(s@);
                if idx == 1 {
                    assert(body =~= t@.skip(1));
                } else {
                    assert(body =~= t@);
                }
                let sbody = if tt.len() > 0 && tt[0] == '+' {
                    tt.skip(1)
                } else {
                    tt
                };
                assert(sbody == body);
                let d = digits_prefix_len(sbody);
                assert(d == i - idx);
                assert(0 < sbody.len());
                assert(d < sbody.len());
                assert(sbody[d] == t@[i as int]);
                let frac = sbody.skip(d + 1);
                assert(frac =~= t@.subrange(i as int + 1, len as int));
                assert(frac[j as int - (i as int + 1)] == t@[j as int]);
                assert(!all_digits(frac));
                assert(percent_from_text(s@) == 0);
            }
            return 0;
        }
        if j == i + 1 {
            frac_h = ((c as u32) - ('0' as u32)) * 10;
        } else if j == i + 2 {
            frac_h = frac_h + ((c as u32) - ('0' as u32));
        }
        j = j + 1;
    }

    let ghost frac = body.skip(i - idx + 1);
    proof {
        assert(frac =~= t@.subrange(i as int + 1, len as int));
        assert(all_digits(frac));
        if frac.len() >= 1 {
            assert(frac[0] == t@[i as int + 1]);
        }
        if frac.len() >= 2 {
            assert(frac[1] == t@[i as int + 2]);
        }
        assert(frac_h == frac_hundredths(frac));
        assert(body.take(i - idx) =~= t@.subrange(idx as int, i as int));
    }

    let total = acc * 100 + frac_h;
    if total > PERCENT_MAX_HUNDREDTHS {
        PERCENT_MAX_HUNDREDTHS
    } else {
        total
    }
}

/// Clamp a whole-number percentage (as the Codex usage endpoint reports) to
/// hundredths in `[0, 10_000]`.
pub open spec fn clamp_whole_percent(v: int) -> u32 {
    if v < 0 {
        0
    } else if v > 100 {
        PERCENT_MAX_HUNDREDTHS
    } else {
        (v * 100) as u32
    }
}

pub fn clamp_percent_whole(v: i64) -> (r: u32)
    ensures
        r == clamp_whole_percent(v as int),
        valid_percent(r),
{
    if v < 0 {
        0
    } else if v > 100 {
        PERCENT_MAX_HUNDREDTHS
    } else {
        (v as u32) * 100
    }
}

/// Round hundredths to the nearest whole percent, halves up — what the
/// display layer shows and the helper-process windows are reduced to.
pub open spec fn round_whole(h: u32) -> u32 {
    ((h + 50) / 100) as u32
}

pub fn round_to_whole_percent(h: u32) -> (r: u32)
    requires
        valid_percent(h),
    ensures
        r == round_whole(h),
        r <= 100,
{
    (h + 50) / 100
}

} // verus!
