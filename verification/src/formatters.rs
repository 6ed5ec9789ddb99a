//! Text the display layer shows: the tray title with its rounded
//! percentages, the severity level behind the title color, and the
//! locale-oriented clean-up of time and date strings. Time-zone and locale
//! rendering itself comes from `chrono` behind a trusted wrapper; the
//! clean-up of what it returns is verified. Character classes here are
//! ASCII: tokens are split on ASCII whitespace and "alphanumeric" means
//! ASCII letters and digits.

use vstd::prelude::*;

use crate::percent::{round_to_whole_percent, round_whole};
use crate::strings::{
    ascii_lower,
    ascii_lower_char,
    ascii_upper,
    ascii_upper_char,
    dec_str,
    is_space,
    is_space_char,
    string_from_chars,
    trim_of,
    trim_spec,
    u32_to_string,
};
use crate::types::{ClaudeUsageSnapshot, CodexUsageSnapshot, UsageSnapshotBundle, PERCENT_MAX_HUNDREDTHS};

verus! {

/// A percentage capped into the clamped range, so that display never has a
/// precondition: values are clamped at parse time anyway.
pub open spec fn capped_percent(h: u32) -> u32 {
    if h > PERCENT_MAX_HUNDREDTHS {
        PERCENT_MAX_HUNDREDTHS
    } else {
        h
    }
}

/// The text shown for one percentage: rounded to a whole percent, or the
/// `--%` placeholder when there is none to show.
pub open spec fn percent_text(value: Option<u32>) -> Seq<char> {
    match value {
        Some(h) => dec_str(round_whole(capped_percent(h)) as nat) + "%"@,
        None => "--%"@,
    }
}

pub fn format_percent(value: Option<u32>) -> (r: String)
    ensures
        r@ == percent_text(value),
{
    match value {
        Some(h) => {
            let capped = if h > PERCENT_MAX_HUNDREDTHS {
                PERCENT_MAX_HUNDREDTHS
            } else {
                h
            };
            let mut s = u32_to_string(round_to_whole_percent(capped));
            s.append("%");
            s
        },
        None => "--%".to_owned(),
    }
}

/// The session percentage a bundle shows for the first provider, when its snapshot is a
/// success.
pub open spec fn claude_session(snapshot: Option<UsageSnapshotBundle>) -> Option<u32> {
    match snapshot {
        Some(b) => match b.claude {
            Some(ClaudeUsageSnapshot::Success { session_percent, .. }) => Some(session_percent),
            _ => None,
        },
        None => None,
    }
}

pub open spec fn codex_session(snapshot: Option<UsageSnapshotBundle>) -> Option<u32> {
    match snapshot {
        Some(b) => match b.codex {
            Some(CodexUsageSnapshot::Success { session_percent, .. }) => Some(session_percent),
            _ => None,
        },
        None => None,
    }
}

/// The tray title: both providers' session percentages in dual mode, one
/// provider's otherwise, the placeholder with nothing enabled. Error-state
/// snapshots show the placeholder.
pub open spec fn tray_title_spec(
    track_claude: bool,
    track_codex: bool,
    snapshot: Option<UsageSnapshotBundle>,
) -> Seq<char> {
    if track_claude && track_codex {
        "CL "@ + percent_text(claude_session(snapshot)) + " · CX "@ + percent_text(
            codex_session(snapshot),
        )
    } else if track_claude {
        "CL "@ + percent_text(claude_session(snapshot))
    } else if track_codex {
        "CX "@ + percent_text(codex_session(snapshot))
    } else {
        "--%"@
    }
}

fn session_of_claude(snapshot: Option<&UsageSnapshotBundle>) -> (r: Option<u32>)
    ensures
        r == claude_session(match snapshot {
            Some(b) => Some(*b),
            None => None::<UsageSnapshotBundle>,
        }),
{
    match snapshot {
        Some(b) => match &b.claude {
            Some(ClaudeUsageSnapshot::Success { session_percent, .. }) => Some(*session_percent),
            _ => None,
        },
        None => None,
    }
}

fn session_of_codex(snapshot: Option<&UsageSnapshotBundle>) -> (r: Option<u32>)
    ensures
        r == codex_session(match snapshot {
            Some(b) => Some(*b),
            None => None::<UsageSnapshotBundle>,
        }),
{
    match snapshot {
        Some(b) => match &b.codex {
            Some(CodexUsageSnapshot::Success { session_percent, .. }) => Some(*session_percent),
            _ => None,
        },
        None => None,
    }
}

/// Render the tray title for the enabled providers and the latest bundle.
pub fn format_tray_title(
    track_claude: bool,
    track_codex: bool,
    snapshot: Option<&UsageSnapshotBundle>,
) -> (r: String)
    ensures
        r@ == tray_title_spec(track_claude, track_codex, match snapshot {
            Some(b) => Some(*b),
            None => None::<UsageSnapshotBundle>,
        }),
{
    if track_claude && track_codex {
        let claude = format_percent(session_of_claude(snapshot));
        let codex = format_percent(session_of_codex(snapshot));
        let mut s = String::new();
        s.append("CL ");
        s.append(claude.as_str());
        s.append(" · CX ");
        s.append(codex.as_str());
        return s;
    }
    if track_claude {
        let claude = format_percent(session_of_claude(snapshot));
        let mut s = String::new();
        s.append("CL ");
        s.append(claude.as_str());
        return s;
    }
    if track_codex {
        let codex = format_percent(session_of_codex(snapshot));
        let mut s = String::new();
        s.append("CX ");
        s.append(codex.as_str());
        return s;
    }
    "--%".to_owned()
}

/// The severity level behind the title color: the worse of the enabled
/// session percentages, with below 50% low (0), up to 70% medium (1), above
/// high (2), and unknown (-1) when no enabled provider shows a success.
pub open spec fn usage_level_spec(
    track_claude: bool,
    track_codex: bool,
    snapshot: Option<UsageSnapshotBundle>,
) -> i8 {
    let claude = if track_claude {
        claude_session(snapshot)
    } else {
        None
    };
    let codex = if track_codex {
        codex_session(snapshot)
    } else {
        None
    };
    let session: Option<u32> = match (claude, codex) {
        (Some(a), Some(b)) => Some(
            if a >= b {
                a
            } else {
                b
            },
        ),
        (Some(a), None) => Some(a),
        (None, Some(b)) => Some(b),
        (None, None) => None,
    };
    match session {
        None => -1i8,
        Some(p) => if p < 5000 {
            0i8
        } else if p <= 7000 {
            1i8
        } else {
            2i8
        },
    }
}

pub fn usage_level(
    track_claude: bool,
    track_codex: bool,
    snapshot: Option<&UsageSnapshotBundle>,
) -> (r: i8)
    ensures
        r == usage_level_spec(track_claude, track_codex, match snapshot {
            Some(b) => Some(*b),
            None => None::<UsageSnapshotBundle>,
        }),
{
    let claude = if track_claude {
        session_of_claude(snapshot)
    } else {
        None
    };
    let codex = if track_codex {
        session_of_codex(snapshot)
    } else {
        None
    };
    let session: Option<u32> = match (claude, codex) {
        (Some(a), Some(b)) => Some(
            if a >= b {
                a
            } else {
                b
            },
        ),
        (Some(a), None) => Some(a),
        (None, Some(b)) => Some(b),
        (None, None) => None,
    };
    match session {
        None => -1,
        Some(p) => {
            if p < 5000 {
                0
            } else if p <= 7000 {
                1
            } else {
                2
            }
        },
    }
}

/// Length of the leading whitespace-free word.
pub open spec fn word_len(s: Seq<char>) -> int
    decreases s.len(),
{
    if s.len() > 0 && !is_space(s[0]) {
        1 + word_len(s.skip(1))
    } else {
        0
    }
}

pub proof fn lemma_word_len_bounds(s: Seq<char>)
    ensures
        0 <= word_len(s) <= s.len(),
        s.len() > 0 && !is_space(s[0]) ==> word_len(s) >= 1,
    decreases s.len(),
{
    if s.len() > 0 && !is_space(s[0]) {
        lemma_word_len_bounds(s.skip(1));
    }
}

/// The whitespace-separated tokens of a string, in order, never empty.
pub open spec fn split_ws(s: Seq<char>) -> Seq<Seq<char>>
    decreases s.len(),
    via split_ws_decreases
{
    if s.len() == 0 {
        Seq::empty()
    } else if is_space(s[0]) {
        split_ws(s.skip(1))
    } else {
        seq![s.take(word_len(s))] + split_ws(s.skip(word_len(s)))
    }
}

#[via_fn]
proof fn split_ws_decreases(s: Seq<char>) {
    lemma_word_len_bounds(s);
}

/// Number of `:` characters in a token.
pub open spec fn colon_count(t: Seq<char>) -> int
    decreases t.len(),
{
    if t.len() == 0 {
        0
    } else {
        colon_count(t.take(t.len() - 1)) + if t[t.len() - 1] == ':' {
            1int
        } else {
            0int
        }
    }
}

/// Index of the last `:` in a token, or -1.
pub open spec fn last_colon(t: Seq<char>) -> int
    decreases t.len(),
{
    if t.len() == 0 {
        -1
    } else if t[t.len() - 1] == ':' {
        t.len() - 1
    } else {
        last_colon(t.take(t.len() - 1))
    }
}

/// A token with its seconds stripped: when it holds at least two colons and
/// exactly two ASCII digits follow the last one, the last colon and those
/// digits go; any other token stays as it is.
pub open spec fn strip_token(t: Seq<char>) -> Seq<char> {
    let lc = last_colon(t);
    if colon_count(t) >= 2 && t.len() - lc - 1 == 2 && crate::percent::is_digit(t[lc + 1])
        && crate::percent::is_digit(t[lc + 2]) {
        t.take(lc)
    } else {
        t
    }
}

/// Tokens joined by single spaces; `leading` asks for a space before the
/// first one too.
pub open spec fn join_with_leading(parts: Seq<Seq<char>>, leading: bool) -> Seq<char>
    decreases parts.len(),
{
    if parts.len() == 0 {
        Seq::empty()
    } else {
        (if leading {
            " "@
        } else {
            Seq::<char>::empty()
        }) + parts[0] + join_with_leading(parts.skip(1), true)
    }
}

/// Tokenize on ASCII whitespace, strip each token's seconds, join with
/// single spaces (so whitespace runs collapse).
pub open spec fn strip_seconds_spec(s: Seq<char>) -> Seq<char> {
    join_with_leading(split_ws(s).map_values(|t: Seq<char>| strip_token(t)), false)
}

#[verifier::rlimit(60)]
pub fn strip_seconds_from_time_string(input: &str) -> (r: String)
    ensures
        r@ == strip_seconds_spec(input@),
{
    let len = input.unicode_len();
    let mut out: Vec<char> = Vec::new();
    let mut first = true;
    let mut i: usize = 0;
    proof {
        reveal_strlit(" ");
        assert(input@.skip(0) =~= input@);
        assert(out@ + strip_seconds_spec(input@) =~= strip_seconds_spec(input@));
    }
    while i < len
        invariant
            0 <= i <= len,
            len == input@.len(),
            out@ + join_with_leading(
                split_ws(input@.skip(i as int)).map_values(|t: Seq<char>| strip_token(t)),
                !first,
            ) == strip_seconds_spec(input@),
            " "@ =~= seq![' '],
        decreases len - i,
    {
        let ghost suffix = input@.skip(i as int);
        proof {
            assert(suffix[0] == input@[i as int]);
            assert(suffix.skip(1) =~= input@.skip(i as int + 1));
        }
        if is_space_char(input.get_char(i)) {
            i = i + 1;
        } else {
            // Find the end of the word.
            let mut j: usize = i;
            while j < len && !is_space_char(input.get_char(j))
                invariant
                    i <= j <= len,
                    len == input@.len(),
                    word_len(input@.skip(i as int)) == (j - i) + word_len(input@.skip(j as int)),
                decreases len - j,
            {
                proof {
                    assert(input@.skip(j as int)[0] == input@[j as int]);
                    assert(input@.skip(j as int).skip(1) =~= input@.skip(j as int + 1));
                }
                j = j + 1;
            }
            proof {
                if j == len {
                    assert(input@.skip(j as int) =~= Seq::<char>::empty());
                } else {
                    assert(input@.skip(j as int)[0] == input@[j as int]);
                }
                assert(word_len(input@.skip(j as int)) == 0);
                assert(word_len(suffix) == j - i);
            }
            let ghost token = suffix.take((j - i) as int);
            proof {
                assert(token =~= input@.subrange(i as int, j as int));
            }
            // Locate the last colon and count colons inside the token.
            let mut cc: usize = 0;
            let mut lc: Option<usize> = None;
            let mut k: usize = i;
            while k < j
                invariant
                    i <= k <= j <= len,
                    len == input@.len(),
                    token == input@.subrange(i as int, j as int),
                    cc == colon_count(input@.subrange(i as int, k as int)),
                    cc <= k - i,
                    match lc {
                        Some(a) => i <= a < k && last_colon(input@.subrange(i as int, k as int))
                            == a - i,
                        None => last_colon(input@.subrange(i as int, k as int)) == -1 && cc == 0,
                    },
                decreases j - k,
            {
                proof {
                    let cur = input@.subrange(i as int, k as int + 1);
                    assert(cur.take(cur.len() - 1) =~= input@.subrange(i as int, k as int));
                    assert(cur[cur.len() - 1] == input@[k as int]);
                }
                if input.get_char(k) == ':' {
                    cc = cc + 1;
                    lc = Some(k);
                }
                k = k + 1;
            }
            // Decide where the kept part of the token ends.
            let end: usize = match lc {
                Some(a) => {
                    if cc >= 2 && j - a - 1 == 2 && crate::percent::is_digit_char(
                        input.get_char(a + 1),
                    ) && crate::percent::is_digit_char(input.get_char(a + 2)) {
                        proof {
                            assert(token[a - i + 1] == input@[a as int + 1]);
                            assert(token[a - i + 2] == input@[a as int + 2]);
                            assert(token.take(a - i) =~= input@.subrange(i as int, a as int));
                            assert(strip_token(token) == input@.subrange(i as int, a as int));
                        }
                        a
                    } else {
                        proof {
                            if cc >= 2 && j - a - 1 == 2 {
                                assert(token[a - i + 1] == input@[a as int + 1]);
                                assert(token[a - i + 2] == input@[a as int + 2]);
                            }
                            assert(strip_token(token) == token);
                        }
                        j
                    }
                },
                None => {
                    proof {
                        assert(strip_token(token) == token);
                    }
                    j
                },
            };
            if !first {
                out.push(' ');
            }
            let ghost out_with_sep = out@;
            proof {
                assert(input@.subrange(i as int, end as int) =~= input@.subrange(
                    i as int,
                    end as int,
                ));
            }
            let mut m: usize = i;
            while m < end
                invariant
                    i <= m <= end <= len,
                    len == input@.len(),
                    out@ == out_with_sep + input@.subrange(i as int, m as int),
                decreases end - m,
            {
                out.push(input.get_char(m));
                proof {
                    assert(out@ =~= out_with_sep + input@.subrange(i as int, m as int + 1));
                }
                m = m + 1;
            }
            proof {
                assert(suffix.skip((j - i) as int) =~= input@.skip(j as int));
                let parts = split_ws(suffix);
                assert(parts == seq![token] + split_ws(input@.skip(j as int)));
                let stripped = parts.map_values(|t: Seq<char>| strip_token(t));
                assert(stripped =~= seq![strip_token(token)] + split_ws(
                    input@.skip(j as int),
                ).map_values(|t: Seq<char>| strip_token(t)));
                assert(stripped[0] == strip_token(token));
                assert(stripped.skip(1) =~= split_ws(input@.skip(j as int)).map_values(
                    |t: Seq<char>| strip_token(t),
                ));
                assert(strip_token(token) =~= input@.subrange(i as int, end as int));
                assert(out@ + join_with_leading(
                    split_ws(input@.skip(j as int)).map_values(|t: Seq<char>| strip_token(t)),
                    true,
                ) =~= strip_seconds_spec(input@));
            }
            first = false;
            i = j;
        }
    }
    proof {
        assert(input@.skip(len as int) =~= Seq::<char>::empty());
        assert(out@ + Seq::<char>::empty() =~= out@);
    }
    string_from_chars(&out)
}

/// ASCII letters and digits.
pub open spec fn is_alnum(c: char) -> bool {
    ('0' <= c && c <= '9') || ('a' <= c && c <= 'z') || ('A' <= c && c <= 'Z')
}

pub fn is_alnum_char(c: char) -> (r: bool)
    ensures
        r == is_alnum(c),
{
    ('0' <= c && c <= '9') || ('a' <= c && c <= 'z') || ('A' <= c && c <= 'Z')
}

/// The separator-collapsing scan: separators before any output and runs of
/// separators are dropped, everything else is kept.
pub open spec fn clean_rec(s: Seq<char>, started: bool, prev_sep: bool) -> Seq<char>
    decreases s.len(),
{
    if s.len() == 0 {
        Seq::empty()
    } else if !is_alnum(s[0]) {
        if !started || prev_sep {
            clean_rec(s.skip(1), started, prev_sep)
        } else {
            seq![s[0]] + clean_rec(s.skip(1), true, true)
        }
    } else {
        seq![s[0]] + clean_rec(s.skip(1), true, false)
    }
}

/// A string without its trailing non-alphanumeric characters.
pub open spec fn drop_trailing_seps(s: Seq<char>) -> Seq<char>
    decreases s.len(),
{
    if s.len() > 0 && !is_alnum(s[s.len() - 1]) {
        drop_trailing_seps(s.take(s.len() - 1))
    } else {
        s
    }
}

/// Collapse separator runs to one character, drop leading and trailing
/// separators.
pub open spec fn clean_spec(s: Seq<char>) -> Seq<char> {
    trim_spec(drop_trailing_seps(clean_rec(s, false, false)))
}

pub fn clean_non_alnum_separators(input: &str) -> (r: String)
    ensures
        r@ == clean_spec(input@),
{
    let len = input.unicode_len();
    let mut out: Vec<char> = Vec::new();
    let mut prev_sep = false;
    let mut i: usize = 0;
    proof {
        assert(input@.skip(0) =~= input@);
        assert(out@ + clean_rec(input@, false, false) =~= clean_rec(input@, false, false));
    }
    while i < len
        invariant
            0 <= i <= len,
            len == input@.len(),
            out@.len() == 0 ==> prev_sep == false,
            out@ + clean_rec(input@.skip(i as int), out@.len() > 0, prev_sep) == clean_rec(
                input@,
                false,
                false,
            ),
        decreases len - i,
    {
        let c = input.get_char(i);
        proof {
            assert(input@.skip(i as int)[0] == c);
            assert(input@.skip(i as int).skip(1) =~= input@.skip(i as int + 1));
        }
        if !is_alnum_char(c) {
            if out.len() > 0 && !prev_sep {
                out.push(c);
                prev_sep = true;
            }
        } else {
            out.push(c);
            prev_sep = false;
        }
        i = i + 1;
    }
    proof {
        assert(input@.skip(len as int) =~= Seq::<char>::empty());
        assert(out@ + Seq::<char>::empty() =~= out@);
    }
    let ghost scanned = out@;
    while out.len() > 0 && !is_alnum_char(out[out.len() - 1])
        invariant
            drop_trailing_seps(scanned) == drop_trailing_seps(out@),
        decreases out@.len(),
    {
        let _ = out.pop();
    }
    proof {
        assert(drop_trailing_seps(out@) == out@);
    }
    trim_of(string_from_chars(&out).as_str())
}

/// Length of the leading run of characters in the same class (alphanumeric
/// or separator) as the first one.
pub open spec fn run_len(s: Seq<char>, alnum_run: bool) -> int
    decreases s.len(),
{
    if s.len() > 0 && is_alnum(s[0]) == alnum_run {
        1 + run_len(s.skip(1), alnum_run)
    } else {
        0
    }
}

pub proof fn lemma_run_len_bounds(s: Seq<char>, alnum_run: bool)
    ensures
        0 <= run_len(s, alnum_run) <= s.len(),
        s.len() > 0 && is_alnum(s[0]) == alnum_run ==> run_len(s, alnum_run) >= 1,
    decreases s.len(),
{
    if s.len() > 0 && is_alnum(s[0]) == alnum_run {
        lemma_run_len_bounds(s.skip(1), alnum_run);
    }
}

/// A string cut into maximal runs, each marked alphanumeric or separator.
pub open spec fn segments_of(s: Seq<char>) -> Seq<(bool, Seq<char>)>
    decreases s.len(),
    via segments_of_decreases
{
    if s.len() == 0 {
        Seq::empty()
    } else {
        let cls = is_alnum(s[0]);
        let n = run_len(s, cls);
        seq![(cls, s.take(n))] + segments_of(s.skip(n))
    }
}

#[via_fn]
proof fn segments_of_decreases(s: Seq<char>) {
    if s.len() > 0 {
        lemma_run_len_bounds(s, is_alnum(s[0]));
    }
}

/// A four-digit year segment.
pub open spec fn is_year4(seg: (bool, Seq<char>)) -> bool {
    seg.0 && seg.1.len() == 4 && crate::percent::all_digits(seg.1)
}

/// Index of the first four-digit segment, or the segment count if none.
pub open spec fn first_year4(segs: Seq<(bool, Seq<char>)>) -> int
    decreases segs.len(),
{
    if segs.len() == 0 {
        0
    } else if is_year4(segs[0]) {
        0
    } else {
        1 + first_year4(segs.skip(1))
    }
}

pub proof fn lemma_first_year4_bounds(segs: Seq<(bool, Seq<char>)>)
    ensures
        0 <= first_year4(segs) <= segs.len(),
        first_year4(segs) < segs.len() ==> is_year4(segs[first_year4(segs)]),
        forall|k: int| 0 <= k < first_year4(segs) ==> !is_year4(#[trigger] segs[k]),
    decreases segs.len(),
{
    if segs.len() > 0 && !is_year4(segs[0]) {
        lemma_first_year4_bounds(segs.skip(1));
        assert forall|k: int| 0 <= k < first_year4(segs) implies !is_year4(
            #[trigger] segs[k],
        ) by {
            if k > 0 {
                assert(segs[k] == segs.skip(1)[k - 1]);
            }
        }
    }
}

/// A purely numeric alphanumeric segment.
pub open spec fn is_numeric_seg(seg: (bool, Seq<char>)) -> bool {
    seg.0 && crate::percent::all_digits(seg.1)
}

/// The texts of the numeric segments, in order.
pub open spec fn numeric_texts(segs: Seq<(bool, Seq<char>)>) -> Seq<Seq<char>>
    decreases segs.len(),
{
    if segs.len() == 0 {
        Seq::empty()
    } else {
        (if is_numeric_seg(segs[0]) {
            seq![segs[0].1]
        } else {
            Seq::empty()
        }) + numeric_texts(segs.skip(1))
    }
}

/// The string rebuilt from its segments with the segment at `cleared`
/// removed; segments that trim to nothing are dropped as well.
pub open spec fn rebuild(segs: Seq<(bool, Seq<char>)>, cleared: int) -> Seq<char>
    decreases segs.len(),
{
    if segs.len() == 0 {
        Seq::empty()
    } else {
        (if cleared == 0 || trim_spec(segs[0].1).len() == 0 {
            Seq::<char>::empty()
        } else {
            segs[0].1
        }) + rebuild(segs.skip(1), cleared - 1)
    }
}

/// The string rebuilt with the `n`-th numeric segment removed (counting
/// from zero); segments that trim to nothing are dropped as well.
pub open spec fn rebuild_skip_numeric(segs: Seq<(bool, Seq<char>)>, n: int) -> Seq<char>
    decreases segs.len(),
{
    if segs.len() == 0 {
        Seq::empty()
    } else {
        let keep: Seq<char> = if trim_spec(segs[0].1).len() == 0 {
            Seq::empty()
        } else {
            segs[0].1
        };
        if is_numeric_seg(segs[0]) {
            (if n == 0 {
                Seq::<char>::empty()
            } else {
                keep
            }) + rebuild_skip_numeric(segs.skip(1), n - 1)
        } else {
            keep + rebuild_skip_numeric(segs.skip(1), n)
        }
    }
}

/// Dropping the year out of a localized date string: remove the first
/// four-digit segment if there is one; otherwise, when the string is
/// exactly three numeric fields whose last is two digits and the first two
/// at most two digits each, remove that last field. Either way the result
/// is cleaned of doubled or dangling separators; with no year found the
/// input is merely cleaned.
pub open spec fn strip_year_spec(s: Seq<char>) -> Seq<char> {
    let segs = segments_of(s);
    let y = first_year4(segs);
    if y < segs.len() {
        clean_spec(rebuild(segs, y))
    } else {
        let nums = numeric_texts(segs);
        if nums.len() == 3 && nums[2].len() == 2 && nums[0].len() <= 2 && nums[1].len() <= 2 {
            clean_spec(rebuild_skip_numeric(segs, 2))
        } else {
            clean_spec(s)
        }
    }
}

/// The view of one collected segment: its class and its text.
pub open spec fn seg_view(input: Seq<char>, t: (bool, usize, usize)) -> (bool, Seq<char>) {
    (t.0, input.subrange(t.1 as int, t.2 as int))
}

fn collect_segments(input: &str) -> (segs: Vec<(bool, usize, usize)>)
    ensures
        segs@.map_values(|t: (bool, usize, usize)| seg_view(input@, t)) == segments_of(input@),
        forall|k: int| 0 <= k < segs@.len() ==> {
            &&& 0 <= (#[trigger] segs@[k]).1 < segs@[k].2 <= input@.len()
        },
{
    let len = input.unicode_len();
    let mut segs: Vec<(bool, usize, usize)> = Vec::new();
    let mut i: usize = 0;
    proof {
        assert(input@.skip(0) =~= input@);
        assert(segs@.map_values(|t: (bool, usize, usize)| seg_view(input@, t)) + segments_of(
            input@,
        ) =~= segments_of(input@));
    }
    while i < len
        invariant
            0 <= i <= len,
            len == input@.len(),
            segs@.map_values(|t: (bool, usize, usize)| seg_view(input@, t)) + segments_of(
                input@.skip(i as int),
            ) == segments_of(input@),
            forall|k: int| 0 <= k < segs@.len() ==> {
                &&& 0 <= (#[trigger] segs@[k]).1 < segs@[k].2 <= len
            },
        decreases len - i,
    {
        let ghost suffix = input@.skip(i as int);
        let cls = is_alnum_char(input.get_char(i));
        proof {
            assert(suffix[0] == input@[i as int]);
        }
        let mut j: usize = i + 1;
        proof {
            assert(suffix.skip(1) =~= input@.skip(i as int + 1));
            assert(run_len(suffix, cls) == 1 + run_len(input@.skip(i as int + 1), cls));
        }
        while j < len && is_alnum_char(input.get_char(j)) == cls
            invariant
                i < j <= len,
                len == input@.len(),
                suffix == input@.skip(i as int),
                run_len(suffix, cls) == (j - i) + run_len(input@.skip(j as int), cls),
            decreases len - j,
        {
            proof {
                assert(input@.skip(j as int)[0] == input@[j as int]);
                assert(input@.skip(j as int).skip(1) =~= input@.skip(j as int + 1));
            }
            j = j + 1;
        }
        proof {
            if j == len {
                assert(input@.skip(j as int) =~= Seq::<char>::empty());
            } else {
                assert(input@.skip(j as int)[0] == input@[j as int]);
            }
            assert(run_len(input@.skip(j as int), cls) == 0);
            assert(run_len(suffix, cls) == j - i);
        }
        let ghost before = segs@;
        segs.push((cls, i, j));
        proof {
            let f = |t: (bool, usize, usize)| seg_view(input@, t);
            assert(segs@.map_values(f) =~= before.map_values(f) + seq![
                seg_view(input@, (cls, i, j)),
            ]);
            assert(suffix.take((j - i) as int) =~= input@.subrange(i as int, j as int));
            assert(suffix.skip((j - i) as int) =~= input@.skip(j as int));
            assert(segments_of(suffix) == seq![(cls, input@.subrange(i as int, j as int))]
                + segments_of(input@.skip(j as int)));
        }
        i = j;
    }
    proof {
        assert(input@.skip(len as int) =~= Seq::<char>::empty());
        assert(segs@.map_values(|t: (bool, usize, usize)| seg_view(input@, t)) + Seq::<
            (bool, Seq<char>),
        >::empty() =~= segs@.map_values(|t: (bool, usize, usize)| seg_view(input@, t)));
    }
    segs
}

fn seg_all_digits(input: &str, start: usize, end: usize) -> (r: bool)
    requires
        start <= end <= input@.len(),
    ensures
        r == crate::percent::all_digits(input@.subrange(start as int, end as int)),
{
    let mut k: usize = start;
    while k < end
        invariant
            start <= k <= end <= input@.len(),
            forall|m: int| start <= m < k ==> crate::percent::is_digit(#[trigger] input@[m]),
        decreases end - k,
    {
        if !crate::percent::is_digit_char(input.get_char(k)) {
            proof {
                assert(input@.subrange(start as int, end as int)[k - start] == input@[k as int]);
            }
            return false;
        }
        k = k + 1;
    }
    proof {
        assert forall|m: int| 0 <= m < end - start implies crate::percent::is_digit(
            #[trigger] input@.subrange(start as int, end as int)[m],
        ) by {
            assert(input@.subrange(start as int, end as int)[m] == input@[start + m]);
        }
    }
    true
}

fn seg_trims_empty(input: &str, start: usize, end: usize) -> (r: bool)
    requires
        start <= end <= input@.len(),
    ensures
        r == (trim_spec(input@.subrange(start as int, end as int)).len() == 0),
{
    let t = trim_of(input.substring_char(start, end));
    t.as_str().unicode_len() == 0
}

fn append_range(out: &mut Vec<char>, input: &str, start: usize, end: usize)
    requires
        start <= end <= input@.len(),
    ensures
        final(out)@ == old(out)@ + input@.subrange(start as int, end as int),
{
    let ghost base = out@;
    let mut m: usize = start;
    while m < end
        invariant
            start <= m <= end <= input@.len(),
            out@ == base + input@.subrange(start as int, m as int),
        decreases end - m,
    {
        out.push(input.get_char(m));
        proof {
            assert(out@ =~= base + input@.subrange(start as int, m as int + 1));
        }
        m = m + 1;
    }
}

/// Remove the year from a localized date string, preferring a four-digit
/// year and falling back to the trailing two-digit year of a three-field
/// numeric date, then tidy the separators.
#[verifier::rlimit(60)]
pub fn strip_year_from_date_string(input: &str) -> (r: String)
    ensures
        r@ == strip_year_spec(input@),
{
    let segs = collect_segments(input);
    let ghost views = segs@.map_values(|t: (bool, usize, usize)| seg_view(input@, t));
    let len_segs = segs.len();

    // Find the first four-digit segment.
    let mut y: usize = len_segs;
    let mut t: usize = 0;
    while t < len_segs && y == len_segs
        invariant
            0 <= t <= segs@.len(),
            len_segs == segs@.len(),
            views == segs@.map_values(|t0: (bool, usize, usize)| seg_view(input@, t0)),
            forall|k: int| 0 <= k < segs@.len() ==> {
                &&& 0 <= (#[trigger] segs@[k]).1 < segs@[k].2 <= input@.len()
            },
            y == len_segs || (y < t && is_year4(views[y as int])),
            y == len_segs ==> forall|k: int| 0 <= k < t ==> !is_year4(#[trigger] views[k]),
            y < len_segs ==> forall|k: int| 0 <= k < y ==> !is_year4(#[trigger] views[k]),
        decreases len_segs - t,
    {
        let (cls, s0, e0) = segs[t];
        if cls && e0 - s0 == 4 && seg_all_digits(input, s0, e0) {
            proof {
                assert(views[t as int] == seg_view(input@, segs@[t as int]));
            }
            y = t;
        }
        t = t + 1;
    }
    proof {
        lemma_first_year4_bounds(views);
        assert(first_year4(views) == y);
    }

    if y < len_segs {
        // Rebuild without the year segment.
        let mut out: Vec<char> = Vec::new();
        let mut q: usize = 0;
        proof {
            assert(views.skip(0) =~= views);
            assert(out@ + rebuild(views, y as int) =~= rebuild(views, y as int));
        }
        while q < len_segs
            invariant
                0 <= q <= segs@.len(),
                len_segs == segs@.len(),
                views == segs@.map_values(|t: (bool, usize, usize)| seg_view(input@, t)),
                forall|k: int| 0 <= k < segs@.len() ==> {
                    &&& 0 <= (#[trigger] segs@[k]).1 < segs@[k].2 <= input@.len()
                },
                out@ + rebuild(views.skip(q as int), y - q) == rebuild(views, y as int),
            decreases len_segs - q,
        {
            proof {
                assert(views.skip(q as int)[0] == views[q as int]);
                assert(views.skip(q as int).skip(1) =~= views.skip(q as int + 1));
            }
            let (_, s0, e0) = segs[q];
            if q != y && !seg_trims_empty(input, s0, e0) {
                append_range(&mut out, input, s0, e0);
            }
            q = q + 1;
        }
        proof {
            assert(views.skip(len_segs as int) =~= Seq::<(bool, Seq<char>)>::empty());
            assert(out@ + Seq::<char>::empty() =~= out@);
        }
        return clean_non_alnum_separators(string_from_chars(&out).as_str());
    }

    // No four-digit year: look for a three-field numeric short date.
    let mut nums: Vec<usize> = Vec::new();
    let mut q: usize = 0;
    proof {
        assert(views.skip(0) =~= views);
        assert(nums@.map_values(|k: usize| views[k as int].1) + numeric_texts(views)
            =~= numeric_texts(views));
    }
    while q < len_segs
        invariant
            0 <= q <= segs@.len(),
            len_segs == segs@.len(),
            views == segs@.map_values(|t: (bool, usize, usize)| seg_view(input@, t)),
            forall|k: int| 0 <= k < segs@.len() ==> {
                &&& 0 <= (#[trigger] segs@[k]).1 < segs@[k].2 <= input@.len()
            },
            forall|k: int| 0 <= k < nums@.len() ==> 0 <= #[trigger] nums@[k] < q,
            nums@.map_values(|k: usize| views[k as int].1) + numeric_texts(views.skip(q as int))
                == numeric_texts(views),
        decreases len_segs - q,
    {
        proof {
            assert(views.skip(q as int)[0] == views[q as int]);
            assert(views.skip(q as int).skip(1) =~= views.skip(q as int + 1));
        }
        let (cls, s0, e0) = segs[q];
        if cls && seg_all_digits(input, s0, e0) {
            let ghost before = nums@;
            nums.push(q);
            proof {
                let f = |k: usize| views[k as int].1;
                assert(nums@.map_values(f) =~= before.map_values(f) + seq![views[q as int].1]);
            }
        }
        q = q + 1;
    }
    proof {
        assert(views.skip(len_segs as int) =~= Seq::<(bool, Seq<char>)>::empty());
        assert(nums@.map_values(|k: usize| views[k as int].1) =~= numeric_texts(views));
    }

    let matches_short_date = nums.len() == 3 && {
        let (_, s2, e2) = segs[nums[2]];
        let (_, s0, e0) = segs[nums[0]];
        let (_, s1, e1) = segs[nums[1]];
        e2 - s2 == 2 && e0 - s0 <= 2 && e1 - s1 <= 2
    };

    if matches_short_date {
        let mut out: Vec<char> = Vec::new();
        let mut q: usize = 0;
        let mut seen: usize = 0;
        proof {
            assert(views.skip(0) =~= views);
            assert(out@ + rebuild_skip_numeric(views, 2) =~= rebuild_skip_numeric(views, 2));
        }
        while q < len_segs
            invariant
                0 <= q <= segs@.len(),
                len_segs == segs@.len(),
                views == segs@.map_values(|t: (bool, usize, usize)| seg_view(input@, t)),
                forall|k: int| 0 <= k < segs@.len() ==> {
                    &&& 0 <= (#[trigger] segs@[k]).1 < segs@[k].2 <= input@.len()
                },
                seen <= q,
                seen == numeric_texts(views).len() - numeric_texts(views.skip(q as int)).len(),
                out@ + rebuild_skip_numeric(views.skip(q as int), 2 - seen) == rebuild_skip_numeric(
                    views,
                    2,
                ),
            decreases len_segs - q,
        {
            proof {
                assert(views.skip(q as int)[0] == views[q as int]);
                assert(views.skip(q as int).skip(1) =~= views.skip(q as int + 1));
            }
            let (cls, s0, e0) = segs[q];
            let numeric = cls && seg_all_digits(input, s0, e0);
            if numeric {
                if seen != 2 && !seg_trims_empty(input, s0, e0) {
                    append_range(&mut out, input, s0, e0);
                }
                seen = seen + 1;
            } else {
                if !seg_trims_empty(input, s0, e0) {
                    append_range(&mut out, input, s0, e0);
                }
            }
            q = q + 1;
        }
        proof {
            assert(views.skip(len_segs as int) =~= Seq::<(bool, Seq<char>)>::empty());
            assert(out@ + Seq::<char>::empty() =~= out@);
        }
        clean_non_alnum_separators(string_from_chars(&out).as_str())
    } else {
        proof {
            let nv = numeric_texts(views);
            if nums@.len() == 3 {
                assert(nv[0] == views[nums@[0] as int].1);
                assert(nv[1] == views[nums@[1] as int].1);
                assert(nv[2] == views[nums@[2] as int].1);
            }
        }
        clean_non_alnum_separators(input)
    }
}

/// Index of the first occurrence of `c`, or the length if none.
pub open spec fn find_char_idx(s: Seq<char>, c: char) -> int
    decreases s.len(),
{
    if s.len() == 0 {
        0
    } else if s[0] == c {
        0
    } else {
        1 + find_char_idx(s.skip(1), c)
    }
}

proof fn lemma_find_char_at(s: Seq<char>, c: char, m: int)
    requires
        0 <= m <= s.len(),
        forall|k: int| 0 <= k < m ==> s[k] != c,
        m == s.len() || s[m] == c,
    ensures
        find_char_idx(s, c) == m,
    decreases m,
{
    if m == 0 {
    } else {
        assert(s[0] != c);
        lemma_find_char_at(s.skip(1), c, m - 1);
    }
}

fn find_char_pos(v: &Vec<char>, c: char, from: usize, to: usize) -> (r: usize)
    requires
        from <= to <= v@.len(),
    ensures
        from <= r <= to,
        find_char_idx(v@.subrange(from as int, to as int), c) == r - from,
        r < to ==> v@[r as int] == c,
        forall|k: int| from <= k < r ==> v@[k] != c,
{
    let mut i: usize = from;
    while i < to
        invariant
            from <= i <= to <= v@.len(),
            forall|k: int| from <= k < i ==> v@[k] != c,
        decreases to - i,
    {
        if v[i] == c {
            proof {
                let sub = v@.subrange(from as int, to as int);
                assert forall|k: int| 0 <= k < i - from implies sub[k] != c by {
                    assert(sub[k] == v@[from + k]);
                }
                assert(sub[i - from] == v@[i as int]);
                lemma_find_char_at(sub, c, i - from);
            }
            return i;
        }
        i = i + 1;
    }
    proof {
        let sub = v@.subrange(from as int, to as int);
        assert forall|k: int| 0 <= k < to - from implies sub[k] != c by {
            assert(sub[k] == v@[from + k]);
        }
        lemma_find_char_at(sub, c, to - from);
    }
    to
}

/// `-` folded to `_`, as locale tags are normalized.
pub open spec fn dash_to_underscore(c: char) -> char {
    if c == '-' {
        '_'
    } else {
        c
    }
}

/// A locale tag normalized the way the system locale is resolved: trimmed,
/// cut at the first `.`, dashes folded to underscores; a bare `c` (either
/// case) is POSIX; otherwise the language is lower-cased, the territory
/// (between the first and second underscore) upper-cased, any `@` modifier
/// kept as written, and everything after a second underscore dropped.
pub open spec fn normalize_locale_spec(tag: Seq<char>) -> Seq<char> {
    let t0 = trim_spec(tag);
    let t1 = t0.take(find_char_idx(t0, '.'));
    let t = t1.map_values(|c: char| dash_to_underscore(c));
    if t.len() == 1 && ascii_lower(t[0]) == 'c' {
        "POSIX"@
    } else {
        let at = find_char_idx(t, '@');
        let main = t.take(at);
        let p = find_char_idx(main, '_');
        let language = main.take(p).map_values(|c: char| ascii_lower(c));
        let with_territory = if p < main.len() {
            let rest = main.skip(p + 1);
            let q = find_char_idx(rest, '_');
            language + seq!['_'] + rest.take(q).map_values(|c: char| ascii_upper(c))
        } else {
            language
        };
        if at < t.len() {
            with_territory + seq!['@'] + t.skip(at + 1)
        } else {
            with_territory
        }
    }
}

#[verifier::rlimit(60)]
pub fn normalize_locale_tag(tag: &str) -> (r: String)
    ensures
        r@ == normalize_locale_spec(tag@),
{
    let trimmed = trim_of(tag);
    let ts = trimmed.as_str();
    let tlen = ts.unicode_len();
    let mut w: Vec<char> = Vec::new();
    let mut i: usize = 0;
    while i < tlen
        invariant
            0 <= i <= tlen,
            tlen == ts@.len(),
            ts@ == trimmed@,
            w@ == ts@.take(i as int),
        decreases tlen - i,
    {
        w.push(ts.get_char(i));
        proof {
            assert(w@ =~= ts@.take(i as int + 1));
        }
        i = i + 1;
    }
    proof {
        assert(w@ =~= trimmed@);
    }
    let dot = find_char_pos(&w, '.', 0, w.len());
    proof {
        assert(w@.subrange(0, w@.len() as int) =~= w@);
    }

    let mut t: Vec<char> = Vec::new();
    let mut i: usize = 0;
    while i < dot
        invariant
            0 <= i <= dot <= w@.len(),
            t@ == w@.take(dot as int).map_values(|c: char| dash_to_underscore(c)).take(i as int),
        decreases dot - i,
    {
        let c = w[i];
        t.push(
            if c == '-' {
                '_'
            } else {
                c
            },
        );
        proof {
            let mapped = w@.take(dot as int).map_values(|c0: char| dash_to_underscore(c0));
            assert(mapped[i as int] == dash_to_underscore(w@[i as int]));
            assert(t@ =~= mapped.take(i as int + 1));
        }
        i = i + 1;
    }
    let ghost tv = trim_spec(tag@).take(find_char_idx(trim_spec(tag@), '.')).map_values(
        |c: char| dash_to_underscore(c),
    );
    proof {
        assert(w@.take(dot as int).map_values(|c: char| dash_to_underscore(c)).take(dot as int)
            =~= w@.take(dot as int).map_values(|c: char| dash_to_underscore(c)));
        assert(t@ =~= tv);
    }

    if t.len() == 1 && ascii_lower_char(t[0]) == 'c' {
        return "POSIX".to_owned();
    }

    let at = find_char_pos(&t, '@', 0, t.len());
    proof {
        assert(t@.subrange(0, t@.len() as int) =~= t@);
    }
    let ghost main = t@.take(at as int);
    let p = find_char_pos(&t, '_', 0, at);
    proof {
        assert(t@.subrange(0, at as int) =~= main);
        if p < at {
            assert(main[p as int] == t@[p as int]);
        }
        assert forall|k: int| 0 <= k < p implies main[k] != '_' by {
            assert(main[k] == t@[k]);
        }
        lemma_find_char_at(main, '_', p as int);
    }

    let mut out: Vec<char> = Vec::new();
    let mut k: usize = 0;
    while k < p
        invariant
            0 <= k <= p <= at <= t@.len(),
            main == t@.take(at as int),
            out@ == main.take(p as int).map_values(|c: char| ascii_lower(c)).take(k as int),
        decreases p - k,
    {
        out.push(ascii_lower_char(t[k]));
        proof {
            let mapped = main.take(p as int).map_values(|c: char| ascii_lower(c));
            assert(main.take(p as int)[k as int] == t@[k as int]);
            assert(mapped[k as int] == ascii_lower(t@[k as int]));
            assert(out@ =~= mapped.take(k as int + 1));
        }
        k = k + 1;
    }
    proof {
        let language = main.take(p as int).map_values(|c: char| ascii_lower(c));
        assert(out@ =~= language);
    }

    if p < at {
        out.push('_');
        let ghost rest = main.skip(p as int + 1);
        let aq = find_char_pos(&t, '_', p + 1, at);
        proof {
            assert(rest =~= t@.subrange(p as int + 1, at as int));
            assert(find_char_idx(rest, '_') == aq - (p + 1));
        }
        let ghost base = out@;
        let mut k: usize = p + 1;
        while k < aq
            invariant
                p + 1 <= k <= aq <= at <= t@.len(),
                rest == t@.subrange(p as int + 1, at as int),
                aq - (p + 1) <= rest.len(),
                out@ == base + rest.take(aq - (p + 1) as int).map_values(
                    |c: char| ascii_upper(c),
                ).take((k - (p + 1)) as int),
            decreases aq - k,
        {
            out.push(ascii_upper_char(t[k]));
            proof {
                let mapped = rest.take(aq - (p + 1) as int).map_values(|c: char| ascii_upper(c));
                assert(rest.take(aq - (p + 1) as int)[(k - (p + 1)) as int] == t@[k as int]);
                assert(mapped[(k - (p + 1)) as int] == ascii_upper(t@[k as int]));
                assert(out@ =~= base + mapped.take((k - (p + 1)) as int + 1));
            }
            k = k + 1;
        }
        proof {
            assert(out@ =~= base + rest.take(aq - (p + 1) as int).map_values(
                |c: char| ascii_upper(c),
            ));
        }
    }

    if at < t.len() {
        out.push('@');
        let ghost base = out@;
        let mut k: usize = at + 1;
        let tl = t.len();
        while k < tl
            invariant
                at + 1 <= k <= tl,
                tl == t@.len(),
                out@ == base + t@.subrange(at as int + 1, k as int),
            decreases tl - k,
        {
            out.push(t[k]);
            proof {
                assert(out@ =~= base + t@.subrange(at as int + 1, k as int + 1));
            }
            k = k + 1;
        }
        proof {
            assert(t@.subrange(at as int + 1, tl as int) =~= t@.skip(at as int + 1));
        }
    }
    proof {
        reveal_strlit("POSIX");
        assert(out@ =~= normalize_locale_spec(tag@));
    }
    string_from_chars(&out)
}

/// Whether a string parses as an RFC 3339 timestamp — a function of the
/// string alone.
pub uninterp spec fn rfc3339_parses(s: Seq<char>) -> bool;

/// Relies on `chrono::DateTime::parse_from_rfc3339`, `with_timezone` with
/// `chrono::Local`, and `format_localized` (`%x`, `%X`): the localized date
/// and time renderings of the instant, in the OS time zone. Only parse
/// success is a function of the input; the renderings also depend on the
/// machine's zone, so nothing is promised of their content.
#[verifier::external_body]
fn chrono_localized_date_time(iso: &str, locale_tag: &str) -> (r: Option<(String, String)>)
    ensures
        r is Some <==> rfc3339_parses(iso@),
{
    let dt = chrono::DateTime::parse_from_rfc3339(iso).ok()?;
    let locale: chrono::format::Locale = locale_tag.parse().unwrap_or(
        chrono::format::Locale::en_US,
    );
    let local = dt.with_timezone(&chrono::Local);
    Some((
        local.format_localized("%x", locale).to_string(),
        local.format_localized("%X", locale).to_string(),
    ))
}

/// The localized wall-clock time of an RFC 3339 instant, seconds stripped;
/// absent exactly when the timestamp does not parse. The locale tag is the
/// caller's (the shell resolves it from the environment).
pub fn format_time_short(iso: &str, locale_tag: &str) -> (r: Option<String>)
    ensures
        r is Some <==> rfc3339_parses(iso@),
        r matches Some(v) ==> exists|t: Seq<char>| v@ == strip_seconds_spec(t),
{
    match chrono_localized_date_time(iso, locale_tag) {
        Some((_, time)) => {
            let stripped = strip_seconds_from_time_string(time.as_str());
            proof {
                assert(stripped@ == strip_seconds_spec(time@));
            }
            Some(stripped)
        },
        None => None,
    }
}

/// The localized short rendering of a reset instant: the date with its year
/// stripped and the time with its seconds stripped, joined by a space, with
/// either half dropped when it comes back blank.
pub fn format_reset_at_short(iso: &str, locale_tag: &str) -> (r: Option<String>)
    ensures
        r is Some <==> rfc3339_parses(iso@),
{
    match chrono_localized_date_time(iso, locale_tag) {
        Some((date, time)) => {
            let date_short = strip_year_from_date_string(date.as_str());
            let time_short = strip_seconds_from_time_string(time.as_str());
            let date_trim = trim_of(date_short.as_str());
            let time_trim = trim_of(time_short.as_str());
            if date_trim.as_str().unicode_len() == 0 {
                Some(time_short)
            } else if time_trim.as_str().unicode_len() == 0 {
                Some(date_short)
            } else {
                let mut s = date_short;
                s.append(" ");
                s.append(time_short.as_str());
                Some(s)
            }
        },
        None => None,
    }
}

/// The full localized rendering of an instant, `date, time`; a timestamp
/// that does not parse falls back to the raw input.
pub fn format_datetime_full(iso: &str, locale_tag: &str) -> (r: String)
    ensures
        !rfc3339_parses(iso@) ==> r@ == iso@,
        rfc3339_parses(iso@) ==> exists|d: Seq<char>, t: Seq<char>| r@ == d + ", "@ + t,
{
    match chrono_localized_date_time(iso, locale_tag) {
        Some((date, time)) => {
            let ghost dv = date@;
            let ghost tv = time@;
            let mut s = date;
            s.append(", ");
            s.append(time.as_str());
            proof {
                assert(s@ == dv + ", "@ + tv);
            }
            s
        },
        None => iso.to_owned(),
    }
}

} // verus!
