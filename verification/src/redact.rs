//! The secret-redaction filter: every externally sourced error string passes
//! through here before it is attached to a snapshot or surfaced, so that a
//! session key, cookie or bearer token never appears in surfaced text.
//!
//! Three kinds of pass run over the text:
//! - after `sessionKey=` / `sessionkey=`, the value up to a `;` or whitespace
//!   is replaced by `REDACTED`;
//! - after the cookie-token prefix `sk-ant-sid01-`, the run of token
//!   characters is replaced by `REDACTED`;
//! - after a `Cookie:` or `Authorization: Bearer` header name (matched
//!   case-insensitively, original casing kept), the rest of the line is
//!   replaced by `REDACTED`.

use vstd::prelude::*;

use crate::strings::{is_space, match_at, matches_at};

verus! {

/// A character that may appear in a cookie-token tail.
pub open spec fn is_token_char(c: char) -> bool {
    ('a' <= c && c <= 'z') || ('A' <= c && c <= 'Z') || ('0' <= c && c <= '9') || c == '_' || c
        == '-'
}

fn is_token_char_exec(c: char) -> (r: bool)
    ensures
        r == is_token_char(c),
{
    ('a' <= c && c <= 'z') || ('A' <= c && c <= 'Z') || ('0' <= c && c <= '9') || c == '_' || c
        == '-'
}

/// Which characters a pass swallows after its pattern: a key pass consumes
/// the value up to a `;` or whitespace, a token pass consumes token
/// characters.
pub open spec fn consumes(token_mode: bool, c: char) -> bool {
    if token_mode {
        is_token_char(c)
    } else {
        !(c == ';' || is_space(c))
    }
}

fn consumes_exec(token_mode: bool, c: char) -> (r: bool)
    ensures
        r == consumes(token_mode, c),
{
    if token_mode {
        is_token_char_exec(c)
    } else {
        !(c == ';' || crate::strings::is_space_char(c))
    }
}

/// How many leading characters of `s` a pass swallows.
pub open spec fn consumed_len(s: Seq<char>, token_mode: bool) -> int
    decreases s.len(),
{
    if s.len() > 0 && consumes(token_mode, s[0]) {
        1 + consumed_len(s.skip(1), token_mode)
    } else {
        0
    }
}

pub proof fn lemma_consumed_len_bounds(s: Seq<char>, token_mode: bool)
    ensures
        0 <= consumed_len(s, token_mode) <= s.len(),
    decreases s.len(),
{
    if s.len() > 0 && consumes(token_mode, s[0]) {
        lemma_consumed_len_bounds(s.skip(1), token_mode);
    }
}

/// One pass over `s`: at each occurrence of `key`, keep the key, drop the
/// consumed span after it, and write `REDACTED` in its place. The scan
/// resumes after the consumed span, so replaced text is not rescanned.
pub open spec fn redact_pass_spec(s: Seq<char>, key: Seq<char>, token_mode: bool) -> Seq<char>
    decreases s.len(),
    via redact_pass_spec_decreases
{
    if key.len() == 0 {
        s
    } else if matches_at(s, key, 0) {
        let rest = s.skip(key.len() as int);
        key + "REDACTED"@ + redact_pass_spec(
            rest.skip(consumed_len(rest, token_mode)),
            key,
            token_mode,
        )
    } else if s.len() == 0 {
        s
    } else {
        seq![s[0]] + redact_pass_spec(s.skip(1), key, token_mode)
    }
}

#[via_fn]
proof fn redact_pass_spec_decreases(s: Seq<char>, key: Seq<char>, token_mode: bool) {
    if key.len() > 0 && matches_at(s, key, 0) {
        lemma_consumed_len_bounds(s.skip(key.len() as int), token_mode);
    }
}

proof fn lemma_matches_at_skip(s: Seq<char>, key: Seq<char>, i: int)
    requires
        0 <= i <= s.len(),
    ensures
        matches_at(s, key, i) == matches_at(s.skip(i), key, 0),
{
    if key.len() <= s.len() - i {
        assert(s.skip(i).subrange(0, key.len() as int) =~= s.subrange(i, i + key.len()));
    }
}

/// One redaction pass, scanning left to right.
fn redact_pass(s: &str, key: &str, token_mode: bool) -> (r: String)
    requires
        key@.len() > 0,
    ensures
        r@ == redact_pass_spec(s@, key@, token_mode),
{
    let len = s.unicode_len();
    let klen = key.unicode_len();
    let mut out = String::new();
    let mut i: usize = 0;
    proof {
        assert(s@.skip(0) =~= s@);
        assert(out@ + redact_pass_spec(s@, key@, token_mode) =~= redact_pass_spec(
            s@,
            key@,
            token_mode,
        ));
    }
    while i < len
        invariant
            0 <= i <= len,
            len == s@.len(),
            klen == key@.len(),
            klen > 0,
            out@ + redact_pass_spec(s@.skip(i as int), key@, token_mode) == redact_pass_spec(
                s@,
                key@,
                token_mode,
            ),
        decreases len - i,
    {
        let ghost suffix = s@.skip(i as int);
        if match_at(s, key, i) {
            proof {
                lemma_matches_at_skip(s@, key@, i as int);
            }
            out.append(key);
            out.append("REDACTED");
            let mut k: usize = i + klen;
            proof {
                assert(suffix.skip(klen as int) =~= s@.skip(i as int + klen as int));
            }
            while k < len && consumes_exec(token_mode, s.get_char(k))
                invariant
                    i + klen <= k <= len,
                    len == s@.len(),
                    consumed_len(s@.skip(i as int + klen as int), token_mode) == (k - i - klen)
                        + consumed_len(s@.skip(k as int), token_mode),
                decreases len - k,
            {
                proof {
                    assert(s@.skip(k as int)[0] == s@[k as int]);
                    assert(s@.skip(k as int).skip(1) =~= s@.skip(k as int + 1));
                }
                k = k + 1;
            }
            proof {
                if k == len {
                    assert(s@.skip(k as int) =~= Seq::<char>::empty());
                } else {
                    assert(s@.skip(k as int)[0] == s@[k as int]);
                }
                assert(consumed_len(s@.skip(k as int), token_mode) == 0);
                let rest = suffix.skip(klen as int);
                assert(rest.skip(consumed_len(rest, token_mode)) =~= s@.skip(k as int));
            }
            i = k;
        } else {
            proof {
                lemma_matches_at_skip(s@, key@, i as int);
                assert(suffix[0] == s@[i as int]);
                assert(suffix.skip(1) =~= s@.skip(i as int + 1));
            }
            let piece = s.substring_char(i, i + 1);
            proof {
                assert(piece@ =~= seq![s@[i as int]]);
            }
            out.append(piece);
            i = i + 1;
        }
    }
    proof {
        assert(s@.skip(len as int) =~= Seq::<char>::empty());
        assert(redact_pass_spec(Seq::<char>::empty(), key@, token_mode)
            =~= Seq::<char>::empty());
        assert(out@ + Seq::<char>::empty() =~= out@);
    }
    out
}

/// Lower-cased code point, folding only ASCII letters.
pub open spec fn lower_code(c: char) -> int {
    if 'A' <= c && c <= 'Z' {
        c as u32 + 32
    } else {
        c as u32 as int
    }
}

/// Characters equal up to ASCII case.
pub open spec fn ci_eq(a: char, b: char) -> bool {
    lower_code(a) == lower_code(b)
}

fn ci_eq_exec(a: char, b: char) -> (r: bool)
    ensures
        r == ci_eq(a, b),
{
    let ca: u32 = if 'A' <= a && a <= 'Z' {
        a as u32 + 32
    } else {
        a as u32
    };
    let cb: u32 = if 'A' <= b && b <= 'Z' {
        b as u32 + 32
    } else {
        b as u32
    };
    ca == cb
}

/// `pat` occurs at index `i` of `s` up to ASCII case.
pub open spec fn ci_matches_at(s: Seq<char>, pat: Seq<char>, i: int) -> bool {
    0 <= i && i + pat.len() <= s.len() && forall|k: int|
        0 <= k < pat.len() ==> ci_eq(s[i + k], #[trigger] pat[k])
}

/// Case-insensitive counterpart of `crate::strings::match_at`; the first
/// index it accepts is what `find_ascii_case_insensitive` reports.
pub fn ci_match_at(s: &str, pat: &str, i: usize) -> (r: bool)
    requires
        i <= s@.len(),
    ensures
        r == ci_matches_at(s@, pat@, i as int),
{
    let len = s.unicode_len();
    let n = pat.unicode_len();
    if n > len - i {
        return false;
    }
    let mut j: usize = 0;
    while j < n
        invariant
            0 <= j <= n,
            n == pat@.len(),
            len == s@.len(),
            i + n <= len,
            forall|k: int| 0 <= k < j ==> ci_eq(s@[i + k], #[trigger] pat@[k]),
        decreases n - j,
    {
        if !ci_eq_exec(s.get_char(i + j), pat.get_char(j)) {
            return false;
        }
        j = j + 1;
    }
    true
}

/// Index of the first case-insensitive occurrence of `needle` in `haystack`,
/// if any. An empty needle matches at index 0.
pub fn find_ascii_case_insensitive(haystack: &str, needle: &str) -> (r: Option<usize>)
    ensures
        match r {
            Some(i) => ci_matches_at(haystack@, needle@, i as int) && forall|j: int|
                0 <= j < i ==> !ci_matches_at(haystack@, needle@, j),
            None => forall|j: int| 0 <= j <= haystack@.len() ==> !ci_matches_at(
                haystack@,
                needle@,
                j,
            ),
        },
{
    let len = haystack.unicode_len();
    let mut i: usize = 0;
    loop
        invariant
            0 <= i <= len,
            len == haystack@.len(),
            forall|j: int| 0 <= j < i ==> !ci_matches_at(haystack@, needle@, j),
        decreases len - i,
    {
        if ci_match_at(haystack, needle, i) {
            return Some(i);
        }
        if i == len {
            return None;
        }
        i = i + 1;
    }
}

/// Length of the leading line: characters before the first `\n` or `\r`.
pub open spec fn line_len(s: Seq<char>) -> int
    decreases s.len(),
{
    if s.len() > 0 && !(s[0] == '\n' || s[0] == '\r') {
        1 + line_len(s.skip(1))
    } else {
        0
    }
}

pub proof fn lemma_line_len_bounds(s: Seq<char>)
    ensures
        0 <= line_len(s) <= s.len(),
    decreases s.len(),
{
    if s.len() > 0 && !(s[0] == '\n' || s[0] == '\r') {
        lemma_line_len_bounds(s.skip(1));
    }
}

/// One header pass: at each case-insensitive occurrence of `header`, keep the
/// matched text as written, keep one following space if present, and replace
/// the rest of the line with `replacement`. The line break itself stays.
pub open spec fn redact_header_spec(s: Seq<char>, header: Seq<char>, replacement: Seq<char>)
    -> Seq<char>
    decreases s.len(),
    via redact_header_spec_decreases
{
    if header.len() == 0 {
        s
    } else if ci_matches_at(s, header, 0) {
        let after = s.skip(header.len() as int);
        let spaced = after.len() > 0 && after[0] == ' ';
        let sp: Seq<char> = if spaced {
            seq![' ']
        } else {
            Seq::empty()
        };
        let rest = if spaced {
            after.skip(1)
        } else {
            after
        };
        s.subrange(0, header.len() as int) + sp + replacement + redact_header_spec(
            rest.skip(line_len(rest)),
            header,
            replacement,
        )
    } else if s.len() == 0 {
        s
    } else {
        seq![s[0]] + redact_header_spec(s.skip(1), header, replacement)
    }
}

#[via_fn]
proof fn redact_header_spec_decreases(s: Seq<char>, header: Seq<char>, replacement: Seq<char>) {
    if header.len() > 0 && ci_matches_at(s, header, 0) {
        let after = s.skip(header.len() as int);
        let rest = if after.len() > 0 && after[0] == ' ' {
            after.skip(1)
        } else {
            after
        };
        lemma_line_len_bounds(rest);
    }
}

proof fn lemma_ci_matches_at_skip(s: Seq<char>, pat: Seq<char>, i: int)
    requires
        0 <= i <= s.len(),
    ensures
        ci_matches_at(s, pat, i) == ci_matches_at(s.skip(i), pat, 0),
{
    if i + pat.len() <= s.len() {
        assert forall|k: int| 0 <= k < pat.len() implies s.skip(i)[k] == s[i + k] by {}
    }
}

/// One header-redaction pass, scanning left to right.
pub fn redact_header_value(text: &str, header: &str, replacement: &str) -> (r: String)
    requires
        header@.len() > 0,
    ensures
        r@ == redact_header_spec(text@, header@, replacement@),
{
    let len = text.unicode_len();
    let hlen = header.unicode_len();
    let mut out = String::new();
    let mut i: usize = 0;
    proof {
        assert(text@.skip(0) =~= text@);
        assert(out@ + redact_header_spec(text@, header@, replacement@) =~= redact_header_spec(
            text@,
            header@,
            replacement@,
        ));
    }
    while i < len
        invariant
            0 <= i <= len,
            len == text@.len(),
            hlen == header@.len(),
            hlen > 0,
            out@ + redact_header_spec(text@.skip(i as int), header@, replacement@)
                == redact_header_spec(text@, header@, replacement@),
        decreases len - i,
    {
        let ghost suffix = text@.skip(i as int);
        let ghost out_before = out@;
        if ci_match_at(text, header, i) {
            proof {
                lemma_ci_matches_at_skip(text@, header@, i as int);
            }
            let matched = text.substring_char(i, i + hlen);
            proof {
                assert(matched@ =~= suffix.subrange(0, hlen as int));
            }
            out.append(matched);
            let mut k: usize = i + hlen;
            let ghost after = suffix.skip(hlen as int);
            let ghost spaced = after.len() > 0 && after[0] == ' ';
            proof {
                assert(after =~= text@.skip(i as int + hlen as int));
                if after.len() > 0 {
                    assert(after[0] == text@[k as int]);
                }
            }
            if k < len && text.get_char(k) == ' ' {
                out.append(" ");
                proof {
                    reveal_strlit(" ");
                    assert(" "@ =~= seq![' ']);
                }
                k = k + 1;
            }
            proof {
                if spaced {
                    assert(text@.skip(k as int) =~= after.skip(1));
                    assert(out@ =~= out_before + suffix.subrange(0, hlen as int) + seq![' ']);
                } else {
                    assert(text@.skip(k as int) =~= after);
                    assert(out@ =~= out_before + suffix.subrange(0, hlen as int)
                        + Seq::<char>::empty());
                }
            }
            let ghost rest = text@.skip(k as int);
            out.append(replacement);
            let mut m: usize = k;
            while m < len && !(text.get_char(m) == '\n' || text.get_char(m) == '\r')
                invariant
                    k <= m <= len,
                    len == text@.len(),
                    line_len(text@.skip(k as int)) == (m - k) + line_len(text@.skip(m as int)),
                decreases len - m,
            {
                proof {
                    assert(text@.skip(m as int)[0] == text@[m as int]);
                    assert(text@.skip(m as int).skip(1) =~= text@.skip(m as int + 1));
                }
                m = m + 1;
            }
            proof {
                if m == len {
                    assert(text@.skip(m as int) =~= Seq::<char>::empty());
                } else {
                    assert(text@.skip(m as int)[0] == text@[m as int]);
                }
                assert(line_len(text@.skip(m as int)) == 0);
                assert(rest.skip(line_len(rest)) =~= text@.skip(m as int));
                let sp: Seq<char> = if spaced {
                    seq![' ']
                } else {
                    Seq::empty()
                };
                let tail = redact_header_spec(text@.skip(m as int), header@, replacement@);
                assert(redact_header_spec(suffix, header@, replacement@) == suffix.subrange(
                    0,
                    hlen as int,
                ) + sp + replacement@ + tail);
                assert(out@ =~= out_before + suffix.subrange(0, hlen as int) + sp + replacement@);
                assert(out@ + tail =~= out_before + (suffix.subrange(0, hlen as int) + sp
                    + replacement@ + tail));
            }
            i = m;
        } else {
            proof {
                lemma_ci_matches_at_skip(text@, header@, i as int);
                assert(suffix[0] == text@[i as int]);
                assert(suffix.skip(1) =~= text@.skip(i as int + 1));
            }
            let piece = text.substring_char(i, i + 1);
            proof {
                assert(piece@ =~= seq![text@[i as int]]);
            }
            out.append(piece);
            i = i + 1;
        }
    }
    proof {
        assert(text@.skip(len as int) =~= Seq::<char>::empty());
        assert(redact_header_spec(Seq::<char>::empty(), header@, replacement@)
            =~= Seq::<char>::empty());
        assert(out@ + Seq::<char>::empty() =~= out@);
    }
    out
}

/// The session-key filter: both casings of `sessionKey=` have their value
/// redacted, then `sk-ant-sid01-` token tails are redacted.
pub open spec fn redact_session_key_spec(s: Seq<char>) -> Seq<char> {
    redact_pass_spec(
        redact_pass_spec(redact_pass_spec(s, "sessionKey="@, false), "sessionkey="@, false),
        "sk-ant-sid01-"@,
        true,
    )
}

pub fn redact_session_key(input: &str) -> (r: String)
    ensures
        r@ == redact_session_key_spec(input@),
{
    proof {
        reveal_strlit("sessionKey=");
        reveal_strlit("sessionkey=");
        reveal_strlit("sk-ant-sid01-");
    }
    let first = redact_pass(input, "sessionKey=", false);
    let second = redact_pass(first.as_str(), "sessionkey=", false);
    redact_pass(second.as_str(), "sk-ant-sid01-", true)
}

/// The full filter: the session-key passes, then the header passes for
/// cookies and bearer tokens in both common casings.
pub open spec fn redact_secrets_spec(s: Seq<char>) -> Seq<char> {
    let v0 = redact_session_key_spec(s);
    let v1 = redact_header_spec(v0, "Cookie:"@, "REDACTED"@);
    let v2 = redact_header_spec(v1, "cookie:"@, "REDACTED"@);
    let v3 = redact_header_spec(v2, "Authorization: Bearer"@, "REDACTED"@);
    redact_header_spec(v3, "authorization: Bearer"@, "REDACTED"@)
}

pub fn redact_secrets(input: &str) -> (r: String)
    ensures
        r@ == redact_secrets_spec(input@),
{
    proof {
        reveal_strlit("Cookie:");
        reveal_strlit("cookie:");
        reveal_strlit("Authorization: Bearer");
        reveal_strlit("authorization: Bearer");
    }
    let v0 = redact_session_key(input);
    let v1 = redact_header_value(v0.as_str(), "Cookie:", "REDACTED");
    let v2 = redact_header_value(v1.as_str(), "cookie:", "REDACTED");
    let v3 = redact_header_value(v2.as_str(), "Authorization: Bearer", "REDACTED");
    redact_header_value(v3.as_str(), "authorization: Bearer", "REDACTED")
}

} // verus!
