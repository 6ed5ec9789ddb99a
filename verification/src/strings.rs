//! Small verified string utilities shared by the parsing, redaction and
//! alerting modules: ASCII-whitespace trimming, pattern matching at a
//! position, and string equality, each stated over `Seq<char>` views.

use vstd::prelude::*;

verus! {

/// ASCII whitespace. Trimming and tokenizing in this library go by this
/// predicate rather than the full Unicode white-space table.
pub open spec fn is_space(c: char) -> bool {
    c == ' ' || c == '\t' || c == '\n' || c == '\r' || c == '\x0b' || c == '\x0c'
}

pub fn is_space_char(c: char) -> (r: bool)
    ensures
        r == is_space(c),
{
    c == ' ' || c == '\t' || c == '\n' || c == '\r' || c == '\x0b' || c == '\x0c'
}

pub open spec fn trim_start_spec(s: Seq<char>) -> Seq<char>
    decreases s.len(),
{
    if s.len() > 0 && is_space(s[0]) {
        trim_start_spec(s.skip(1))
    } else {
        s
    }
}

pub open spec fn trim_end_spec(s: Seq<char>) -> Seq<char>
    decreases s.len(),
{
    if s.len() > 0 && is_space(s[s.len() - 1]) {
        trim_end_spec(s.take(s.len() - 1))
    } else {
        s
    }
}

/// The string with ASCII whitespace removed from both ends.
pub open spec fn trim_spec(s: Seq<char>) -> Seq<char> {
    trim_end_spec(trim_start_spec(s))
}

/// Trimmed strings carry no leading or trailing whitespace, so in particular
/// a nonempty trimmed string starts and ends with a non-space character.
pub proof fn lemma_trim_start_no_leading_space(s: Seq<char>)
    ensures
        trim_start_spec(s).len() > 0 ==> !is_space(trim_start_spec(s)[0]),
        trim_start_spec(s).len() <= s.len(),
    decreases s.len(),
{
    if s.len() > 0 && is_space(s[0]) {
        lemma_trim_start_no_leading_space(s.skip(1));
    }
}

proof fn lemma_trim_end_prefix(s: Seq<char>)
    ensures
        trim_end_spec(s).len() <= s.len(),
        trim_end_spec(s) == s.take(trim_end_spec(s).len() as int),
        trim_end_spec(s).len() > 0 ==> !is_space(trim_end_spec(s)[trim_end_spec(s).len() - 1]),
    decreases s.len(),
{
    if s.len() > 0 && is_space(s[s.len() - 1]) {
        lemma_trim_end_prefix(s.take(s.len() - 1));
        assert(s.take(s.len() - 1).take(trim_end_spec(s).len() as int) =~= s.take(
            trim_end_spec(s).len() as int,
        ));
    } else {
        assert(s.take(s.len() as int) =~= s);
    }
}

/// Trimming is idempotent: a trimmed string trims to itself.
pub proof fn lemma_trim_idempotent(s: Seq<char>)
    ensures
        trim_spec(trim_spec(s)) == trim_spec(s),
{
    let u = trim_start_spec(s);
    let t = trim_end_spec(u);
    lemma_trim_start_no_leading_space(s);
    lemma_trim_end_prefix(u);
    if t.len() > 0 {
        assert(t[0] == u[0]);
    }
    assert(trim_start_spec(t) == t);
    assert(trim_end_spec(t) == t);
}

pub fn trim_of(s: &str) -> (r: String)
    ensures
        r@ == trim_spec(s@),
{
    let len = s.unicode_len();
    let mut i: usize = 0;
    proof {
        assert(s@.skip(0) =~= s@);
    }
    while i < len && is_space_char(s.get_char(i))
        invariant
            0 <= i <= len,
            len == s@.len(),
            trim_start_spec(s@) == trim_start_spec(s@.skip(i as int)),
        decreases len - i,
    {
        proof {
            assert(s@.skip(i as int)[0] == s@[i as int]);
            assert(s@.skip(i as int).skip(1) =~= s@.skip(i as int + 1));
        }
        i = i + 1;
    }
    proof {
        if i == len {
            assert(s@.skip(i as int) =~= Seq::<char>::empty());
        }
        assert(trim_start_spec(s@) == s@.skip(i as int));
        assert(s@.skip(i as int) =~= s@.subrange(i as int, len as int));
    }
    let mut j: usize = len;
    while j > i && is_space_char(s.get_char(j - 1))
        invariant
            i <= j <= len,
            len == s@.len(),
            trim_end_spec(s@.subrange(i as int, len as int)) == trim_end_spec(
                s@.subrange(i as int, j as int),
            ),
        decreases j,
    {
        proof {
            let sub = s@.subrange(i as int, j as int);
            assert(sub[sub.len() - 1] == s@[j - 1]);
            assert(sub.take(sub.len() - 1) =~= s@.subrange(i as int, j as int - 1));
        }
        j = j - 1;
    }
    proof {
        let sub = s@.subrange(i as int, j as int);
        if j == i {
            assert(sub =~= Seq::<char>::empty());
        } else {
            assert(sub[sub.len() - 1] == s@[j - 1]);
        }
        assert(trim_end_spec(sub) == sub);
    }
    s.substring_char(i, j).to_owned()
}

/// `pat` occurs in `s` starting at index `i`.
pub open spec fn matches_at(s: Seq<char>, pat: Seq<char>, i: int) -> bool {
    0 <= i && i + pat.len() <= s.len() && s.subrange(i, i + pat.len()) == pat
}

pub fn match_at(s: &str, pat: &str, i: usize) -> (r: bool)
    requires
        i <= s@.len(),
    ensures
        r == matches_at(s@, pat@, i as int),
{
    let len = s.unicode_len();
    let n = pat.unicode_len();
    if n > len - i {
        return false;
    }
    let mut j: usize = 0;
    while j < n
        invariant
            0 <= j <= n,
            n == pat@.len(),
            len == s@.len(),
            i + n <= len,
            forall|k: int| 0 <= k < j ==> s@[i + k] == pat@[k],
        decreases n - j,
    {
        if s.get_char(i + j) != pat.get_char(j) {
            proof {
                assert(s@.subrange(i as int, i as int + n as int)[j as int] == s@[i + j]);
            }
            return false;
        }
        j = j + 1;
    }
    proof {
        assert(s@.subrange(i as int, i as int + n as int) =~= pat@);
    }
    true
}

pub fn eq_str(a: &str, b: &str) -> (r: bool)
    ensures
        r == (a@ == b@),
{
    let la = a.unicode_len();
    let lb = b.unicode_len();
    if la != lb {
        return false;
    }
    let r = match_at(a, b, 0);
    proof {
        assert(a@.subrange(0, a@.len() as int) =~= a@);
    }
    r
}

/// Relies on `String::from_iter` over `char`: the string holding exactly the
/// given characters, in order.
#[verifier::external_body]
pub fn string_from_chars(v: &Vec<char>) -> (r: String)
    ensures
        r@ == v@,
{
    v.iter().collect()
}

/// The ASCII-uppercased character: `a`-`z` fold to `A`-`Z`, everything else
/// is unchanged.
pub open spec fn ascii_upper(c: char) -> char {
    if 'a' <= c && c <= 'z' {
        ((c as u32) - 32) as char
    } else {
        c
    }
}

/// The ASCII-lowercased character: `A`-`Z` fold to `a`-`z`, everything else
/// is unchanged.
pub open spec fn ascii_lower(c: char) -> char {
    if 'A' <= c && c <= 'Z' {
        ((c as u32) + 32) as char
    } else {
        c
    }
}

pub fn ascii_upper_char(c: char) -> (r: char)
    ensures
        r == ascii_upper(c),
{
    match c {
        'a' => 'A',
        'b' => 'B',
        'c' => 'C',
        'd' => 'D',
        'e' => 'E',
        'f' => 'F',
        'g' => 'G',
        'h' => 'H',
        'i' => 'I',
        'j' => 'J',
        'k' => 'K',
        'l' => 'L',
        'm' => 'M',
        'n' => 'N',
        'o' => 'O',
        'p' => 'P',
        'q' => 'Q',
        'r' => 'R',
        's' => 'S',
        't' => 'T',
        'u' => 'U',
        'v' => 'V',
        'w' => 'W',
        'x' => 'X',
        'y' => 'Y',
        'z' => 'Z',
        _ => c,
    }
}

pub fn ascii_lower_char(c: char) -> (r: char)
    ensures
        r == ascii_lower(c),
{
    match c {
        'A' => 'a',
        'B' => 'b',
        'C' => 'c',
        'D' => 'd',
        'E' => 'e',
        'F' => 'f',
        'G' => 'g',
        'H' => 'h',
        'I' => 'i',
        'J' => 'j',
        'K' => 'k',
        'L' => 'l',
        'M' => 'm',
        'N' => 'n',
        'O' => 'o',
        'P' => 'p',
        'Q' => 'q',
        'R' => 'r',
        'S' => 's',
        'T' => 't',
        'U' => 'u',
        'V' => 'v',
        'W' => 'w',
        'X' => 'x',
        'Y' => 'y',
        'Z' => 'z',
        _ => c,
    }
}

/// The character for a single decimal digit value.
pub open spec fn digit_char(d: int) -> char {
    if d == 0 {
        '0'
    } else if d == 1 {
        '1'
    } else if d == 2 {
        '2'
    } else if d == 3 {
        '3'
    } else if d == 4 {
        '4'
    } else if d == 5 {
        '5'
    } else if d == 6 {
        '6'
    } else if d == 7 {
        '7'
    } else if d == 8 {
        '8'
    } else {
        '9'
    }
}

/// The decimal rendering of a nonnegative integer, most significant digit
/// first, with no leading zeros (except for zero itself).
pub open spec fn dec_str(n: nat) -> Seq<char>
    decreases n,
{
    if n < 10 {
        seq![digit_char(n as int)]
    } else {
        dec_str(n / 10) + seq![digit_char((n % 10) as int)]
    }
}

fn digit_char_exec(d: u32) -> (r: char)
    requires
        d < 10,
    ensures
        r == digit_char(d as int),
{
    match d {
        0 => '0',
        1 => '1',
        2 => '2',
        3 => '3',
        4 => '4',
        5 => '5',
        6 => '6',
        7 => '7',
        8 => '8',
        _ => '9',
    }
}

fn push_dec(n: u32, out: &mut Vec<char>)
    ensures
        final(out)@ == old(out)@ + dec_str(n as nat),
    decreases n,
{
    if n < 10 {
        out.push(digit_char_exec(n));
    } else {
        push_dec(n / 10, out);
        out.push(digit_char_exec(n % 10));
    }
}

/// Render a number in decimal.
pub fn u32_to_string(n: u32) -> (r: String)
    ensures
        r@ == dec_str(n as nat),
{
    let mut v: Vec<char> = Vec::new();
    push_dec(n, &mut v);
    proof {
        assert(Seq::<char>::empty() + dec_str(n as nat) =~= dec_str(n as nat));
    }
    string_from_chars(&v)
}

/// The view of an optional owned string.
pub open spec fn opt_view(o: Option<String>) -> Option<Seq<char>> {
    match o {
        Some(s) => Some(s@),
        None => None,
    }
}

/// Equality of an optional string against a plain one, as the alert engine
/// compares a stored period identifier with the current one.
pub fn opt_eq_str(a: &Option<String>, b: &str) -> (r: bool)
    ensures
        r == match a {
            Some(v) => v@ == b@,
            None => false,
        },
{
    match a {
        Some(v) => eq_str(v.as_str(), b),
        None => false,
    }
}

} // verus!
