//! Character-level text helpers: trimming, prefix and suffix tests,
//! decimal rendering of status codes, and JSON string escaping.

use vstd::prelude::*;
use vstd::string::*;

verus! {

/// A character counted as whitespace when trimming, following the
/// Unicode `White_Space` property.
pub open spec fn is_space(c: char) -> bool {
    c == ' ' || c == '\t' || c == '\n' || c == '\r' || c == '\u{b}' || c == '\u{c}'
        || c == '\u{85}' || c == '\u{a0}' || c == '\u{1680}' || c == '\u{2000}' || c == '\u{2001}'
        || c == '\u{2002}' || c == '\u{2003}' || c == '\u{2004}' || c == '\u{2005}'
        || c == '\u{2006}' || c == '\u{2007}' || c == '\u{2008}' || c == '\u{2009}'
        || c == '\u{200a}' || c == '\u{2028}' || c == '\u{2029}' || c == '\u{202f}'
        || c == '\u{205f}' || c == '\u{3000}'
}

/// Whether `c` is counted as whitespace; agrees with [`is_space`].
pub fn is_space_char(c: char) -> (r: bool)
    ensures
        r == is_space(c),
{
    c == ' ' || c == '\t' || c == '\n' || c == '\r' || c == '\u{b}' || c == '\u{c}'
        || c == '\u{85}' || c == '\u{a0}' || c == '\u{1680}' || c == '\u{2000}' || c == '\u{2001}'
        || c == '\u{2002}' || c == '\u{2003}' || c == '\u{2004}' || c == '\u{2005}'
        || c == '\u{2006}' || c == '\u{2007}' || c == '\u{2008}' || c == '\u{2009}'
        || c == '\u{200a}' || c == '\u{2028}' || c == '\u{2029}' || c == '\u{202f}'
        || c == '\u{205f}' || c == '\u{3000}'
}

/// The text with leading whitespace removed.
pub open spec fn trim_start_spec(s: Seq<char>) -> Seq<char>
    decreases s.len(),
{
    if s.len() > 0 && is_space(s[0]) {
        trim_start_spec(s.subrange(1, s.len() as int))
    } else {
        s
    }
}

/// The text with trailing whitespace removed.
pub open spec fn trim_end_spec(s: Seq<char>) -> Seq<char>
    decreases s.len(),
{
    if s.len() > 0 && is_space(s[s.len() - 1]) {
        trim_end_spec(s.subrange(0, s.len() - 1))
    } else {
        s
    }
}

/// The text with leading and trailing whitespace removed.
pub open spec fn trim_spec(s: Seq<char>) -> Seq<char> {
    trim_end_spec(trim_start_spec(s))
}

proof fn lemma_trim_start_at(s: Seq<char>, i: int)
    requires
        0 <= i <= s.len(),
        forall|k: int| 0 <= k < i ==> is_space(s[k]),
        i < s.len() ==> !is_space(s[i]),
    ensures
        trim_start_spec(s) == s.subrange(i, s.len() as int),
    decreases i,
{
    if i == 0 {
        assert(s.subrange(0, s.len() as int) =~= s);
    } else {
        let t = s.subrange(1, s.len() as int);
        lemma_trim_start_at(t, i - 1);
        assert(t.subrange(i - 1, t.len() as int) =~= s.subrange(i, s.len() as int));
    }
}

proof fn lemma_trim_end_at(s: Seq<char>, j: int)
    requires
        0 <= j <= s.len(),
        forall|k: int| j <= k < s.len() ==> is_space(s[k]),
        j > 0 ==> !is_space(s[j - 1]),
    ensures
        trim_end_spec(s) == s.subrange(0, j),
    decreases s.len() - j,
{
    if j == s.len() {
        assert(s.subrange(0, s.len() as int) =~= s);
    } else {
        let t = s.subrange(0, s.len() - 1);
        lemma_trim_end_at(t, j);
        assert(t.subrange(0, j) =~= s.subrange(0, j));
    }
}

/// Remove leading and trailing whitespace from `s`.
pub fn trim_str(s: &str) -> (r: &str)
    ensures
        r@ == trim_spec(s@),
{
    let n = s.unicode_len();
    let mut i: usize = 0;
    while i < n && is_space_char(s.get_char(i))
        invariant
            0 <= i <= n,
            n == s@.len(),
            forall|k: int| 0 <= k < i ==> is_space(s@[k]),
        decreases n - i,
    {
        i = i + 1;
    }
    let mut j: usize = n;
    while j > i && is_space_char(s.get_char(j - 1))
        invariant
            i <= j <= n,
            n == s@.len(),
            forall|k: int| j <= k < n ==> is_space(s@[k]),
        decreases j,
    {
        j = j - 1;
    }
    proof {
        lemma_trim_start_at(s@, i as int);
        let t = s@.subrange(i as int, n as int);
        lemma_trim_end_at(t, j - i);
        assert(t.subrange(0, j - i) =~= s@.subrange(i as int, j as int));
    }
    s.substring_char(i, j)
}

/// Whether `s` begins with `p`.
pub open spec fn starts_with(s: Seq<char>, p: Seq<char>) -> bool {
    p.len() <= s.len() && s.subrange(0, p.len() as int) == p
}

/// Whether `s` ends with `p`.
pub open spec fn ends_with(s: Seq<char>, p: Seq<char>) -> bool {
    p.len() <= s.len() && s.subrange(s.len() - p.len(), s.len() as int) == p
}

/// Whether `s` begins with `p`; agrees with [`starts_with`].
pub fn starts_with_str(s: &str, p: &str) -> (r: bool)
    ensures
        r == starts_with(s@, p@),
{
    let sn = s.unicode_len();
    let pn = p.unicode_len();
    if pn > sn {
        return false;
    }
    let mut i: usize = 0;
    while i < pn
        invariant
            0 <= i <= pn <= sn,
            sn == s@.len(),
            pn == p@.len(),
            forall|k: int| 0 <= k < i ==> s@[k] == p@[k],
        decreases pn - i,
    {
        if s.get_char(i) != p.get_char(i) {
            assert(s@.subrange(0, pn as int)[i as int] != p@[i as int]);
            return false;
        }
        i = i + 1;
    }
    assert(s@.subrange(0, pn as int) =~= p@);
    true
}

/// Whether `s` ends with `p`; agrees with [`ends_with`].
pub fn ends_with_str(s: &str, p: &str) -> (r: bool)
    ensures
        r == ends_with(s@, p@),
{
    let sn = s.unicode_len();
    let pn = p.unicode_len();
    if pn > sn {
        return false;
    }
    let base = sn - pn;
    let mut i: usize = 0;
    while i < pn
        invariant
            0 <= i <= pn <= sn,
            sn == s@.len(),
            pn == p@.len(),
            base == sn - pn,
            forall|k: int| 0 <= k < i ==> s@[base + k] == p@[k],
        decreases pn - i,
    {
        if s.get_char(base + i) != p.get_char(i) {
            assert(s@.subrange(base as int, sn as int)[i as int] != p@[i as int]);
            return false;
        }
        i = i + 1;
    }
    assert(s@.subrange(base as int, sn as int) =~= p@);
    true
}

/// The character for the decimal digit `d`.
pub open spec fn dec_digit(d: int) -> char {
    if d == 0 { '0' }
    else if d == 1 { '1' }
    else if d == 2 { '2' }
    else if d == 3 { '3' }
    else if d == 4 { '4' }
    else if d == 5 { '5' }
    else if d == 6 { '6' }
    else if d == 7 { '7' }
    else if d == 8 { '8' }
    else { '9' }
}

/// The decimal rendering of `n`, most significant digit first.
pub open spec fn dec_str(n: int) -> Seq<char>
    decreases n,
{
    if n < 10 {
        seq![dec_digit(n)]
    } else {
        dec_str(n / 10).push(dec_digit(n % 10))
    }
}

fn digit_literal(d: u16) -> (r: &'static str)
    requires
        d < 10,
    ensures
        r@ == seq![dec_digit(d as int)],
{
    proof {
        reveal_strlit("0");
        reveal_strlit("1");
        reveal_strlit("2");
        reveal_strlit("3");
        reveal_strlit("4");
        reveal_strlit("5");
        reveal_strlit("6");
        reveal_strlit("7");
        reveal_strlit("8");
        reveal_strlit("9");
    }
    let r: &'static str = if d == 0 { "0" }
    else if d == 1 { "1" }
    else if d == 2 { "2" }
    else if d == 3 { "3" }
    else if d == 4 { "4" }
    else if d == 5 { "5" }
    else if d == 6 { "6" }
    else if d == 7 { "7" }
    else if d == 8 { "8" }
    else { "9" };
    proof {
        assert(r@ =~= seq![dec_digit(d as int)]);
    }
    r
}

/// Render `n` in decimal; agrees with [`dec_str`].
pub fn decimal_string(n: u16) -> (r: String)
    ensures
        r@ == dec_str(n as int),
    decreases n,
{
    if n < 10 {
        digit_literal(n).to_owned()
    } else {
        let mut s = decimal_string(n / 10);
        s.append(digit_literal(n % 10));
        proof {
            assert(s@ =~= dec_str(n as int));
        }
        s
    }
}

/// How one character is written inside a JSON string literal.
pub open spec fn escape_char(c: char) -> Seq<char> {
    if c == '"' { "\\\""@ }
    else if c == '\\' { "\\\\"@ }
    else if c == '\u{8}' { "\\b"@ }
    else if c == '\t' { "\\t"@ }
    else if c == '\n' { "\\n"@ }
    else if c == '\u{c}' { "\\f"@ }
    else if c == '\r' { "\\r"@ }
    else if c == '\u{0}' { "\\u0000"@ }
    else if c == '\u{1}' { "\\u0001"@ }
    else if c == '\u{2}' { "\\u0002"@ }
    else if c == '\u{3}' { "\\u0003"@ }
    else if c == '\u{4}' { "\\u0004"@ }
    else if c == '\u{5}' { "\\u0005"@ }
    else if c == '\u{6}' { "\\u0006"@ }
    else if c == '\u{7}' { "\\u0007"@ }
    else if c == '\u{b}' { "\\u000b"@ }
    else if c == '\u{e}' { "\\u000e"@ }
    else if c == '\u{f}' { "\\u000f"@ }
    else if c == '\u{10}' { "\\u0010"@ }
    else if c == '\u{11}' { "\\u0011"@ }
    else if c == '\u{12}' { "\\u0012"@ }
    else if c == '\u{13}' { "\\u0013"@ }
    else if c == '\u{14}' { "\\u0014"@ }
    else if c == '\u{15}' { "\\u0015"@ }
    else if c == '\u{16}' { "\\u0016"@ }
    else if c == '\u{17}' { "\\u0017"@ }
    else if c == '\u{18}' { "\\u0018"@ }
    else if c == '\u{19}' { "\\u0019"@ }
    else if c == '\u{1a}' { "\\u001a"@ }
    else if c == '\u{1b}' { "\\u001b"@ }
    else if c == '\u{1c}' { "\\u001c"@ }
    else if c == '\u{1d}' { "\\u001d"@ }
    else if c == '\u{1e}' { "\\u001e"@ }
    else if c == '\u{1f}' { "\\u001f"@ }
    else { seq![c] }
}

/// The text written inside a JSON string literal for `s`.
pub open spec fn escape_text(s: Seq<char>) -> Seq<char>
    decreases s.len(),
{
    if s.len() == 0 {
        s
    } else {
        escape_text(s.subrange(0, s.len() - 1)) + escape_char(s[s.len() - 1])
    }
}

fn control_escape(c: char) -> (r: &'static str)
    requires
        (c as u32) < 0x20,
        c != '\u{8}' && c != '\t' && c != '\n' && c != '\u{c}' && c != '\r',
    ensures
        r@ == escape_char(c),
{
    if c == '\u{0}' { "\\u0000" }
    else if c == '\u{1}' { "\\u0001" }
    else if c == '\u{2}' { "\\u0002" }
    else if c == '\u{3}' { "\\u0003" }
    else if c == '\u{4}' { "\\u0004" }
    else if c == '\u{5}' { "\\u0005" }
    else if c == '\u{6}' { "\\u0006" }
    else if c == '\u{7}' { "\\u0007" }
    else if c == '\u{b}' { "\\u000b" }
    else if c == '\u{e}' { "\\u000e" }
    else if c == '\u{f}' { "\\u000f" }
    else if c == '\u{10}' { "\\u0010" }
    else if c == '\u{11}' { "\\u0011" }
    else if c == '\u{12}' { "\\u0012" }
    else if c == '\u{13}' { "\\u0013" }
    else if c == '\u{14}' { "\\u0014" }
    else if c == '\u{15}' { "\\u0015" }
    else if c == '\u{16}' { "\\u0016" }
    else if c == '\u{17}' { "\\u0017" }
    else if c == '\u{18}' { "\\u0018" }
    else if c == '\u{19}' { "\\u0019" }
    else if c == '\u{1a}' { "\\u001a" }
    else if c == '\u{1b}' { "\\u001b" }
    else if c == '\u{1c}' { "\\u001c" }
    else if c == '\u{1d}' { "\\u001d" }
    else if c == '\u{1e}' { "\\u001e" }
    else { "\\u001f" }
}

/// Append to `out` the JSON-escaped form of `s`.
pub fn append_escaped(out: &mut String, s: &str)
    ensures
        final(out)@ == old(out)@ + escape_text(s@),
{
    let n = s.unicode_len();
    let mut i: usize = 0;
    proof {
        assert(old(out)@ + escape_text(s@.subrange(0, 0)) =~= old(out)@);
    }
    while i < n
        invariant
            0 <= i <= n,
            n == s@.len(),
            out@ == old(out)@ + escape_text(s@.subrange(0, i as int)),
        decreases n - i,
    {
        let ghost prefix = s@.subrange(0, i as int);
        let c = s.get_char(i);
        if c == '"' {
            out.append("\\\"");
        } else if c == '\\' {
            out.append("\\\\");
        } else if c == '\u{8}' {
            out.append("\\b");
        } else if c == '\t' {
            out.append("\\t");
        } else if c == '\n' {
            out.append("\\n");
        } else if c == '\u{c}' {
            out.append("\\f");
        } else if c == '\r' {
            out.append("\\r");
        } else if (c as u32) < 0x20 {
            out.append(control_escape(c));
        } else {
            let piece = s.substring_char(i, i + 1);
            proof {
                assert(piece@ =~= seq![c]);
            }
            out.append(piece);
        }
        proof {
            let longer = s@.subrange(0, i + 1);
            assert(longer.subrange(0, longer.len() - 1) =~= prefix);
            assert(longer[longer.len() - 1] == c);
            assert(out@ =~= old(out)@ + escape_text(longer));
        }
        i = i + 1;
    }
    proof {
        assert(s@.subrange(0, n as int) =~= s@);
    }
}

} // verus!
