//! Character-level helpers over string views: joining, trimming and digit rendering.

use vstd::prelude::*;
use vstd::string::*;

verus! {

/// `parts` joined with `sep` between neighbours.
pub open spec fn joined(parts: Seq<Seq<char>>, sep: Seq<char>) -> Seq<char>
    decreases parts.len(),
{
    if parts.len() == 0 {
        Seq::empty()
    } else if parts.len() == 1 {
        parts[0]
    } else {
        joined(parts.drop_last(), sep) + sep + parts.last()
    }
}

/// Joins the strings with `sep` between neighbours.
pub fn join_strings(parts: &[String], sep: &str) -> (r: String)
    ensures
        r@ == joined(parts@.map_values(|p: String| p@), sep@),
{
    let mut r = String::new();
    let ghost views = parts@.map_values(|p: String| p@);
    let n = parts.len();
    let mut i: usize = 0;
    while i < n
        invariant
            n == parts@.len(),
            views == parts@.map_values(|p: String| p@),
            0 <= i <= n,
            r@ == joined(views.take(i as int), sep@),
        decreases n - i,
    {
        assert(views.take(i + 1).drop_last() =~= views.take(i as int));
        if i != 0 {
            r.append(sep);
        }
        r.append(parts[i].as_str());
        i = i + 1;
    }
    assert(views.take(n as int) =~= views);
    r
}


/// Whether two string slices hold the same characters.
pub fn str_equal(a: &str, b: &str) -> (r: bool)
    ensures
        r == (a@ == b@),
{
    let x = String::from_str(a);
    let y = String::from_str(b);
    x == y
}


/// The character of a decimal digit.
pub open spec fn digit_char(d: int) -> char {
    if d == 0 {
        '0'
    } else if d == 1 {
        '1'
    } else if d == 2 {
        '2'
    } else if d == 3 {
        '3'
    } else if d == 4 {
        '4'
    } else if d == 5 {
        '5'
    } else if d == 6 {
        '6'
    } else if d == 7 {
        '7'
    } else if d == 8 {
        '8'
    } else {
        '9'
    }
}

/// The decimal text of a natural number, without sign or leading zeros.
pub open spec fn decimal_text(n: nat) -> Seq<char>
    decreases n,
{
    if n < 10 {
        seq![digit_char(n as int)]
    } else {
        decimal_text(n / 10).push(digit_char((n % 10) as int))
    }
}

fn digit_str(d: u64) -> (r: &'static str)
    requires
        d < 10,
    ensures
        r@ == seq![digit_char(d as int)],
{
    let digits = "0123456789";
    proof {
        reveal_strlit("0123456789");
    }
    digits.substring_char(d as usize, (d + 1) as usize)
}

/// Renders a natural number in decimal, as `Display` does for unsigned integers.
pub fn u64_text(n: u64) -> (r: String)
    ensures
        r@ == decimal_text(n as nat),
    decreases n,
{
    if n < 10 {
        String::from_str(digit_str(n))
    } else {
        let mut r = u64_text(n / 10);
        r.append(digit_str(n % 10));
        r
    }
}

/// The decimal text of an integer: a minus sign before the text of its magnitude when it is
/// negative.
pub open spec fn signed_decimal_text(n: int) -> Seq<char> {
    if n < 0 {
        seq!['-'] + decimal_text((-n) as nat)
    } else {
        decimal_text(n as nat)
    }
}

/// Renders a signed integer in decimal, as `Display` does.
pub fn i64_text(n: i64) -> (r: String)
    ensures
        r@ == signed_decimal_text(n as int),
{
    if n < 0 {
        let magnitude: u64 = if n == i64::MIN {
            9223372036854775808u64
        } else {
            (-n) as u64
        };
        let mut r = String::from_str("-");
        let digits = u64_text(magnitude);
        r.append(digits.as_str());
        proof {
            reveal_strlit("-");
        }
        r
    } else {
        u64_text(n as u64)
    }
}

/// Whether `c` has Unicode's White_Space property, the test `char::is_whitespace` makes.
pub open spec fn is_whitespace(c: char) -> bool {
    ||| '\u{9}' <= c <= '\u{d}'
    ||| c == ' '
    ||| c == '\u{85}'
    ||| c == '\u{a0}'
    ||| c == '\u{1680}'
    ||| '\u{2000}' <= c <= '\u{200a}'
    ||| c == '\u{2028}'
    ||| c == '\u{2029}'
    ||| c == '\u{202f}'
    ||| c == '\u{205f}'
    ||| c == '\u{3000}'
}

fn char_is_whitespace(c: char) -> (r: bool)
    ensures
        r == is_whitespace(c),
{
    ('\u{9}' <= c && c <= '\u{d}') || c == ' ' || c == '\u{85}' || c == '\u{a0}' || c
        == '\u{1680}' || ('\u{2000}' <= c && c <= '\u{200a}') || c == '\u{2028}' || c
        == '\u{2029}' || c == '\u{202f}' || c == '\u{205f}' || c == '\u{3000}'
}

/// The number of whitespace characters at the start of `s`.
pub open spec fn leading_ws(s: Seq<char>) -> nat
    decreases s.len(),
{
    if s.len() == 0 || !is_whitespace(s[0]) {
        0
    } else {
        1 + leading_ws(s.drop_first())
    }
}

/// The number of whitespace characters at the end of `s`.
pub open spec fn trailing_ws(s: Seq<char>) -> nat
    decreases s.len(),
{
    if s.len() == 0 || !is_whitespace(s.last()) {
        0
    } else {
        1 + trailing_ws(s.drop_last())
    }
}

/// `s` without its leading and trailing whitespace, as `str::trim` gives it.
pub open spec fn trimmed(s: Seq<char>) -> Seq<char> {
    let rest = s.skip(leading_ws(s) as int);
    rest.take(rest.len() - trailing_ws(rest))
}

proof fn lemma_leading_ws(s: Seq<char>, i: int)
    requires
        0 <= i <= s.len(),
        forall|k: int| 0 <= k < i ==> is_whitespace(#[trigger] s[k]),
        i == s.len() || !is_whitespace(s[i]),
    ensures
        leading_ws(s) == i,
    decreases i,
{
    if i > 0 {
        assert(is_whitespace(s[0]));
        let t = s.drop_first();
        assert forall|k: int| 0 <= k < i - 1 implies is_whitespace(#[trigger] t[k]) by {
            assert(t[k] == s[k + 1]);
        }
        if i - 1 < t.len() {
            assert(t[i - 1] == s[i]);
        }
        lemma_leading_ws(t, i - 1);
    }
}

proof fn lemma_trailing_ws(s: Seq<char>, j: int)
    requires
        0 <= j <= s.len(),
        forall|k: int| j <= k < s.len() ==> is_whitespace(#[trigger] s[k]),
        j == 0 || !is_whitespace(s[j - 1]),
    ensures
        trailing_ws(s) == s.len() - j,
    decreases s.len() - j,
{
    if j < s.len() {
        assert(is_whitespace(s[s.len() - 1]));
        let t = s.drop_last();
        assert forall|k: int| j <= k < t.len() implies is_whitespace(#[trigger] t[k]) by {
            assert(t[k] == s[k]);
        }
        if j > 0 {
            assert(t[j - 1] == s[j - 1]);
        }
        lemma_trailing_ws(t, j);
    }
}

/// The bounds of the trimmed part of `cs[lo..hi]`: the part without its leading and trailing
/// whitespace.
pub fn trim_bounds(cs: &Vec<char>, lo: usize, hi: usize) -> (r: (usize, usize))
    requires
        lo <= hi <= cs@.len(),
    ensures
        lo <= r.0 <= r.1 <= hi,
        cs@.subrange(r.0 as int, r.1 as int) == trimmed(cs@.subrange(lo as int, hi as int)),
{
    let ghost seg = cs@.subrange(lo as int, hi as int);
    let mut i: usize = lo;
    while i < hi && char_is_whitespace(cs[i])
        invariant
            lo <= i <= hi <= cs@.len(),
            seg == cs@.subrange(lo as int, hi as int),
            forall|k: int| lo <= k < i ==> is_whitespace(#[trigger] cs@[k]),
        decreases hi - i,
    {
        i = i + 1;
    }
    proof {
        assert forall|k: int| 0 <= k < i - lo implies is_whitespace(#[trigger] seg[k]) by {
            assert(seg[k] == cs@[k + lo]);
        }
        if i < hi {
            assert(seg[i - lo] == cs@[i as int]);
        }
        lemma_leading_ws(seg, i - lo);
    }
    let mut j: usize = hi;
    while j > i && char_is_whitespace(cs[j - 1])
        invariant
            lo <= i <= j <= hi <= cs@.len(),
            forall|k: int| j <= k < hi ==> is_whitespace(#[trigger] cs@[k]),
        decreases j,
    {
        j = j - 1;
    }
    proof {
        let rest = seg.skip(i - lo);
        assert forall|k: int| j - i <= k < rest.len() implies is_whitespace(#[trigger] rest[k]) by {
            assert(rest[k] == cs@[k + i]);
        }
        if j > i {
            assert(rest[j - i - 1] == cs@[j - 1]);
        }
        lemma_trailing_ws(rest, j - i);
        assert(rest.take(j - i) =~= cs@.subrange(i as int, j as int));
    }
    (i, j)
}

/// `s` without leading and trailing whitespace.
pub fn trim_str(s: &str) -> (r: &str)
    ensures
        r@ == trimmed(s@),
{
    let cs = chars_of(s);
    let (a, b) = trim_bounds(&cs, 0, cs.len());
    proof {
        assert(cs@.subrange(0, cs@.len() as int) =~= s@);
    }
    s.substring_char(a, b)
}

/// Whether `s` begins with `prefix`.
pub fn starts_with(s: &str, prefix: &str) -> (r: bool)
    ensures
        r == prefix@.is_prefix_of(s@),
{
    let cs = chars_of(s);
    let ps = chars_of(prefix);
    if ps.len() > cs.len() {
        return false;
    }
    let mut i: usize = 0;
    while i < ps.len()
        invariant
            cs@ == s@,
            ps@ == prefix@,
            ps@.len() <= cs@.len(),
            0 <= i <= ps@.len(),
            forall|k: int| 0 <= k < i ==> prefix@[k] == s@[k],
        decreases ps.len() - i,
    {
        if ps[i] != cs[i] {
            return false;
        }
        i = i + 1;
    }
    true
}

/// Whether every character of `s` is an ASCII digit.
pub open spec fn all_ascii_digits(s: Seq<char>) -> bool {
    forall|k: int| 0 <= k < s.len() ==> '0' <= #[trigger] s[k] <= '9'
}

/// Whether every character of the string is an ASCII digit.
pub fn is_all_ascii_digits(s: &str) -> (r: bool)
    ensures
        r == all_ascii_digits(s@),
{
    let cs = chars_of(s);
    let mut i: usize = 0;
    while i < cs.len()
        invariant
            cs@ == s@,
            0 <= i <= cs@.len(),
            forall|k: int| 0 <= k < i ==> '0' <= #[trigger] s@[k] <= '9',
        decreases cs.len() - i,
    {
        let c = cs[i];
        if !('0' <= c && c <= '9') {
            return false;
        }
        i = i + 1;
    }
    true
}

/// The position of the last line feed among the first `n` characters, or -1 when there is
/// none.
pub open spec fn last_newline_before(s: Seq<char>, n: int) -> int
    decreases n,
{
    if n <= 0 {
        -1
    } else if s[n - 1] == '\n' {
        n - 1
    } else {
        last_newline_before(s, n - 1)
    }
}

/// The last line feed before `n` lies below `n`, and no line feed follows it there.
pub proof fn lemma_last_newline_before(s: Seq<char>, n: int)
    ensures
        -1 <= last_newline_before(s, n) < if n > 0 { n } else { 0 },
        last_newline_before(s, n) >= 0 ==> s[last_newline_before(s, n)] == '\n',
        forall|k: int| last_newline_before(s, n) < k < n ==> s[k] != '\n',
    decreases n,
{
    if n > 0 && s[n - 1] != '\n' {
        lemma_last_newline_before(s, n - 1);
    }
}

/// The last line among the first `n` characters that is not blank, trimmed: lines end at a
/// line feed, and a line that is only whitespace (a carriage return included) is passed over.
pub open spec fn last_nonblank_in(s: Seq<char>, n: int) -> Option<Seq<char>>
    decreases n + 1,
{
    if n < 0 {
        None
    } else {
        let k = last_newline_before(s, n);
        proof {
            lemma_last_newline_before(s, n);
        }
        let line = trimmed(s.subrange(k + 1, n));
        if line.len() > 0 {
            Some(line)
        } else if k < 0 {
            None
        } else {
            last_nonblank_in(s, k)
        }
    }
}

/// The last line of the text that is not blank, trimmed.
pub open spec fn last_nonblank_line(s: Seq<char>) -> Option<Seq<char>> {
    last_nonblank_in(s, s.len() as int)
}

/// Finds the last line of a text that is not blank, and gives it trimmed.
pub fn find_last_nonblank_line(s: &str) -> (r: Option<&str>)
    ensures
        match r {
            Some(line) => last_nonblank_line(s@) == Some(line@),
            None => last_nonblank_line(s@) is None,
        },
{
    let cs = chars_of(s);
    let n = cs.len();
    let mut end: usize = n;
    while true
        invariant
            cs@ == s@,
            n == s@.len(),
            0 <= end <= n,
            last_nonblank_line(s@) == last_nonblank_in(s@, end as int),
        decreases end,
    {
        let mut k: usize = end;
        while k > 0 && cs[k - 1] != '\n'
            invariant
                cs@ == s@,
                n == s@.len(),
                0 <= k <= end <= n,
                forall|j: int| k <= j < end ==> s@[j] != '\n',
            decreases k,
        {
            k = k - 1;
        }
        proof {
            lemma_last_newline_before(s@, end as int);
            let p = last_newline_before(s@, end as int);
            if k > 0 {
                assert(s@[k - 1] == '\n');
                assert(p >= k - 1);
                assert(p == k - 1);
            } else {
                assert(p == -1);
            }
        }
        let (a, b) = trim_bounds(&cs, k, end);
        if a < b {
            return Some(s.substring_char(a, b));
        }
        if k == 0 {
            return None;
        }
        end = k - 1;
    }
    None
}

/// An optional filter text: the trimmed text when one is given and it is not blank.
pub fn nonblank_trimmed(text: Option<&str>) -> (r: Option<String>)
    ensures
        match text {
            Some(s) => if trimmed(s@).len() == 0 {
                r is None
            } else {
                r matches Some(x) && x@ == trimmed(s@)
            },
            None => r is None,
        },
{
    match text {
        Some(s) => {
            let t = trim_str(s);
            if t.unicode_len() == 0 {
                None
            } else {
                Some(String::from_str(t))
            }
        },
        None => None,
    }
}

/// The characters of a text, in order.
pub fn chars_of(s: &str) -> (r: Vec<char>)
    ensures
        r@ == s@,
{
    broadcast use vstd::string::group_string_axioms;

    let mut out: Vec<char> = Vec::new();
    for c in iter: s.chars()
        invariant
            out@ == iter.seq().take(iter.index() as int),
    {
        out.push(c);
    }
    out
}

} // verus!
