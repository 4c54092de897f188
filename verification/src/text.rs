//! Character-level text transformations.
//!
//! Rendered markup and websocket header values pass through these small
//! rewrites: dropping quote characters, replacing literal `\n` escapes with
//! line breaks, and trimming newlines.  Each executable function is proved
//! against a recursive specification of the rewrite.

use vstd::prelude::*;

verus! {

/// `s` with every `"` character removed.
pub open spec fn without_quotes(s: Seq<char>) -> Seq<char>
    decreases s.len(),
{
    if s.len() == 0 {
        s
    } else if s.first() == '"' {
        without_quotes(s.drop_first())
    } else {
        seq![s.first()] + without_quotes(s.drop_first())
    }
}

/// `s` with every `\n` escape (the two characters backslash, `n`) replaced by
/// the four characters `<br>`, scanning left to right.
pub open spec fn with_line_breaks(s: Seq<char>) -> Seq<char>
    decreases s.len(),
{
    if s.len() >= 2 && s.first() == '\\' && s[1] == 'n' {
        seq!['<', 'b', 'r', '>'] + with_line_breaks(s.skip(2))
    } else if s.len() == 0 {
        s
    } else {
        seq![s.first()] + with_line_breaks(s.drop_first())
    }
}

/// How many newline characters `s` starts with.
pub open spec fn leading_newlines(s: Seq<char>) -> int
    decreases s.len(),
{
    if s.len() > 0 && s.first() == '\n' {
        1 + leading_newlines(s.drop_first())
    } else {
        0
    }
}

/// How many newline characters `s` ends with.
pub open spec fn trailing_newlines(s: Seq<char>) -> int
    decreases s.len(),
{
    if s.len() > 0 && s.last() == '\n' {
        1 + trailing_newlines(s.drop_last())
    } else {
        0
    }
}

/// `s` without its leading and trailing newline characters.
pub open spec fn trimmed_newlines(s: Seq<char>) -> Seq<char> {
    let rest = s.skip(leading_newlines(s));
    rest.take(rest.len() - trailing_newlines(rest))
}

/// The characters of `s`, in order.
pub fn chars_of(s: &str) -> (v: Vec<char>)
    ensures
        v@ == s@,
{
    let mut v: Vec<char> = Vec::new();
    for c in it: s.chars()
        invariant
            v@ == it.seq().take(it.index() as int),
            it.seq() == s@,
    {
        v.push(c);
        proof {
            assert(v@ =~= it.seq().take(it.index() + 1));
        }
    }
    proof {
        assert(v@ =~= s@);
    }
    v
}

/// Builds the string holding exactly the given characters.
///
/// Relies on `String`'s `FromIterator<&char>` implementation: collecting
/// characters yields the string of those characters in order.
#[verifier::external_body]
pub(crate) fn string_from_chars(v: &Vec<char>) -> (s: String)
    ensures
        s@ == v@,
{
    v.iter().collect()
}

/// `s` with every `"` character removed, as [`without_quotes`].
pub fn strip_quotes(s: &str) -> (r: String)
    ensures
        r@ == without_quotes(s@),
{
    let chars = chars_of(s);
    let n = chars.len();
    let mut out: Vec<char> = Vec::new();
    proof {
        assert(s@.skip(0) =~= s@);
    }
    let mut i: usize = 0;
    while i < n
        invariant
            n == chars@.len(),
            chars@ == s@,
            i <= n,
            out@ + without_quotes(s@.skip(i as int)) == without_quotes(s@),
        decreases n - i,
    {
        proof {
            assert(s@.skip(i as int).first() == s@[i as int]);
            assert(s@.skip(i as int).drop_first() =~= s@.skip(i + 1 as int));
        }
        if chars[i] != '"' {
            out.push(chars[i]);
        }
        i = i + 1;
    }
    proof {
        assert(s@.skip(n as int) =~= Seq::<char>::empty());
        assert(out@ + without_quotes(s@.skip(n as int)) =~= out@);
    }
    string_from_chars(&out)
}

/// `s` with every `\n` escape replaced by `<br>`, as [`with_line_breaks`].
pub fn replace_escaped_newlines(s: &str) -> (r: String)
    ensures
        r@ == with_line_breaks(s@),
{
    let chars = chars_of(s);
    let n = chars.len();
    let mut out: Vec<char> = Vec::new();
    proof {
        assert(s@.skip(0) =~= s@);
    }
    let mut i: usize = 0;
    while i < n
        invariant
            n == chars@.len(),
            chars@ == s@,
            i <= n,
            out@ + with_line_breaks(s@.skip(i as int)) == with_line_breaks(s@),
        decreases n - i,
    {
        proof {
            assert(s@.skip(i as int).first() == s@[i as int]);
            assert(s@.skip(i as int).drop_first() =~= s@.skip(i + 1 as int));
            if i + 1 < n {
                assert(s@.skip(i as int)[1] == s@[i + 1 as int]);
                assert(s@.skip(i as int).skip(2) =~= s@.skip(i + 2 as int));
            }
        }
        if i + 1 < n && chars[i] == '\\' && chars[i + 1] == 'n' {
            out.push('<');
            out.push('b');
            out.push('r');
            out.push('>');
            i = i + 2;
        } else {
            out.push(chars[i]);
            i = i + 1;
        }
    }
    proof {
        assert(s@.skip(n as int) =~= Seq::<char>::empty());
        assert(out@ + with_line_breaks(s@.skip(n as int)) =~= out@);
    }
    string_from_chars(&out)
}

/// `s` without leading and trailing newlines, as [`trimmed_newlines`].
pub fn trim_newlines(s: &str) -> (r: String)
    ensures
        r@ == trimmed_newlines(s@),
{
    let chars = chars_of(s);
    let n = chars.len();
    proof {
        assert(s@.skip(0) =~= s@);
    }
    let mut lo: usize = 0;
    while lo < n && chars[lo] == '\n'
        invariant
            n == chars@.len(),
            chars@ == s@,
            lo <= n,
            leading_newlines(s@) == lo + leading_newlines(s@.skip(lo as int)),
        decreases n - lo,
    {
        proof {
            assert(s@.skip(lo as int).first() == s@[lo as int]);
            assert(s@.skip(lo as int).drop_first() =~= s@.skip(lo + 1 as int));
        }
        lo = lo + 1;
    }
    proof {
        if lo < n {
            assert(s@.skip(lo as int).first() == s@[lo as int]);
        }
        assert(leading_newlines(s@.skip(lo as int)) == 0);
        assert(leading_newlines(s@) == lo);
    }
    let ghost rest = s@.skip(lo as int);
    let m = n - lo;
    proof {
        assert(rest.take(m as int) =~= rest);
    }
    let mut hi: usize = m;
    while hi > 0 && chars[lo + hi - 1] == '\n'
        invariant
            n == chars@.len(),
            chars@ == s@,
            lo <= n,
            m == n - lo,
            hi <= m,
            rest == s@.skip(lo as int),
            trailing_newlines(rest) == (m - hi) + trailing_newlines(rest.take(hi as int)),
        decreases hi,
    {
        proof {
            assert(rest.take(hi as int).last() == s@[lo + hi - 1]);
            assert(rest.take(hi as int).drop_last() =~= rest.take(hi - 1 as int));
        }
        hi = hi - 1;
    }
    proof {
        if hi > 0 {
            assert(rest.take(hi as int).last() == s@[lo + hi - 1]);
        }
        assert(trailing_newlines(rest.take(hi as int)) == 0);
        assert(trailing_newlines(rest) == m - hi);
    }
    let mut out: Vec<char> = Vec::new();
    let mut i: usize = 0;
    while i < hi
        invariant
            n == chars@.len(),
            chars@ == s@,
            lo + hi <= n,
            i <= hi,
            out@.len() == i,
            forall|j: int| 0 <= j < i ==> out@[j] == s@[lo + j],
        decreases hi - i,
    {
        out.push(chars[lo + i]);
        i = i + 1;
    }
    proof {
        assert(out@ =~= trimmed_newlines(s@));
    }
    string_from_chars(&out)
}

/// The prefix left after removing `suffix` from the end of `s`, or nothing
/// when `s` does not end with `suffix`.
///
/// Relies on `str::strip_suffix` with a string pattern.
#[verifier::external_body]
pub(crate) fn strip_suffix_of<'a>(s: &'a str, suffix: &str) -> (r: Option<&'a str>)
    ensures
        match r {
            Some(p) => s@ == p@ + suffix@,
            None => !(s@.len() >= suffix@.len() && s@.skip(s@.len() - suffix@.len()) == suffix@),
        },
{
    s.strip_suffix(suffix)
}

} // verus!
