//! Extracting a fenced markdown block from a message.
//!
//! The scan consumes characters until three backticks have been seen (not
//! necessarily adjacent), then takes everything up to the next run of three
//! adjacent backticks as the block, consumes that closing fence, and leaves
//! the rest.  A message without three backticks, or without a closing fence,
//! has no block.

use vstd::prelude::*;

use crate::text::{chars_of, string_from_chars};

verus! {

/// How many characters a scan consumes before `count` backticks have been
/// seen, counting the last of them; all of `s` if fewer occur.
pub open spec fn fence_scan_len(s: Seq<char>, count: int) -> int
    decreases s.len(),
{
    if s.len() == 0 {
        0
    } else if s.first() == '`' {
        if count <= 1 {
            1
        } else {
            1 + fence_scan_len(s.drop_first(), count - 1)
        }
    } else {
        1 + fence_scan_len(s.drop_first(), count)
    }
}

/// The first position of three adjacent backticks in `s`, if any.
pub open spec fn fence_start(s: Seq<char>) -> Option<int>
    decreases s.len(),
{
    if s.len() < 3 {
        None
    } else if s[0] == '`' && s[1] == '`' && s[2] == '`' {
        Some(0)
    } else {
        match fence_start(s.drop_first()) {
            Some(k) => Some(1 + k),
            None => None,
        }
    }
}

proof fn lemma_fence_scan_len_bound(s: Seq<char>, count: int)
    ensures
        0 <= fence_scan_len(s, count) <= s.len(),
    decreases s.len(),
{
    if s.len() > 0 {
        lemma_fence_scan_len_bound(s.drop_first(), count);
        lemma_fence_scan_len_bound(s.drop_first(), count - 1);
    }
}

/// Splits `input` around its first fenced block: the characters between the
/// third backtick and the next closing fence become the block, and what
/// follows the closing fence is returned as the remainder, in that order.
/// `None` exactly when no complete block is there.
pub fn parse_for_markdown(input: &str) -> (r: Option<(String, String)>)
    ensures
        ({
            let p = fence_scan_len(input@, 3);
            let rem = input@.skip(p);
            match r {
                Some((rest, block)) => match fence_start(rem) {
                    Some(j) => block@ == rem.take(j) && rest@ == rem.skip(j + 3),
                    None => false,
                },
                None => fence_start(rem) is None,
            }
        }),
{
    let ghost s = input@;
    let chars = chars_of(input);
    let n = chars.len();
    proof {
        assert(s.skip(0) =~= s);
    }
    let mut i: usize = 0;
    let mut seen: usize = 0;
    while i < n && seen < 3
        invariant
            n == chars@.len(),
            chars@ == s,
            i <= n,
            seen <= 3,
            seen < 3 ==> fence_scan_len(s, 3) == i + fence_scan_len(s.skip(i as int), 3 - seen),
            seen == 3 ==> fence_scan_len(s, 3) == i,
        decreases n - i,
    {
        proof {
            assert(s.skip(i as int).first() == s[i as int]);
            assert(s.skip(i as int).drop_first() =~= s.skip(i + 1 as int));
        }
        if chars[i] == '`' {
            seen = seen + 1;
        }
        i = i + 1;
    }
    proof {
        if seen < 3 {
            assert(s.skip(n as int) =~= Seq::<char>::empty());
            assert(fence_scan_len(s, 3) == i);
        }
    }
    let p = i;
    let ghost rem = s.skip(p as int);
    let mut j = p;
    proof {
        assert(rem.skip(0) =~= rem);
    }
    loop
        invariant
            n == chars@.len(),
            chars@ == s,
            p <= j <= n,
            rem == s.skip(p as int),
            fence_start(rem) == match fence_start(rem.skip(j - p)) {
                Some(k) => Some(j - p + k),
                None => None::<int>,
            },
        ensures
            p <= j <= n,
            fence_start(rem) == if j + 3 <= n {
                Some(j - p as int)
            } else {
                None::<int>
            },
        decreases n - j,
    {
        if n >= 3 && j <= n - 3 {
            proof {
                assert(rem.skip(j - p)[0] == s[j as int]);
                assert(rem.skip(j - p)[1] == s[j + 1]);
                assert(rem.skip(j - p)[2] == s[j + 2]);
                assert(rem.skip(j - p).drop_first() =~= rem.skip(j + 1 - p));
            }
            if chars[j] == '`' && chars[j + 1] == '`' && chars[j + 2] == '`' {
                break ;
            }
            j = j + 1;
        } else {
            proof {
                assert(rem.skip(j - p).len() < 3);
            }
            break ;
        }
    }
    if n < 3 || j > n - 3 {
        return None;
    }
    let mut block_chars: Vec<char> = Vec::new();
    let mut a: usize = p;
    while a < j
        invariant
            n == chars@.len(),
            chars@ == s,
            p <= a <= j <= n,
            block_chars@.len() == a - p,
            forall|t: int| 0 <= t < a - p ==> block_chars@[t] == s[p + t],
        decreases j - a,
    {
        block_chars.push(chars[a]);
        a = a + 1;
    }
    let mut rest_chars: Vec<char> = Vec::new();
    let mut b: usize = j + 3;
    while b < n
        invariant
            n == chars@.len(),
            chars@ == s,
            j + 3 <= b <= n,
            rest_chars@.len() == b - (j + 3),
            forall|t: int| 0 <= t < b - (j + 3) ==> rest_chars@[t] == s[j + 3 + t],
        decreases n - b,
    {
        rest_chars.push(chars[b]);
        b = b + 1;
    }
    proof {
        lemma_fence_scan_len_bound(s, 3);
        assert(block_chars@ =~= rem.take(j - p));
        assert(rest_chars@ =~= rem.skip(j - p + 3));
    }
    let block = string_from_chars(&block_chars);
    let rest = string_from_chars(&rest_chars);
    Some((rest, block))
}

} // verus!
