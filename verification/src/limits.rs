//! A resource limit on policy text.
//!
//! The policy parser's tree conversion, the typechecker, and the drop of the
//! resulting expression tree all recurse once per nesting level, and a level
//! can be opened either by a bracket or by two characters of an unbracketed
//! chain (`1 && 1 && …`, `a.b.c…`).  Both entry points therefore reject
//! policy text that is over-deep in brackets or over-long overall, with a
//! clean diagnostic, before any parsing is attempted.  With at most
//! [`MAX_TEXT_LEN`] characters the expression tree is at most half that many
//! levels deep, which at a few hundred bytes of stack per recursive frame
//! stays within even a small (one-mebibyte) thread stack.

use vstd::prelude::*;
use vstd::string::StrSliceExecFns;

verus! {

/// The deepest bracket nesting an input may reach.
pub const MAX_NESTING: usize = 100;

/// The longest policy text, in characters, an entry point accepts.
pub const MAX_TEXT_LEN: usize = 4096;

/// Whether a character opens a nesting level.
pub open spec fn is_opener(c: char) -> bool {
    c == '(' || c == '[' || c == '{'
}

/// Whether a character closes a nesting level.
pub open spec fn is_closer(c: char) -> bool {
    c == ')' || c == ']' || c == '}'
}

/// The number of unmatched opening brackets after the first `i` characters;
/// a closing bracket with nothing open leaves the depth at zero.
pub open spec fn depth_after(s: Seq<char>, i: int) -> int
    decreases i,
{
    if i <= 0 {
        0
    } else {
        let d = depth_after(s, i - 1);
        if is_opener(s[i - 1]) {
            d + 1
        } else if is_closer(s[i - 1]) && d > 0 {
            d - 1
        } else {
            d
        }
    }
}

/// The deepest nesting reached within the first `i` characters.
pub open spec fn max_depth_prefix(s: Seq<char>, i: int) -> int
    decreases i,
{
    if i <= 0 {
        0
    } else {
        let m = max_depth_prefix(s, i - 1);
        let d = depth_after(s, i);
        if d > m {
            d
        } else {
            m
        }
    }
}

/// Whether a text stays within the resource limit: short enough that no
/// expression chain can recurse deeply, and within the bracket-depth bound.
pub open spec fn within_limits(s: Seq<char>) -> bool {
    s.len() <= MAX_TEXT_LEN && max_depth_prefix(s, s.len() as int) <= MAX_NESTING as int
}

proof fn lemma_max_depth_prefix_monotone(s: Seq<char>, i: int, j: int)
    requires
        i <= j,
    ensures
        max_depth_prefix(s, i) <= max_depth_prefix(s, j),
    decreases j,
{
    if i < j && 0 < j {
        lemma_max_depth_prefix_monotone(s, i, j - 1);
    }
}

/// Decides [`within_limits`] in one pass over the characters.
pub fn check_limits(text: &str) -> (r: bool)
    ensures
        r == within_limits(text@),
{
    let n = text.unicode_len();
    if n > MAX_TEXT_LEN {
        return false;
    }
    let mut depth: usize = 0;
    let mut i: usize = 0;
    while i < n
        invariant
            i <= n,
            n == text@.len(),
            n <= MAX_TEXT_LEN,
            depth as int == depth_after(text@, i as int),
            depth <= MAX_NESTING,
            max_depth_prefix(text@, i as int) <= MAX_NESTING as int,
        decreases n - i,
    {
        let c = text.get_char(i);
        if c == '(' || c == '[' || c == '{' {
            if depth == MAX_NESTING {
                proof {
                    assert(depth_after(text@, i as int + 1) == MAX_NESTING as int + 1);
                    assert(max_depth_prefix(text@, i as int + 1) > MAX_NESTING as int);
                    lemma_max_depth_prefix_monotone(text@, i as int + 1, text@.len() as int);
                }
                return false;
            }
            depth = depth + 1;
        } else if c == ')' || c == ']' || c == '}' {
            if depth > 0 {
                depth = depth - 1;
            }
        }
        i = i + 1;
    }
    true
}

} // verus!
