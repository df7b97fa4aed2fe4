//! Assembling a diagnostic payload out of individual diagnostic lines:
//! a lexicographic order to report them deterministically, a verified sort,
//! and the `'\n'`-separated join.

use vstd::prelude::*;
use vstd::seq_lib::group_to_multiset_ensures;
use vstd::string::StrSliceExecFns;
use vstd::string::StringExecFns;

verus! {

/// The lines joined with a single `'\n'` between consecutive entries and no
/// trailing newline, as `[String]::join("\n")` renders them.
pub open spec fn join_separated(lines: Seq<Seq<char>>) -> Seq<char>
    decreases lines.len(),
{
    if lines.len() == 0 {
        Seq::<char>::empty()
    } else if lines.len() == 1 {
        lines[0]
    } else {
        lines[0] + seq!['\n'] + join_separated(lines.drop_first())
    }
}

proof fn lemma_join_separated_push(lines: Seq<Seq<char>>, line: Seq<char>)
    ensures
        join_separated(lines.push(line)) == if lines.len() == 0 {
            line
        } else {
            (join_separated(lines) + seq!['\n'] + line)
        },
    decreases lines.len(),
{
    if lines.len() == 0 {
        assert(lines.push(line) =~= seq![line]);
        assert(join_separated(seq![line]) == line);
    } else {
        assert(lines.push(line).drop_first() =~= lines.drop_first().push(line));
        lemma_join_separated_push(lines.drop_first(), line);
        if lines.len() == 1 {
            assert(join_separated(lines) == lines[0]);
        } else {
            assert(join_separated(lines) == lines[0] + seq!['\n'] + join_separated(
                lines.drop_first(),
            ));
            assert(join_separated(lines.push(line)) == lines[0] + seq!['\n'] + join_separated(
                lines.drop_first().push(line),
            ));
            assert(lines[0] + seq!['\n'] + (join_separated(lines.drop_first()) + seq!['\n'] + line)
                =~= (join_separated(lines) + seq!['\n'] + line));
        }
    }
}

/// Every line contributes to the separator-joined payload: `n` lines yield
/// at least `n - 1` characters of separators alone, so no diagnostic can be
/// silently dropped from the rendering.
pub proof fn lemma_join_separated_counts_every_line(lines: Seq<Seq<char>>)
    ensures
        join_separated(lines).len() + 1 >= lines.len(),
    decreases lines.len(),
{
    if lines.len() > 1 {
        lemma_join_separated_counts_every_line(lines.drop_first());
    }
}

/// Renders the lines with `'\n'` between consecutive entries, as
/// `[String]::join("\n")` would.
pub fn join_lines_separated(lines: &Vec<String>) -> (r: String)
    ensures
        r@ == join_separated(lines@.map_values(|s: String| s@)),
{
    let ghost all: Seq<Seq<char>> = lines@.map_values(|s: String| s@);
    let mut out = String::new();
    let mut i: usize = 0;
    while i < lines.len()
        invariant
            i <= lines@.len(),
            all == lines@.map_values(|s: String| s@),
            out@ == join_separated(all.take(i as int)),
        decreases lines@.len() - i,
    {
        if i > 0 {
            out.append("\n");
            proof {
                reveal_strlit("\n");
                assert("\n"@ =~= seq!['\n']);
            }
        }
        out.append(lines[i].as_str());
        proof {
            assert(all.take(i as int).push(all[i as int]) =~= all.take(i + 1 as int));
            lemma_join_separated_push(all.take(i as int), all[i as int]);
        }
        i = i + 1;
    }
    proof {
        assert(all.take(lines@.len() as int) =~= all);
    }
    out
}

/// Lexicographic order on texts, by code point: the order the diagnostics
/// of a payload are reported in.
pub open spec fn lex_leq(a: Seq<char>, b: Seq<char>) -> bool
    decreases a.len(),
{
    if a.len() == 0 {
        true
    } else if b.len() == 0 {
        false
    } else if (a[0] as u32) < (b[0] as u32) {
        true
    } else if (b[0] as u32) < (a[0] as u32) {
        false
    } else {
        lex_leq(a.drop_first(), b.drop_first())
    }
}

/// The order is total: of any two texts, one is less than or equal to the
/// other.
pub proof fn lemma_lex_total(a: Seq<char>, b: Seq<char>)
    ensures
        lex_leq(a, b) || lex_leq(b, a),
    decreases a.len(),
{
    if a.len() > 0 && b.len() > 0 {
        if !((a[0] as u32) < (b[0] as u32)) && !((b[0] as u32) < (a[0] as u32)) {
            lemma_lex_total(a.drop_first(), b.drop_first());
        }
    }
}

/// The order is transitive.
pub proof fn lemma_lex_trans(a: Seq<char>, b: Seq<char>, c: Seq<char>)
    requires
        lex_leq(a, b),
        lex_leq(b, c),
    ensures
        lex_leq(a, c),
    decreases a.len(),
{
    if a.len() > 0 {
        if !((a[0] as u32) < (b[0] as u32)) && !((b[0] as u32) < (c[0] as u32)) {
            lemma_lex_trans(a.drop_first(), b.drop_first(), c.drop_first());
        }
    }
}

/// Whether a list of lines is in lexicographic order.
pub open spec fn sorted_lex(lines: Seq<Seq<char>>) -> bool {
    forall|i: int, j: int| 0 <= i < j < lines.len() ==> lex_leq(lines[i], lines[j])
}

/// Whether a list of strings is in lexicographic order of their texts.
pub open spec fn sorted_lines(lines: Seq<String>) -> bool {
    forall|i: int, j: int| 0 <= i < j < lines.len() ==> lex_leq(lines[i]@, lines[j]@)
}

/// Decides [`lex_leq`] on two strings.
fn lex_le(a: &str, b: &str) -> (r: bool)
    ensures
        r == lex_leq(a@, b@),
{
    let a_len = a.unicode_len();
    let b_len = b.unicode_len();
    let mut i: usize = 0;
    proof {
        assert(a@.skip(0) =~= a@);
        assert(b@.skip(0) =~= b@);
    }
    while i < a_len && i < b_len
        invariant
            i <= a_len,
            i <= b_len,
            a_len == a@.len(),
            b_len == b@.len(),
            lex_leq(a@, b@) == lex_leq(a@.skip(i as int), b@.skip(i as int)),
        decreases a_len - i,
    {
        let ca = a.get_char(i);
        let cb = b.get_char(i);
        proof {
            assert(a@.skip(i as int)[0] == a@[i as int]);
            assert(b@.skip(i as int)[0] == b@[i as int]);
            assert(a@.skip(i as int).drop_first() =~= a@.skip(i as int + 1));
            assert(b@.skip(i as int).drop_first() =~= b@.skip(i as int + 1));
        }
        if (ca as u32) < (cb as u32) {
            return true;
        }
        if (cb as u32) < (ca as u32) {
            return false;
        }
        i = i + 1;
    }
    proof {
        if i >= a_len {
            assert(a@.skip(i as int) =~= Seq::<char>::empty());
        } else {
            assert(b@.skip(i as int) =~= Seq::<char>::empty());
            assert(a@.skip(i as int).len() > 0);
        }
    }
    i >= a_len
}

/// Sorts diagnostic lines into lexicographic order; the result is a
/// permutation of the input.
pub fn sort_lines(input: Vec<String>) -> (r: Vec<String>)
    ensures
        sorted_lines(r@),
        r@.to_multiset() == input@.to_multiset(),
        r@.len() == input@.len(),
{
    broadcast use group_to_multiset_ensures;

    let mut rest = input;
    let mut out: Vec<String> = Vec::new();
    while rest.len() > 0
        invariant
            sorted_lines(out@),
            out@.to_multiset().add(rest@.to_multiset()) == input@.to_multiset(),
            out@.len() + rest@.len() == input@.len(),
        decreases rest@.len(),
    {
        let ghost old_out = out@;
        let ghost old_rest = rest@;
        let x = match rest.pop() {
            Some(x) => x,
            None => { return out },
        };
        proof {
            broadcast use group_to_multiset_ensures;

            assert(rest@ =~= old_rest.remove(old_rest.len() - 1));
            assert(old_rest.remove(old_rest.len() - 1).to_multiset() == old_rest.to_multiset()
                .remove(old_rest[old_rest.len() - 1]));
            assert(rest@.to_multiset() == old_rest.to_multiset().remove(x));
        }
        let mut k: usize = 0;
        while k < out.len() && lex_le(out[k].as_str(), x.as_str())
            invariant
                k <= out@.len(),
                out@ == old_out,
                forall|j: int| 0 <= j < k ==> lex_leq(out@[j]@, x@),
            decreases out@.len() - k,
        {
            k = k + 1;
        }
        proof {
            if k < out@.len() {
                lemma_lex_total(out@[k as int]@, x@);
            }
            assert forall|i: int, j: int|
                0 <= i < j < out@.insert(k as int, x).len() implies lex_leq(
                out@.insert(k as int, x)[i]@,
                out@.insert(k as int, x)[j]@,
            ) by {
                out@.insert_ensures(k as int, x);
                let s = out@.insert(k as int, x);
                if i < k && j == k {
                    assert(lex_leq(s[i]@, s[j]@));
                } else if i == k && j > k {
                    assert(s[j] == out@[j - 1]);
                    if j - 1 == k {
                        assert(lex_leq(x@, out@[k as int]@));
                    } else {
                        lemma_lex_trans(x@, out@[k as int]@, out@[j - 1]@);
                    }
                } else if i < k && j > k {
                    assert(s[i] == out@[i] && s[j] == out@[j - 1]);
                } else if j < k || i > k {
                    assert(lex_leq(s[i]@, s[j]@));
                }
            }
        }
        out.insert(k, x);
        proof {
            broadcast use group_to_multiset_ensures;

            assert(old_out.insert(k as int, x).to_multiset() == old_out.to_multiset().insert(x));
            assert(out@.to_multiset() == old_out.to_multiset().insert(x));
            assert(out@.to_multiset().add(rest@.to_multiset()) =~= old_out.to_multiset().add(
                old_rest.to_multiset(),
            )) by {
                broadcast use vstd::multiset::group_multiset_axioms;

                assert(old_rest.to_multiset().contains(x)) by {
                    assert(old_rest[old_rest.len() - 1] == x);
                }
            }
        }
    }
    proof {
        assert(rest@ =~= Seq::<String>::empty());
        assert forall|x: String| rest@.to_multiset().count(x) == 0 by {
            if rest@.to_multiset().count(x) > 0 {
                assert(rest@.contains(x));
            }
        }
        assert(out@.to_multiset() =~= out@.to_multiset().add(rest@.to_multiset())) by {
            broadcast use vstd::multiset::group_multiset_axioms;

        }
    }
    out
}

} // verus!
