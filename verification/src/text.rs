//! Verified text utilities: string equality, separator splitting, and
//! decomposition of a file's text into lines.
//!
//! Splitting follows the usual convention: every separator occurrence
//! ends a segment, so `n` separators give `n + 1` segments and adjacent
//! separators give empty segments. Line decomposition splits on `'\n'`,
//! tolerates one final line terminator, and strips a `'\r'` left at the
//! end of a line by a `"\r\n"` terminator.

use vstd::prelude::*;

verus! {

/// `a` and `b` hold the same characters.
pub fn str_eq(a: &str, b: &str) -> (r: bool)
    ensures
        r == (a@ == b@),
{
    let na = a.unicode_len();
    let nb = b.unicode_len();
    if na != nb {
        return false;
    }
    let mut i: usize = 0;
    while i < na
        invariant
            na == a@.len(),
            na == b@.len(),
            i <= na,
            forall|k: int| 0 <= k < i ==> a@[k] == b@[k],
        decreases na - i,
    {
        if a.get_char(i) != b.get_char(i) {
            return false;
        }
        i = i + 1;
    }
    proof {
        assert(a@ =~= b@);
    }
    true
}

/// The segments of `s` between occurrences of `sep`: always at least one
/// segment, one more per separator occurrence.
pub open spec fn split_on(s: Seq<char>, sep: char) -> Seq<Seq<char>>
    decreases s.len(),
{
    if s.len() == 0 {
        seq![Seq::empty()]
    } else if s.last() == sep {
        split_on(s.drop_last(), sep).push(Seq::empty())
    } else {
        let p = split_on(s.drop_last(), sep);
        p.update(p.len() - 1, p.last().push(s.last()))
    }
}

/// A split always yields at least one segment.
pub proof fn lemma_split_on_len_pos(s: Seq<char>, sep: char)
    ensures
        split_on(s, sep).len() >= 1,
    decreases s.len(),
{
    if s.len() > 0 {
        lemma_split_on_len_pos(s.drop_last(), sep);
    }
}

/// The segments of `s` between occurrences of `sep`, each given as its
/// character index range `(from, to)` within `s`.
pub fn split_indices(s: &str, sep: char) -> (r: Vec<(usize, usize)>)
    ensures
        r@.len() == split_on(s@, sep).len(),
        forall|k: int|
            0 <= k < r@.len() ==> (#[trigger] r@[k]).0 <= r@[k].1 <= s@.len()
                && s@.subrange(r@[k].0 as int, r@[k].1 as int) == split_on(s@, sep)[k],
{
    let n = s.unicode_len();
    let mut out: Vec<(usize, usize)> = Vec::new();
    let mut start: usize = 0;
    let mut i: usize = 0;
    proof {
        assert(s@.subrange(0, 0) =~= Seq::<char>::empty());
    }
    while i < n
        invariant
            n == s@.len(),
            i <= n,
            start <= i,
            split_on(s@.subrange(0, i as int), sep).len() == out@.len() + 1,
            forall|k: int|
                0 <= k < out@.len() ==> (#[trigger] out@[k]).0 <= out@[k].1 <= i
                    && s@.subrange(out@[k].0 as int, out@[k].1 as int) == split_on(
                    s@.subrange(0, i as int),
                    sep,
                )[k],
            s@.subrange(start as int, i as int) == split_on(s@.subrange(0, i as int), sep).last(),
        decreases n - i,
    {
        let ghost pre = s@.subrange(0, i as int);
        let ghost post = s@.subrange(0, i + 1);
        proof {
            assert(post.drop_last() =~= pre);
            assert(post.last() == s@[i as int]);
            lemma_split_on_len_pos(pre, sep);
        }
        let c = s.get_char(i);
        if c == sep {
            out.push((start, i));
            start = i + 1;
            proof {
                assert(split_on(post, sep) =~= split_on(pre, sep).push(Seq::empty()));
                assert(s@.subrange(start as int, i + 1) =~= Seq::<char>::empty());
                assert(forall|k: int|
                    0 <= k < out@.len() - 1 ==> split_on(post, sep)[k] == split_on(pre, sep)[k]);
                assert(out@.last() == (out@[out@.len() - 1].0, out@[out@.len() - 1].1));
            }
        } else {
            proof {
                let p = split_on(pre, sep);
                assert(split_on(post, sep) =~= p.update(p.len() - 1, p.last().push(s@[i as int])));
                assert(s@.subrange(start as int, i + 1) =~= s@.subrange(start as int, i as int).push(
                    s@[i as int],
                ));
                assert(forall|k: int|
                    0 <= k < out@.len() ==> split_on(post, sep)[k] == split_on(pre, sep)[k]);
            }
        }
        i = i + 1;
    }
    proof {
        assert(s@.subrange(0, n as int) =~= s@);
    }
    out.push((start, n));
    out
}

/// `l` with one trailing carriage return removed, if it has one.
pub open spec fn strip_cr(l: Seq<char>) -> Seq<char> {
    if l.len() > 0 && l.last() == '\r' {
        l.drop_last()
    } else {
        l
    }
}

/// The lines of `s`: segments between `'\n'` occurrences, a final line
/// terminator optional, each line stripped of a `'\r'` that a `"\r\n"`
/// terminator left at its end. Empty text has no lines.
pub open spec fn spec_lines(s: Seq<char>) -> Seq<Seq<char>> {
    if s.len() == 0 {
        Seq::empty()
    } else {
        let p = split_on(s, '\n');
        if s.last() == '\n' {
            p.drop_last().map_values(|l: Seq<char>| strip_cr(l))
        } else {
            p.drop_last().map_values(|l: Seq<char>| strip_cr(l)).push(p.last())
        }
    }
}

/// The lines of `s`, each given as its character index range within `s`.
pub fn line_indices(s: &str) -> (r: Vec<(usize, usize)>)
    ensures
        r@.len() == spec_lines(s@).len(),
        forall|k: int|
            0 <= k < r@.len() ==> (#[trigger] r@[k]).0 <= r@[k].1 <= s@.len()
                && s@.subrange(r@[k].0 as int, r@[k].1 as int) == spec_lines(s@)[k],
{
    let n = s.unicode_len();
    let mut out: Vec<(usize, usize)> = Vec::new();
    if n == 0 {
        return out;
    }
    let mut segs = split_indices(s, '\n');
    let ghost p = split_on(s@, '\n');
    proof {
        lemma_split_on_len_pos(s@, '\n');
    }
    let ghost stripped = p.drop_last().map_values(|l: Seq<char>| strip_cr(l));
    let ends_nl = s.get_char(n - 1) == '\n';
    let last_keeps_cr: bool = !ends_nl;
    if ends_nl {
        segs.pop();
        proof {
            assert(spec_lines(s@) =~= stripped);
        }
    } else {
        proof {
            assert(spec_lines(s@) =~= stripped.push(p.last()));
        }
    }
    proof {
        assert(forall|j: int| 0 <= j < p.len() - 1 ==> stripped[j] == strip_cr(#[trigger] p[j]));
        assert(forall|j: int|
            0 <= j < spec_lines(s@).len() - 1 ==> #[trigger] spec_lines(s@)[j] == strip_cr(p[j]));
        if spec_lines(s@).len() >= 1 {
            let last = spec_lines(s@).len() - 1;
            if ends_nl {
                assert(spec_lines(s@)[last] == strip_cr(p[last]));
            } else {
                assert(spec_lines(s@)[last] == p[last]);
            }
        }
    }
    let m = segs.len();
    let mut k: usize = 0;
    while k < m
        invariant
            n == s@.len(),
            m == segs@.len(),
            m == spec_lines(s@).len(),
            k <= m,
            forall|j: int|
                0 <= j < m ==> (#[trigger] segs@[j]).0 <= segs@[j].1 <= n,
            forall|j: int|
                0 <= j < m - 1 ==> strip_cr(
                    s@.subrange(segs@[j].0 as int, segs@[j].1 as int),
                ) == spec_lines(s@)[j],
            m >= 1 ==> (if last_keeps_cr {
                s@.subrange(segs@[m - 1].0 as int, segs@[m - 1].1 as int) == spec_lines(s@)[m - 1]
            } else {
                strip_cr(s@.subrange(segs@[m - 1].0 as int, segs@[m - 1].1 as int)) == spec_lines(
                    s@,
                )[m - 1]
            }),
            out@.len() == k,
            forall|j: int|
                0 <= j < k ==> (#[trigger] out@[j]).0 <= out@[j].1 <= n
                    && s@.subrange(out@[j].0 as int, out@[j].1 as int) == spec_lines(s@)[j],
        decreases m - k,
    {
        let (a, b) = segs[k];
        let keep_cr = last_keeps_cr && k == m - 1;
        let ghost seg = s@.subrange(a as int, b as int);
        if !keep_cr && b > a && s.get_char(b - 1) == '\r' {
            proof {
                assert(seg.last() == s@[b - 1]);
                assert(strip_cr(seg) =~= s@.subrange(a as int, b - 1));
            }
            out.push((a, b - 1));
        } else {
            proof {
                if !keep_cr {
                    assert(strip_cr(seg) == seg);
                }
            }
            out.push((a, b));
        }
        k = k + 1;
    }
    out
}

} // verus!
