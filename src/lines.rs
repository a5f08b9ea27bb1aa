//! Splitting text into lines, as `str::lines` does.

use vstd::prelude::*;

verus! {

/// The pieces of `s` between `\n` characters; there is always one more
/// piece than there are `\n`.
pub open spec fn pieces(s: Seq<char>) -> Seq<Seq<char>>
    decreases s.len(),
{
    if s.len() == 0 {
        seq![Seq::empty()]
    } else {
        let p = pieces(s.drop_last());
        if s.last() == '\n' {
            p.push(Seq::empty())
        } else {
            p.update(p.len() - 1, p.last().push(s.last()))
        }
    }
}

/// `l` without one `\r` at its end.
pub open spec fn strip_cr(l: Seq<char>) -> Seq<char> {
    if l.len() > 0 && l.last() == '\r' {
        l.drop_last()
    } else {
        l
    }
}

/// The lines of `s`: a line ends at `\n` or `\r\n`, and the final line
/// ending is optional, so that no empty line follows it.
pub open spec fn lines_of(s: Seq<char>) -> Seq<Seq<char>> {
    let p = pieces(s);
    let n = if p.last().len() == 0 { p.len() - 1 } else { p.len() as int };
    Seq::new(n as nat, |i: int| if i < p.len() - 1 { strip_cr(p[i]) } else { p[i] })
}

/// Whether `r` marks `cs[r.0..r.1]` within `cs`.
pub open spec fn in_range(cs: Seq<char>, r: (usize, usize)) -> bool {
    r.0 <= r.1 <= cs.len()
}

pub open spec fn range_text(cs: Seq<char>, r: (usize, usize)) -> Seq<char> {
    cs.subrange(r.0 as int, r.1 as int)
}

/// The bounds in `cs` of each line of `cs`.
pub fn line_ranges(cs: &Vec<char>) -> (r: Vec<(usize, usize)>)
    ensures
        r@.len() == lines_of(cs@).len(),
        forall|k: int|
            0 <= k < r@.len() ==> in_range(cs@, #[trigger] r@[k]) && range_text(cs@, r@[k])
                == lines_of(cs@)[k],
{
    let mut out: Vec<(usize, usize)> = Vec::new();
    let mut start: usize = 0;
    let mut i: usize = 0;
    let n = cs.len();
    while i < n
        invariant
            n == cs@.len(),
            start <= i <= n,
            pieces(cs@.take(i as int)).len() == out@.len() + 1,
            pieces(cs@.take(i as int)).last() == cs@.subrange(start as int, i as int),
            forall|k: int|
                0 <= k < out@.len() ==> in_range(cs@, #[trigger] out@[k]) && range_text(
                    cs@,
                    out@[k],
                ) == strip_cr(pieces(cs@.take(i as int))[k]),
        decreases n - i,
    {
        let ghost p = pieces(cs@.take(i as int));
        assert(cs@.take(i + 1).drop_last() =~= cs@.take(i as int));
        assert(cs@.take(i + 1).last() == cs@[i as int]);
        if cs[i] == '\n' {
            let end = if i > start && cs[i - 1] == '\r' {
                i - 1
            } else {
                i
            };
            proof {
                let l = cs@.subrange(start as int, i as int);
                if i > start && cs@[i - 1] == '\r' {
                    assert(l.last() == '\r');
                    assert(l.drop_last() =~= cs@.subrange(start as int, end as int));
                }
            }
            out.push((start, end));
            start = i + 1;
            proof {
                let q = pieces(cs@.take(i + 1));
                assert(q == p.push(Seq::<char>::empty()));
                assert(cs@.subrange(start as int, i + 1) =~= Seq::<char>::empty());
                assert forall|k: int| 0 <= k < out@.len() implies in_range(cs@, #[trigger] out@[k])
                    && range_text(cs@, out@[k]) == strip_cr(q[k]) by {
                    if k < out@.len() - 1 {
                        assert(q[k] == p[k]);
                    }
                }
            }
        } else {
            proof {
                let q = pieces(cs@.take(i + 1));
                assert(q == p.update(p.len() - 1, p.last().push(cs@[i as int])));
                assert(cs@.subrange(start as int, i + 1) =~= cs@.subrange(start as int, i as int).push(
                    cs@[i as int],
                ));
                assert forall|k: int| 0 <= k < out@.len() implies in_range(cs@, #[trigger] out@[k])
                    && range_text(cs@, out@[k]) == strip_cr(q[k]) by {
                    assert(q[k] == p[k]);
                }
            }
        }
        i += 1;
    }
    let ghost p = pieces(cs@.take(n as int));
    assert(cs@.take(n as int) =~= cs@);
    if start < n {
        out.push((start, n));
        proof {
            assert(p.last().len() > 0);
            assert forall|k: int| 0 <= k < out@.len() implies in_range(cs@, #[trigger] out@[k])
                && range_text(cs@, out@[k]) == lines_of(cs@)[k] by {
            }
        }
    } else {
        proof {
            assert(p.last().len() == 0);
        }
    }
    out
}

} // verus!
