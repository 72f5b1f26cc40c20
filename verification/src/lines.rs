use vstd::prelude::*;

verus! {

/// The pieces of `s` between its newline characters: one more piece than there
/// are newlines, each without its newline.
pub open spec fn split_nl(s: Seq<char>) -> Seq<Seq<char>>
    decreases s.len(),
{
    if s.len() == 0 {
        seq![Seq::<char>::empty()]
    } else {
        let prev = split_nl(s.drop_last());
        if s.last() == '\n' {
            prev.push(Seq::empty())
        } else {
            prev.drop_last().push(prev.last().push(s.last()))
        }
    }
}

/// A line that was ended by `"\r\n"` loses its carriage return.
pub open spec fn strip_cr(l: Seq<char>) -> Seq<char> {
    if l.len() > 0 && l.last() == '\r' {
        l.drop_last()
    } else {
        l
    }
}

/// The lines of `s` as `str::lines` yields them: split at `'\n'`, a `'\r'` right
/// before a `'\n'` dropped, and no empty line after a final newline.
pub open spec fn lines_of(s: Seq<char>) -> Seq<Seq<char>> {
    let segs = split_nl(s);
    let body = segs.drop_last().map_values(|l: Seq<char>| strip_cr(l));
    if segs.last().len() == 0 {
        body
    } else {
        body.push(segs.last())
    }
}

/// The parts of `v` that `bounds` marks out.
pub open spec fn pieces(v: Seq<char>, bounds: Seq<(usize, usize)>) -> Seq<Seq<char>> {
    Seq::new(bounds.len(), |k: int| v.subrange(bounds[k].0 as int, bounds[k].1 as int))
}

/// Every pair of `bounds` is a range inside `v`.
pub open spec fn bounds_within(v: Seq<char>, bounds: Seq<(usize, usize)>) -> bool {
    forall|k: int| 0 <= k < bounds.len() ==> (#[trigger] bounds[k]).0 <= bounds[k].1 <= v.len()
}

proof fn lemma_split_nl_nonempty(s: Seq<char>)
    ensures
        split_nl(s).len() >= 1,
    decreases s.len(),
{
    if s.len() > 0 {
        lemma_split_nl_nonempty(s.drop_last());
    }
}

proof fn lemma_split_nl_append(p: Seq<char>, s: Seq<char>)
    requires
        p.len() > 0,
        p.last() == '\n',
    ensures
        split_nl(p + s) == split_nl(p).drop_last() + split_nl(s),
    decreases s.len(),
{
    lemma_split_nl_nonempty(p.drop_last());
    let a = split_nl(p).drop_last();
    if s.len() == 0 {
        assert(p + s =~= p);
        assert(split_nl(p) =~= a + split_nl(s));
    } else {
        assert((p + s).drop_last() =~= p + s.drop_last());
        assert((p + s).last() == s.last());
        lemma_split_nl_append(p, s.drop_last());
        lemma_split_nl_nonempty(s.drop_last());
        let b = split_nl(s.drop_last());
        if s.last() == '\n' {
            assert((a + b).push(Seq::<char>::empty()) =~= a + split_nl(s));
        } else {
            assert((a + b).drop_last() =~= a + b.drop_last());
            assert((a + b).last() == b.last());
            assert((a + b).drop_last().push((a + b).last().push(s.last())) =~= a + split_nl(s));
        }
    }
}

/// The lines of a text that ends with a newline, followed by more text, are
/// the lines of the first part followed by the lines of the rest.
pub proof fn lemma_lines_append(p: Seq<char>, s: Seq<char>)
    requires
        p.len() == 0 || p.last() == '\n',
    ensures
        lines_of(p + s) == lines_of(p) + lines_of(s),
{
    if p.len() == 0 {
        assert(p + s =~= s);
        assert(lines_of(p) =~= Seq::<Seq<char>>::empty());
        assert(lines_of(p) + lines_of(s) =~= lines_of(s));
    } else {
        lemma_split_nl_append(p, s);
        lemma_split_nl_nonempty(s);
        lemma_split_nl_nonempty(p.drop_last());
        let a = split_nl(p).drop_last();
        let t = split_nl(s);
        let segs = a + t;
        assert(segs.last() == t.last());
        assert(segs.drop_last() =~= a + t.drop_last());
        assert(segs.drop_last().map_values(|l: Seq<char>| strip_cr(l)) =~= a.map_values(
            |l: Seq<char>| strip_cr(l),
        ) + t.drop_last().map_values(|l: Seq<char>| strip_cr(l)));
        assert(split_nl(p).last().len() == 0);
        assert(lines_of(p) == a.map_values(|l: Seq<char>| strip_cr(l)));
        if t.last().len() == 0 {
            assert(lines_of(p + s) =~= lines_of(p) + lines_of(s));
        } else {
            assert(lines_of(p + s) =~= lines_of(p) + lines_of(s));
        }
    }
}

/// The ranges of the lines of `v`, in order.
pub fn line_bounds(v: &Vec<char>) -> (r: Vec<(usize, usize)>)
    ensures
        bounds_within(v@, r@),
        pieces(v@, r@) == lines_of(v@),
{
    let n = v.len();
    let mut done: Vec<(usize, usize)> = Vec::new();
    let mut start: usize = 0;
    let mut i: usize = 0;
    proof {
        assert(v@.take(0) =~= Seq::<char>::empty());
    }
    while i < n
        invariant
            n == v.len(),
            i <= n,
            start <= i,
            bounds_within(v@, done@),
            forall|k: int| 0 <= k < done.len() ==> done@[k].1 < start,
            split_nl(v@.take(i as int)).len() == done.len() + 1,
            forall|k: int|
                0 <= k < done.len() ==> #[trigger] split_nl(v@.take(i as int))[k] == v@.subrange(
                    done@[k].0 as int,
                    done@[k].1 as int,
                ),
            split_nl(v@.take(i as int)).last() == v@.subrange(start as int, i as int),
        decreases n - i,
    {
        proof {
            lemma_split_nl_nonempty(v@.take(i as int));
            assert(v@.take(i + 1).drop_last() =~= v@.take(i as int));
            assert(v@.take(i + 1).last() == v@[i as int]);
        }
        if v[i] == '\n' {
            done.push((start, i));
            start = i + 1;
            proof {
                assert(v@.subrange(start as int, i + 1) =~= Seq::<char>::empty());
            }
        } else {
            proof {
                assert(v@.subrange(start as int, i + 1) =~= v@.subrange(start as int, i as int).push(
                    v@[i as int],
                ));
            }
        }
        i = i + 1;
    }
    let ghost segs = split_nl(v@.take(n as int));
    proof {
        assert(v@.take(n as int) =~= v@);
    }
    let mut r: Vec<(usize, usize)> = Vec::new();
    let mut k: usize = 0;
    while k < done.len()
        invariant
            n == v.len(),
            segs == split_nl(v@),
            segs.len() == done.len() + 1,
            bounds_within(v@, done@),
            forall|j: int|
                0 <= j < done.len() ==> #[trigger] segs[j] == v@.subrange(
                    done@[j].0 as int,
                    done@[j].1 as int,
                ),
            k <= done.len(),
            r.len() == k,
            bounds_within(v@, r@),
            forall|j: int|
                0 <= j < k ==> #[trigger] v@.subrange(r@[j].0 as int, r@[j].1 as int) == strip_cr(
                    segs[j],
                ),
        decreases done.len() - k,
    {
        let (a, b) = done[k];
        let ghost seg = segs[k as int];
        assert(seg == v@.subrange(a as int, b as int));
        if b > a && v[b - 1] == '\r' {
            r.push((a, b - 1));
            assert(v@.subrange(a as int, b - 1) =~= seg.drop_last());
        } else {
            r.push((a, b));
        }
        k = k + 1;
    }
    let ghost body = segs.drop_last().map_values(|l: Seq<char>| strip_cr(l));
    assert(pieces(v@, r@) =~= body);
    if start < n {
        r.push((start, n));
        assert(pieces(v@, r@) =~= body.push(segs.last()));
    } else {
        assert(segs.last().len() == 0);
    }
    r
}

} // verus!
