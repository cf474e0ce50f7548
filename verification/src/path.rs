use vstd::prelude::*;

use crate::text::{join_with, lemma_join_split, lemma_split_nonempty, split_on, split_str, views};

verus! {

/// The pieces from the first non-empty one on.
pub open spec fn skip_leading_empty(segs: Seq<Seq<char>>) -> Seq<Seq<char>>
    decreases segs.len(),
{
    if segs.len() > 0 && segs[0].len() == 0 {
        skip_leading_empty(segs.drop_first())
    } else {
        segs
    }
}

/// `s` without the occurrences of `c` at its start.
pub open spec fn trim_start(s: Seq<char>, c: char) -> Seq<char>
    decreases s.len(),
{
    if s.len() > 0 && s[0] == c {
        trim_start(s.drop_first(), c)
    } else {
        s
    }
}

/// The path segments that a request path adds to the base URL: the path
/// split at `/`, with the empty segments at its start left out.
pub open spec fn spec_path_segments(path: Seq<char>) -> Seq<Seq<char>> {
    skip_leading_empty(split_on(path, '/'))
}

proof fn lemma_split_leading_sep(u: Seq<char>, sep: char)
    ensures
        split_on(seq![sep] + u, sep) == seq![Seq::<char>::empty()] + split_on(u, sep),
    decreases u.len(),
{
    let e = Seq::<char>::empty();
    if u.len() == 0 {
        assert((seq![sep] + u).drop_last() =~= Seq::<char>::empty());
        assert((seq![sep] + u).last() == sep);
        assert(split_on(Seq::<char>::empty(), sep) == seq![e]);
        assert(split_on(seq![sep] + u, sep) =~= seq![e] + split_on(u, sep));
    } else {
        let v = u.drop_last();
        assert((seq![sep] + u).drop_last() =~= seq![sep] + v);
        assert((seq![sep] + u).last() == u.last());
        lemma_split_leading_sep(v, sep);
        lemma_split_nonempty(v, sep);
        assert(split_on(seq![sep] + u, sep) =~= seq![e] + split_on(u, sep));
    }
}

proof fn lemma_split_first_nonempty(t: Seq<char>, sep: char)
    requires
        t.len() > 0,
        t[0] != sep,
    ensures
        split_on(t, sep)[0].len() > 0,
    decreases t.len(),
{
    lemma_split_nonempty(t, sep);
    if t.len() > 1 {
        lemma_split_first_nonempty(t.drop_last(), sep);
        lemma_split_nonempty(t.drop_last(), sep);
        let init = split_on(t.drop_last(), sep);
        assert(t.drop_last()[0] == t[0]);
        if t.last() == sep {
            assert(split_on(t, sep)[0] == init[0]);
        } else if init.len() == 1 {
            assert(split_on(t, sep)[0] == init[0].push(t.last()));
        } else {
            assert(split_on(t, sep)[0] == init[0]);
        }
    } else {
        assert(t.drop_last() =~= Seq::<char>::empty());
        assert(t.last() == t[0]);
        assert(split_on(Seq::<char>::empty(), sep) == seq![Seq::<char>::empty()]);
        assert(split_on(t, sep)[0] == Seq::<char>::empty().push(t[0]));
    }
}

/// Joining the segments of a request path with `/` gives the path back,
/// without the slashes at its start: splitting loses nothing else.
pub proof fn lemma_path_segments_join(path: Seq<char>)
    ensures
        join_with(spec_path_segments(path), '/') == trim_start(path, '/'),
    decreases path.len(),
{
    let split = split_on(path, '/');
    if path.len() == 0 {
        assert(split =~= seq![Seq::<char>::empty()]);
        assert(skip_leading_empty(split.drop_first()) =~= Seq::<Seq<char>>::empty());
    } else if path[0] == '/' {
        let rest = path.drop_first();
        assert(path =~= seq!['/'] + rest);
        lemma_split_leading_sep(rest, '/');
        assert(split.drop_first() =~= split_on(rest, '/'));
        lemma_path_segments_join(rest);
    } else {
        lemma_split_first_nonempty(path, '/');
        lemma_join_split(path, '/');
    }
}

/// A slash at the start of a request path changes none of its segments:
/// `/info` and `info` name the same place below the base URL.
pub proof fn lemma_path_segments_leading_slash(path: Seq<char>)
    ensures
        spec_path_segments(seq!['/'] + path) == spec_path_segments(path),
{
    lemma_split_leading_sep(path, '/');
    let split = split_on(seq!['/'] + path, '/');
    assert(split.drop_first() =~= split_on(path, '/'));
}

/// Every segment of a request path is free of `/`, and the first one, if
/// any, is not empty.
pub proof fn lemma_path_segments_shape(path: Seq<char>)
    ensures
        forall|i: int, j: int| 0 <= i < spec_path_segments(path).len() && 0 <= j < spec_path_segments(path)[i].len()
            ==> spec_path_segments(path)[i][j] != '/',
        spec_path_segments(path).len() > 0 ==> spec_path_segments(path)[0].len() > 0,
{
    lemma_split_no_sep(path, '/');
    lemma_skip_shape(split_on(path, '/'));
}

proof fn lemma_split_no_sep(s: Seq<char>, sep: char)
    ensures
        forall|i: int, j: int| 0 <= i < split_on(s, sep).len() && 0 <= j < split_on(s, sep)[i].len()
            ==> split_on(s, sep)[i][j] != sep,
    decreases s.len(),
{
    if s.len() > 0 {
        lemma_split_no_sep(s.drop_last(), sep);
        lemma_split_nonempty(s.drop_last(), sep);
        let init = split_on(s.drop_last(), sep);
        let segs = split_on(s, sep);
        assert forall|i: int, j: int| 0 <= i < segs.len() && 0 <= j < segs[i].len() implies segs[i][j] != sep by {
            if s.last() != sep && i == init.len() - 1 {
                if j < init.last().len() {
                    assert(segs[i][j] == init[i][j]);
                }
            } else if i < init.len() {
                assert(segs[i] == init[i]);
            }
        }
    }
}

proof fn lemma_skip_shape(segs: Seq<Seq<char>>)
    ensures
        forall|i: int| 0 <= i < skip_leading_empty(segs).len() ==> exists|k: int|
            0 <= k < segs.len() && #[trigger] skip_leading_empty(segs)[i] == segs[k],
        skip_leading_empty(segs).len() > 0 ==> skip_leading_empty(segs)[0].len() > 0,
    decreases segs.len(),
{
    if segs.len() > 0 && segs[0].len() == 0 {
        lemma_skip_shape(segs.drop_first());
        assert forall|i: int| 0 <= i < skip_leading_empty(segs).len() implies exists|k: int|
            0 <= k < segs.len() && #[trigger] skip_leading_empty(segs)[i] == segs[k] by {
            let k = choose|k: int| 0 <= k < segs.drop_first().len() && skip_leading_empty(segs.drop_first())[i] == segs.drop_first()[k];
            assert(segs[k + 1] == segs.drop_first()[k]);
        }
    } else {
        assert forall|i: int| 0 <= i < skip_leading_empty(segs).len() implies exists|k: int|
            0 <= k < segs.len() && #[trigger] skip_leading_empty(segs)[i] == segs[k] by {
            assert(skip_leading_empty(segs)[i] == segs[i]);
        }
    }
}

proof fn lemma_skip_from(segs: Seq<Seq<char>>, k: int)
    requires
        0 <= k <= segs.len(),
        forall|j: int| 0 <= j < k ==> (#[trigger] segs[j]).len() == 0,
        k < segs.len() ==> segs[k].len() > 0,
    ensures
        skip_leading_empty(segs) == segs.subrange(k, segs.len() as int),
    decreases k,
{
    if k == 0 {
        assert(segs.subrange(0, segs.len() as int) =~= segs);
    } else {
        assert(segs[0].len() == 0);
        let rest = segs.drop_first();
        assert forall|j: int| 0 <= j < k - 1 implies (#[trigger] rest[j]).len() == 0 by {
            assert(rest[j] == segs[j + 1]);
        }
        lemma_skip_from(rest, k - 1);
        assert(rest.subrange(k - 1, rest.len() as int) =~= segs.subrange(k, segs.len() as int));
    }
}

/// Splits a request path into the segments that are appended to the base
/// URL's path: the path is split at `/`, and the empty segments at its start
/// are skipped.
pub fn path_segments(path: &str) -> (res: Vec<String>)
    ensures
        views(res@) == spec_path_segments(path@),
{
    let done = split_str(path, '/');
    let ghost segs = views(done@);
    assert(segs =~= split_on(path@, '/'));
    let total = done.len();
    let mut k: usize = 0;
    while k < total && done[k].unicode_len() == 0
        invariant
            total == done@.len(),
            segs == views(done@),
            k <= total,
            forall|j: int| 0 <= j < k ==> (#[trigger] segs[j]).len() == 0,
        decreases total - k,
    {
        k = k + 1;
    }
    proof {
        lemma_skip_from(segs, k as int);
    }
    let mut res: Vec<String> = Vec::new();
    let mut j: usize = k;
    while j < total
        invariant
            total == done@.len(),
            segs == views(done@),
            k <= j <= total,
            views(res@) == segs.subrange(k as int, j as int),
        decreases total - j,
    {
        let ghost old_res = res@;
        let piece = done[j].clone();
        res.push(piece);
        assert(res@.drop_last() == old_res);
        assert(views(res@) =~= views(old_res).push(piece@));
        assert(views(res@) =~= segs.subrange(k as int, j + 1));
        j = j + 1;
    }
    res
}

} // verus!
