use vstd::prelude::*;

verus! {

/// Appends one character to a string.
///
/// Trusted: calls `String::push`, which the standard library documents as
/// appending the given `char` to the end of the `String`.
#[verifier::external_body]
pub(crate) fn push_char(s: &mut String, c: char)
    ensures
        final(s)@ == old(s)@.push(c),
{
    s.push(c);
}

/// The characters of a string slice, in order.
pub fn chars_of(s: &str) -> (res: Vec<char>)
    ensures
        res@ == s@,
{
    let mut res: Vec<char> = Vec::new();
    let n = s.unicode_len();
    let mut i: usize = 0;
    while i < n
        invariant
            n == s@.len(),
            i <= n,
            res@ == s@.subrange(0, i as int),
        decreases n - i,
    {
        res.push(s.get_char(i));
        i = i + 1;
    }
    assert(res@ == s@);
    res
}

/// A string made of the characters `cs[from..to]`.
pub fn string_from_chars(cs: &Vec<char>, from: usize, to: usize) -> (res: String)
    requires
        from <= to <= cs@.len(),
    ensures
        res@ == cs@.subrange(from as int, to as int),
{
    let mut res = String::new();
    let mut i: usize = from;
    while i < to
        invariant
            from <= i <= to <= cs@.len(),
            res@ == cs@.subrange(from as int, i as int),
        decreases to - i,
    {
        push_char(&mut res, cs[i]);
        assert(cs@.subrange(from as int, i + 1) == cs@.subrange(from as int, i as int).push(cs@[i as int]));
        i = i + 1;
    }
    res
}

/// Whether two string slices hold the same characters.
pub fn str_eq(a: &str, b: &str) -> (res: bool)
    ensures
        res == (a@ == b@),
{
    let n = a.unicode_len();
    let m = b.unicode_len();
    if n != m {
        return false;
    }
    let mut i: usize = 0;
    while i < n
        invariant
            n == a@.len(),
            m == b@.len(),
            n == m,
            i <= n,
            a@.subrange(0, i as int) == b@.subrange(0, i as int),
        decreases n - i,
    {
        if a.get_char(i) != b.get_char(i) {
            assert(a@[i as int] != b@[i as int]);
            return false;
        }
        assert(a@.subrange(0, i + 1) == a@.subrange(0, i as int).push(a@[i as int]));
        assert(b@.subrange(0, i + 1) == b@.subrange(0, i as int).push(b@[i as int]));
        i = i + 1;
    }
    assert(a@ == a@.subrange(0, n as int));
    assert(b@ == b@.subrange(0, n as int));
    true
}

/// The texts of a sequence of strings.
pub open spec fn views(v: Seq<String>) -> Seq<Seq<char>> {
    v.map_values(|s: String| s@)
}

/// The pieces of `s` between the occurrences of `sep`, as `str::split` yields
/// them: there is always at least one piece, and `k` separators give `k + 1`
/// pieces.
pub open spec fn split_on(s: Seq<char>, sep: char) -> Seq<Seq<char>>
    decreases s.len(),
{
    if s.len() == 0 {
        seq![Seq::<char>::empty()]
    } else {
        let init = split_on(s.drop_last(), sep);
        if s.last() == sep {
            init.push(Seq::<char>::empty())
        } else {
            init.update(init.len() - 1, init.last().push(s.last()))
        }
    }
}

pub proof fn lemma_split_nonempty(s: Seq<char>, sep: char)
    ensures
        split_on(s, sep).len() >= 1,
    decreases s.len(),
{
    if s.len() > 0 {
        lemma_split_nonempty(s.drop_last(), sep);
    }
}

/// The pieces joined again, with `sep` between each two of them.
pub open spec fn join_with(segs: Seq<Seq<char>>, sep: char) -> Seq<char>
    decreases segs.len(),
{
    if segs.len() == 0 {
        Seq::<char>::empty()
    } else if segs.len() == 1 {
        segs[0]
    } else {
        join_with(segs.drop_last(), sep) + seq![sep] + segs.last()
    }
}

/// Splitting and joining again with the same separator gives the text back.
pub proof fn lemma_join_split(s: Seq<char>, sep: char)
    ensures
        join_with(split_on(s, sep), sep) == s,
    decreases s.len(),
{
    if s.len() > 0 {
        let init = split_on(s.drop_last(), sep);
        lemma_split_nonempty(s.drop_last(), sep);
        lemma_join_split(s.drop_last(), sep);
        let segs = split_on(s, sep);
        if s.last() == sep {
            assert(segs.drop_last() =~= init);
            assert(s =~= s.drop_last() + seq![sep] + Seq::<char>::empty());
        } else {
            if init.len() == 1 {
                assert(s =~= s.drop_last().push(s.last()));
            } else {
                assert(segs.drop_last() =~= init.drop_last());
                assert(join_with(segs, sep) =~= join_with(init, sep).push(s.last()));
                assert(s =~= s.drop_last().push(s.last()));
            }
        }
    }
}

/// Splits a string slice at every occurrence of `sep`, as `str::split` does.
pub fn split_str(s: &str, sep: char) -> (res: Vec<String>)
    ensures
        views(res@) == split_on(s@, sep),
{
    let cs = chars_of(s);
    let n = cs.len();
    let mut done: Vec<String> = Vec::new();
    let mut cur = String::new();
    let mut i: usize = 0;
    while i < n
        invariant
            n == cs@.len(),
            cs@ == s@,
            i <= n,
            split_on(cs@.subrange(0, i as int), sep) == views(done@).push(cur@),
        decreases n - i,
    {
        let c = cs[i];
        let ghost before = cs@.subrange(0, i as int);
        assert(cs@.subrange(0, i + 1).drop_last() =~= before);
        if c == sep {
            let finished = cur;
            done.push(finished);
            cur = String::new();
            assert(views(done@) =~= views(done@.drop_last()).push(finished@));
        } else {
            push_char(&mut cur, c);
            assert(views(done@).push(cur@) =~= split_on(before, sep).update(
                split_on(before, sep).len() - 1,
                split_on(before, sep).last().push(c),
            ));
        }
        i = i + 1;
    }
    let ghost last = cur@;
    done.push(cur);
    assert(cs@.subrange(0, n as int) =~= cs@);
    assert(views(done@) =~= views(done@.drop_last()).push(last));
    done
}

} // verus!
