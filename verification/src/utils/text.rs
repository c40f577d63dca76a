use vstd::prelude::*;
use vstd::string::*;

verus! {

/// The pieces of `s` between the occurrences of `sep`, in order, as splitting
/// a string on a character pattern yields them: `n` separators give `n + 1`
/// pieces, empty ones included.
pub open spec fn split_spec(s: Seq<char>, sep: char) -> Seq<Seq<char>>
    decreases s.len(),
{
    if s.len() == 0 {
        seq![Seq::<char>::empty()]
    } else {
        let rest = split_spec(s.drop_last(), sep);
        if s.last() == sep {
            rest.push(Seq::<char>::empty())
        } else {
            rest.update(rest.len() - 1, rest.last().push(s.last()))
        }
    }
}

/// The pieces joined back together with `sep` between neighbours.
pub open spec fn join_spec(parts: Seq<Seq<char>>, sep: char) -> Seq<char>
    decreases parts.len(),
{
    if parts.len() == 0 {
        Seq::<char>::empty()
    } else if parts.len() == 1 {
        parts[0]
    } else {
        join_spec(parts.drop_last(), sep).push(sep) + parts.last()
    }
}

/// The views of a list of owned strings.
pub open spec fn views(v: Seq<String>) -> Seq<Seq<char>> {
    v.map_values(|p: String| p@)
}

/// `s` holds no occurrence of `c`.
pub open spec fn free_of(s: Seq<char>, c: char) -> bool {
    forall|i: int| 0 <= i < s.len() ==> s[i] != c
}

/// The splitting of any string has at least one piece.
pub proof fn lemma_split_nonempty(s: Seq<char>, sep: char)
    ensures
        split_spec(s, sep).len() >= 1,
    decreases s.len(),
{
    if s.len() > 0 {
        lemma_split_nonempty(s.drop_last(), sep);
    }
}

/// Splitting loses nothing and keeps the separator out of every piece:
/// joining the pieces with the separator gives the string back.
pub proof fn lemma_split_join(s: Seq<char>, sep: char)
    ensures
        join_spec(split_spec(s, sep), sep) == s,
        forall|i: int| 0 <= i < split_spec(s, sep).len() ==> free_of(#[trigger] split_spec(s, sep)[i], sep),
    decreases s.len(),
{
    if s.len() > 0 {
        let rest = split_spec(s.drop_last(), sep);
        lemma_split_join(s.drop_last(), sep);
        lemma_split_nonempty(s.drop_last(), sep);
        let parts = split_spec(s, sep);
        if s.last() == sep {
            assert(parts.drop_last() =~= rest);
            assert(s =~= s.drop_last().push(sep) + Seq::<char>::empty());
        } else {
            let last = rest.last().push(s.last());
            assert(parts.last() == last);
            if rest.len() == 1 {
                assert(s =~= last);
            } else {
                assert(parts.drop_last() =~= rest.drop_last());
                assert(join_spec(rest, sep) == join_spec(rest.drop_last(), sep).push(sep) + rest.last());
                assert(s =~= s.drop_last().push(s.last()));
                assert(s =~= join_spec(rest.drop_last(), sep).push(sep) + last);
            }
            assert forall|i: int| 0 <= i < parts.len() implies free_of(#[trigger] parts[i], sep) by {
                if i == parts.len() - 1 {
                    assert(free_of(rest.last(), sep));
                } else {
                    assert(parts[i] == rest[i]);
                }
            }
        }
    }
}

/// Splitting a string that holds no separator gives the string itself.
pub proof fn lemma_split_free(s: Seq<char>, sep: char)
    requires
        free_of(s, sep),
    ensures
        split_spec(s, sep) == seq![s],
    decreases s.len(),
{
    if s.len() > 0 {
        assert(free_of(s.drop_last(), sep));
        lemma_split_free(s.drop_last(), sep);
        assert(s.last() != sep);
        assert(s.drop_last().push(s.last()) =~= s);
        assert(seq![s.drop_last()].update(0, s.drop_last().push(s.last())) =~= seq![s]);
    } else {
        assert(s =~= Seq::<char>::empty());
    }
}

/// Splitting `a`, a separator and `b` gives the pieces of `a` followed by
/// those of `b`, the last piece of `a` and the first of `b` apart.
pub proof fn lemma_split_append(a: Seq<char>, b: Seq<char>, sep: char)
    ensures
        split_spec(a.push(sep) + b, sep) == split_spec(a, sep) + split_spec(b, sep),
    decreases b.len(),
{
    lemma_split_nonempty(a, sep);
    lemma_split_nonempty(b, sep);
    if b.len() == 0 {
        assert(a.push(sep) + b =~= a.push(sep));
        assert(a.push(sep).drop_last() =~= a);
        assert(split_spec(a, sep) + split_spec(b, sep) =~= split_spec(a, sep).push(Seq::<char>::empty()));
    } else {
        let s = a.push(sep) + b;
        assert(s.drop_last() =~= a.push(sep) + b.drop_last());
        lemma_split_append(a, b.drop_last(), sep);
        lemma_split_nonempty(b.drop_last(), sep);
        let pa = split_spec(a, sep);
        let pb0 = split_spec(b.drop_last(), sep);
        let rest = pa + pb0;
        if b.last() == sep {
            assert(rest.push(Seq::<char>::empty()) =~= pa + pb0.push(Seq::<char>::empty()));
        } else {
            assert(rest.update(rest.len() - 1, rest.last().push(b.last())) =~= pa + pb0.update(
                pb0.len() - 1,
                pb0.last().push(b.last()),
            ));
        }
    }
}

/// Splits `s` at every occurrence of `sep`.
pub fn split_char(s: &str, sep: char) -> (parts: Vec<String>)
    ensures
        views(parts@) == split_spec(s@, sep),
{
    let n = s.unicode_len();
    let mut parts: Vec<String> = Vec::new();
    let mut start: usize = 0;
    let mut i: usize = 0;
    assert(s@.subrange(0, 0) =~= Seq::<char>::empty());
    assert(views(parts@).push(s@.subrange(0, 0)) =~= seq![Seq::<char>::empty()]);
    while i < n
        invariant
            n == s@.len(),
            start <= i <= n,
            views(parts@).push(s@.subrange(start as int, i as int)) == split_spec(
                s@.subrange(0, i as int),
                sep,
            ),
        decreases n - i,
    {
        let c = s.get_char(i);
        let ghost prefix = s@.subrange(0, i as int + 1);
        assert(prefix.drop_last() =~= s@.subrange(0, i as int));
        assert(prefix.last() == c);
        if c == sep {
            let piece = s.substring_char(start, i).to_owned();
            let ghost before = views(parts@);
            parts.push(piece);
            assert(views(parts@) =~= before.push(piece@));
            start = i + 1;
            assert(s@.subrange(start as int, i as int + 1) =~= Seq::<char>::empty());
        } else {
            assert(s@.subrange(start as int, i as int + 1) =~= s@.subrange(start as int, i as int).push(c));
        }
        i = i + 1;
    }
    let last = s.substring_char(start, n).to_owned();
    let ghost before = views(parts@);
    parts.push(last);
    assert(views(parts@) =~= before.push(last@));
    assert(s@.subrange(0, n as int) =~= s@);
    parts
}

} // verus!

verus! {

/// A copy of an optional string.
pub fn clone_opt(o: &Option<String>) -> (r: Option<String>)
    ensures
        r == *o,
{
    match o {
        Some(s) => Some(s.clone()),
        None => None,
    }
}

} // verus!
