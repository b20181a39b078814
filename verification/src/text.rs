//! Character-level string helpers: prefix tests, splitting a command line
//! on spaces and joining it back.
use vstd::prelude::*;

verus! {

/// The views of a sequence of owned strings.
pub open spec fn views(v: Seq<String>) -> Seq<Seq<char>> {
    v.map_values(|s: String| s@)
}

/// `parts` glued together with `sep` between neighbours.
pub open spec fn join_with(parts: Seq<Seq<char>>, sep: Seq<char>) -> Seq<char>
    decreases parts.len(),
{
    if parts.len() == 0 {
        Seq::empty()
    } else if parts.len() == 1 {
        parts[0]
    } else {
        join_with(parts.drop_last(), sep) + sep + parts.last()
    }
}

/// No character of `s` is `c`.
pub open spec fn free_of(s: Seq<char>, c: char) -> bool {
    forall|i: int| 0 <= i < s.len() ==> s[i] != c
}

/// `parts` is what splitting `s` at every occurrence of `sep` gives:
/// at least one piece, none holding `sep`, and joined by `sep` they give `s` back.
pub open spec fn is_split_on(s: Seq<char>, sep: char, parts: Seq<Seq<char>>) -> bool {
    &&& parts.len() >= 1
    &&& join_with(parts, seq![sep]) == s
    &&& forall|k: int| 0 <= k < parts.len() ==> free_of(#[trigger] parts[k], sep)
}

/// Joining after pushing one more piece.
pub proof fn lemma_join_push(parts: Seq<Seq<char>>, sep: Seq<char>, x: Seq<char>)
    ensures
        join_with(parts.push(x), sep) == if parts.len() == 0 {
            x
        } else {
            join_with(parts, sep) + sep + x
        },
{
    assert(parts.push(x).drop_last() =~= parts);
    if parts.len() == 0 {
        assert(parts.push(x)[0] == x);
    }
}


/// Whether `s` begins with `prefix`.
pub fn starts_with(s: &str, prefix: &str) -> (res: bool)
    ensures
        res == prefix@.is_prefix_of(s@),
{
    let n = s.unicode_len();
    let m = prefix.unicode_len();
    if m > n {
        return false;
    }
    let mut i: usize = 0;
    while i < m
        invariant
            n == s@.len(),
            m == prefix@.len(),
            m <= n,
            i <= m,
            forall|j: int| 0 <= j < i ==> s@[j] == prefix@[j],
        decreases m - i,
    {
        if s.get_char(i) != prefix.get_char(i) {
            return false;
        }
        i += 1;
    }
    true
}

/// Whether two strings hold the same characters.
pub fn same_text(a: &str, b: &str) -> (res: bool)
    ensures
        res == (a@ == b@),
{
    let a_owned: String = a.to_owned();
    let b_owned: String = b.to_owned();
    a_owned == b_owned
}

/// The characters of `s` from `from` up to `to`, as an owned string.
pub fn char_range(s: &str, from: usize, to: usize) -> (res: String)
    requires
        from <= to <= s@.len(),
    ensures
        res@ == s@.subrange(from as int, to as int),
{
    s.substring_char(from, to).to_owned()
}

/// Splits `s` at every space, as `str::split(" ")` does: consecutive spaces
/// give empty pieces, and the result always holds at least one piece.
pub fn split_on_space(s: &str) -> (parts: Vec<String>)
    ensures
        is_split_on(s@, ' ', views(parts@)),
{
    let n = s.unicode_len();
    let mut parts: Vec<String> = Vec::new();
    let mut start: usize = 0;
    let mut i: usize = 0;
    while i < n
        invariant
            n == s@.len(),
            start <= i <= n,
            join_with(views(parts@).push(s@.subrange(start as int, i as int)), seq![' '])
                == s@.subrange(0, i as int),
            forall|k: int| 0 <= k < parts@.len() ==> free_of(#[trigger] views(parts@)[k], ' '),
            free_of(s@.subrange(start as int, i as int), ' '),
        decreases n - i,
    {
        let c = s.get_char(i);
        if c == ' ' {
            let piece = char_range(s, start, i);
            let ghost before = views(parts@);
            parts.push(piece);
            proof {
                assert(views(parts@) =~= before.push(s@.subrange(start as int, i as int)));
                lemma_join_push(before, seq![' '], s@.subrange(start as int, i as int));
                lemma_join_push(views(parts@), seq![' '], Seq::empty());
                assert(s@.subrange(0, i + 1) =~= s@.subrange(0, i as int) + seq![' ']);
                assert(s@.subrange(i + 1, i + 1) =~= Seq::<char>::empty());
                assert(views(parts@).push(Seq::<char>::empty()).len() > 1);
                assert(join_with(views(parts@), seq![' ']) + seq![' '] + Seq::<char>::empty()
                    =~= join_with(views(parts@), seq![' ']) + seq![' ']);
            }
            start = i + 1;
        } else {
            proof {
                let ghost before = views(parts@);
                let ghost cur = s@.subrange(start as int, i as int);
                let ghost next = s@.subrange(start as int, i + 1);
                assert(next =~= cur.push(c));
                lemma_join_push(before, seq![' '], cur);
                lemma_join_push(before, seq![' '], next);
                assert(s@.subrange(0, i + 1) =~= s@.subrange(0, i as int).push(c));
                if before.len() == 0 {
                } else {
                    assert(join_with(before, seq![' ']) + seq![' '] + next
                        =~= (join_with(before, seq![' ']) + seq![' '] + cur).push(c));
                }
            }
        }
        i += 1;
    }
    let last = char_range(s, start, n);
    let ghost before = views(parts@);
    parts.push(last);
    proof {
        assert(views(parts@) =~= before.push(s@.subrange(start as int, n as int)));
        assert(s@.subrange(0, n as int) =~= s@);
        assert forall|k: int| 0 <= k < views(parts@).len() implies free_of(
            #[trigger] views(parts@)[k],
            ' ',
        ) by {
            if k < before.len() {
                assert(views(parts@)[k] == before[k]);
            }
        }
    }
    parts
}


/// Glues `parts` together with one space between neighbours,
/// as `[String]::join(" ")` does.
pub fn join_on_space(parts: &Vec<String>) -> (res: String)
    ensures
        res@ == join_with(views(parts@), seq![' ']),
{
    let mut res = String::new();
    let mut i: usize = 0;
    proof {
        reveal_strlit(" ");
        assert(views(parts@).take(0) =~= Seq::<Seq<char>>::empty());
    }
    while i < parts.len()
        invariant
            i <= parts@.len(),
            " "@ == seq![' '],
            res@ == join_with(views(parts@).take(i as int), seq![' ']),
        decreases parts@.len() - i,
    {
        proof {
            assert(views(parts@).take(i + 1) =~= views(parts@).take(i as int).push(parts@[i as int]@));
            lemma_join_push(views(parts@).take(i as int), seq![' '], parts@[i as int]@);
        }
        if i > 0 {
            res.append(" ");
        }
        res.append(parts[i].as_str());
        i += 1;
    }
    proof {
        assert(views(parts@).take(parts@.len() as int) =~= views(parts@));
    }
    res
}

/// A piece free of `c` placed after `c` leaves `c` as the last occurrence:
/// two splittings of one sequence agree on their last pieces and on what
/// comes before them.
proof fn lemma_split_last(
    a0: Seq<char>,
    al: Seq<char>,
    b0: Seq<char>,
    bl: Seq<char>,
    c: char,
)
    requires
        a0 + seq![c] + al == b0 + seq![c] + bl,
        free_of(al, c),
        free_of(bl, c),
    ensures
        al == bl,
        a0 == b0,
{
    let sa = a0 + seq![c];
    let tb = b0 + seq![c];
    let s = sa + al;
    let t = tb + bl;
    assert(s.len() == t.len());
    if a0.len() < b0.len() {
        let p = b0.len() as int;
        assert(tb[p] == c);
        assert(t[p] == c);
        assert(p >= sa.len());
        assert(s[p] == al[p - sa.len()]);
        assert(al[p - sa.len()] != c);
    } else if b0.len() < a0.len() {
        let p = a0.len() as int;
        assert(sa[p] == c);
        assert(s[p] == c);
        assert(p >= tb.len());
        assert(t[p] == bl[p - tb.len()]);
        assert(bl[p - tb.len()] != c);
    }
    assert(a0 =~= s.subrange(0, a0.len() as int));
    assert(b0 =~= t.subrange(0, b0.len() as int));
    assert(al =~= s.subrange(a0.len() as int + 1, s.len() as int));
    assert(bl =~= t.subrange(b0.len() as int + 1, t.len() as int));
}

/// A single piece free of `c` cannot equal a join of two or more pieces.
proof fn lemma_single_not_joined(x: Seq<char>, parts: Seq<Seq<char>>, c: char)
    requires
        parts.len() >= 2,
        free_of(x, c),
    ensures
        x != join_with(parts, seq![c]),
{
    if x == join_with(parts, seq![c]) {
        let p = join_with(parts.drop_last(), seq![c]).len() as int;
        assert(x[p] == c);
    }
}

/// Splitting is determined: two splittings of the same sequence at the
/// same separator are equal.
pub proof fn law_split_unique(s: Seq<char>, sep: char, a: Seq<Seq<char>>, b: Seq<Seq<char>>)
    requires
        is_split_on(s, sep, a),
        is_split_on(s, sep, b),
    ensures
        a == b,
    decreases a.len(),
{
    if a.len() == 1 && b.len() == 1 {
        assert(a =~= b);
    } else if a.len() == 1 {
        assert(free_of(a[0], sep));
        lemma_single_not_joined(a[0], b, sep);
    } else if b.len() == 1 {
        assert(free_of(b[0], sep));
        lemma_single_not_joined(b[0], a, sep);
    } else {
        assert(free_of(a[a.len() - 1], sep));
        assert(free_of(b[b.len() - 1], sep));
        lemma_split_last(
            join_with(a.drop_last(), seq![sep]),
            a.last(),
            join_with(b.drop_last(), seq![sep]),
            b.last(),
            sep,
        );
        let s2 = join_with(a.drop_last(), seq![sep]);
        assert forall|k: int| 0 <= k < a.drop_last().len() implies free_of(
            #[trigger] a.drop_last()[k],
            sep,
        ) by {
            assert(a.drop_last()[k] == a[k]);
        }
        assert forall|k: int| 0 <= k < b.drop_last().len() implies free_of(
            #[trigger] b.drop_last()[k],
            sep,
        ) by {
            assert(b.drop_last()[k] == b[k]);
        }
        law_split_unique(s2, sep, a.drop_last(), b.drop_last());
        assert(a =~= a.drop_last().push(a.last()));
        assert(b =~= b.drop_last().push(b.last()));
    }
}

/// Joining the pieces of a split gives back the split sequence.
pub proof fn law_join_after_split(s: Seq<char>, sep: char, parts: Seq<Seq<char>>)
    requires
        is_split_on(s, sep, parts),
    ensures
        join_with(parts, seq![sep]) == s,
{
}

/// Splitting a join of pieces free of the separator gives back the pieces.
pub proof fn law_split_after_join(parts: Seq<Seq<char>>, sep: char, split: Seq<Seq<char>>)
    requires
        parts.len() >= 1,
        forall|k: int| 0 <= k < parts.len() ==> free_of(#[trigger] parts[k], sep),
        is_split_on(join_with(parts, seq![sep]), sep, split),
    ensures
        split == parts,
{
    law_split_unique(join_with(parts, seq![sep]), sep, parts, split);
}

} // verus!
