//! Character-level helpers: separator splitting, joining and string comparison.

use vstd::prelude::*;
use vstd::std_specs::iter::IteratorSpec;

verus! {

/// The pieces of `s` between occurrences of `sep`, in order; `k` separators
/// give `k + 1` pieces, some of which may be empty.
pub open spec fn split_on(s: Seq<char>, sep: char) -> Seq<Seq<char>>
    decreases s.len(),
{
    if s.len() == 0 {
        seq![Seq::<char>::empty()]
    } else {
        let prev = split_on(s.drop_last(), sep);
        if s.last() == sep {
            prev.push(Seq::<char>::empty())
        } else {
            prev.update(prev.len() - 1, prev.last().push(s.last()))
        }
    }
}

/// The pieces in `parts` glued together with `sep` between neighbours.
pub open spec fn join_with(parts: Seq<Seq<char>>, sep: char) -> Seq<char>
    decreases parts.len(),
{
    if parts.len() <= 1 {
        if parts.len() == 0 { Seq::<char>::empty() } else { parts[0] }
    } else {
        join_with(parts.drop_last(), sep).push(sep) + parts.last()
    }
}

/// `s` holds no occurrence of `c`.
pub open spec fn free_of(s: Seq<char>, c: char) -> bool {
    forall|i: int| 0 <= i < s.len() ==> s[i] != c
}

/// The character views of a sequence of string slices.
pub open spec fn strs_view(v: Seq<&str>) -> Seq<Seq<char>> {
    v.map_values(|x: &str| x@)
}

pub proof fn lemma_split_len(s: Seq<char>, sep: char)
    ensures
        split_on(s, sep).len() >= 1,
    decreases s.len(),
{
    if s.len() > 0 {
        lemma_split_len(s.drop_last(), sep);
    }
}

/// Splitting a longer text never yields fewer pieces.
pub proof fn lemma_split_len_prefix(s: Seq<char>, sep: char, j: int)
    requires
        0 <= j <= s.len(),
    ensures
        split_on(s.take(j), sep).len() <= split_on(s, sep).len(),
    decreases s.len() - j,
{
    if j < s.len() {
        lemma_split_len_prefix(s, sep, j + 1);
        let t = s.take(j + 1);
        assert(t.drop_last() =~= s.take(j));
        lemma_split_len(s.take(j), sep);
    } else {
        assert(s.take(j) =~= s);
    }
}

/// Appending separator-free text extends the last piece.
pub proof fn lemma_split_extend(a: Seq<char>, t: Seq<char>, sep: char)
    requires
        free_of(t, sep),
    ensures
        split_on(a + t, sep) =~= split_on(a, sep).update(
            split_on(a, sep).len() - 1,
            split_on(a, sep).last() + t,
        ),
    decreases t.len(),
{
    lemma_split_len(a, sep);
    if t.len() == 0 {
        assert(a + t =~= a);
        assert(split_on(a, sep).last() + t =~= split_on(a, sep).last());
    } else {
        let t0 = t.drop_last();
        assert(free_of(t0, sep));
        lemma_split_extend(a, t0, sep);
        assert((a + t).drop_last() =~= a + t0);
        assert((split_on(a, sep).last() + t0).push(t.last()) =~= split_on(a, sep).last() + t);
    }
}

/// Splitting undoes joining when no piece holds the separator.
pub proof fn lemma_split_join(parts: Seq<Seq<char>>, sep: char)
    requires
        parts.len() >= 1,
        forall|i: int| 0 <= i < parts.len() ==> free_of(#[trigger] parts[i], sep),
    ensures
        split_on(join_with(parts, sep), sep) == parts,
    decreases parts.len(),
{
    if parts.len() == 1 {
        let e = Seq::<char>::empty();
        lemma_split_extend(e, parts[0], sep);
        assert(e + parts[0] =~= parts[0]);
        assert(split_on(parts[0], sep) =~= parts);
    } else {
        let init = parts.drop_last();
        assert forall|i: int| 0 <= i < init.len() implies free_of(#[trigger] init[i], sep) by {
            assert(init[i] == parts[i]);
        }
        lemma_split_join(init, sep);
        let a = join_with(init, sep).push(sep);
        assert(a.drop_last() =~= join_with(init, sep));
        assert(free_of(parts[parts.len() - 1], sep));
        lemma_split_extend(a, parts.last(), sep);
        assert(Seq::<char>::empty() + parts.last() =~= parts.last());
        assert(split_on(a + parts.last(), sep) =~= parts);
    }
}

/// Splits `s` at every `sep`, giving up once more than `max` pieces are certain.
pub fn split_by(s: &str, sep: char, max: usize) -> (r: Option<Vec<&str>>)
    ensures
        match r {
            Some(v) => strs_view(v@) == split_on(s@, sep),
            None => split_on(s@, sep).len() > max,
        },
{
    proof {
        lemma_split_len(s@, sep);
    }
    if max == 0 {
        return None;
    }
    let len = s.unicode_len();
    let mut it = s.chars();
    let mut parts: Vec<&str> = Vec::new();
    let mut start: usize = 0;
    let mut i: usize = 0;
    assert(s@.take(0) =~= Seq::<char>::empty());
    assert(s@.subrange(0, 0) =~= Seq::<char>::empty());
    assert(strs_view(parts@).push(s@.subrange(0, 0)) =~= split_on(s@.take(0), sep));
    loop
        invariant
            len == s@.len(),
            start <= i <= len,
            it.remaining() == s@.skip(i as int),
            strs_view(parts@).push(s@.subrange(start as int, i as int)) == split_on(
                s@.take(i as int),
                sep,
            ),
            parts@.len() + 1 <= max,
        decreases len - i,
    {
        let ghost before = parts@;
        match it.next() {
            None => {
                let last = s.substring_char(start, i);
                parts.push(last);
                assert(s@.take(i as int) =~= s@);
                assert(strs_view(parts@) =~= strs_view(before).push(last@));
                return Some(parts);
            },
            Some(c) => {
                assert(s@.skip(i as int)[0] == s@[i as int]);
                assert(s@.take(i + 1).drop_last() =~= s@.take(i as int));
                assert(s@.take(i + 1).last() == c);
                if c == sep {
                    if parts.len() + 1 >= max {
                        proof {
                            lemma_split_len_prefix(s@, sep, i + 1);
                        }
                        return None;
                    }
                    let seg = s.substring_char(start, i);
                    parts.push(seg);
                    assert(strs_view(parts@) =~= strs_view(before).push(seg@));
                    assert(s@.subrange(i + 1, i + 1) =~= Seq::<char>::empty());
                    start = i + 1;
                } else {
                    assert(s@.subrange(start as int, i + 1) =~= s@.subrange(
                        start as int,
                        i as int,
                    ).push(c));
                    assert(strs_view(parts@).push(s@.subrange(start as int, i + 1)) =~= split_on(
                        s@.take(i + 1),
                        sep,
                    ));
                }
                assert(it.remaining() =~= s@.skip(i + 1));
                i = i + 1;
            },
        }
    }
}

/// Compares two string slices character by character.
pub fn str_eq(a: &str, b: &str) -> (r: bool)
    ensures
        r == (a@ == b@),
{
    let mut ia = a.chars();
    let mut ib = b.chars();
    let ghost n: int = 0;
    loop
        invariant
            0 <= n <= a@.len(),
            n <= b@.len(),
            ia.remaining() == a@.skip(n),
            ib.remaining() == b@.skip(n),
            a@.take(n) == b@.take(n),
        decreases a@.len() - n,
    {
        let ca = ia.next();
        let cb = ib.next();
        match (ca, cb) {
            (None, None) => {
                assert(a@ =~= a@.take(n));
                assert(b@ =~= b@.take(n));
                return true;
            },
            (Some(x), Some(y)) => {
                if x != y {
                    assert(a@[n] != b@[n]);
                    return false;
                }
                proof {
                    assert(a@.take(n + 1) =~= a@.take(n).push(x));
                    assert(b@.take(n + 1) =~= b@.take(n).push(y));
                    n = n + 1;
                }
            },
            _ => {
                return false;
            },
        }
    }
}

} // verus!
