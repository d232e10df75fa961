//! Verified string helpers: splitting on a separator character, joining
//! with a separator, prefix tests, and ASCII case folding. These back the
//! URL rewriting logic, which is pure string work.

use vstd::prelude::*;

verus! {

/// Splitting `s` on the separator `c`: always at least one part, with
/// empty parts kept, as `str::split` produces them.
pub open spec fn spec_split(s: Seq<char>, c: char) -> Seq<Seq<char>>
    decreases s.len(),
{
    if s.len() == 0 {
        seq![Seq::<char>::empty()]
    } else if s[0] == c {
        seq![Seq::<char>::empty()] + spec_split(s.drop_first(), c)
    } else {
        let rest = spec_split(s.drop_first(), c);
        rest.update(0, seq![s[0]] + rest[0])
    }
}

/// Joining parts with a separator sequence between adjacent parts.
pub open spec fn spec_join(parts: Seq<Seq<char>>, sep: Seq<char>) -> Seq<char>
    decreases parts.len(),
{
    if parts.len() == 0 {
        Seq::empty()
    } else if parts.len() == 1 {
        parts[0]
    } else {
        parts[0] + sep + spec_join(parts.drop_first(), sep)
    }
}

/// `p` is a prefix of `s`.
pub open spec fn spec_starts_with(s: Seq<char>, p: Seq<char>) -> bool {
    p.len() <= s.len() && s.subrange(0, p.len() as int) == p
}

pub proof fn lemma_split_len(s: Seq<char>, c: char)
    ensures
        spec_split(s, c).len() >= 1,
    decreases s.len(),
{
    if s.len() > 0 {
        lemma_split_len(s.drop_first(), c);
    }
}

/// Splitting a string whose first `k` characters hold no separator: when
/// `k` is the whole string there is one part, the string itself; when the
/// separator stands at `k`, the first part is `s[..k]` and the rest is the
/// splitting of `s[k+1..]`.
pub proof fn lemma_split_at(s: Seq<char>, c: char, k: int)
    requires
        0 <= k <= s.len(),
        forall|j: int| 0 <= j < k ==> s[j] != c,
        k < s.len() ==> s[k] == c,
    ensures
        k == s.len() ==> spec_split(s, c) =~~= seq![s],
        k < s.len() ==> spec_split(s, c) =~~= seq![s.subrange(0, k)] + spec_split(
            s.subrange(k + 1, s.len() as int),
            c,
        ),
    decreases k,
{
    if k == 0 {
        if s.len() == 0 {
        } else {
            assert(s.subrange(0, 0) =~= Seq::<char>::empty());
            assert(s.drop_first() =~= s.subrange(1, s.len() as int));
        }
    } else {
        let t = s.drop_first();
        assert(forall|j: int| 0 <= j < k - 1 ==> t[j] != c);
        lemma_split_at(t, c, k - 1);
        lemma_split_len(t, c);
        let rest = spec_split(t, c);
        if k == s.len() {
            assert(rest =~~= seq![t]);
            assert(seq![s[0]] + rest[0] =~= s);
            assert(spec_split(s, c) =~~= seq![s]);
        } else {
            assert(t.subrange(k - 1 + 1, t.len() as int) =~= s.subrange(k + 1, s.len() as int));
            assert(rest =~~= seq![t.subrange(0, k - 1)] + spec_split(
                s.subrange(k + 1, s.len() as int),
                c,
            ));
            assert(seq![s[0]] + rest[0] =~= s.subrange(0, k));
            assert(spec_split(s, c) =~~= seq![s.subrange(0, k)] + spec_split(
                s.subrange(k + 1, s.len() as int),
                c,
            ));
        }
    }
}

/// Joining after adding one more part appends a separator and that part.
pub proof fn lemma_join_push(parts: Seq<Seq<char>>, x: Seq<char>, sep: Seq<char>)
    requires
        parts.len() >= 1,
    ensures
        spec_join(parts.push(x), sep) =~= spec_join(parts, sep) + sep + x,
    decreases parts.len(),
{
    assert(parts.push(x)[0] == parts[0]);
    if parts.len() == 1 {
        assert(parts.push(x).drop_first() =~~= seq![x]);
        assert(spec_join(parts.push(x), sep) == parts[0] + sep + spec_join(seq![x], sep));
        assert(spec_join(seq![x], sep) == x);
        assert(spec_join(parts, sep) == parts[0]);
    } else {
        lemma_join_push(parts.drop_first(), x, sep);
        assert(parts.push(x).drop_first() =~~= parts.drop_first().push(x));
        assert(spec_join(parts.push(x), sep) == parts[0] + sep + spec_join(
            parts.drop_first().push(x),
            sep,
        ));
        assert(spec_join(parts, sep) == parts[0] + sep + spec_join(parts.drop_first(), sep));
    }
}

/// Splits `s` on the character `c`, keeping empty parts, as `str::split`
/// does.
pub fn split_char(s: &str, c: char) -> (parts: Vec<String>)
    ensures
        parts@.map_values(|p: String| p@) =~= spec_split(s@, c),
        parts@.len() >= 1,
{
    let n = s.unicode_len();
    let mut parts: Vec<String> = Vec::new();
    let mut start: usize = 0;
    let mut i: usize = 0;
    proof {
        assert(s@.subrange(0, n as int) =~= s@);
        assert(parts@.map_values(|p: String| p@) =~~= Seq::<Seq<char>>::empty());
    }
    while i < n
        invariant
            n == s@.len(),
            start <= i <= n,
            spec_split(s@, c) =~~= parts@.map_values(|p: String| p@) + spec_split(
                s@.subrange(start as int, n as int),
                c,
            ),
            forall|j: int| start <= j < i ==> s@[j] != c,
        decreases n - i,
    {
        if s.get_char(i) == c {
            let piece = s.substring_char(start, i).to_owned();
            proof {
                let tail = s@.subrange(start as int, n as int);
                lemma_split_at(tail, c, i - start);
                assert(tail.subrange(0, i - start) =~= s@.subrange(start as int, i as int));
                assert(tail.subrange(i - start + 1, tail.len() as int) =~= s@.subrange(
                    i + 1,
                    n as int,
                ));
                assert((parts@.push(piece)).map_values(|p: String| p@) =~~= parts@.map_values(
                    |p: String| p@,
                ).push(piece@));
            }
            parts.push(piece);
            start = i + 1;
        }
        i += 1;
    }
    let last = s.substring_char(start, n).to_owned();
    proof {
        let tail = s@.subrange(start as int, n as int);
        lemma_split_at(tail, c, n - start);
        assert((parts@.push(last)).map_values(|p: String| p@) =~~= parts@.map_values(
            |p: String| p@,
        ).push(last@));
    }
    parts.push(last);
    proof {
        lemma_split_len(s@, c);
    }
    parts
}

/// Joins `parts[from..to]` with `/` between adjacent parts.
pub fn join_slash(parts: &Vec<String>, from: usize, to: usize) -> (r: String)
    requires
        from <= to <= parts@.len(),
    ensures
        r@ =~= spec_join(
            parts@.map_values(|p: String| p@).subrange(from as int, to as int),
            "/"@,
        ),
{
    let ghost all = parts@.map_values(|p: String| p@);
    if from == to {
        let r = String::new();
        proof {
            assert(all.subrange(from as int, to as int) =~~= Seq::<Seq<char>>::empty());
        }
        return r;
    }
    let mut r: String = parts[from].clone();
    let mut i: usize = from + 1;
    proof {
        assert(all.subrange(from as int, from + 1) =~~= seq![all[from as int]]);
    }
    while i < to
        invariant
            from < i <= to <= parts@.len(),
            all == parts@.map_values(|p: String| p@),
            r@ =~= spec_join(all.subrange(from as int, i as int), "/"@),
        decreases to - i,
    {
        r.append("/");
        r.append(parts[i].as_str());
        proof {
            let before = all.subrange(from as int, i as int);
            lemma_join_push(before, all[i as int], "/"@);
            assert(before.push(all[i as int]) =~~= all.subrange(from as int, i + 1));
        }
        i += 1;
    }
    r
}

/// Whether `p` is a prefix of `s`.
pub fn starts_with(s: &str, p: &str) -> (b: bool)
    ensures
        b == spec_starts_with(s@, p@),
{
    let n = s.unicode_len();
    let m = p.unicode_len();
    if m > n {
        return false;
    }
    let mut i: usize = 0;
    while i < m
        invariant
            m <= n,
            n == s@.len(),
            m == p@.len(),
            i <= m,
            forall|j: int| 0 <= j < i ==> s@[j] == p@[j],
        decreases m - i,
    {
        if s.get_char(i) != p.get_char(i) {
            return false;
        }
        i += 1;
    }
    proof {
        assert(s@.subrange(0, m as int) =~= p@);
    }
    true
}

/// Whether two strings spell the same characters.
pub fn str_eq(a: &str, b: &str) -> (r: bool)
    ensures
        r == (a@ == b@),
{
    let sa = a.to_owned();
    let sb = b.to_owned();
    sa.eq(&sb)
}

/// ASCII case folding of one character: `A` through `Z` become lower case,
/// all else is unchanged.
pub open spec fn spec_lower_char(c: char) -> char {
    if 'A' <= c && c <= 'Z' {
        ((c as u8) + 32) as char
    } else {
        c
    }
}

/// ASCII case folding of a string.
pub open spec fn spec_lower(s: Seq<char>) -> Seq<char> {
    s.map_values(|c: char| spec_lower_char(c))
}

fn lower_char(c: char) -> (r: char)
    ensures
        r == spec_lower_char(c),
{
    if 'A' <= c && c <= 'Z' {
        ((c as u8) + 32) as char
    } else {
        c
    }
}

/// Whether two strings spell the same characters up to ASCII case.
pub fn str_eq_fold(a: &str, b: &str) -> (r: bool)
    ensures
        r == (spec_lower(a@) == spec_lower(b@)),
{
    let n = a.unicode_len();
    let m = b.unicode_len();
    if n != m {
        proof {
            assert(spec_lower(a@).len() != spec_lower(b@).len());
        }
        return false;
    }
    let mut i: usize = 0;
    while i < n
        invariant
            n == a@.len() == b@.len(),
            i <= n,
            forall|j: int| 0 <= j < i ==> spec_lower_char(a@[j]) == spec_lower_char(b@[j]),
        decreases n - i,
    {
        if lower_char(a.get_char(i)) != lower_char(b.get_char(i)) {
            proof {
                assert(spec_lower(a@)[i as int] != spec_lower(b@)[i as int]);
            }
            return false;
        }
        i += 1;
    }
    proof {
        assert(spec_lower(a@) =~= spec_lower(b@));
    }
    true
}

} // verus!
