//! Verified string helpers: equality, substring search, splitting on a
//! separator and taking the prefix before a separator. These model the
//! pieces of `str` functionality that the wiki URL parser is built from.
use vstd::prelude::*;

verus! {

/// `n` occurs in `h` starting at position `j`.
pub open spec fn seq_contains_at(h: Seq<char>, n: Seq<char>, j: int) -> bool {
    &&& 0 <= j
    &&& j + n.len() <= h.len()
    &&& h.subrange(j, j + n.len() as int) == n
}

/// `n` occurs somewhere in `h`.
pub open spec fn seq_contains(h: Seq<char>, n: Seq<char>) -> bool {
    exists|j: int| seq_contains_at(h, n, j)
}

/// The segments of `s` between occurrences of `sep`, in order, kept even
/// when empty: the model of `str::split` with a single-character pattern.
pub open spec fn split_char(s: Seq<char>, sep: char) -> Seq<Seq<char>>
    decreases s.len(),
{
    if s.len() == 0 {
        seq![Seq::<char>::empty()]
    } else if s[0] == sep {
        seq![Seq::<char>::empty()] + split_char(s.drop_first(), sep)
    } else {
        let rest = split_char(s.drop_first(), sep);
        seq![seq![s[0]] + rest[0]] + rest.drop_first()
    }
}

pub proof fn lemma_split_char_len(s: Seq<char>, sep: char)
    ensures
        split_char(s, sep).len() >= 1,
    decreases s.len(),
{
    if s.len() == 0 {
    } else {
        lemma_split_char_len(s.drop_first(), sep);
    }
}

/// Appending one character extends the final segment, or opens a new empty
/// segment when the character is the separator.
pub proof fn lemma_split_char_push(s: Seq<char>, c: char, sep: char)
    ensures
        c == sep ==> split_char(s.push(c), sep) == split_char(s, sep).push(Seq::<char>::empty()),
        c != sep ==> split_char(s.push(c), sep) == split_char(s, sep).update(
            split_char(s, sep).len() - 1,
            split_char(s, sep).last().push(c),
        ),
    decreases s.len(),
{
    reveal_with_fuel(split_char, 4);
    lemma_split_char_len(s, sep);
    let sp = s.push(c);
    assert(sp[0] == if s.len() == 0 { c } else { s[0] });
    if s.len() == 0 {
        assert(sp.drop_first() =~= Seq::<char>::empty());
        if c == sep {
            assert(split_char(sp, sep) =~~= split_char(s, sep).push(Seq::<char>::empty()));
        } else {
            assert(seq![c] + split_char(Seq::<char>::empty(), sep)[0] =~= Seq::<char>::empty().push(c));
            assert(split_char(sp, sep) =~~= split_char(s, sep).update(0, split_char(s, sep).last().push(c)));
        }
    } else {
        assert(sp[0] == s[0]);
        assert(sp.drop_first() =~= s.drop_first().push(c));
        lemma_split_char_push(s.drop_first(), c, sep);
        lemma_split_char_len(s.drop_first(), sep);
        let r = split_char(s.drop_first(), sep);
        let rp = split_char(s.drop_first().push(c), sep);
        if s[0] == sep {
            if c == sep {
                assert(split_char(sp, sep) =~~= split_char(s, sep).push(Seq::<char>::empty()));
            } else {
                assert(split_char(s, sep).last() == r.last());
                assert(split_char(sp, sep) =~~= split_char(s, sep).update(
                    split_char(s, sep).len() - 1,
                    split_char(s, sep).last().push(c),
                ));
            }
        } else {
            if c == sep {
                assert(rp[0] == r[0]);
                assert(rp.drop_first() =~~= r.drop_first().push(Seq::<char>::empty()));
                assert(split_char(sp, sep) =~~= split_char(s, sep).push(Seq::<char>::empty()));
            } else {
                assert(rp == r.update(r.len() - 1, r.last().push(c)));
                if r.len() == 1 {
                    assert(rp[0] == r[0].push(c));
                    assert(seq![seq![s[0]] + r[0].push(c)] =~~= seq![(seq![s[0]] + r[0]).push(c)]);
                    assert(split_char(s, sep).last() == seq![s[0]] + r[0]);
                    assert(split_char(sp, sep) =~~= split_char(s, sep).update(0, split_char(s, sep).last().push(c)));
                } else {
                    assert(rp[0] == r[0]);
                    assert(rp.drop_first() =~~= r.drop_first().update(r.len() - 2, r.last().push(c)));
                    assert(split_char(s, sep).last() == r.last());
                    assert(split_char(sp, sep) =~~= split_char(s, sep).update(
                        split_char(s, sep).len() - 1,
                        split_char(s, sep).last().push(c),
                    ));
                }
            }
        }
    }
}

/// The prefix of `s` before the first occurrence of `sep`, or all of `s`
/// when `sep` does not occur: the model of `split(sep).next()`.
pub open spec fn prefix_to(s: Seq<char>, sep: char) -> Seq<char>
    decreases s.len(),
{
    if s.len() == 0 {
        s
    } else if s[0] == sep {
        Seq::<char>::empty()
    } else {
        seq![s[0]] + prefix_to(s.drop_first(), sep)
    }
}

pub proof fn lemma_prefix_to(s: Seq<char>, sep: char, idx: int)
    requires
        0 <= idx <= s.len(),
        forall|j: int| 0 <= j < idx ==> s[j] != sep,
        idx < s.len() ==> s[idx] == sep,
    ensures
        prefix_to(s, sep) == s.subrange(0, idx),
    decreases s.len(),
{
    if s.len() == 0 {
        assert(s.subrange(0, 0) =~= s);
    } else if idx == 0 {
        assert(s.subrange(0, 0) =~= Seq::<char>::empty());
    } else {
        assert(s[0] != sep);
        lemma_prefix_to(s.drop_first(), sep, idx - 1);
        assert(seq![s[0]] + s.drop_first().subrange(0, idx - 1) =~= s.subrange(0, idx));
    }
}

/// Character-by-character string equality, `r == (a@ == b@)`.
pub fn str_eq(a: &str, b: &str) -> (r: bool)
    ensures
        r == (a@ == b@),
{
    let an = a.unicode_len();
    let bn = b.unicode_len();
    if an != bn {
        return false;
    }
    let mut i: usize = 0;
    while i < an
        invariant
            i <= an,
            an == a@.len(),
            an == b@.len(),
            forall|j: int| 0 <= j < i ==> a@[j] == b@[j],
        decreases an - i,
    {
        if a.get_char(i) != b.get_char(i) {
            return false;
        }
        i += 1;
    }
    proof {
        assert(a@ =~= b@);
    }
    true
}

/// Whether `n` occurs in `h` starting exactly at position `j`.
fn str_matches_at(h: &str, j: usize, n: &str) -> (r: bool)
    requires
        j + n@.len() <= h@.len(),
    ensures
        r == seq_contains_at(h@, n@, j as int),
{
    let hn = h.unicode_len();
    let nn = n.unicode_len();
    let mut k: usize = 0;
    while k < nn
        invariant
            k <= nn,
            hn == h@.len(),
            nn == n@.len(),
            j + n@.len() <= h@.len(),
            forall|t: int| 0 <= t < k ==> h@[j + t] == n@[t],
        decreases nn - k,
    {
        if h.get_char(j + k) != n.get_char(k) {
            proof {
                assert(h@.subrange(j as int, j + n@.len() as int)[k as int] == h@[j + k]);
            }
            return false;
        }
        k += 1;
    }
    proof {
        assert(h@.subrange(j as int, j + n@.len() as int) =~= n@);
    }
    true
}

/// Substring search, `r == seq_contains(h@, n@)`.
pub fn str_contains(h: &str, n: &str) -> (r: bool)
    ensures
        r == seq_contains(h@, n@),
{
    let hn = h.unicode_len();
    let nn = n.unicode_len();
    if nn > hn {
        return false;
    }
    if nn == 0 {
        proof {
            assert(seq_contains_at(h@, n@, 0)) by {
                assert(h@.subrange(0, 0) =~= n@);
            }
        }
        return true;
    }
    let mut j: usize = 0;
    while j <= hn - nn
        invariant
            1 <= nn <= hn,
            hn == h@.len(),
            nn == n@.len(),
            j <= hn - nn + 1,
            forall|t: int| 0 <= t < j ==> !seq_contains_at(h@, n@, t),
        decreases hn - nn + 1 - j,
    {
        if str_matches_at(h, j, n) {
            return true;
        }
        j += 1;
    }
    false
}

/// The segments of `s` between `/` separators, as owned strings.
pub fn split_slashes(s: &str) -> (parts: Vec<String>)
    ensures
        parts@.map_values(|p: String| p@) == split_char(s@, '/'),
{
    let n = s.unicode_len();
    let mut parts: Vec<String> = Vec::new();
    let mut start: usize = 0;
    let mut i: usize = 0;
    proof {
        assert(s@.subrange(0, 0) =~= Seq::<char>::empty());
        assert(parts@.map_values(|p: String| p@).push(s@.subrange(0, 0))
            =~~= split_char(s@.subrange(0, 0), '/'));
    }
    while i < n
        invariant
            n == s@.len(),
            start <= i <= n,
            parts@.map_values(|p: String| p@).push(s@.subrange(start as int, i as int))
                == split_char(s@.subrange(0, i as int), '/'),
        decreases n - i,
    {
        let ghost pre = s@.subrange(0, i as int);
        proof {
            assert(s@.subrange(0, i as int + 1) =~= pre.push(s@[i as int]));
            lemma_split_char_push(pre, s@[i as int], '/');
            lemma_split_char_len(pre, '/');
        }
        let c = s.get_char(i);
        if c == '/' {
            let seg = s.substring_char(start, i).to_owned();
            parts.push(seg);
            proof {
                assert(parts@.map_values(|p: String| p@).push(
                    s@.subrange(i as int + 1, i as int + 1),
                ) =~~= split_char(s@.subrange(0, i as int + 1), '/'));
            }
            start = i + 1;
        } else {
            proof {
                let lhs = parts@.map_values(|p: String| p@).push(s@.subrange(start as int, i as int));
                assert(lhs.last() == s@.subrange(start as int, i as int));
                assert(s@.subrange(start as int, i as int).push(s@[i as int])
                    =~= s@.subrange(start as int, i as int + 1));
                assert(parts@.map_values(|p: String| p@).push(
                    s@.subrange(start as int, i as int + 1),
                ) =~~= lhs.update(lhs.len() - 1, lhs.last().push(s@[i as int])));
            }
        }
        i += 1;
    }
    let last = s.substring_char(start, n).to_owned();
    parts.push(last);
    proof {
        assert(s@.subrange(0, n as int) =~= s@);
        assert(parts@.map_values(|p: String| p@)
            =~~= split_char(s@, '/'));
    }
    parts
}

/// The prefix of `s` before the first `?`, as an owned string.
pub fn before_query(s: &str) -> (r: String)
    ensures
        r@ == prefix_to(s@, '?'),
{
    let n = s.unicode_len();
    let mut end: usize = 0;
    while end < n
        invariant
            end <= n,
            n == s@.len(),
            forall|j: int| 0 <= j < end ==> s@[j] != '?',
        decreases n - end,
    {
        if s.get_char(end) == '?' {
            proof {
                lemma_prefix_to(s@, '?', end as int);
            }
            return s.substring_char(0, end).to_owned();
        }
        end += 1;
    }
    proof {
        lemma_prefix_to(s@, '?', n as int);
        assert(s@.subrange(0, n as int) =~= s@);
    }
    s.to_owned()
}

} // verus!
