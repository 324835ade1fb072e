//! Character-level string helpers: searching for a separator, prefix tests,
//! and equality, each specified over the `Seq<char>` view.

use vstd::prelude::*;
use vstd::string::StrSliceExecFns;

verus! {

/// Index of the first occurrence of `c` in `s` at or after position `i`,
/// or `s.len()` when there is none.
pub open spec fn find_from(s: Seq<char>, c: char, i: int) -> int
    decreases s.len() - i,
{
    if i < 0 || i >= s.len() {
        s.len() as int
    } else if s[i] == c {
        i
    } else {
        find_from(s, c, i + 1)
    }
}

/// Index of the last occurrence of `c` in `s`, or `-1` when there is none.
pub open spec fn rfind(s: Seq<char>, c: char) -> int
    decreases s.len(),
{
    if s.len() == 0 {
        -1
    } else if s[s.len() - 1] == c {
        s.len() - 1
    } else {
        rfind(s.drop_last(), c)
    }
}

/// `p` stands at the start of `s`.
pub open spec fn has_prefix(s: Seq<char>, p: Seq<char>) -> bool {
    p.len() <= s.len() && s.subrange(0, p.len() as int) == p
}

pub proof fn lemma_find_from_bounds(s: Seq<char>, c: char, i: int)
    requires
        0 <= i <= s.len(),
    ensures
        i <= find_from(s, c, i) <= s.len(),
        find_from(s, c, i) < s.len() ==> s[find_from(s, c, i)] == c,
        forall|k: int| i <= k < find_from(s, c, i) ==> s[k] != c,
    decreases s.len() - i,
{
    if i < s.len() && s[i] != c {
        lemma_find_from_bounds(s, c, i + 1);
    }
}

/// The first occurrence is exactly `j` when `c` stands at `j` and nowhere earlier.
pub proof fn lemma_find_from_at(s: Seq<char>, c: char, i: int, j: int)
    requires
        0 <= i <= j < s.len(),
        s[j] == c,
        forall|k: int| i <= k < j ==> s[k] != c,
    ensures
        find_from(s, c, i) == j,
    decreases j - i,
{
    if i < j {
        lemma_find_from_at(s, c, i + 1, j);
    }
}

pub fn find_char(s: &str, c: char, from: usize) -> (r: usize)
    requires
        from <= s@.len(),
    ensures
        from <= r <= s@.len(),
        r as int == find_from(s@, c, from as int),
{
    let n = s.unicode_len();
    let mut i = from;
    while i < n
        invariant
            from <= i <= n,
            n == s@.len(),
            find_from(s@, c, from as int) == find_from(s@, c, i as int),
        decreases n - i,
    {
        let ch = s.get_char(i);
        if ch == c {
            proof {
                assert(find_from(s@, c, i as int) == i as int);
            }
            return i;
        }
        proof {
            assert(find_from(s@, c, i as int) == find_from(s@, c, i + 1));
        }
        i = i + 1;
    }
    n
}

/// How often `c` occurs in `s`.
pub open spec fn count_char(s: Seq<char>, c: char) -> nat
    decreases s.len(),
{
    if s.len() == 0 {
        0
    } else {
        count_char(s.drop_last(), c) + if s.last() == c {
            1nat
        } else {
            0nat
        }
    }
}

pub proof fn lemma_count_zero(s: Seq<char>, c: char)
    ensures
        (count_char(s, c) == 0) <==> (forall|k: int| 0 <= k < s.len() ==> s[k] != c),
    decreases s.len(),
{
    if s.len() > 0 {
        lemma_count_zero(s.drop_last(), c);
        assert(forall|k: int| 0 <= k < s.len() - 1 ==> s[k] == s.drop_last()[k]);
    }
}

pub proof fn lemma_count_at_least_two(s: Seq<char>, c: char, i: int, j: int)
    requires
        0 <= i < j < s.len(),
        s[i] == c,
        s[j] == c,
    ensures
        count_char(s, c) >= 2,
    decreases s.len(),
{
    if j == s.len() - 1 {
        lemma_count_zero(s.drop_last(), c);
        assert(s.drop_last()[i] == c);
        assert(count_char(s.drop_last(), c) >= 1);
    } else {
        lemma_count_at_least_two(s.drop_last(), c, i, j);
    }
}

/// Everything after the last occurrence of `c`; the whole string when `c`
/// does not occur.
pub fn suffix_after_last(s: &str, c: char) -> (r: String)
    ensures
        r@ == s@.subrange(rfind(s@, c) + 1, s@.len() as int),
{
    let n = s.unicode_len();
    proof {
        assert(s@.subrange(0, n as int) =~= s@);
    }
    let mut i = n;
    while i > 0
        invariant
            i <= n,
            n == s@.len(),
            rfind(s@, c) == rfind(s@.subrange(0, i as int), c),
        decreases i,
    {
        let ch = s.get_char(i - 1);
        if ch == c {
            proof {
                assert(s@.subrange(0, i as int)[i - 1] == c);
                assert(rfind(s@.subrange(0, i as int), c) == i - 1);
            }
            return s.substring_char(i, n).to_owned();
        }
        proof {
            assert(s@.subrange(0, i as int)[i - 1] != c);
            assert(s@.subrange(0, i as int).drop_last() =~= s@.subrange(0, i - 1));
            assert(rfind(s@.subrange(0, i as int), c) == rfind(s@.subrange(0, i - 1), c));
        }
        i = i - 1;
    }
    proof {
        assert(s@.subrange(0, 0) =~= Seq::<char>::empty());
        assert(rfind(s@, c) == -1);
    }
    s.to_owned()
}

pub fn str_eq(a: &str, b: &str) -> (r: bool)
    ensures
        r == (a@ == b@),
{
    let na = a.unicode_len();
    let nb = b.unicode_len();
    if na != nb {
        return false;
    }
    let mut i: usize = 0;
    while i < na
        invariant
            i <= na,
            na == a@.len(),
            na == b@.len(),
            forall|k: int| 0 <= k < i ==> a@[k] == b@[k],
        decreases na - i,
    {
        if s_neq(a.get_char(i), b.get_char(i)) {
            return false;
        }
        i = i + 1;
    }
    proof {
        assert(a@ =~= b@);
    }
    true
}

fn s_neq(x: char, y: char) -> (r: bool)
    ensures
        r == (x != y),
{
    x != y
}

pub fn str_starts_with(s: &str, p: &str) -> (r: bool)
    ensures
        r == has_prefix(s@, p@),
{
    let np = p.unicode_len();
    let ns = s.unicode_len();
    if np > ns {
        return false;
    }
    let mut i: usize = 0;
    while i < np
        invariant
            i <= np,
            np == p@.len(),
            ns == s@.len(),
            np <= ns,
            forall|k: int| 0 <= k < i ==> s@[k] == p@[k],
        decreases np - i,
    {
        if s_neq(s.get_char(i), p.get_char(i)) {
            return false;
        }
        i = i + 1;
    }
    proof {
        assert(s@.subrange(0, p@.len() as int) =~= p@);
    }
    true
}

} // verus!
