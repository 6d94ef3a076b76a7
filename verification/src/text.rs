//! Character-level scanning of ids and labels.

use vstd::prelude::*;

verus! {

/// The characters of `s`, in order.
pub fn chars_of(s: &str) -> (r: Vec<char>)
    ensures
        r@ == s@,
{
    let n: usize = s.unicode_len();
    let mut out: Vec<char> = Vec::new();
    let mut i: usize = 0;
    while i < n
        invariant
            n == s@.len(),
            i <= n,
            out@ == s@.subrange(0, i as int),
        decreases n - i,
    {
        out.push(s.get_char(i));
        i = i + 1;
        assert(out@ =~= s@.subrange(0, i as int));
    }
    assert(s@.subrange(0, n as int) =~= s@);
    out
}

/// Whether the characters `cs[start..end]` spell exactly `lit`.
pub fn segment_is(cs: &[char], start: usize, end: usize, lit: &str) -> (r: bool)
    requires
        start <= end <= cs@.len(),
    ensures
        r == (cs@.subrange(start as int, end as int) == lit@),
{
    let n: usize = lit.unicode_len();
    if end - start != n {
        return false;
    }
    let mut i: usize = 0;
    while i < n
        invariant
            n == lit@.len(),
            end - start == n,
            start <= end <= cs@.len(),
            i <= n,
            forall|j: int| 0 <= j < i ==> cs@[start + j] == lit@[j],
        decreases n - i,
    {
        if cs[start + i] != lit.get_char(i) {
            assert(cs@.subrange(start as int, end as int)[i as int] != lit@[i as int]);
            return false;
        }
        i = i + 1;
    }
    assert(cs@.subrange(start as int, end as int) =~= lit@);
    true
}

/// Whether `cs` begins with the characters of `lit`.
pub fn starts_with(cs: &[char], lit: &str) -> (r: bool)
    ensures
        r == (lit@.len() <= cs@.len() && cs@.subrange(0, lit@.len() as int) == lit@),
{
    let n: usize = lit.unicode_len();
    if n > cs.len() {
        return false;
    }
    segment_is(cs, 0, n, lit)
}

/// Position of the first `c` in `cs[start..end]`, counted from `start`.
pub fn find_char(cs: &[char], start: usize, end: usize, c: char) -> (r: Option<usize>)
    requires
        start <= end <= cs@.len(),
    ensures
        match r {
            Some(k) => cs@.subrange(start as int, end as int).index_of_first(c) == Some(k as int),
            None => cs@.subrange(start as int, end as int).index_of_first(c) is None,
        },
{
    let ghost seg = cs@.subrange(start as int, end as int);
    let mut i: usize = start;
    while i < end
        invariant
            start <= i <= end <= cs@.len(),
            seg == cs@.subrange(start as int, end as int),
            forall|j: int| start <= j < i ==> cs@[j] != c,
        decreases end - i,
    {
        if cs[i] == c {
            proof {
                seg.index_of_first_ensures(c);
                assert(seg[i - start] == c);
                assert(seg.contains(c));
                let k = seg.index_of_first(c)->0;
                if k < i - start {
                    assert(seg[k] == cs@[start + k]);
                }
                assert(!(i - start < k));
            }
            return Some(i - start);
        }
        i = i + 1;
    }
    proof {
        seg.index_of_first_ensures(c);
        assert forall|j: int| 0 <= j < seg.len() implies seg[j] != c by {
            assert(seg[j] == cs@[start + j]);
        }
    }
    None
}

} // verus!
