//! The textual image envelope: `<tag>;base64,<payload>`.
use vstd::prelude::*;

verus! {

/// The bytes of the delimiter `;base64,`.
pub open spec fn delimiter() -> Seq<u8> {
    seq![59u8, 98u8, 97u8, 115u8, 101u8, 54u8, 52u8, 44u8]
}

/// The delimiter occurs in `t` starting at index `i`.
pub open spec fn delim_at(t: Seq<u8>, i: int) -> bool {
    0 <= i && i + 8 <= t.len() && t.subrange(i, i + 8) == delimiter()
}

/// The first index at or after `i` where the delimiter starts, if any.
pub open spec fn find_from(t: Seq<u8>, i: int) -> Option<int>
    decreases t.len() - i,
{
    if i < 0 || i + 8 > t.len() {
        None
    } else if delim_at(t, i) {
        Some(i)
    } else {
        find_from(t, i + 1)
    }
}

/// Splits an envelope into its tag and its payload: the tag runs up to the
/// first delimiter, the payload is everything after it.
pub open spec fn split_spec(t: Seq<u8>) -> Option<(Seq<u8>, Seq<u8>)> {
    match find_from(t, 0) {
        None => None,
        Some(i) => Some((t.subrange(0, i), t.subrange(i + 8, t.len() as int))),
    }
}

proof fn lemma_find_from_bounds(t: Seq<u8>, i: int)
    requires
        0 <= i,
    ensures
        match find_from(t, i) {
            Some(k) => i <= k && delim_at(t, k),
            None => true,
        },
    decreases t.len() - i,
{
    if i + 8 <= t.len() && !delim_at(t, i) {
        lemma_find_from_bounds(t, i + 1);
    }
}

/// Where no delimiter starts in `[a, i)` and one starts at `i`, the search
/// from `a` finds `i`.
pub proof fn lemma_find_first(t: Seq<u8>, a: int, i: int)
    requires
        0 <= a <= i,
        delim_at(t, i),
        forall|j: int| a <= j < i ==> !delim_at(t, j),
    ensures
        find_from(t, a) == Some(i),
    decreases i - a,
{
    if a < i {
        lemma_find_first(t, a + 1, i);
    }
}

fn delim_at_exec(t: &[u8], i: usize) -> (r: bool)
    requires
        i + 8 <= t@.len(),
    ensures
        r == delim_at(t@, i as int),
{
    let d: [u8; 8] = [59u8, 98u8, 97u8, 115u8, 101u8, 54u8, 52u8, 44u8];
    let n = t.len();
    let mut k: usize = 0;
    while k < 8
        invariant
            k <= 8,
            n == t@.len(),
            i + 8 <= n,
            d@ == delimiter(),
            forall|m: int| 0 <= m < k ==> t@[i + m] == delimiter()[m],
        decreases 8 - k,
    {
        if t[i + k] != d[k] {
            assert(t@.subrange(i as int, i + 8)[k as int] != delimiter()[k as int]);
            return false;
        }
        k = k + 1;
    }
    assert(t@.subrange(i as int, i + 8) =~= delimiter());
    true
}

/// The first index at or after `from` where the delimiter starts, if any.
fn find_delimiter(t: &[u8], from: usize) -> (r: Option<usize>)
    requires
        from <= t@.len(),
    ensures
        match r {
            Some(k) => find_from(t@, from as int) == Some(k as int),
            None => find_from(t@, from as int) is None,
        },
{
    let n = t.len();
    let mut i: usize = from;
    while n - i >= 8
        invariant
            n == t@.len(),
            from <= i <= n,
            find_from(t@, from as int) == find_from(t@, i as int),
        decreases t@.len() - i,
    {
        if delim_at_exec(t, i) {
            return Some(i);
        }
        i = i + 1;
    }
    None
}

/// Splits an envelope: returns the end of its tag, where the delimiter
/// starts, and the start of its payload, which runs to the end.
pub fn split_envelope(t: &[u8]) -> (r: Option<(usize, usize)>)
    ensures
        match r {
            Some((tag_end, start)) => {
                &&& tag_end <= start <= t@.len()
                &&& split_spec(t@) == Some((
                    t@.subrange(0, tag_end as int),
                    t@.subrange(start as int, t@.len() as int),
                ))
            },
            None => split_spec(t@) is None,
        },
{
    let n = t.len();
    match find_delimiter(t, 0) {
        None => None,
        Some(i) => {
            proof {
                lemma_find_from_bounds(t@, 0);
            }
            assert(i + 8 <= n);
            Some((i, i + 8))
        },
    }
}

} // verus!
