//! Byte-pattern scanner: finds a masked byte sequence inside a memory image.

use vstd::prelude::*;
use vstd::string::StrSliceExecFns;

verus! {

/// The pattern/mask pair admits the window of `hay` that starts at `i`: every
/// position `k` is either wildcarded by `'?'` in the mask or equal to the
/// pattern byte.
pub open spec fn wildcard_match_at(hay: Seq<u8>, pattern: Seq<u8>, mask: Seq<char>, i: int) -> bool {
    forall|k: int| 0 <= k < pattern.len() ==> mask[k] == '?' || hay[i + k] == pattern[k]
}

/// A full window of `hay` starts at offset `i` and the pattern/mask pair
/// admits it.
pub open spec fn pattern_found_at(hay: Seq<u8>, pattern: Seq<u8>, mask: Seq<char>, i: int) -> bool {
    0 <= i && i + pattern.len() <= hay.len() && wildcard_match_at(hay, pattern, mask, i)
}

/// Checks one window of `memory` against the pattern under the mask.
fn window_matches(memory: &[u8], pattern: &[u8], mask: &str, i: usize) -> (r: bool)
    requires
        mask@.len() == pattern@.len(),
        i + pattern@.len() <= memory@.len(),
    ensures
        r == wildcard_match_at(memory@, pattern@, mask@, i as int),
{
    let n = memory.len();
    let m = pattern.len();
    let mut k: usize = 0;
    while k < m
        invariant
            k <= m,
            m == pattern@.len(),
            mask@.len() == m,
            n == memory@.len(),
            i + m <= n,
            forall|t: int| 0 <= t < k ==> mask@[t] == '?' || memory@[i + t] == pattern@[t],
        decreases m - k,
    {
        let mc = mask.get_char(k);
        if !(mc == '?' || memory[i + k] == pattern[k]) {
            assert(!(mask@[k as int] == '?' || memory@[i + k] == pattern@[k as int]));
            return false;
        }
        k += 1;
    }
    true
}

/// Searches `memory` for a byte pattern under a wildcard mask.
///
/// A `'?'` at a mask position accepts any byte there; any other mask character
/// demands an exact match with the pattern byte at that position.  The scan
/// walks the overlapping windows of `memory` of the pattern's length and
/// returns the offset of the first window the pair admits.  It returns `None`
/// when the pattern and mask differ in length, and `None` when no window
/// matches.
pub fn find_pattern(memory: &[u8], pattern: &[u8], mask: &str) -> (r: Option<usize>)
    ensures
        pattern@.len() != mask@.len() ==> r is None,
        pattern@.len() == mask@.len() ==> match r {
            Some(i) => pattern_found_at(memory@, pattern@, mask@, i as int)
                && forall|j: int| 0 <= j < i ==> !wildcard_match_at(memory@, pattern@, mask@, j),
            None => forall|j: int| !pattern_found_at(memory@, pattern@, mask@, j),
        },
{
    if pattern.len() != mask.unicode_len() {
        return None;
    }
    let n = memory.len();
    let m = pattern.len();
    if m > n {
        assert(forall|j: int| !pattern_found_at(memory@, pattern@, mask@, j));
        return None;
    }
    let mut i: usize = 0;
    while i <= n - m
        invariant
            m == pattern@.len(),
            m == mask@.len(),
            n == memory@.len(),
            m <= n,
            i <= n - m + 1,
            forall|j: int| 0 <= j < i ==> !wildcard_match_at(memory@, pattern@, mask@, j),
        decreases n - m + 1 - i,
    {
        if window_matches(memory, pattern, mask, i) {
            return Some(i);
        }
        i += 1;
    }
    assert forall|j: int| !pattern_found_at(memory@, pattern@, mask@, j) by {
        if 0 <= j <= n - m {
            assert(!wildcard_match_at(memory@, pattern@, mask@, j));
        }
    }
    None
}

} // verus!
