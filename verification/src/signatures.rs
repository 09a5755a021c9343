//! Signature table: per-target byte patterns with wildcard masks, used to
//! re-derive function addresses inside a module image when a target cannot be
//! reached through its vtable slot — typically very short functions that the
//! compiler merged or inlined.  These are contract values tied to one build
//! of the foreign module and must be revalidated when it changes.

use vstd::prelude::*;
use crate::scanner;

verus! {

/// A byte pattern and its wildcard mask, naming one target function.
pub struct SignatureEntry {
    /// The target function, named for the error report when the signature is
    /// not found.
    pub name: String,
    /// The bytes to match.
    pub pattern: Vec<u8>,
    /// One character per pattern byte; `'?'` wildcards the position.
    pub mask: String,
}

impl SignatureEntry {
    /// A signature is well formed when the pattern and the mask pair up
    /// position by position.
    pub open spec fn wf(&self) -> bool {
        self.pattern@.len() == self.mask@.len()
    }

    /// The signature matches somewhere in the image.
    pub open spec fn spec_found(&self, haystack: Seq<u8>) -> bool {
        exists|i: int| scanner::pattern_found_at(haystack, self.pattern@, self.mask@, i)
    }

    /// `offset` is the lowest offset at which the signature matches the image.
    pub open spec fn spec_hit(&self, haystack: Seq<u8>, offset: int) -> bool {
        &&& scanner::pattern_found_at(haystack, self.pattern@, self.mask@, offset)
        &&& forall|j: int|
            0 <= j < offset ==> !scanner::wildcard_match_at(haystack, self.pattern@, self.mask@, j)
    }

    /// `addr` is the module base plus the lowest offset at which the
    /// signature matches the image.
    pub open spec fn spec_resolved(&self, haystack: Seq<u8>, base: usize, addr: usize) -> bool {
        exists|off: int| #[trigger] self.spec_hit(haystack, off) && addr == base + off
    }

    /// Resolves the signature inside a module image to an absolute address:
    /// the module's base plus the lowest matching offset.
    pub fn resolve(&self, haystack: &[u8], base: usize) -> (r: Option<usize>)
        requires
            self.wf(),
            base + haystack@.len() <= usize::MAX,
        ensures
            r is Some ==> self.spec_found(haystack@),
            match r {
                Some(addr) => self.spec_resolved(haystack@, base, addr),
                None => !self.spec_found(haystack@),
            },
    {
        match scanner::find_pattern(haystack, self.pattern.as_slice(), self.mask.as_str()) {
            Some(off) => {
                proof {
                    assert(self.spec_hit(haystack@, off as int));
                }
                Some(base + off)
            },
            None => None,
        }
    }
}

/// Resolves a whole signature table against one module image.  Returns the
/// absolute address of every target in table order, or the index of the first
/// signature that the image does not contain — the caller reports that target
/// and aborts its initialization, since a missing signature means the module
/// build is not the one the table was made for.
pub fn resolve_all(entries: &Vec<SignatureEntry>, haystack: &[u8], base: usize) -> (r: Result<
    Vec<usize>,
    usize,
>)
    requires
        forall|i: int| 0 <= i < entries@.len() ==> (#[trigger] entries@[i]).wf(),
        base + haystack@.len() <= usize::MAX,
    ensures
        match r {
            Ok(addrs) => addrs@.len() == entries@.len() && forall|i: int|
                0 <= i < entries@.len() ==> (#[trigger] entries@[i]).spec_resolved(
                    haystack@,
                    base,
                    addrs@[i],
                ),
            Err(idx) => idx < entries@.len() && !entries@[idx as int].spec_found(haystack@)
                && forall|j: int| 0 <= j < idx ==> (#[trigger] entries@[j]).spec_found(haystack@),
        },
{
    let n = entries.len();
    let mut addrs: Vec<usize> = Vec::new();
    let mut i: usize = 0;
    while i < n
        invariant
            n == entries@.len(),
            i <= n,
            addrs@.len() == i,
            forall|k: int| 0 <= k < n ==> (#[trigger] entries@[k]).wf(),
            base + haystack@.len() <= usize::MAX,
            forall|k: int| 0 <= k < i ==> (#[trigger] entries@[k]).spec_found(haystack@),
            forall|k: int|
                0 <= k < i ==> (#[trigger] entries@[k]).spec_resolved(haystack@, base, addrs@[k]),
        decreases n - i,
    {
        match entries[i].resolve(haystack, base) {
            Some(addr) => {
                addrs.push(addr);
            },
            None => {
                return Err(i);
            },
        }
        i += 1;
    }
    Ok(addrs)
}

} // verus!
