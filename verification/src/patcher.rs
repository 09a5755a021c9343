//! VTable patcher: swaps one table entry for an interceptor while the page is
//! briefly writable, and restores it on teardown.
//!
//! A patch is the bounded sequence the host requires: relax the page
//! protection, write the new pointer, put the old protection back.  The
//! contracts state that the entry's word is the only word that changes and
//! that the page leaves the sequence with the protection it entered with, so
//! a vtable slot is always either untouched or fully patched — there is no
//! third state.

use vstd::prelude::*;
use crate::process::ProcessMemory;

verus! {

/// The memory after patching the entry at `addr` to `new_fn`, paired with the
/// word the patch overwrote.
pub open spec fn spec_patch_entry(words: Map<usize, usize>, addr: usize, new_fn: usize) -> (
    Map<usize, usize>,
    usize,
) {
    (words.insert(addr, new_fn), words[addr])
}

/// Reads the current pointer stored at `addr`, rewrites the entry to `new_fn`
/// under temporarily relaxed page protection, and returns the overwritten
/// pointer.  The page's writability is exactly what it was before the call.
pub fn patch_entry(mem: &mut ProcessMemory, addr: usize, new_fn: usize) -> (original: usize)
    requires
        old(mem).tracked_at(addr),
    ensures
        (final(mem).words(), original) == spec_patch_entry(old(mem).words(), addr, new_fn),
        final(mem).writable() == old(mem).writable(),
{
    let previous_protection = mem.page_writable(addr);
    mem.set_page_writable(addr, true);
    let original = mem.read_tracked(addr);
    mem.write_word(addr, new_fn);
    mem.set_page_writable(addr, previous_protection);
    proof {
        assert(mem.writable() =~= old(mem).writable());
    }
    original
}

/// The inverse of [`patch_entry`]: writes the saved original pointer back
/// into the entry at `addr`.
pub fn restore_entry(mem: &mut ProcessMemory, addr: usize, original_fn: usize)
    requires
        old(mem).tracked_at(addr),
    ensures
        final(mem).words() == old(mem).words().insert(addr, original_fn),
        final(mem).writable() == old(mem).writable(),
{
    let _ = patch_entry(mem, addr, original_fn);
}

/// Restoring an entry with the pointer that patching it returned leaves the
/// table holding exactly the words it held before the patch.
pub proof fn lemma_patch_restore_round_trip(words: Map<usize, usize>, addr: usize, new_fn: usize)
    requires
        words.contains_key(addr),
    ensures
        ({
            let (patched, original) = spec_patch_entry(words, addr, new_fn);
            patched.insert(addr, original) == words
        }),
{
    let (patched, original) = spec_patch_entry(words, addr, new_fn);
    assert(patched.insert(addr, original) =~= words);
}

} // verus!
