//! Offset-scanning device acquisition: locating the device heuristically when
//! no direct interface pointer is obtainable.
//!
//! A candidate is a pointer read at a fixed byte offset from a module's base.
//! It is accepted only if the pointer lies within the plausible user-mode
//! address range, its own first word (the vtable pointer) does too, and the
//! vtable's frame-present slot holds a plausible code address.  An address
//! the model does not hold a word for fails the corresponding check.  The
//! first offset that passes all checks wins; the scan does not keep searching
//! after a success.  Rejected candidates and unloaded modules are expected,
//! non-fatal conditions: the scan simply moves on, and exhausting every
//! offset of every candidate module ends the acquisition attempt.

use vstd::prelude::*;
use crate::process::{POINTER_SIZE, ProcessMemory};
use crate::hooks::PRESENT_SLOT;

verus! {

/// Lowest address a plausible user-mode pointer may take; everything below
/// falls in the host's null-pointer region.
pub const MIN_USER_ADDRESS: usize = 0x10000;

/// Highest address a plausible user-mode pointer may take on the targeted
/// 32-bit host.
pub const MAX_USER_ADDRESS: usize = 0x7FFF_FFFF;

/// A pointer that may be dereferenced during the scan: within the plausible
/// user-mode range.
pub open spec fn spec_plausible_pointer(p: usize) -> bool {
    MIN_USER_ADDRESS <= p <= MAX_USER_ADDRESS
}

/// A plausible code address for a vtable slot to hold: nonzero and above the
/// null-pointer region.
pub open spec fn spec_plausible_code(p: usize) -> bool {
    p >= MIN_USER_ADDRESS
}

/// The outcome of checking one candidate offset against the modelled words:
/// the accepted device pointer, or `None` when any structural check fails.
pub open spec fn spec_validate_candidate(
    words: Map<usize, usize>,
    base: usize,
    offset: usize,
) -> Option<usize> {
    let slot = (base + offset) as usize;
    if !words.contains_key(slot) {
        None
    } else {
        let device = words[slot];
        if !spec_plausible_pointer(device) {
            None
        } else if !words.contains_key(device) {
            None
        } else {
            let vt = words[device];
            if !spec_plausible_pointer(vt) {
                None
            } else {
                let present_slot = (vt + PRESENT_SLOT * POINTER_SIZE) as usize;
                if !words.contains_key(present_slot) {
                    None
                } else if spec_plausible_code(words[present_slot]) {
                    Some(device)
                } else {
                    None
                }
            }
        }
    }
}

/// Checks the candidate pointer stored `offset` bytes past `base`, as
/// [`spec_validate_candidate`] describes.
pub fn validate_candidate(mem: &ProcessMemory, base: usize, offset: usize) -> (r: Option<usize>)
    requires
        base + offset <= usize::MAX,
    ensures
        r == spec_validate_candidate(mem.words(), base, offset),
{
    let slot = base + offset;
    let device = match mem.read_word(slot) {
        Some(v) => v,
        None => {
            return None;
        },
    };
    if !(MIN_USER_ADDRESS <= device && device <= MAX_USER_ADDRESS) {
        return None;
    }
    let vt = match mem.read_word(device) {
        Some(v) => v,
        None => {
            return None;
        },
    };
    if !(MIN_USER_ADDRESS <= vt && vt <= MAX_USER_ADDRESS) {
        return None;
    }
    let present_slot = vt + PRESENT_SLOT * POINTER_SIZE;
    let present = match mem.read_word(present_slot) {
        Some(v) => v,
        None => {
            return None;
        },
    };
    if present >= MIN_USER_ADDRESS {
        Some(device)
    } else {
        None
    }
}

/// The first offset in order whose candidate passes every check, as a device
/// pointer; `None` when all offsets fail.
pub open spec fn spec_scan_offsets(
    words: Map<usize, usize>,
    base: usize,
    offsets: Seq<usize>,
) -> Option<usize>
    decreases offsets.len(),
{
    if offsets.len() == 0 {
        None
    } else {
        match spec_validate_candidate(words, base, offsets[0]) {
            Some(device) => Some(device),
            None => spec_scan_offsets(words, base, offsets.skip(1)),
        }
    }
}

/// Scans the configured offsets from one module base in order and returns the
/// first accepted candidate.
pub fn scan_offsets(mem: &ProcessMemory, base: usize, offsets: &Vec<usize>) -> (r: Option<usize>)
    requires
        forall|i: int| 0 <= i < offsets@.len() ==> base + #[trigger] offsets@[i] <= usize::MAX,
    ensures
        r == spec_scan_offsets(mem.words(), base, offsets@),
{
    let n = offsets.len();
    let mut i: usize = 0;
    proof {
        assert(offsets@.skip(0) =~= offsets@);
    }
    while i < n
        invariant
            n == offsets@.len(),
            i <= n,
            forall|k: int| 0 <= k < n ==> base + #[trigger] offsets@[k] <= usize::MAX,
            spec_scan_offsets(mem.words(), base, offsets@) == spec_scan_offsets(
                mem.words(),
                base,
                offsets@.skip(i as int),
            ),
        decreases n - i,
    {
        let r = validate_candidate(mem, base, offsets[i]);
        proof {
            assert(offsets@.skip(i as int)[0] == offsets@[i as int]);
            assert(offsets@.skip(i as int).skip(1) =~= offsets@.skip(i as int + 1));
        }
        if let Some(device) = r {
            return Some(device);
        }
        i += 1;
    }
    None
}

/// The first accepted candidate across the candidate modules in order:
/// unloaded modules (no base) are skipped, and within each loaded module the
/// offsets are tried in order.
pub open spec fn spec_acquire_device(
    words: Map<usize, usize>,
    bases: Seq<Option<usize>>,
    offsets: Seq<usize>,
) -> Option<usize>
    decreases bases.len(),
{
    if bases.len() == 0 {
        None
    } else {
        let rest = spec_acquire_device(words, bases.skip(1), offsets);
        match bases[0] {
            None => rest,
            Some(base) => match spec_scan_offsets(words, base, offsets) {
                Some(device) => Some(device),
                None => rest,
            },
        }
    }
}

/// Runs the offset scan over the candidate modules' resolved bases, `None`
/// standing for a module that is not loaded in this host configuration, and
/// returns the first accepted device pointer.
pub fn acquire_device(mem: &ProcessMemory, bases: &Vec<Option<usize>>, offsets: &Vec<usize>) -> (r:
    Option<usize>)
    requires
        forall|b: int, k: int|
            0 <= b < bases@.len() && 0 <= k < offsets@.len() && #[trigger] bases@[b] is Some
                ==> bases@[b]->0 + #[trigger] offsets@[k] <= usize::MAX,
    ensures
        r == spec_acquire_device(mem.words(), bases@, offsets@),
{
    let n = bases.len();
    let mut i: usize = 0;
    proof {
        assert(bases@.skip(0) =~= bases@);
    }
    while i < n
        invariant
            n == bases@.len(),
            i <= n,
            forall|b: int, k: int|
                0 <= b < n && 0 <= k < offsets@.len() && #[trigger] bases@[b] is Some ==> bases@[b]->0
                    + #[trigger] offsets@[k] <= usize::MAX,
            spec_acquire_device(mem.words(), bases@, offsets@) == spec_acquire_device(
                mem.words(),
                bases@.skip(i as int),
                offsets@,
            ),
        decreases n - i,
    {
        proof {
            assert(bases@.skip(i as int)[0] == bases@[i as int]);
            assert(bases@.skip(i as int).skip(1) =~= bases@.skip(i as int + 1));
        }
        if let Some(base) = bases[i] {
            if let Some(device) = scan_offsets(mem, base, offsets) {
                return Some(device);
            }
        }
        i += 1;
    }
    None
}

} // verus!
