//! A model of the host process's memory, as far as the engine reads and
//! rewrites it: a map from byte addresses to the machine words stored there,
//! and a map recording which of those words sit on a currently writable page.
//!
//! The engine targets a 32-bit host, so a stored pointer occupies
//! [`POINTER_SIZE`] bytes and a vtable slot at index `k` lies `k *
//! POINTER_SIZE` bytes past the table's base.  The embedding host mirrors
//! every word this model holds onto the real address space: it loads the
//! words the engine will inspect before calling in, and applies the model's
//! updated words back to the live vtables afterwards.

use vstd::prelude::*;
use std::collections::HashMap;

verus! {

/// Size in bytes of a stored pointer on the targeted host.
pub const POINTER_SIZE: usize = 4;

/// The words of the modelled address space, with per-word page writability.
pub struct ProcessMemory {
    words: HashMap<usize, usize>,
    writable: HashMap<usize, bool>,
}

impl ProcessMemory {
    /// The modelled words: address to stored machine word.
    pub closed spec fn words(&self) -> Map<usize, usize> {
        self.words@
    }

    /// Whether the page holding each modelled word is currently writable.
    pub closed spec fn writable(&self) -> Map<usize, bool> {
        self.writable@
    }

    /// A word is tracked when both its value and its page state are modelled.
    pub open spec fn tracked_at(&self, addr: usize) -> bool {
        self.words().contains_key(addr) && self.writable().contains_key(addr)
    }

    /// An empty model: no part of the address space is known.
    pub fn new() -> (m: Self)
        ensures
            m.words() == Map::<usize, usize>::empty(),
            m.writable() == Map::<usize, bool>::empty(),
    {
        ProcessMemory { words: HashMap::new(), writable: HashMap::new() }
    }

    /// Records one word of the host's address space in the model.
    pub fn track_word(&mut self, addr: usize, value: usize, writable: bool)
        ensures
            final(self).words() == old(self).words().insert(addr, value),
            final(self).writable() == old(self).writable().insert(addr, writable),
    {
        self.words.insert(addr, value);
        self.writable.insert(addr, writable);
    }

    /// Reads the word at `addr`, or `None` when that address is not modelled.
    pub fn read_word(&self, addr: usize) -> (r: Option<usize>)
        ensures
            r == if self.words().contains_key(addr) {
                Some(self.words()[addr])
            } else {
                None::<usize>
            },
    {
        match self.words.get(&addr) {
            Some(v) => Some(*v),
            None => None,
        }
    }

    /// Reads a word that is known to be modelled.
    pub fn read_tracked(&self, addr: usize) -> (r: usize)
        requires
            self.words().contains_key(addr),
        ensures
            r == self.words()[addr],
    {
        match self.words.get(&addr) {
            Some(v) => *v,
            None => vstd::pervasive::unreached(),
        }
    }

    /// Overwrites a modelled word.  Only the patching sequence calls this, and
    /// only between relaxing and restoring the page's protection.
    pub(crate) fn write_word(&mut self, addr: usize, value: usize)
        requires
            old(self).words().contains_key(addr),
            old(self).writable().contains_key(addr),
            old(self).writable()[addr],
        ensures
            final(self).words() == old(self).words().insert(addr, value),
            final(self).writable() == old(self).writable(),
    {
        self.words.insert(addr, value);
    }

    /// Whether the page holding the word at `addr` is currently writable.
    pub fn page_writable(&self, addr: usize) -> (r: bool)
        requires
            self.writable().contains_key(addr),
        ensures
            r == self.writable()[addr],
    {
        match self.writable.get(&addr) {
            Some(w) => *w,
            None => vstd::pervasive::unreached(),
        }
    }

    /// Changes the protection of the page holding the word at `addr`.  Models
    /// the host's protection-change call, which cannot fail on a valid code
    /// page; the embedder halts on any failure rather than continue with a
    /// half-patched table.
    pub(crate) fn set_page_writable(&mut self, addr: usize, writable: bool)
        requires
            old(self).writable().contains_key(addr),
        ensures
            final(self).words() == old(self).words(),
            final(self).writable() == old(self).writable().insert(addr, writable),
    {
        self.writable.insert(addr, writable);
    }
}

} // verus!
