//! Interface locator: classifying the resolution of a named engine interface
//! through a module's universal factory export.
//!
//! The embedder looks the module up in the host process, resolves the factory
//! export and invokes it with the interface's versioned name; the engine
//! classifies what came back.  A null result at any step is a fatal
//! configuration error for that interface — without an instance pointer no
//! further interaction is possible — not a retryable condition.

use vstd::prelude::*;

verus! {

/// How one attempt to resolve a named interface ended.
#[derive(Clone, Copy, Debug, PartialEq, Eq)]
pub enum InterfaceLookup {
    /// The module is not mapped into the host process.
    ModuleMissing,
    /// The module lacks the universal factory export.
    ExportMissing,
    /// The factory ran but returned a null pointer for the requested name.
    FactoryReturnedNull,
    /// The factory returned this instance pointer.
    Found(usize),
}

impl InterfaceLookup {
    /// The instance pointer to hand on: null on any failure.
    pub open spec fn spec_pointer(&self) -> usize {
        match *self {
            InterfaceLookup::Found(p) => p,
            _ => 0,
        }
    }

    /// The instance pointer to hand on: null on any failure.
    pub fn pointer(&self) -> (p: usize)
        ensures
            p == self.spec_pointer(),
    {
        match *self {
            InterfaceLookup::Found(p) => p,
            _ => 0,
        }
    }
}

/// Classifies one resolution attempt from what the embedder observed: whether
/// the module was mapped, whether its factory export resolved, and what the
/// factory returned (`0` when it was never invoked).
pub fn classify_interface_lookup(module_found: bool, export_found: bool, factory_result: usize) -> (
    r: InterfaceLookup)
    ensures
        !module_found ==> r == InterfaceLookup::ModuleMissing,
        module_found && !export_found ==> r == InterfaceLookup::ExportMissing,
        module_found && export_found && factory_result == 0 ==> r
            == InterfaceLookup::FactoryReturnedNull,
        module_found && export_found && factory_result != 0 ==> r == InterfaceLookup::Found(
            factory_result,
        ),
        r.spec_pointer() == (if module_found && export_found {
            factory_result
        } else {
            0
        }),
{
    if !module_found {
        InterfaceLookup::ModuleMissing
    } else if !export_found {
        InterfaceLookup::ExportMissing
    } else if factory_result == 0 {
        InterfaceLookup::FactoryReturnedNull
    } else {
        InterfaceLookup::Found(factory_result)
    }
}

} // verus!
