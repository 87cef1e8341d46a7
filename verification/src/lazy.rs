//! Memoized registry construction: a cell that holds at most one constructed
//! registry and builds it on the first initialization attempt only. Every
//! later attempt leaves the stored registry untouched, so all callers observe
//! the one instance that the first successful construction produced. The cell
//! models the construct-at-most-once lifecycle as a value; wiring it into a
//! process-wide thread-safe slot is the embedding program's concern.

use vstd::prelude::*;

use crate::content_type::RegistryError;
use crate::registry::{built_from, paths_distinct, AssetDecl, Registry, UrlPolicy};

verus! {

/// A slot holding at most one constructed registry.
pub struct RegistryCell {
    slot: Option<Registry>,
}

impl RegistryCell {
    /// What the cell holds: nothing before the first successful
    /// initialization, afterwards the one constructed registry.
    pub closed spec fn spec_slot(self) -> Option<Registry> {
        self.slot
    }

    /// A held registry is a well-formed one.
    pub open spec fn wf(self) -> bool {
        match self.spec_slot() {
            Some(reg) => reg.wf(),
            None => true,
        }
    }

    /// Creates an empty cell: no registry has been constructed yet.
    pub fn new() -> (r: Self)
        ensures
            r.spec_slot() is None,
            r.wf(),
    {
        RegistryCell { slot: None }
    }

    /// Returns whether a registry has been constructed and stored.
    pub fn is_initialized(&self) -> (b: bool)
        ensures
            b == (self.spec_slot() is Some),
    {
        self.slot.is_some()
    }

    /// Constructs the registry from `decls` under `policy` if none is held
    /// yet; if one is already held, leaves it exactly as it is and reports
    /// success without rebuilding anything. Construction happens at most once
    /// per cell, and a failed construction (a duplicate declared path) leaves
    /// the cell empty: no partially constructed registry is ever observable.
    pub fn initialize(&mut self, decls: Vec<AssetDecl>, policy: UrlPolicy) -> (r: Result<
        (),
        RegistryError,
    >)
        requires
            old(self).wf(),
        ensures
            final(self).wf(),
            old(self).spec_slot() is Some ==> r is Ok && final(self).spec_slot() == old(
                self,
            ).spec_slot(),
            old(self).spec_slot() is None ==> {
                &&& r is Ok <==> paths_distinct(decls@)
                &&& r is Ok ==> final(self).spec_slot() is Some && built_from(
                    final(self).spec_slot().unwrap(),
                    decls@,
                    policy,
                )
                &&& r is Err ==> final(self).spec_slot() is None && r == Err::<
                    (),
                    RegistryError,
                >(RegistryError::DuplicatePath)
            },
    {
        if self.slot.is_some() {
            return Ok(());
        }
        match Registry::build(decls, policy) {
            Ok(reg) => {
                self.slot = Some(reg);
                Ok(())
            },
            Err(e) => Err(e),
        }
    }

    /// Returns the held registry, or `None` when no initialization has
    /// succeeded yet. All callers see the same instance.
    pub fn registry(&self) -> (r: Option<&Registry>)
        ensures
            match r {
                Some(reg) => self.spec_slot() is Some && *reg == self.spec_slot().unwrap(),
                None => self.spec_slot() is None,
            },
    {
        self.slot.as_ref()
    }
}

} // verus!
