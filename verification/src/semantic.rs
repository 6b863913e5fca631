//! What is known of the names in a tree: which declaration a reference
//! resolves to.

use std::collections::HashMap;
use vstd::prelude::*;

verus! {

broadcast use vstd::std_specs::hash::group_hash_axioms;

/// The bindings of one snapshot of a tree: for each reference that resolves,
/// the node that declares the name. A reference that is not bound denotes a
/// global.
pub struct SemanticModel {
    declarations: HashMap<usize, usize>,
}

impl View for SemanticModel {
    type V = Map<usize, usize>;

    closed spec fn view(&self) -> Map<usize, usize> {
        self.declarations@
    }
}

impl SemanticModel {
    /// The declaration that `reference` resolves to, if it resolves.
    pub open spec fn spec_binding(&self, reference: usize) -> Option<usize> {
        if self@.dom().contains(reference) {
            Some(self@[reference])
        } else {
            None
        }
    }

    /// A model in which no reference resolves.
    pub fn new() -> (model: SemanticModel)
        ensures
            model@ == Map::<usize, usize>::empty(),
    {
        SemanticModel { declarations: HashMap::new() }
    }

    /// Records that `reference` resolves to `declaration`.
    pub fn bind(&mut self, reference: usize, declaration: usize)
        ensures
            final(self)@ == old(self)@.insert(reference, declaration),
    {
        self.declarations.insert(reference, declaration);
    }

    /// The declaration that `reference` resolves to; none for a reference
    /// that is free in the tree.
    pub fn binding(&self, reference: usize) -> (declaration: Option<usize>)
        ensures
            declaration == self.spec_binding(reference),
    {
        match self.declarations.get(&reference) {
            Some(declaration) => Some(*declaration),
            None => None,
        }
    }
}

} // verus!
