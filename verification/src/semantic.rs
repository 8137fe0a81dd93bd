//! The semantic model: which declaration each reference of the analyzed
//! file resolves to. The model is handed to the rules ready made; nothing
//! here builds it.

use crate::search::{first, first_from};
use crate::text::{str_eq, TextRange};
use vstd::prelude::*;

verus! {

/// What a name was declared as.
#[derive(Debug)]
pub enum Declaration {
    /// The default import or the namespace import of the module `source`:
    /// `import React from "react"`, `import * as React from "react"`.
    ModuleImport { source: String },
    /// A named import from the module `source`; `imported` is the name under
    /// which the module exports it, whatever it is called in this file:
    /// `import { createElement as h } from "react"`.
    NamedImport { source: String, imported: String },
    /// Any declaration of the file itself: a function, a variable, a
    /// parameter, a class.
    Local,
}

/// The resolution of one reference.
#[derive(Debug)]
pub struct Binding {
    /// The range of the reference in the source, which identifies it.
    pub reference: TextRange,
    pub declaration: Declaration,
}

/// The resolved references of one file. A reference that the model does not
/// list is unresolved: it names a global.
#[derive(Debug)]
pub struct SemanticModel {
    pub bindings: Vec<Binding>,
}

/// The property of resolving the reference at `reference`.
pub open spec fn resolves(reference: TextRange) -> spec_fn(Binding) -> bool {
    |binding: Binding| binding.reference == reference
}

impl Declaration {
    /// Whether the name was imported, in any form, from the module `source`.
    pub open spec fn spec_is_import_from(&self, source: Seq<char>) -> bool {
        match self {
            Declaration::ModuleImport { source: from } => from@ == source,
            Declaration::NamedImport { source: from, .. } => from@ == source,
            Declaration::Local => false,
        }
    }

    /// Whether the name is the named import of `name` from the module
    /// `source`.
    pub open spec fn spec_is_named_import(&self, source: Seq<char>, name: Seq<char>) -> bool {
        self matches Declaration::NamedImport { source: from, imported } && from@ == source
            && imported@ == name
    }

    pub fn is_import_from(&self, source: &str) -> (imported: bool)
        ensures
            imported == self.spec_is_import_from(source@),
    {
        match self {
            Declaration::ModuleImport { source: from } => str_eq(from.as_str(), source),
            Declaration::NamedImport { source: from, .. } => str_eq(from.as_str(), source),
            Declaration::Local => false,
        }
    }

    pub fn is_named_import(&self, source: &str, name: &str) -> (imported: bool)
        ensures
            imported == self.spec_is_named_import(source@, name@),
    {
        match self {
            Declaration::NamedImport { source: from, imported } => str_eq(from.as_str(), source)
                && str_eq(imported.as_str(), name),
            _ => false,
        }
    }
}

impl SemanticModel {
    /// The declaration that the reference at `reference` resolves to: that
    /// of the first binding listed for it; none where the reference is
    /// unresolved.
    pub open spec fn spec_binding(&self, reference: TextRange) -> Option<Declaration> {
        match first(self.bindings@, resolves(reference)) {
            Some(i) => Some(self.bindings@[i].declaration),
            None => None,
        }
    }

    pub fn binding(&self, reference: TextRange) -> (found: Option<&Declaration>)
        ensures
            match found {
                Some(declaration) => self.spec_binding(reference) == Some(*declaration),
                None => self.spec_binding(reference) is None,
            },
    {
        let ghost wanted = resolves(reference);
        let mut i: usize = 0;
        while i < self.bindings.len()
            invariant
                i <= self.bindings.len(),
                wanted == resolves(reference),
                first(self.bindings@, wanted) == first_from(self.bindings@, wanted, i as int),
            decreases self.bindings.len() - i,
        {
            if self.bindings[i].reference == reference {
                return Some(&self.bindings[i].declaration);
            }
            i += 1;
        }
        None
    }
}

} // verus!
