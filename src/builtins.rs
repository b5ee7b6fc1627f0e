//! The symbol catalog that a language server resolves names against.
use vstd::prelude::*;

verus! {

/// The language dialect or kind of file in which a catalog entry is visible.
#[derive(Debug, Clone, Copy, PartialEq, Eq)]
pub enum APIContext {
    /// `.bzl` files, and plain Starlark files, which fall back to them.
    Bzl,
    /// `BUILD` files.
    Build,
    /// `MODULE.bazel` files.
    Module,
    /// Repository rule files.
    Repo,
    /// `WORKSPACE` files.
    Workspace,
    /// Prelude files.
    Prelude,
}

/// One parameter of a catalog callable.
#[derive(Debug, Clone, PartialEq, Eq)]
pub struct Param {
    pub name: String,
    pub type_tag: String,
    pub doc: String,
    /// The default value as source text; empty when there is none.
    pub default_value: String,
    pub is_mandatory: bool,
    pub is_star_arg: bool,
    pub is_star_star_arg: bool,
}

/// The signature of a catalog entry that can be called.
#[derive(Debug, Clone, PartialEq, Eq)]
pub struct Callable {
    /// The parameters, in positional order.
    pub param: Vec<Param>,
    pub return_type: String,
}

/// One named entry of the catalog.
#[derive(Debug, Clone, PartialEq, Eq)]
pub struct Value {
    pub name: String,
    pub type_tag: String,
    pub doc: String,
    pub callable: Option<Callable>,
    /// Where the entry is visible.
    pub api_context: APIContext,
}

/// A named type of the catalog, with its fields.
#[derive(Debug, Clone, PartialEq, Eq)]
pub struct Type {
    pub name: String,
    pub field: Vec<Value>,
    pub doc: String,
}

/// The catalog: global entries and type entries, each in the order in which they came.
#[derive(Debug, Clone, PartialEq, Eq)]
pub struct Builtins {
    pub global: Vec<Value>,
    pub types: Vec<Type>,
}

impl Builtins {
    /// A catalog with no entries.
    pub fn new() -> (r: Builtins)
        ensures
            r.global@.len() == 0,
            r.types@.len() == 0,
    {
        Builtins { global: Vec::new(), types: Vec::new() }
    }

    /// Appends the entries of `other` after this catalog's own, keeping the order of both.
    pub fn merge(&mut self, other: Builtins)
        ensures
            final(self).global@ == old(self).global@ + other.global@,
            final(self).types@ == old(self).types@ + other.types@,
    {
        let mut other = other;
        self.types.append(&mut other.types);
        self.global.append(&mut other.global);
    }
}

impl Default for Builtins {
    fn default() -> (r: Builtins)
        ensures
            r.global@.len() == 0,
            r.types@.len() == 0,
    {
        Builtins::new()
    }
}

} // verus!
