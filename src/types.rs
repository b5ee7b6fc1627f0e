//! The contents of a declaration file, as decoded from its text.
use vstd::prelude::*;

verus! {

/// The decoded contents of one declaration file.
#[derive(Debug, Clone, PartialEq, Eq)]
pub struct ExtensionDefinition {
    /// The symbols that the file declares, in the order in which it declares them.
    pub symbols: Vec<ExtensionSymbol>,
}

/// One named declaration.
#[derive(Debug, Clone, PartialEq, Eq)]
pub struct ExtensionSymbol {
    /// The symbol's name; it must be an identifier.
    pub name: String,
    /// The declared type tag, such as "function", "string" or "object".
    pub type_tag: String,
    /// Documentation text; empty when the file gives none.
    pub doc: String,
    /// The signature, for a symbol that can be called.
    pub callable: Option<ExtensionCallable>,
}

/// The signature of a callable symbol.
#[derive(Debug, Clone, PartialEq, Eq)]
pub struct ExtensionCallable {
    /// The parameters, in positional order.
    pub params: Vec<ExtensionParam>,
    /// The type tag of the returned value.
    pub return_type: String,
}

/// One parameter of a callable symbol.
#[derive(Debug, Clone, PartialEq, Eq)]
pub struct ExtensionParam {
    /// The parameter's name.
    pub name: String,
    /// The parameter's type tag.
    pub type_tag: String,
    /// Documentation text; empty when the file gives none.
    pub doc: String,
    /// The default value as source text; empty when there is none.
    pub default_value: String,
    /// Whether a caller must pass this parameter.
    pub is_mandatory: bool,
    /// Whether this parameter collects extra positional arguments (`*args`).
    pub is_star_arg: bool,
    /// Whether this parameter collects extra keyword arguments (`**kwargs`).
    pub is_star_star_arg: bool,
}

} // verus!
