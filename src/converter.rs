//! Conversion of decoded declarations into catalog entries.
use vstd::prelude::*;

use crate::builtins::{APIContext, Builtins, Callable, Param, Value};
use crate::error::ExtensionError;
use crate::types::{ExtensionCallable, ExtensionDefinition, ExtensionParam, ExtensionSymbol};

verus! {

/// The context stamped on every entry that a declaration file contributes.
pub open spec fn extension_context() -> APIContext {
    APIContext::Bzl
}

/// The catalog parameter for a declared parameter: the same fields.
pub open spec fn param_of(p: ExtensionParam) -> Param {
    Param {
        name: p.name,
        type_tag: p.type_tag,
        doc: p.doc,
        default_value: p.default_value,
        is_mandatory: p.is_mandatory,
        is_star_arg: p.is_star_arg,
        is_star_star_arg: p.is_star_star_arg,
    }
}

/// `k` is the catalog signature for `c`: each parameter copied, in order, and the same
/// return type.
pub open spec fn callable_converted(c: ExtensionCallable, k: Callable) -> bool {
    &&& k.param@ == c.params@.map_values(|p: ExtensionParam| param_of(p))
    &&& k.return_type == c.return_type
}

/// `v` is the catalog entry for `s`: name, type tag and documentation copied, a signature
/// exactly when `s` has one, and the fixed context.
pub open spec fn value_converted(s: ExtensionSymbol, v: Value) -> bool {
    &&& v.name == s.name
    &&& v.type_tag == s.type_tag
    &&& v.doc == s.doc
    &&& v.api_context == extension_context()
    &&& match s.callable {
        None => v.callable is None,
        Some(c) => v.callable is Some && callable_converted(c, v.callable->Some_0),
    }
}

/// `values` holds the catalog entry for each of `symbols`, in the same order.
pub open spec fn values_converted(symbols: Seq<ExtensionSymbol>, values: Seq<Value>) -> bool {
    &&& values.len() == symbols.len()
    &&& forall|i: int| 0 <= i < symbols.len() ==> value_converted(symbols[i], #[trigger] values[i])
}

/// Copies a declared parameter into the catalog's shape.
pub fn convert_param(param: &ExtensionParam) -> (r: Param)
    ensures
        r == param_of(*param),
{
    Param {
        name: param.name.clone(),
        type_tag: param.type_tag.clone(),
        doc: param.doc.clone(),
        default_value: param.default_value.clone(),
        is_mandatory: param.is_mandatory,
        is_star_arg: param.is_star_arg,
        is_star_star_arg: param.is_star_star_arg,
    }
}

/// Copies a declared signature into the catalog's shape, keeping the order of the
/// parameters.
pub fn convert_callable(callable: &ExtensionCallable) -> (r: Callable)
    ensures
        callable_converted(*callable, r),
{
    let params = &callable.params;
    let mut param: Vec<Param> = Vec::new();
    let mut i: usize = 0;
    while i < params.len()
        invariant
            params == &callable.params,
            i <= params@.len(),
            param@ == params@.subrange(0, i as int).map_values(|p: ExtensionParam| param_of(p)),
        decreases params@.len() - i,
    {
        param.push(convert_param(&params[i]));
        i = i + 1;
        assert(param@ =~= params@.subrange(0, i as int).map_values(
            |p: ExtensionParam| param_of(p),
        ));
    }
    assert(params@.subrange(0, i as int) =~= params@);
    Callable { param, return_type: callable.return_type.clone() }
}

/// Converts one declared symbol into a catalog entry.
pub fn convert_symbol_to_value(symbol: &ExtensionSymbol) -> (r: Value)
    ensures
        value_converted(*symbol, r),
{
    let callable = match &symbol.callable {
        Some(c) => Some(convert_callable(c)),
        None => None,
    };
    Value {
        name: symbol.name.clone(),
        type_tag: symbol.type_tag.clone(),
        doc: symbol.doc.clone(),
        callable,
        api_context: APIContext::Bzl,
    }
}

/// The catalog contribution of one definition: one global entry per symbol, in order, and
/// no type entries. Conversion copies fields and cannot fail.
pub fn convert_to_builtins(definition: &ExtensionDefinition) -> (r: Result<Builtins, ExtensionError>)
    ensures
        r matches Ok(b) && values_converted(definition.symbols@, b.global@) && b.types@.len() == 0,
{
    let symbols = &definition.symbols;
    let mut builtins = Builtins::new();
    let mut i: usize = 0;
    while i < symbols.len()
        invariant
            symbols == &definition.symbols,
            i <= symbols@.len(),
            builtins.types@.len() == 0,
            values_converted(symbols@.subrange(0, i as int), builtins.global@),
        decreases symbols@.len() - i,
    {
        let value = convert_symbol_to_value(&symbols[i]);
        builtins.global.push(value);
        i = i + 1;
    }
    assert(symbols@.subrange(0, i as int) =~= symbols@);
    Ok(builtins)
}

/// An entry converted from a symbol without a signature has none; one converted from a
/// symbol whose signature has no parameters has a signature with no parameters and the
/// symbol's return type.
pub proof fn lemma_converted_signature_shape(symbol: ExtensionSymbol, value: Value)
    requires
        value_converted(symbol, value),
    ensures
        symbol.callable is None ==> value.callable is None,
        symbol.callable is Some && symbol.callable->Some_0.params@.len() == 0 ==> (
        value.callable matches Some(k) && k.param@.len() == 0 && k.return_type
            == symbol.callable->Some_0.return_type),
{
}

} // verus!
