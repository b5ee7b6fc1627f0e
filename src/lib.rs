//! Loading of declaration files into a symbol catalog for a Starlark language server.
//!
//! A declaration file is read and decoded into an [`ExtensionDefinition`]
//! ([`parse_extension_file`]), checked by the validator, converted into catalog entries
//! and merged, file by file, into one [`Builtins`] catalog owned by an [`ExtensionLoader`].
//! Reading files and decoding JSON text are left to the caller, which hands the library
//! their outcomes.
use vstd::prelude::*;

pub mod builtins;
pub mod converter;
pub mod error;
pub mod loader;
pub mod parser;
pub mod types;
pub mod validator;

pub use builtins::{APIContext, Builtins, Callable, Param, Type, Value};
pub use converter::convert_to_builtins;
pub use error::ExtensionError;
pub use loader::ExtensionLoader;
pub use parser::{parse_extension_file, parse_python_stub, source_format, SourceFormat};
pub use types::{ExtensionCallable, ExtensionDefinition, ExtensionParam, ExtensionSymbol};
pub use validator::{is_valid_identifier, validate_extension_definition, validate_symbol};

use converter::values_converted;
use error::outcome_view;
use validator::validation_outcome;

verus! {

/// Checks one parsed declaration file without loading it: a parse failure is handed back,
/// and a definition is validated. No catalog is touched.
pub fn validate_extension_file(parsed: Result<ExtensionDefinition, ExtensionError>) -> (r: Result<
    (),
    ExtensionError,
>)
    ensures
        match parsed {
            Ok(definition) => outcome_view(r) == validation_outcome(definition.symbols@),
            Err(e) => r == Err::<(), ExtensionError>(e),
        },
{
    let definition = match parsed {
        Ok(d) => d,
        Err(e) => return Err(e),
    };
    validate_extension_definition(&definition)
}

/// Checks one parsed stub file without loading it; stub files follow the same rules as
/// declaration files.
pub fn validate_stub_file(parsed: Result<ExtensionDefinition, ExtensionError>) -> (r: Result<
    (),
    ExtensionError,
>)
    ensures
        match parsed {
            Ok(definition) => outcome_view(r) == validation_outcome(definition.symbols@),
            Err(e) => r == Err::<(), ExtensionError>(e),
        },
{
    validate_extension_file(parsed)
}

/// Loads one parsed declaration file into a catalog of its own.
pub fn load_single_extension(parsed: Result<ExtensionDefinition, ExtensionError>) -> (r: Result<
    Builtins,
    ExtensionError,
>)
    ensures
        match parsed {
            Ok(definition) => r matches Ok(b) && values_converted(definition.symbols@, b.global@)
                && b.types@.len() == 0,
            Err(e) => r == Err::<Builtins, ExtensionError>(e),
        },
{
    let mut loader = ExtensionLoader::new();
    match loader.load_extension_file(parsed) {
        Ok(()) => {},
        Err(e) => return Err(e),
    }
    let r = loader.into_builtins();
    proof {
        let b = r->Ok_0;
        assert(b.global@.subrange(0, 0) =~= Seq::<Value>::empty());
        assert(b.global@.subrange(0, b.global@.len() as int) =~= b.global@);
    }
    r
}

} // verus!
