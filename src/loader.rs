//! The loader, which merges the catalog contributions of declaration files one by one.
use vstd::prelude::*;

use crate::builtins::Builtins;
use crate::converter::{convert_to_builtins, value_converted, values_converted};
use crate::error::{ErrorView, ExtensionError};
use crate::types::ExtensionDefinition;
use crate::validator::{lemma_well_named_passes, validation_outcome, well_named};

verus! {

/// `after` is `before` with the entries for `definition`'s symbols appended to its globals,
/// in order, and its type entries unchanged.
pub open spec fn loaded(before: Builtins, after: Builtins, definition: ExtensionDefinition) -> bool {
    let n = before.global@.len() as int;
    &&& after.global@.len() == n + definition.symbols@.len()
    &&& after.global@.subrange(0, n) == before.global@
    &&& values_converted(definition.symbols@, after.global@.subrange(n, after.global@.len() as int))
    &&& after.types@ == before.types@
}

/// Owns the catalog of one load session and merges into it the contribution of each
/// declaration file, in the order in which the files come.
pub struct ExtensionLoader {
    builtins: Builtins,
}

impl ExtensionLoader {
    /// The catalog merged so far.
    pub closed spec fn catalog(&self) -> Builtins {
        self.builtins
    }

    /// A loader whose catalog is empty.
    pub fn new() -> (r: ExtensionLoader)
        ensures
            r.catalog().global@.len() == 0,
            r.catalog().types@.len() == 0,
    {
        ExtensionLoader { builtins: Builtins::new() }
    }

    /// Takes the outcome of parsing one file. A definition is converted and its entries
    /// are appended to the catalog; a failure is handed back and leaves the catalog as it
    /// was.
    pub fn load_extension_file(&mut self, parsed: Result<ExtensionDefinition, ExtensionError>) -> (r:
        Result<(), ExtensionError>)
        ensures
            match parsed {
                Ok(definition) => r is Ok && loaded(
                    old(self).catalog(),
                    final(self).catalog(),
                    definition,
                ),
                Err(e) => r == Err::<(), ExtensionError>(e) && final(self).catalog() == old(
                    self,
                ).catalog(),
            },
    {
        let definition = match parsed {
            Ok(d) => d,
            Err(e) => return Err(e),
        };
        let extension_builtins = match convert_to_builtins(&definition) {
            Ok(b) => b,
            Err(e) => return Err(e),
        };
        let ghost added = extension_builtins.global@;
        let ghost before = self.builtins.global@;
        self.merge_builtins(extension_builtins);
        assert(self.builtins.global@.subrange(0, before.len() as int) =~= before);
        assert(self.builtins.global@.subrange(
            before.len() as int,
            self.builtins.global@.len() as int,
        ) =~= added);
        assert(self.builtins.types@ =~= old(self).builtins.types@);
        Ok(())
    }

    /// Hands over the catalog merged so far.
    pub fn into_builtins(self) -> (r: Result<Builtins, ExtensionError>)
        ensures
            r == Ok::<Builtins, ExtensionError>(self.catalog()),
    {
        Ok(self.builtins)
    }

    fn merge_builtins(&mut self, other: Builtins)
        ensures
            final(self).catalog().global@ == old(self).catalog().global@ + other.global@,
            final(self).catalog().types@ == old(self).catalog().types@ + other.types@,
    {
        self.builtins.merge(other);
    }
}

impl Default for ExtensionLoader {
    fn default() -> (r: ExtensionLoader)
        ensures
            r.catalog().global@.len() == 0,
            r.catalog().types@.len() == 0,
    {
        ExtensionLoader::new()
    }
}

/// Loading into an empty catalog a definition whose names are non-empty once trimmed,
/// identifiers and pairwise distinct: the definition passes validation, and the catalog
/// then holds exactly one entry per symbol, in order, each carrying the symbol's name,
/// type tag, documentation and signature unchanged.
pub proof fn lemma_well_named_definition_loads(
    definition: ExtensionDefinition,
    before: Builtins,
    after: Builtins,
)
    requires
        well_named(definition.symbols@),
        before.global@.len() == 0,
        loaded(before, after, definition),
    ensures
        validation_outcome(definition.symbols@) == Ok::<(), ErrorView>(()),
        after.global@.len() == definition.symbols@.len(),
        values_converted(definition.symbols@, after.global@),
{
    lemma_well_named_passes(definition.symbols@);
    assert(after.global@.subrange(0, after.global@.len() as int) =~= after.global@);
}

/// Loading two definitions in turn into an empty catalog gives the entries of the first
/// and then those of the second, each in its own order, so that the count of entries is the
/// sum of the two counts. A name that both definitions carry is not rejected.
pub proof fn lemma_two_files_concatenate(
    start: Builtins,
    middle: Builtins,
    end: Builtins,
    first: ExtensionDefinition,
    second: ExtensionDefinition,
)
    requires
        start.global@.len() == 0,
        loaded(start, middle, first),
        loaded(middle, end, second),
    ensures
        end.global@.len() == first.symbols@.len() + second.symbols@.len(),
        values_converted(first.symbols@ + second.symbols@, end.global@),
{
    let n = first.symbols@.len() as int;
    let symbols = first.symbols@ + second.symbols@;
    assert(middle.global@.subrange(0, n) =~= middle.global@);
    assert forall|i: int| 0 <= i < symbols.len() implies value_converted(
        symbols[i],
        #[trigger] end.global@[i],
    ) by {
        if i < n {
            assert(end.global@[i] == end.global@.subrange(0, n)[i]);
            assert(middle.global@[i] == middle.global@.subrange(0, n)[i]);
        } else {
            assert(end.global@[i] == end.global@.subrange(n, end.global@.len() as int)[i - n]);
        }
    }
}

} // verus!
