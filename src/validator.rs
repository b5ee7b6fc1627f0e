//! The naming rules that every symbol of a declaration file must meet.
use vstd::prelude::*;

use crate::error::{outcome_view, ErrorView, ExtensionError};
use crate::types::{ExtensionDefinition, ExtensionSymbol};

verus! {

/// What `str::trim` makes of a text: the text without its leading and trailing white space.
pub uninterp spec fn trimmed(s: Seq<char>) -> Seq<char>;

/// Relies on `str::trim`, which returns the text without leading and trailing white space;
/// the result depends on the text alone.
#[verifier::external_body]
fn trim_text(s: &str) -> (r: &str)
    ensures
        r@ == trimmed(s@),
{
    s.trim()
}

/// Whether `c` may start an identifier: an ASCII letter or an underscore.
pub open spec fn is_identifier_start(c: char) -> bool {
    ('a' <= c && c <= 'z') || ('A' <= c && c <= 'Z') || c == '_'
}

/// Whether `c` may follow the first character of an identifier: an ASCII letter, an
/// ASCII digit or an underscore.
pub open spec fn is_identifier_char(c: char) -> bool {
    is_identifier_start(c) || ('0' <= c && c <= '9')
}

/// A non-empty text that starts with a letter or an underscore and goes on with letters,
/// digits and underscores.
pub open spec fn valid_identifier(s: Seq<char>) -> bool {
    &&& s.len() > 0
    &&& is_identifier_start(s[0])
    &&& forall|i: int| 1 <= i < s.len() ==> is_identifier_char(#[trigger] s[i])
}

/// The failure that a symbol's name alone gives rise to, if any: an empty name first, then
/// one that is no identifier.
pub open spec fn name_failure(name: Seq<char>) -> Option<ErrorView> {
    if trimmed(name).len() == 0 {
        Some(ErrorView::ValidationError { message: "Symbol name cannot be empty"@ })
    } else if !valid_identifier(name) {
        Some(ErrorView::ValidationError { message: "Invalid symbol name: '"@ + name + "'"@ })
    } else {
        None
    }
}

/// Whether the symbol at index `i` carries a name that an earlier symbol carries already.
pub open spec fn repeats_earlier(symbols: Seq<ExtensionSymbol>, i: int) -> bool {
    exists|j: int| 0 <= j < i && (#[trigger] symbols[j]).name@ == symbols[i].name@
}

/// The failure that the symbol at index `i` gives rise to, if any: its name's own failure,
/// else a name that repeats an earlier one.
pub open spec fn symbol_failure(symbols: Seq<ExtensionSymbol>, i: int) -> Option<ErrorView> {
    match name_failure(symbols[i].name@) {
        Some(e) => Some(e),
        None => if repeats_earlier(symbols, i) {
            Some(ErrorView::DuplicateSymbol { symbol: symbols[i].name@ })
        } else {
            None
        },
    }
}

/// The first failure among the first `n` symbols, in their order.
pub open spec fn first_failure(symbols: Seq<ExtensionSymbol>, n: int) -> Option<ErrorView>
    decreases n,
{
    if n <= 0 {
        None
    } else {
        match first_failure(symbols, n - 1) {
            Some(e) => Some(e),
            None => symbol_failure(symbols, n - 1),
        }
    }
}

/// What checking a whole sequence of symbols comes to.
pub open spec fn validation_outcome(symbols: Seq<ExtensionSymbol>) -> Result<(), ErrorView> {
    match first_failure(symbols, symbols.len() as int) {
        None => Ok(()),
        Some(e) => Err(e),
    }
}

/// Once a failure is among the first `m` symbols, it stays the first failure of every
/// longer prefix.
proof fn lemma_first_failure_stays(symbols: Seq<ExtensionSymbol>, m: int, n: int)
    requires
        m <= n,
        first_failure(symbols, m) is Some,
    ensures
        first_failure(symbols, n) == first_failure(symbols, m),
    decreases n - m,
{
    if m < n {
        lemma_first_failure_stays(symbols, m, n - 1);
    }
}

/// Every name is non-empty once trimmed and an identifier, and no two symbols share one.
pub open spec fn well_named(symbols: Seq<ExtensionSymbol>) -> bool {
    &&& forall|i: int|
        0 <= i < symbols.len() ==> trimmed((#[trigger] symbols[i]).name@).len() > 0
            && valid_identifier(symbols[i].name@)
    &&& forall|i: int, j: int|
        0 <= i < j < symbols.len() ==> (#[trigger] symbols[i]).name@ != (#[trigger] symbols[j]).name@
}

proof fn lemma_no_failure_up_to(symbols: Seq<ExtensionSymbol>, n: int)
    requires
        well_named(symbols),
        0 <= n <= symbols.len(),
    ensures
        first_failure(symbols, n) is None,
    decreases n,
{
    if n > 0 {
        lemma_no_failure_up_to(symbols, n - 1);
        assert(symbols[n - 1] == symbols[n - 1]);
        if repeats_earlier(symbols, n - 1) {
            let j = choose|j: int| 0 <= j < n - 1 && (#[trigger] symbols[j]).name@ == symbols[n - 1].name@;
            assert(symbols[j].name@ != symbols[n - 1].name@);
        }
    }
}

/// A definition whose names are all non-empty once trimmed, identifiers, and pairwise
/// distinct passes validation.
pub proof fn lemma_well_named_passes(symbols: Seq<ExtensionSymbol>)
    requires
        well_named(symbols),
    ensures
        validation_outcome(symbols) == Ok::<(), ErrorView>(()),
{
    lemma_no_failure_up_to(symbols, symbols.len() as int);
}

proof fn lemma_only_one_repeated_value(symbols: Seq<ExtensionSymbol>, v: Seq<char>, n: int)
    requires
        0 <= n <= symbols.len(),
        forall|k: int| 0 <= k < symbols.len() ==> name_failure((#[trigger] symbols[k]).name@) is None,
        forall|a: int, b: int|
            0 <= a < b < symbols.len() && (#[trigger] symbols[a]).name@ == (#[trigger] symbols[b]).name@
                ==> symbols[a].name@ == v,
    ensures
        first_failure(symbols, n) is None || first_failure(symbols, n) == Some(
            ErrorView::DuplicateSymbol { symbol: v },
        ),
    decreases n,
{
    if n > 0 {
        lemma_only_one_repeated_value(symbols, v, n - 1);
        assert(name_failure(symbols[n - 1].name@) is None);
        if repeats_earlier(symbols, n - 1) {
            let j = choose|j: int| 0 <= j < n - 1 && (#[trigger] symbols[j]).name@ == symbols[n - 1].name@;
            assert(symbols[j].name@ == v);
        }
    }
}

/// In a definition whose names each pass the naming rules and in which `v` is the only
/// name carried by more than one symbol, validation fails with a duplicate-symbol failure
/// that names `v`. Validation touches no catalog, so the file contributes nothing to one.
pub proof fn lemma_repeated_name_rejected(symbols: Seq<ExtensionSymbol>, i: int, j: int, v: Seq<char>)
    requires
        0 <= i < j < symbols.len(),
        symbols[i].name@ == v,
        symbols[j].name@ == v,
        forall|k: int| 0 <= k < symbols.len() ==> name_failure((#[trigger] symbols[k]).name@) is None,
        forall|a: int, b: int|
            0 <= a < b < symbols.len() && (#[trigger] symbols[a]).name@ == (#[trigger] symbols[b]).name@
                ==> symbols[a].name@ == v,
    ensures
        validation_outcome(symbols) == Err::<(), ErrorView>(ErrorView::DuplicateSymbol { symbol: v }),
{
    lemma_only_one_repeated_value(symbols, v, j);
    assert(name_failure(symbols[j].name@) is None);
    assert(symbols[i] == symbols[i]);
    assert(repeats_earlier(symbols, j));
    assert(first_failure(symbols, j + 1) == Some(ErrorView::DuplicateSymbol { symbol: v }));
    lemma_first_failure_stays(symbols, j + 1, symbols.len() as int);
}

/// A name that is empty once trimmed, starts with a digit, or holds a character other
/// than an ASCII letter, an ASCII digit or an underscore.
pub open spec fn malformed_name(name: Seq<char>) -> bool {
    ||| trimmed(name).len() == 0
    ||| (name.len() > 0 && '0' <= name[0] && name[0] <= '9')
    ||| exists|k: int| 0 <= k < name.len() && !is_identifier_char(#[trigger] name[k])
}

/// A malformed name fails the naming rules with a validation failure.
pub proof fn lemma_malformed_name_rejected(name: Seq<char>)
    requires
        malformed_name(name),
    ensures
        name_failure(name) matches Some(ErrorView::ValidationError { .. }),
{
    if trimmed(name).len() != 0 && valid_identifier(name) {
        if exists|k: int| 0 <= k < name.len() && !is_identifier_char(#[trigger] name[k]) {
            let k = choose|k: int| 0 <= k < name.len() && !is_identifier_char(#[trigger] name[k]);
            assert(k == 0 ==> is_identifier_start(name[k]));
        }
    }
}

/// A definition in which some symbol has a malformed name fails validation.
pub proof fn lemma_malformed_symbol_fails(symbols: Seq<ExtensionSymbol>, i: int)
    requires
        0 <= i < symbols.len(),
        malformed_name(symbols[i].name@),
    ensures
        validation_outcome(symbols) is Err,
{
    lemma_malformed_name_rejected(symbols[i].name@);
    if first_failure(symbols, i) is Some {
        lemma_first_failure_stays(symbols, i, symbols.len() as int);
    } else {
        lemma_first_failure_stays(symbols, i + 1, symbols.len() as int);
    }
}

/// Whether `name` is an identifier: an ASCII letter or underscore, followed by ASCII
/// letters, digits and underscores.
pub fn is_valid_identifier(name: &str) -> (r: bool)
    ensures
        r == valid_identifier(name@),
{
    let n = name.unicode_len();
    if n == 0 {
        return false;
    }
    let first = name.get_char(0);
    if !(('a' <= first && first <= 'z') || ('A' <= first && first <= 'Z') || first == '_') {
        return false;
    }
    let mut i: usize = 1;
    while i < n
        invariant
            n == name@.len(),
            1 <= i <= n,
            forall|k: int| 1 <= k < i ==> is_identifier_char(#[trigger] name@[k]),
        decreases n - i,
    {
        let c = name.get_char(i);
        if !(('a' <= c && c <= 'z') || ('A' <= c && c <= 'Z') || ('0' <= c && c <= '9') || c
            == '_') {
            return false;
        }
        i = i + 1;
    }
    true
}

/// Checks one symbol's name: it must not be empty once trimmed, and it must be an
/// identifier.
pub fn validate_symbol(symbol: &ExtensionSymbol) -> (r: Result<(), ExtensionError>)
    ensures
        outcome_view(r) == match name_failure(symbol.name@) {
            None => Ok(()),
            Some(e) => Err(e),
        },
{
    if trim_text(symbol.name.as_str()).is_empty() {
        return Err(ExtensionError::ValidationError {
            message: String::from_str("Symbol name cannot be empty"),
        });
    }
    if !is_valid_identifier(symbol.name.as_str()) {
        let mut message = String::from_str("Invalid symbol name: '");
        message.append(symbol.name.as_str());
        message.append("'");
        return Err(ExtensionError::ValidationError { message });
    }
    Ok(())
}

/// Checks every symbol of a definition in order and stops at the first failure: for each
/// symbol, an empty name, then a name that is no identifier, then a name that an earlier
/// symbol of the same definition carries.
pub fn validate_extension_definition(definition: &ExtensionDefinition) -> (r: Result<
    (),
    ExtensionError,
>)
    ensures
        outcome_view(r) == validation_outcome(definition.symbols@),
{
    let symbols = &definition.symbols;
    let n = symbols.len();
    let mut i: usize = 0;
    while i < n
        invariant
            symbols == &definition.symbols,
            n == symbols@.len(),
            0 <= i <= n,
            first_failure(symbols@, i as int) == None::<ErrorView>,
        decreases n - i,
    {
        let symbol = &symbols[i];
        match validate_symbol(symbol) {
            Ok(()) => {},
            Err(e) => {
                proof {
                    assert(symbol_failure(symbols@, i as int) == Some(e@));
                    assert(first_failure(symbols@, i + 1) == Some(e@));
                    lemma_first_failure_stays(symbols@, i + 1, n as int);
                }
                return Err(e);
            },
        }
        let mut j: usize = 0;
        while j < i
            invariant
                symbols == &definition.symbols,
                0 <= j <= i < n,
                n == symbols@.len(),
                symbol == symbols@[i as int],
                first_failure(symbols@, i as int) == None::<ErrorView>,
                name_failure(symbol.name@) == None::<ErrorView>,
                forall|k: int| 0 <= k < j ==> symbols@[k].name@ != symbols@[i as int].name@,
            decreases i - j,
        {
            if symbols[j].name == symbol.name {
                proof {
                    assert(repeats_earlier(symbols@, i as int));
                    assert(first_failure(symbols@, i + 1) == Some(
                        ErrorView::DuplicateSymbol { symbol: symbol.name@ },
                    ));
                    lemma_first_failure_stays(symbols@, i + 1, n as int);
                }
                return Err(ExtensionError::DuplicateSymbol { symbol: symbol.name.clone() });
            }
            j = j + 1;
        }
        assert(!repeats_earlier(symbols@, i as int));
        i = i + 1;
    }
    Ok(())
}

} // verus!
