//! Turning what was read from a declaration file into a definition, by the file's
//! extension.
use vstd::prelude::*;

use crate::error::{ErrorView, ExtensionError};
use crate::types::ExtensionDefinition;

verus! {

/// The decoders that a file's extension can select.
#[derive(Debug, Clone, Copy, PartialEq, Eq)]
pub enum SourceFormat {
    /// `.json`: the declaration format.
    Json,
    /// `.py`: reserved for declarations written in the scripting language itself.
    Python,
}

/// The decoder that an extension selects, if any.
pub open spec fn format_of(extension: Seq<char>) -> Option<SourceFormat> {
    if extension == "json"@ {
        Some(SourceFormat::Json)
    } else if extension == "py"@ {
        Some(SourceFormat::Python)
    } else {
        None
    }
}

/// Whether two texts hold the same characters.
fn same_text(a: &str, b: &str) -> (r: bool)
    ensures
        r == (a@ == b@),
{
    let n = a.unicode_len();
    if n != b.unicode_len() {
        return false;
    }
    let mut i: usize = 0;
    while i < n
        invariant
            n == a@.len(),
            n == b@.len(),
            i <= n,
            forall|k: int| 0 <= k < i ==> a@[k] == b@[k],
        decreases n - i,
    {
        if a.get_char(i) != b.get_char(i) {
            return false;
        }
        i = i + 1;
    }
    assert(a@ =~= b@);
    true
}

/// The decoder that a file's extension selects.
pub fn source_format(extension: &str) -> (r: Option<SourceFormat>)
    ensures
        r == format_of(extension@),
{
    if same_text(extension, "json") {
        Some(SourceFormat::Json)
    } else if same_text(extension, "py") {
        Some(SourceFormat::Python)
    } else {
        None
    }
}

/// The decoder for declarations written in the scripting language itself. It is reserved
/// and reports every text as unsupported.
pub fn parse_python_stub(content: &str) -> (r: Result<ExtensionDefinition, ExtensionError>)
    ensures
        r matches Err(e) && e@ == (ErrorView::UnsupportedFormat { format: "py"@ }),
{
    Err(ExtensionError::UnsupportedFormat { format: String::from_str("py") })
}

/// `r` is what a JSON decoder's outcome `decoded` comes to for the file at `path`: the
/// definition itself, or a parse failure that names the file and carries the decoder's
/// message.
pub open spec fn decoded_as(
    path: Seq<char>,
    decoded: Result<ExtensionDefinition, String>,
    r: Result<ExtensionDefinition, ExtensionError>,
) -> bool {
    match decoded {
        Ok(d) => r == Ok::<ExtensionDefinition, ExtensionError>(d),
        Err(cause) => r matches Err(e) && e@ == (ErrorView::ParseError {
            path,
            source: cause@,
        }),
    }
}

/// Parses one declaration file from what reading it gave (`content`: its text, or a
/// description of the read failure) and from its extension. A read failure comes first;
/// then an extension other than `json` is unsupported, whatever the text holds; a JSON
/// text is handed to `decode_json`, whose failure becomes a parse failure for `path`.
pub fn parse_extension_file<F>(
    path: &str,
    extension: &str,
    content: Result<String, String>,
    decode_json: F,
) -> (r: Result<ExtensionDefinition, ExtensionError>) where
    F: FnOnce(String) -> Result<ExtensionDefinition, String>,

    requires
        forall|text: String| decode_json.requires((text,)),
    ensures
        content is Err ==> (r matches Err(e) && e@ == (ErrorView::FileReadError {
            path: path@,
            source: content->Err_0@,
        })),
        content is Ok && extension@ != "json"@ ==> (r matches Err(e) && e@
            == (ErrorView::UnsupportedFormat { format: extension@ })),
        content is Ok && extension@ == "json"@ ==> exists|
            decoded: Result<ExtensionDefinition, String>,
        |
            #![trigger decode_json.ensures((content->Ok_0,), decoded)]
            decode_json.ensures((content->Ok_0,), decoded) && decoded_as(path@, decoded, r),
{
    let text = match content {
        Ok(text) => text,
        Err(cause) => {
            return Err(
                ExtensionError::FileReadError { path: String::from_str(path), source: cause },
            );
        },
    };
    match source_format(extension) {
        Some(SourceFormat::Json) => {
            let ghost input = text;
            let decoded = decode_json(text);
            assert(decode_json.ensures((input,), decoded));
            match decoded {
                Ok(d) => Ok(d),
                Err(cause) => Err(
                    ExtensionError::ParseError { path: String::from_str(path), source: cause },
                ),
            }
        },
        Some(SourceFormat::Python) => parse_python_stub(text.as_str()),
        None => Err(ExtensionError::UnsupportedFormat { format: String::from_str(extension) }),
    }
}

} // verus!
