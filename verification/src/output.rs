//! Output formats of MCP responses: JSON, and TOON (Token-Oriented Object
//! Notation), which typically takes 30-60% fewer tokens than JSON.
use vstd::prelude::*;
use crate::text::{lowercase, push_str, str_eq, to_lowercase};

verus! {

#[verifier::external_type_specification]
#[verifier::external_body]
pub struct ExJsonValue(serde_json::Value);

#[verifier::external_type_specification]
#[verifier::external_body]
pub struct ExJsonError(serde_json::Error);

/// Output format options.
#[derive(Debug, Clone, Copy, PartialEq, Eq, Structural)]
pub enum OutputFormat {
    /// Standard JSON format.
    Json,
    /// TOON format, optimized for LLM token efficiency.
    Toon,
}

impl Default for OutputFormat {
    fn default() -> (r: Self)
        ensures
            r == OutputFormat::Json,
    {
        OutputFormat::Json
    }
}

/// The file extension of a format.
pub open spec fn format_extension(f: OutputFormat) -> Seq<char> {
    match f {
        OutputFormat::Json => "json"@,
        OutputFormat::Toon => "toon"@,
    }
}

/// The pretty-printed JSON text of a value, as `serde_json::to_string_pretty`
/// writes it: a function of the value alone.
pub uninterp spec fn pretty_json_text(v: serde_json::Value) -> Seq<char>;

/// The TOON text of a value with default options, as `toon::encode` writes
/// it (object keys in sorted order): a function of the value alone.
pub uninterp spec fn toon_text(v: serde_json::Value) -> Seq<char>;

/// Pretty-printed JSON text of a value (`serde_json::to_string_pretty`).
/// Serializing a `Value` cannot fail: its map keys are strings, its
/// `Serialize` never fails, and the text is written to memory. The text is
/// `pretty_json_text` of the value.
#[verifier::external_body]
fn json_pretty(value: &serde_json::Value) -> (r: Result<String, serde_json::Error>)
    ensures
        r is Ok,
        r is Ok ==> r->Ok_0@ == pretty_json_text(*value),
{
    serde_json::to_string_pretty(value)
}

/// TOON text of a value with default options (`toon::encode`), which cannot
/// fail; the text is `toon_text` of the value.
#[verifier::external_body]
fn toon_encode(value: &serde_json::Value) -> (r: String)
    ensures
        r@ == toon_text(*value),
{
    toon::encode(value, None)
}

impl OutputFormat {
    /// The file extension used for cache files in this format.
    pub fn extension(self) -> (r: &'static str)
        ensures
            r@ == format_extension(self),
    {
        match self {
            OutputFormat::Json => "json",
            OutputFormat::Toon => "toon",
        }
    }

    /// Renders a JSON value in this format: pretty-printed JSON or TOON.
    /// Rendering never fails.
    pub fn format(self, value: &serde_json::Value) -> (r: Result<String, serde_json::Error>)
        ensures
            r is Ok,
            self == OutputFormat::Json ==> r->Ok_0@ == pretty_json_text(*value),
            self == OutputFormat::Toon ==> r->Ok_0@ == toon_text(*value),
    {
        match self {
            OutputFormat::Json => json_pretty(value),
            OutputFormat::Toon => Ok(toon_encode(value)),
        }
    }
}

/// The format that a lower-cased format name selects.
pub open spec fn format_named(normalized: Seq<char>) -> Option<OutputFormat> {
    if normalized == "json"@ {
        Some(OutputFormat::Json)
    } else if normalized == "toon"@ {
        Some(OutputFormat::Toon)
    } else {
        None
    }
}

/// Looks up an already lower-cased format name.
pub fn format_from_normalized(normalized: &str) -> (r: Option<OutputFormat>)
    ensures
        r == format_named(normalized@),
{
    if str_eq(normalized, "json") {
        Some(OutputFormat::Json)
    } else if str_eq(normalized, "toon") {
        Some(OutputFormat::Toon)
    } else {
        None
    }
}

/// The message for a format name that is not known.
pub open spec fn invalid_format_text(s: Seq<char>) -> Seq<char> {
    "Invalid format '"@ + s + "'. Must be 'json' or 'toon'"@
}

/// Parses a format name given on the command line, ignoring case.
pub fn parse_format(s: &str) -> (r: Result<OutputFormat, String>)
    ensures
        format_named(lowercase(s@)) matches Some(f) ==> r == Ok::<OutputFormat, String>(f),
        format_named(lowercase(s@)) is None ==> (r matches Err(m) && m@ == invalid_format_text(
            s@,
        )),
{
    let normalized = to_lowercase(s);
    match format_from_normalized(normalized.as_str()) {
        Some(f) => Ok(f),
        None => {
            let mut m = String::new();
            push_str(&mut m, "Invalid format '");
            push_str(&mut m, s);
            push_str(&mut m, "'. Must be 'json' or 'toon'");
            assert(m@ =~= invalid_format_text(s@));
            Err(m)
        },
    }
}

} // verus!
