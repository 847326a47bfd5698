//! MCP error codes and helpers for consistent error responses.
use vstd::prelude::*;
use crate::text::{contains_str, has_substr, owned, push_decimal_i64, push_str, dec_int};

verus! {

#[verifier::external_type_specification]
#[verifier::external_body]
pub struct ExErrorData(rmcp::model::ErrorData);

#[verifier::external_type_specification]
#[verifier::external_body]
pub struct ExAnyhowError(anyhow::Error);

/// MCP-compliant error codes of the server.
#[derive(Debug, Clone, Copy, PartialEq, Eq, Structural)]
pub enum McpErrorCode {
    /// JSON-RPC parse error
    ParseError,
    /// Invalid JSON-RPC request
    InvalidRequest,
    /// Method not found
    MethodNotFound,
    /// Invalid method parameters
    InvalidParams,
    /// Internal server error
    InternalError,
    /// Configuration error (e.g., missing credentials)
    ConfigError,
    /// Datadog API returned an error
    ApiError,
    /// Network/connectivity issue
    NetworkError,
    /// Rate limit exceeded
    RateLimited,
    /// Resource not found
    NotFound,
    /// Authentication/authorization failure
    AuthError,
}

/// The JSON-RPC number of each code.
pub open spec fn code_value(c: McpErrorCode) -> int {
    match c {
        McpErrorCode::ParseError => -32700,
        McpErrorCode::InvalidRequest => -32600,
        McpErrorCode::MethodNotFound => -32601,
        McpErrorCode::InvalidParams => -32602,
        McpErrorCode::InternalError => -32603,
        McpErrorCode::ConfigError => -32000,
        McpErrorCode::ApiError => -32001,
        McpErrorCode::NetworkError => -32002,
        McpErrorCode::RateLimited => -32003,
        McpErrorCode::NotFound => -32004,
        McpErrorCode::AuthError => -32005,
    }
}

/// The rmcp error data with a numeric code, a message and no attached data,
/// as `rmcp::model::ErrorData::new` builds it: a plain record of its
/// arguments.
pub uninterp spec fn error_data(code: int, message: Seq<char>) -> rmcp::model::ErrorData;

/// Builds an rmcp `ErrorData` from a numeric code and a message, with no
/// attached data (`rmcp::model::ErrorData::new`). Its result is `error_data`
/// of the code and the message: the constructor only stores its arguments.
#[verifier::external_body]
fn new_error_data(code: i32, message: String) -> (r: rmcp::model::ErrorData)
    ensures
        r == error_data(code as int, message@),
{
    rmcp::model::ErrorData::new(rmcp::model::ErrorCode(code), message, None)
}

/// The text that `anyhow::Error`'s `Display` prints: the outermost message of
/// the error, a function of the error value alone.
pub uninterp spec fn anyhow_text(e: anyhow::Error) -> Seq<char>;

/// The text of an `anyhow::Error` (`to_string`, through its `Display`); it is
/// `anyhow_text` of the error.
#[verifier::external_body]
fn error_text(err: &anyhow::Error) -> (r: String)
    ensures
        r@ == anyhow_text(*err),
{
    err.to_string()
}

impl McpErrorCode {
    /// The JSON-RPC number of this code.
    pub fn code(self) -> (r: i32)
        ensures
            r == code_value(self),
    {
        match self {
            McpErrorCode::ParseError => -32700,
            McpErrorCode::InvalidRequest => -32600,
            McpErrorCode::MethodNotFound => -32601,
            McpErrorCode::InvalidParams => -32602,
            McpErrorCode::InternalError => -32603,
            McpErrorCode::ConfigError => -32000,
            McpErrorCode::ApiError => -32001,
            McpErrorCode::NetworkError => -32002,
            McpErrorCode::RateLimited => -32003,
            McpErrorCode::NotFound => -32004,
            McpErrorCode::AuthError => -32005,
        }
    }

    /// An MCP error with this code and the given message.
    pub fn to_error_data(self, message: &str) -> (r: rmcp::model::ErrorData)
        ensures
            r == error_data(code_value(self), message@),
    {
        new_error_data(self.code(), owned(message))
    }
}

/// The code that an error message is classified under, judged by the words
/// it contains, checked in this order.
pub open spec fn classified(m: Seq<char>) -> McpErrorCode {
    if has_substr(m, "DD_API_KEY"@) || has_substr(m, "DD_APP_KEY"@) {
        McpErrorCode::ConfigError
    } else if has_substr(m, "401"@) || has_substr(m, "403"@) || has_substr(m, "Forbidden"@) {
        McpErrorCode::AuthError
    } else if has_substr(m, "404"@) || has_substr(m, "not found"@) {
        McpErrorCode::NotFound
    } else if has_substr(m, "429"@) || has_substr(m, "rate limit"@) {
        McpErrorCode::RateLimited
    } else if has_substr(m, "timeout"@) || has_substr(m, "connection"@) || has_substr(
        m,
        "network"@,
    ) {
        McpErrorCode::NetworkError
    } else if has_substr(m, "status"@) || has_substr(m, "API error"@) {
        McpErrorCode::ApiError
    } else {
        McpErrorCode::InternalError
    }
}

/// How a message is classified, word by word: credentials problems first,
/// then authentication (`401`, `403`, `Forbidden`), missing resources,
/// rate limits, network trouble and other API failures; anything else is an
/// internal error.
pub proof fn lemma_error_classes(m: Seq<char>)
    ensures
        has_substr(m, "DD_API_KEY"@) || has_substr(m, "DD_APP_KEY"@) ==> classified(m)
            == McpErrorCode::ConfigError,
        !has_substr(m, "DD_API_KEY"@) && !has_substr(m, "DD_APP_KEY"@) && (has_substr(m, "401"@)
            || has_substr(m, "403"@) || has_substr(m, "Forbidden"@)) ==> classified(m)
            == McpErrorCode::AuthError,
        classified(m) == McpErrorCode::AuthError ==> has_substr(m, "401"@) || has_substr(m, "403"@)
            || has_substr(m, "Forbidden"@),
        classified(m) == McpErrorCode::NotFound ==> has_substr(m, "404"@) || has_substr(
            m,
            "not found"@,
        ),
        classified(m) == McpErrorCode::RateLimited ==> has_substr(m, "429"@) || has_substr(
            m,
            "rate limit"@,
        ),
        classified(m) == McpErrorCode::InternalError ==> !has_substr(m, "401"@) && !has_substr(
            m,
            "403"@,
        ) && !has_substr(m, "404"@) && !has_substr(m, "429"@) && !has_substr(m, "status"@),
{
}

/// Classifies an error message into an MCP error code.
pub fn classify_error_message(message: &str) -> (r: McpErrorCode)
    ensures
        r == classified(message@),
        !has_substr(message@, "DD_API_KEY"@) && !has_substr(message@, "DD_APP_KEY"@) && (
        has_substr(message@, "401"@) || has_substr(message@, "403"@) || has_substr(
            message@,
            "Forbidden"@,
        )) ==> r == McpErrorCode::AuthError,
{
    if contains_str(message, "DD_API_KEY") || contains_str(message, "DD_APP_KEY") {
        McpErrorCode::ConfigError
    } else if contains_str(message, "401") || contains_str(message, "403") || contains_str(
        message,
        "Forbidden",
    ) {
        McpErrorCode::AuthError
    } else if contains_str(message, "404") || contains_str(message, "not found") {
        McpErrorCode::NotFound
    } else if contains_str(message, "429") || contains_str(message, "rate limit") {
        McpErrorCode::RateLimited
    } else if contains_str(message, "timeout") || contains_str(message, "connection")
        || contains_str(message, "network") {
        McpErrorCode::NetworkError
    } else if contains_str(message, "status") || contains_str(message, "API error") {
        McpErrorCode::ApiError
    } else {
        McpErrorCode::InternalError
    }
}

/// Converts an error into MCP error data, with the code chosen by
/// `classify_error_message` on the error's text and that text as message.
pub fn to_mcp_error(err: anyhow::Error) -> (r: rmcp::model::ErrorData)
    ensures
        r == error_data(code_value(classified(anyhow_text(err))), anyhow_text(err)),
{
    let text = error_text(&err);
    let code = classify_error_message(text.as_str());
    code.to_error_data(text.as_str())
}

/// The message of an API error for a failed operation.
pub open spec fn api_error_text(operation: Seq<char>, error: Seq<char>) -> Seq<char> {
    "Failed to "@ + operation + ": "@ + error + ". Check API credentials and permissions."@
}

/// Builds the message of an API error for a failed operation.
pub fn api_error_message(operation: &str, error: &str) -> (r: String)
    ensures
        r@ == api_error_text(operation@, error@),
{
    let mut s = String::new();
    push_str(&mut s, "Failed to ");
    push_str(&mut s, operation);
    push_str(&mut s, ": ");
    push_str(&mut s, error);
    push_str(&mut s, ". Check API credentials and permissions.");
    assert(s@ =~= api_error_text(operation@, error@));
    s
}

/// The message of a not-found error.
pub open spec fn not_found_text(resource: Seq<char>, id: int) -> Seq<char> {
    resource + " with ID '"@ + dec_int(id) + "' not found"@
}

/// Builds the message of a not-found error.
pub fn not_found_message(resource: &str, id: i64) -> (r: String)
    ensures
        r@ == not_found_text(resource@, id as int),
{
    let mut s = String::new();
    push_str(&mut s, resource);
    push_str(&mut s, " with ID '");
    push_decimal_i64(&mut s, id);
    push_str(&mut s, "' not found");
    assert(s@ =~= not_found_text(resource@, id as int));
    s
}

/// The message of a rate-limit error.
pub open spec fn rate_limited_text() -> Seq<char> {
    "Rate limit exceeded. Please wait and retry."@
}

/// An API error with context on the failed operation (code `ApiError`,
/// message `api_error_text`).
pub fn api_error(operation: &str, error: &str) -> (r: rmcp::model::ErrorData)
    ensures
        r == error_data(code_value(McpErrorCode::ApiError), api_error_text(operation@, error@)),
{
    let message = api_error_message(operation, error);
    McpErrorCode::ApiError.to_error_data(message.as_str())
}

/// A validation error for invalid parameters (code `InvalidParams`).
pub fn validation_error(message: &str) -> (r: rmcp::model::ErrorData)
    ensures
        r == error_data(code_value(McpErrorCode::InvalidParams), message@),
{
    McpErrorCode::InvalidParams.to_error_data(message)
}

/// A not-found error for a missing resource (code `NotFound`, message
/// `not_found_text`).
pub fn not_found_error(resource: &str, id: i64) -> (r: rmcp::model::ErrorData)
    ensures
        r == error_data(code_value(McpErrorCode::NotFound), not_found_text(resource@, id as int)),
{
    let message = not_found_message(resource, id);
    McpErrorCode::NotFound.to_error_data(message.as_str())
}

/// A configuration error (code `ConfigError`).
pub fn config_error(message: &str) -> (r: rmcp::model::ErrorData)
    ensures
        r == error_data(code_value(McpErrorCode::ConfigError), message@),
{
    McpErrorCode::ConfigError.to_error_data(message)
}

/// A rate-limit error (code `RateLimited`, message `rate_limited_text`).
pub fn rate_limited_error() -> (r: rmcp::model::ErrorData)
    ensures
        r == error_data(code_value(McpErrorCode::RateLimited), rate_limited_text()),
{
    McpErrorCode::RateLimited.to_error_data("Rate limit exceeded. Please wait and retry.")
}

/// An authentication error (code `AuthError`).
pub fn auth_error(message: &str) -> (r: rmcp::model::ErrorData)
    ensures
        r == error_data(code_value(McpErrorCode::AuthError), message@),
{
    McpErrorCode::AuthError.to_error_data(message)
}

} // verus!
