use datadog_mcp::errors::{
    api_error, api_error_message, auth_error, classify_error_message, config_error,
    not_found_error, not_found_message, rate_limited_error, to_mcp_error, validation_error,
    McpErrorCode,
};

#[test]
fn test_error_code_values() {
    assert_eq!(McpErrorCode::ParseError.code(), -32700);
    assert_eq!(McpErrorCode::InvalidRequest.code(), -32600);
    assert_eq!(McpErrorCode::MethodNotFound.code(), -32601);
    assert_eq!(McpErrorCode::InvalidParams.code(), -32602);
    assert_eq!(McpErrorCode::InternalError.code(), -32603);
    assert_eq!(McpErrorCode::ConfigError.code(), -32000);
    assert_eq!(McpErrorCode::ApiError.code(), -32001);
    assert_eq!(McpErrorCode::NetworkError.code(), -32002);
    assert_eq!(McpErrorCode::RateLimited.code(), -32003);
    assert_eq!(McpErrorCode::NotFound.code(), -32004);
    assert_eq!(McpErrorCode::AuthError.code(), -32005);
}

#[test]
fn test_to_error_data() {
    let err = McpErrorCode::ApiError.to_error_data("test message");
    assert_eq!(err.code.0, -32001);
    assert_eq!(err.message, "test message");
}

#[test]
fn test_to_mcp_error_config() {
    let err = anyhow::Error::msg("DD_API_KEY not set");
    let data = to_mcp_error(err);
    assert_eq!(data.code.0, McpErrorCode::ConfigError.code());
}

#[test]
fn test_to_mcp_error_auth() {
    let err = anyhow::Error::msg("API error: 403 Forbidden");
    let data = to_mcp_error(err);
    assert_eq!(data.code.0, McpErrorCode::AuthError.code());
}

#[test]
fn test_to_mcp_error_not_found() {
    let err = anyhow::Error::msg("Resource not found");
    let data = to_mcp_error(err);
    assert_eq!(data.code.0, McpErrorCode::NotFound.code());
}

#[test]
fn test_to_mcp_error_rate_limited() {
    let err = anyhow::Error::msg("429 rate limit exceeded");
    let data = to_mcp_error(err);
    assert_eq!(data.code.0, McpErrorCode::RateLimited.code());
}

#[test]
fn test_to_mcp_error_network() {
    let err = anyhow::Error::msg("connection timeout");
    let data = to_mcp_error(err);
    assert_eq!(data.code.0, McpErrorCode::NetworkError.code());
}

#[test]
fn test_helper_functions() {
    let err = api_error("get monitors", "connection failed");
    assert_eq!(err.code.0, McpErrorCode::ApiError.code());
    assert!(err.message.contains("get monitors"));

    let err = validation_error("invalid monitor_id");
    assert_eq!(err.code.0, McpErrorCode::InvalidParams.code());

    let err = not_found_error("Monitor", 123);
    assert_eq!(err.code.0, McpErrorCode::NotFound.code());
    assert!(err.message.contains("123"));

    let err = config_error("missing API key");
    assert_eq!(err.code.0, McpErrorCode::ConfigError.code());

    let err = rate_limited_error();
    assert_eq!(err.code.0, McpErrorCode::RateLimited.code());

    let err = auth_error("invalid credentials");
    assert_eq!(err.code.0, McpErrorCode::AuthError.code());
}

#[test]
fn classification_follows_the_order_of_checks() {
    // A configuration hint wins over an authorization status.
    assert_eq!(
        classify_error_message("DD_APP_KEY rejected with 403"),
        McpErrorCode::ConfigError
    );
    assert_eq!(classify_error_message("404 status"), McpErrorCode::NotFound);
    assert_eq!(classify_error_message("bad status"), McpErrorCode::ApiError);
    assert_eq!(classify_error_message("network down"), McpErrorCode::NetworkError);
    assert_eq!(classify_error_message(""), McpErrorCode::InternalError);
    assert_eq!(classify_error_message("Not Found"), McpErrorCode::InternalError);
}

#[test]
fn error_messages_are_exact() {
    assert_eq!(
        api_error_message("get monitors", "connection failed"),
        "Failed to get monitors: connection failed. Check API credentials and permissions."
    );
    assert_eq!(
        not_found_message("Monitor", -5),
        "Monitor with ID '-5' not found"
    );
    assert_eq!(
        rate_limited_error().message,
        "Rate limit exceeded. Please wait and retry."
    );
    assert_eq!(
        to_mcp_error(anyhow::Error::msg("boom")).message,
        "boom"
    );
}

#[test]
fn error_helpers_carry_their_exact_code_and_message() {
    let err = api_error("get monitors", "connection failed");
    assert_eq!(err.code.0, -32001);
    assert_eq!(
        err.message,
        "Failed to get monitors: connection failed. Check API credentials and permissions."
    );
    assert!(err.data.is_none());

    let err = not_found_error("Monitor", -7);
    assert_eq!((err.code.0, err.message.as_ref()), (-32004, "Monitor with ID '-7' not found"));

    let err = rate_limited_error();
    assert_eq!(err.message, "Rate limit exceeded. Please wait and retry.");

    let err = to_mcp_error(anyhow::Error::msg("upstream said 429"));
    assert_eq!((err.code.0, err.message.as_ref()), (-32003, "upstream said 429"));

    for (err, code) in [
        (validation_error("bad"), -32602),
        (config_error("bad"), -32000),
        (auth_error("bad"), -32005),
    ] {
        assert_eq!((err.code.0, err.message.as_ref()), (code, "bad"));
    }
}

#[test]
fn any_error_keeps_its_text_and_is_classified_by_it() {
    for (text, code) in [
        ("DD_API_KEY not set", -32000),
        ("API error: 403 Forbidden", -32005),
        ("something odd", -32603),
    ] {
        let err = to_mcp_error(anyhow::Error::msg(text));
        assert_eq!((err.code.0, err.message.as_ref()), (code, text));
    }
}
