use datadog_mcp::output::{format_from_normalized, parse_format, OutputFormat};
use serde_json::Value;

fn test_data() -> Value {
    let mut map = serde_json::Map::new();
    map.insert("name".to_string(), Value::String("test".to_string()));
    map.insert("count".to_string(), Value::from(42));
    map.insert(
        "items".to_string(),
        Value::Array(vec![
            Value::String("a".to_string()),
            Value::String("b".to_string()),
        ]),
    );
    Value::Object(map)
}

#[test]
fn test_json_formatting() {
    let data = test_data();
    let json = OutputFormat::Json.format(&data).unwrap();
    assert!(json.contains("\"name\""));
    assert!(json.contains("\"test\""));
    assert!(json.contains("42"));
}

#[test]
fn test_toon_formatting() {
    let data = test_data();
    let toon = OutputFormat::Toon.format(&data).unwrap();
    // TOON format should be more compact than JSON
    let json = OutputFormat::Json.format(&data).unwrap();
    assert!(toon.len() < json.len());
}

#[test]
fn test_format_enum() {
    let data = test_data();
    let json = OutputFormat::Json.format(&data).unwrap();
    let toon = OutputFormat::Toon.format(&data).unwrap();

    assert!(json.contains("\"name\""));
    assert!(!toon.is_empty());
    assert!(toon.len() < json.len());
}

#[test]
fn parse_format_accepts_both_names_in_any_case() {
    assert_eq!(parse_format("json"), Ok(OutputFormat::Json));
    assert_eq!(parse_format("TOON"), Ok(OutputFormat::Toon));
    assert_eq!(parse_format("Json"), Ok(OutputFormat::Json));
}

#[test]
fn parse_format_rejects_other_names() {
    assert_eq!(
        parse_format("yaml"),
        Err("Invalid format 'yaml'. Must be 'json' or 'toon'".to_string())
    );
    assert_eq!(format_from_normalized("JSON"), None);
}

#[test]
fn default_format_is_json_and_extensions_match() {
    assert_eq!(OutputFormat::default(), OutputFormat::Json);
    assert_eq!(OutputFormat::Json.extension(), "json");
    assert_eq!(OutputFormat::Toon.extension(), "toon");
}

#[test]
fn formats_render_with_their_encoders() {
    let data = test_data();
    assert_eq!(
        OutputFormat::Json.format(&data).unwrap(),
        serde_json::to_string_pretty(&data).unwrap()
    );
    assert_eq!(OutputFormat::Toon.format(&data).unwrap(), toon::encode(&data, None));
}
