use datadog_mcp::server::{
    authorize_tool, is_write_tool, read_only_hint, READ_ONLY_REFUSAL, TOOL_NAMES, WRITE_TOOLS,
};
use datadog_mcp::state::{AccessMode, ServerOptions};
use std::path::PathBuf;

#[test]
fn write_tools_are_annotated_and_blocked_by_default() {
    let write_tools = [
        "create_monitor",
        "update_monitor",
        "delete_monitor",
        "create_dashboard",
        "update_dashboard",
        "delete_dashboard",
        "create_event",
        "create_downtime",
        "cancel_downtime",
        "create_synthetics_test",
        "update_synthetics_test",
        "trigger_synthetics_tests",
        "delete_synthetics_tests",
        "cleanup_cache",
    ];
    for tool in TOOL_NAMES {
        assert_eq!(read_only_hint(tool), !write_tools.contains(&tool), "{}", tool);
    }
    let options = ServerOptions::defaults(PathBuf::from("/tmp/cache"));
    assert_eq!(options.access_mode, AccessMode::ReadOnly);
    assert!(!options.cache.writes_enabled());
    assert_eq!(
        authorize_tool("create_monitor", options.access_mode),
        Err(READ_ONLY_REFUSAL.to_string())
    );
}

#[test]
fn read_tools_run_in_every_mode_and_write_tools_need_write_mode() {
    for tool in TOOL_NAMES {
        assert_eq!(authorize_tool(tool, AccessMode::ReadWrite), Ok(()));
        assert_eq!(
            authorize_tool(tool, AccessMode::ReadOnly).is_ok(),
            !WRITE_TOOLS.contains(&tool)
        );
    }
    assert!(is_write_tool("cleanup_cache"));
    assert!(!is_write_tool("get_monitor"));
    assert_eq!(authorize_tool("not_a_tool", AccessMode::ReadOnly), Ok(()));
}

#[test]
fn catalogue_has_every_tool_once() {
    assert!(TOOL_NAMES.len() >= 35);
    let mut names = TOOL_NAMES.to_vec();
    names.sort();
    names.dedup();
    assert_eq!(names.len(), TOOL_NAMES.len());
    assert!(AccessMode::ReadWrite.allows_writes());
    assert!(!AccessMode::ReadOnly.allows_writes());
}
