use gstreamer_mcp::cli::OperationalMode;
use gstreamer_mcp::tool_registry::{ToolCategory, ToolMetadata, ToolRegistry};

#[test]
fn test_tool_registry_creation() {
    let registry = ToolRegistry::new();
    assert!(registry.has_tool("gst_list_elements"));
    assert!(registry.has_tool("gst_launch_pipeline"));
    assert!(!registry.has_tool("nonexistent_tool"));
}

#[test]
fn test_mode_filtering() {
    let registry = ToolRegistry::new();

    // Discovery mode should have read-only tools
    let discovery_tools = registry.get_tools_for_mode(&OperationalMode::Discovery);
    assert!(discovery_tools.contains(&"gst_list_elements".to_string()));
    assert!(discovery_tools.contains(&"gst_validate_pipeline".to_string()));
    assert!(!discovery_tools.contains(&"gst_launch_pipeline".to_string()));
    assert!(!discovery_tools.contains(&"gst_stop_pipeline".to_string()));

    // Live mode should have pipeline control tools
    let live_tools = registry.get_tools_for_mode(&OperationalMode::Live);
    assert!(live_tools.contains(&"gst_launch_pipeline".to_string()));
    assert!(live_tools.contains(&"gst_stop_pipeline".to_string()));

    // All mode should have everything
    let all_tools = registry.get_tools_for_mode(&OperationalMode::All);
    assert_eq!(all_tools.len(), 10); // We have 10 implemented tools
}

#[test]
fn test_tool_filtering_with_includes_excludes() {
    let registry = ToolRegistry::new();

    // Test with included tools
    let included = vec![
        "gst_list_elements".to_string(),
        "gst_list_plugins".to_string(),
    ];
    let filtered = registry.filter_tools(&OperationalMode::All, Some(&included), None);
    assert_eq!(filtered.len(), 2);
    assert!(filtered.contains("gst_list_elements"));
    assert!(filtered.contains("gst_list_plugins"));

    // Test with excluded tools
    let excluded = vec!["gst_launch_pipeline".to_string()];
    let filtered = registry.filter_tools(&OperationalMode::Live, None, Some(&excluded));
    assert!(!filtered.contains("gst_launch_pipeline"));
    assert!(filtered.contains("gst_stop_pipeline"));
}

#[test]
fn tools_of_each_mode_in_catalogue_order() {
    let registry = ToolRegistry::default();
    assert_eq!(
        registry.all_tools(),
        vec![
            "gst_list_elements",
            "gst_inspect_element",
            "gst_list_plugins",
            "gst_search_elements",
            "gst_launch_pipeline",
            "gst_set_pipeline_state",
            "gst_get_pipeline_status",
            "gst_stop_pipeline",
            "gst_list_pipelines",
            "gst_validate_pipeline",
        ]
    );
    assert_eq!(
        registry.get_tools_for_mode(&OperationalMode::Dev),
        vec![
            "gst_list_elements",
            "gst_inspect_element",
            "gst_list_plugins",
            "gst_search_elements",
            "gst_validate_pipeline",
        ]
    );
    assert_eq!(
        registry.get_tools_for_mode(&OperationalMode::Discovery),
        vec![
            "gst_list_elements",
            "gst_inspect_element",
            "gst_list_plugins",
            "gst_search_elements",
            "gst_get_pipeline_status",
            "gst_list_pipelines",
            "gst_validate_pipeline",
        ]
    );
    assert_eq!(registry.get_tools_for_mode(&OperationalMode::Live).len(), 10);
}

#[test]
fn get_tool_returns_the_catalogue_entry() {
    let registry = ToolRegistry::new();
    let tool = registry.get_tool("gst_stop_pipeline").unwrap();
    assert_eq!(tool.name, "gst_stop_pipeline");
    assert_eq!(tool.category, ToolCategory::Pipeline);
    assert_eq!(tool.modes, vec![OperationalMode::All, OperationalMode::Live]);
    assert!(tool.description.starts_with("Stops and releases resources"));
    assert!(registry.get_tool("gst_seek").is_none());
    let status = registry.get_tool("gst_get_pipeline_status").unwrap();
    assert_eq!(
        status.modes,
        vec![OperationalMode::All, OperationalMode::Live, OperationalMode::Discovery]
    );
    let list = registry.get_tool("gst_list_elements").unwrap();
    assert_eq!(list.category, ToolCategory::Discovery);
    assert_eq!(list.modes.len(), 4);
}

#[test]
fn availability_follows_the_mode_list_and_all() {
    let tool = ToolMetadata::new(
        "gst_seek",
        ToolCategory::Seek,
        "Seeks",
        vec![OperationalMode::Live],
    );
    assert_eq!(tool.name, "gst_seek");
    assert_eq!(tool.description, "Seeks");
    assert!(tool.is_available_in_mode(&OperationalMode::Live));
    assert!(tool.is_available_in_mode(&OperationalMode::All));
    assert!(!tool.is_available_in_mode(&OperationalMode::Dev));
    assert!(!tool.is_available_in_mode(&OperationalMode::Discovery));
    let copy = tool.clone();
    assert_eq!(copy.name, "gst_seek");
    assert_eq!(copy.modes, vec![OperationalMode::Live]);
}

#[test]
fn include_and_exclude_lists_combine() {
    let registry = ToolRegistry::new();
    let included = vec![
        "gst_list_elements".to_string(),
        "gst_launch_pipeline".to_string(),
        "unknown".to_string(),
    ];
    let excluded = vec!["gst_list_elements".to_string()];
    let both = registry.filter_tools(&OperationalMode::All, Some(&included), Some(&excluded));
    assert_eq!(both.len(), 1);
    assert!(both.contains("gst_launch_pipeline"));
    // a tool on the include list that the mode does not offer stays out
    let discovery = registry.filter_tools(&OperationalMode::Discovery, Some(&included), None);
    assert_eq!(discovery.len(), 1);
    assert!(discovery.contains("gst_list_elements"));
    let none = registry.filter_tools(&OperationalMode::All, Some(&[]), None);
    assert_eq!(none.len(), 0);
    let all = registry.filter_tools(&OperationalMode::All, None, None);
    assert_eq!(all.len(), 10);
}
