use gstreamer_mcp::bus_handler::{BusHandler, EventKind, RawEvent};
use gstreamer_mcp::cli::OperationalMode;
use gstreamer_mcp::config::Configuration;
use gstreamer_mcp::discovery::{ElementInfo, InspectOutcome, PluginInfo};
use gstreamer_mcp::error::GStreamerMcpError;
use gstreamer_mcp::handler::{
    show_listing, show_messages, show_status, show_valid, GStreamerHandler,
    GetPipelineStatusParams, InspectElementParams, LaunchPipelineParams, ListElementsParams,
    ListGstPipelinesParams, ListPluginsParams, SearchElementsParams, SetPipelineStateParams,
    StopPipelineParams, ToolFailure, ValidatePipelineParams, INVALID_NAME, METHOD_NOT_FOUND,
};
use gstreamer_mcp::pipeline::{
    show_time, BuildOutcome, BusMessage, EngineReading, PipelineInfo, PipelineState,
    PipelineStatus, StateChangeReply, Timestamp,
};

fn handler_in(mode: OperationalMode) -> GStreamerHandler {
    let mut config = Configuration::default();
    config.operational_mode = mode;
    GStreamerHandler::with_config(config).unwrap()
}

fn launch(description: &str, id: Option<&str>, auto_play: Option<bool>) -> LaunchPipelineParams {
    LaunchPipelineParams {
        pipeline_description: description.to_string(),
        auto_play,
        pipeline_id: id.map(|s| s.to_string()),
    }
}

fn failure(result: Result<String, ToolFailure>) -> ToolFailure {
    match result {
        Err(failure) => failure,
        Ok(text) => panic!("expected a failure, got {:?}", text),
    }
}

fn playing() -> EngineReading {
    EngineReading {
        current: PipelineState::Playing,
        pending: PipelineState::VoidPending,
        position: Some(2_000_000_000),
        duration: Some(10_000_000_000),
    }
}

#[test]
fn a_new_server_has_every_tool_and_no_pipeline() {
    let handler = GStreamerHandler::new().unwrap();
    assert_eq!(handler.enabled_tools.len(), 10);
    assert!(handler.is_tool_enabled("gst_launch_pipeline"));
    assert!(!handler.is_tool_enabled("gst_seek"));
    assert_eq!(handler.pipeline_manager.len(), 0);
    assert_eq!(handler.pipeline_manager.max_pipelines(), 10);
    assert!(handler.needs_elements());
    assert!(handler.needs_plugins());
    assert!(handler.config.cache_enabled);
}

#[test]
fn settings_decide_which_tools_are_on() {
    let mut config = Configuration::default();
    config.operational_mode = OperationalMode::Live;
    config.excluded_tools = Some(vec!["gst_stop_pipeline".to_string()]);
    let handler = GStreamerHandler::with_config(config).unwrap();
    assert_eq!(handler.enabled_tools.len(), 9);
    assert!(!handler.is_tool_enabled("gst_stop_pipeline"));
    assert!(handler.is_tool_enabled("gst_launch_pipeline"));
    let discovery = handler_in(OperationalMode::Discovery);
    assert_eq!(discovery.enabled_tools.len(), 7);
    assert!(!discovery.is_tool_enabled("gst_launch_pipeline"));
}

#[test]
fn launch_creates_and_plays() {
    let mut handler = GStreamerHandler::new().unwrap();
    let text = handler
        .gst_launch_pipeline(
            launch("fakesrc ! fakesink", Some("p1"), None),
            BuildOutcome::Built,
            StateChangeReply::Async,
        )
        .unwrap();
    assert_eq!(
        text,
        "Pipeline 'p1' launched successfully.\nState: Playing\nDescription: fakesrc ! fakesink"
    );
    assert_eq!(handler.pipeline_manager.get_pipeline("p1").unwrap().info.state, "Playing");

    let text = handler
        .gst_launch_pipeline(
            launch("a ! b", Some("p2"), Some(true)),
            BuildOutcome::Built,
            StateChangeReply::Success(PipelineState::Paused),
        )
        .unwrap();
    assert_eq!(text, "Pipeline 'p2' launched successfully.\nState: Paused\nDescription: a ! b");
    assert_eq!(handler.pipeline_manager.get_pipeline("p2").unwrap().info.state, "Playing");
}

#[test]
fn launch_without_play_leaves_the_pipeline_in_null() {
    let mut handler = GStreamerHandler::new().unwrap();
    let text = handler
        .gst_launch_pipeline(
            launch("a ! b", Some("p1"), Some(false)),
            BuildOutcome::Built,
            StateChangeReply::Rejected,
        )
        .unwrap();
    assert_eq!(text, "Pipeline 'p1' created successfully in NULL state.\nDescription: a ! b");
    assert_eq!(handler.pipeline_manager.get_pipeline("p1").unwrap().info.state, "Null");
}

#[test]
fn launch_with_a_generated_identifier() {
    let mut handler = GStreamerHandler::new().unwrap();
    let text = handler
        .gst_launch_pipeline(launch("a ! b", None, None), BuildOutcome::Built, StateChangeReply::Async)
        .unwrap();
    let infos = handler.pipeline_manager.list_pipelines();
    assert_eq!(infos.len(), 1);
    assert!(infos[0].id.starts_with("pipeline-"));
    assert_eq!(
        text,
        format!(
            "Pipeline '{}' launched successfully.\nState: Playing\nDescription: a ! b",
            infos[0].id
        )
    );
}

#[test]
fn launch_failures() {
    let mut handler = handler_in(OperationalMode::Discovery);
    let refused = failure(handler.gst_launch_pipeline(
        launch("a ! b", Some("p1"), None),
        BuildOutcome::Built,
        StateChangeReply::Async,
    ));
    assert_eq!(refused.code, METHOD_NOT_FOUND);
    assert_eq!(refused.code, -32601);
    assert_eq!(
        refused.message,
        "Tool 'gst_launch_pipeline' is not available in the current mode"
    );
    assert_eq!(handler.pipeline_manager.len(), 0);

    let mut handler = GStreamerHandler::new().unwrap();
    let bad = failure(handler.gst_launch_pipeline(
        launch("a ! ! b", None, None),
        BuildOutcome::ParseFailed("syntax error".to_string()),
        StateChangeReply::Async,
    ));
    assert_eq!(bad.code, -32000);
    assert_eq!(bad.message, "Failed to parse pipeline: syntax error");
    let down = failure(handler.gst_launch_pipeline(
        launch("a ! b", None, None),
        BuildOutcome::NotInitialized("no plugins".to_string()),
        StateChangeReply::Async,
    ));
    assert_eq!(down.code, -32004);
    assert_eq!(down.message, "GStreamer initialization failed: no plugins");
    let odd = failure(handler.gst_launch_pipeline(
        launch("fakesrc", None, None),
        BuildOutcome::NotAPipeline,
        StateChangeReply::Async,
    ));
    assert_eq!(odd.message, "Failed to cast to Pipeline");
    assert_eq!(handler.pipeline_manager.len(), 0);

    // a pipeline that the engine refuses to play stays registered
    let stuck = failure(handler.gst_launch_pipeline(
        launch("a ! b", Some("p1"), None),
        BuildOutcome::Built,
        StateChangeReply::Rejected,
    ));
    assert_eq!(stuck.message, "Failed to change pipeline state to Playing");
    assert_eq!(handler.pipeline_manager.get_pipeline("p1").unwrap().info.state, "Null");

    for i in 0..9 {
        handler
            .gst_launch_pipeline(
                launch("a ! b", Some(&format!("q{}", i)), Some(false)),
                BuildOutcome::Built,
                StateChangeReply::Async,
            )
            .unwrap();
    }
    let full = failure(handler.gst_launch_pipeline(
        launch("a ! b", Some("one-more"), None),
        BuildOutcome::Built,
        StateChangeReply::Async,
    ));
    assert_eq!(full.message, "Maximum pipeline limit (10) reached");
    assert_eq!(full.code, -32000);
}

#[test]
fn set_state_reads_the_state_name() {
    let mut handler = GStreamerHandler::new().unwrap();
    handler
        .gst_launch_pipeline(
            launch("a ! b", Some("p1"), Some(false)),
            BuildOutcome::Built,
            StateChangeReply::Async,
        )
        .unwrap();
    let params = |state: &str| SetPipelineStateParams {
        pipeline_id: "p1".to_string(),
        state: state.to_string(),
    };
    let text = handler.gst_set_pipeline_state(&params("PAUSED"), StateChangeReply::Async).unwrap();
    assert_eq!(text, "Pipeline 'p1' state changed to Paused");
    assert_eq!(handler.pipeline_manager.get_pipeline("p1").unwrap().info.state, "Paused");
    let text = handler
        .gst_set_pipeline_state(
            &params("playing"),
            StateChangeReply::Success(PipelineState::Playing),
        )
        .unwrap();
    assert_eq!(text, "Pipeline 'p1' state changed to Playing");

    let invalid = failure(handler.gst_set_pipeline_state(&params("Stopped"), StateChangeReply::Async));
    assert_eq!(invalid.code, INVALID_NAME);
    assert_eq!(
        invalid.message,
        "Invalid state 'Stopped'. Must be one of: null, ready, paused, playing"
    );
    let rejected =
        failure(handler.gst_set_pipeline_state(&params("null"), StateChangeReply::Rejected));
    assert_eq!(rejected.message, "Failed to change pipeline state to Null");
    assert_eq!(handler.pipeline_manager.get_pipeline("p1").unwrap().info.state, "Playing");
    let missing = failure(handler.gst_set_pipeline_state(
        &SetPipelineStateParams { pipeline_id: "p9".to_string(), state: "null".to_string() },
        StateChangeReply::Async,
    ));
    assert_eq!(missing.message, "Pipeline 'p9' not found");
    assert_eq!(missing.code, -32000);

    let mut discovery = handler_in(OperationalMode::Discovery);
    let refused = failure(discovery.gst_set_pipeline_state(&params("null"), StateChangeReply::Async));
    assert_eq!(refused.code, METHOD_NOT_FOUND);
    assert_eq!(
        refused.message,
        "Tool 'gst_set_pipeline_state' is not available in the current mode"
    );
}

#[test]
fn status_text() {
    let status = PipelineStatus {
        id: "p1".to_string(),
        description: "a ! b".to_string(),
        state: "Paused".to_string(),
        pending_state: Some("Playing".to_string()),
        position: 1_500,
        duration: -1,
        error_count: 2,
        warning_count: 0,
        created_at: Timestamp { seconds: 1_431_648_000, nanoseconds: 0 },
        last_state_change: Timestamp { seconds: 1_431_648_001, nanoseconds: 500_000_000 },
    };
    let messages = vec![BusMessage {
        timestamp: Timestamp { seconds: 1_431_648_002, nanoseconds: 0 },
        message_type: "Error".to_string(),
        message: "boom".to_string(),
        source: None,
    }];
    assert_eq!(
        show_status(&status, &messages),
        "Pipeline: p1\nDescription: a ! b\nState: Paused\nPending State: Playing\nPosition: 1500 ns\nErrors: 2, Warnings: 0\nCreated: 2015-05-15 00:00:00 UTC\nLast State Change: 2015-05-15 00:00:01.500 UTC\n\nRecent Messages:\n  [2015-05-15 00:00:02 UTC] Error: boom\n"
    );
    assert_eq!(
        show_status(&status, &Vec::new()),
        "Pipeline: p1\nDescription: a ! b\nState: Paused\nPending State: Playing\nPosition: 1500 ns\nErrors: 2, Warnings: 0\nCreated: 2015-05-15 00:00:00 UTC\nLast State Change: 2015-05-15 00:00:01.500 UTC\n"
    );
    assert_eq!(show_messages(&Vec::new()), "");
}

#[test]
fn times_are_shown_as_chrono_shows_them() {
    assert_eq!(show_time(Timestamp { seconds: 0, nanoseconds: 0 }), "1970-01-01 00:00:00 UTC");
    assert_eq!(
        show_time(Timestamp { seconds: 1_431_648_000, nanoseconds: 123_456_789 }),
        "2015-05-15 00:00:00.123456789 UTC"
    );
    // no time has so many nanoseconds
    assert_eq!(show_time(Timestamp { seconds: 0, nanoseconds: 2_000_000_000 }), "?");
    assert_eq!(show_time(Timestamp { seconds: i64::MAX, nanoseconds: 0 }), "?");
}

#[test]
fn status_of_a_registered_pipeline() {
    let mut handler = GStreamerHandler::new().unwrap();
    handler
        .gst_launch_pipeline(
            launch("a ! b", Some("p1"), None),
            BuildOutcome::Built,
            StateChangeReply::Async,
        )
        .unwrap();
    let monitor = BusHandler::new("p1".to_string());
    for i in 0..12 {
        monitor.handle_message(
            &mut handler.pipeline_manager,
            &RawEvent { kind: EventKind::Buffering { percent: i }, source: None },
        );
    }
    let brief = handler
        .gst_get_pipeline_status(
            &GetPipelineStatusParams { pipeline_id: "p1".to_string(), include_messages: None },
            &playing(),
        )
        .unwrap();
    assert!(brief.starts_with(
        "Pipeline: p1\nDescription: a ! b\nState: Playing\nPosition: 2000000000 ns\nDuration: 10000000000 ns\nErrors: 0, Warnings: 0\nCreated: "
    ));
    assert!(!brief.contains("Recent Messages"));
    assert!(!brief.contains("Pending State"));
    let full = handler
        .gst_get_pipeline_status(
            &GetPipelineStatusParams {
                pipeline_id: "p1".to_string(),
                include_messages: Some(true),
            },
            &playing(),
        )
        .unwrap();
    assert!(full.starts_with(&brief));
    let lines: Vec<&str> = full[brief.len()..].lines().collect();
    // an empty line, the heading, and the last ten messages
    assert_eq!(lines.len(), 12);
    assert_eq!(lines[1], "Recent Messages:");
    assert!(lines[2].ends_with("] Buffering: Buffering: 2%"));
    assert!(lines[11].ends_with("] Buffering: Buffering: 11%"));

    let missing = failure(handler.gst_get_pipeline_status(
        &GetPipelineStatusParams { pipeline_id: "p2".to_string(), include_messages: None },
        &playing(),
    ));
    assert_eq!(missing.message, "Pipeline 'p2' not found");
}

#[test]
fn stop_removes_the_pipeline() {
    let mut handler = GStreamerHandler::new().unwrap();
    handler
        .gst_launch_pipeline(
            launch("a ! b", Some("p1"), None),
            BuildOutcome::Built,
            StateChangeReply::Async,
        )
        .unwrap();
    let params = StopPipelineParams { pipeline_id: "p1".to_string(), force: None };
    assert_eq!(
        handler.gst_stop_pipeline(&params).unwrap(),
        "Pipeline 'p1' stopped and removed successfully"
    );
    assert_eq!(handler.pipeline_manager.len(), 0);
    let again = failure(handler.gst_stop_pipeline(&params));
    assert_eq!(again.message, "Pipeline 'p1' not found");
    assert_eq!(again.code, -32000);
}

fn info(id: &str, state: &str) -> PipelineInfo {
    PipelineInfo {
        id: id.to_string(),
        description: "a ! b".to_string(),
        state: state.to_string(),
        created_at: Timestamp { seconds: 0, nanoseconds: 0 },
        last_state_change: Timestamp { seconds: 0, nanoseconds: 0 },
        error_count: 1,
        warning_count: 2,
    }
}

#[test]
fn listing_text() {
    assert_eq!(show_listing(&Vec::new(), true), "No active pipelines");
    let infos = vec![info("p1", "Null"), info("p2", "Playing")];
    assert_eq!(
        show_listing(&infos, false),
        "Active pipelines: 2\n\n- p1 (Null)\n- p2 (Playing)\n"
    );
    assert_eq!(
        show_listing(&infos[..1].to_vec(), true),
        "Active pipelines: 1\n\nID: p1\n  Description: a ! b\n  State: Null\n  Created: 1970-01-01 00:00:00 UTC\n  Errors: 1, Warnings: 2\n\n"
    );
}

#[test]
fn list_shows_each_pipeline_once() {
    let mut handler = GStreamerHandler::new().unwrap();
    let brief = ListGstPipelinesParams { include_details: None };
    assert_eq!(handler.gst_list_pipelines(&brief).unwrap(), "No active pipelines");
    for id in ["p1", "p2"] {
        handler
            .gst_launch_pipeline(
                launch("a ! b", Some(id), Some(false)),
                BuildOutcome::Built,
                StateChangeReply::Async,
            )
            .unwrap();
    }
    let text = handler.gst_list_pipelines(&brief).unwrap();
    let mut lines: Vec<&str> = text.lines().collect();
    assert_eq!(lines.remove(0), "Active pipelines: 2");
    assert_eq!(lines.remove(0), "");
    lines.sort();
    assert_eq!(lines, vec!["- p1 (Null)", "- p2 (Null)"]);
    let detailed = handler
        .gst_list_pipelines(&ListGstPipelinesParams { include_details: Some(true) })
        .unwrap();
    assert!(detailed.contains("ID: p1\n  Description: a ! b\n  State: Null\n  Created: "));
    assert!(detailed.contains("ID: p2\n"));
}

#[test]
fn validation_never_fails() {
    let handler = GStreamerHandler::new().unwrap();
    let params = ValidatePipelineParams { pipeline_description: "a ! b name=x ! c".to_string() };
    assert_eq!(
        handler.gst_validate_pipeline(&params, &BuildOutcome::Built).unwrap(),
        "Pipeline description is valid!\n\nElements that would be created (3):\n- a\n- b\n- c\n"
    );
    assert_eq!(
        handler
            .gst_validate_pipeline(&params, &BuildOutcome::ParseFailed("no element".to_string()))
            .unwrap(),
        "Pipeline validation failed:\nInvalid pipeline description: no element"
    );
    assert_eq!(
        handler
            .gst_validate_pipeline(&params, &BuildOutcome::NotInitialized("down".to_string()))
            .unwrap(),
        "Pipeline validation failed:\nGStreamer initialization failed: down"
    );
    assert_eq!(
        show_valid(&Vec::new()),
        "Pipeline description is valid!\n\nElements that would be created (0):\n"
    );
}

fn element(name: &str, classification: &str) -> ElementInfo {
    ElementInfo {
        name: name.to_string(),
        description: format!("{} element", name),
        plugin_name: "core".to_string(),
        rank: "None".to_string(),
        classification: classification.to_string(),
    }
}

#[test]
fn elements_are_listed_from_the_cache_once_it_is_filled() {
    let mut handler = GStreamerHandler::new().unwrap();
    let all = ListElementsParams { filter: None, category: None };
    let text = handler
        .gst_list_elements(&all, Ok(vec![element("tee", "Generic"), element("fakesink", "Sink")]))
        .unwrap();
    assert_eq!(
        text,
        "Found 2 elements:\n\n- tee (tee element)\n  Plugin: core, Rank: None\n- fakesink (fakesink element)\n  Plugin: core, Rank: None\n"
    );
    assert!(!handler.needs_elements());
    // what is discovered later is not looked at
    let sinks = ListElementsParams { filter: Some("SINK".to_string()), category: None };
    let text = handler.gst_list_elements(&sinks, Ok(vec![element("autovideosink", "Sink")])).unwrap();
    assert_eq!(
        text,
        "Found 1 elements:\n\n- fakesink (fakesink element)\n  Plugin: core, Rank: None\n"
    );
    let none = ListElementsParams { filter: None, category: Some("codec".to_string()) };
    assert_eq!(
        handler.gst_list_elements(&none, Ok(Vec::new())).unwrap(),
        "No elements found matching the criteria."
    );
}

#[test]
fn without_the_cache_every_listing_shows_what_was_discovered() {
    let mut config = Configuration::default();
    config.cache_enabled = false;
    let mut handler = GStreamerHandler::with_config(config).unwrap();
    let all = ListElementsParams { filter: None, category: None };
    handler.gst_list_elements(&all, Ok(vec![element("tee", "Generic")])).unwrap();
    assert!(handler.needs_elements());
    let text = handler.gst_list_elements(&all, Ok(vec![element("queue", "Generic")])).unwrap();
    assert!(text.contains("- queue"));
    let failed = failure(
        handler.gst_list_elements(&all, Err(GStreamerMcpError::RegistryError("gone".to_string()))),
    );
    assert_eq!(failed.code, -32005);
    assert_eq!(failed.message, "Registry access failed: gone");
}

#[test]
fn a_listing_can_be_switched_off() {
    let mut config = Configuration::default();
    config.excluded_tools = Some(vec!["gst_list_elements".to_string()]);
    let mut handler = GStreamerHandler::with_config(config).unwrap();
    let refused = failure(handler.gst_list_elements(
        &ListElementsParams { filter: None, category: None },
        Ok(vec![element("tee", "Generic")]),
    ));
    assert_eq!(refused.code, METHOD_NOT_FOUND);
    assert_eq!(refused.message, "Tool 'gst_list_elements' is not available in the current mode");
    assert!(handler.needs_elements());
}

#[test]
fn plugins_search_and_inspection() {
    let mut handler = GStreamerHandler::new().unwrap();
    let core = PluginInfo {
        name: "coreelements".to_string(),
        description: "Core".to_string(),
        filename: Some("/usr/lib/libgstcoreelements.so".to_string()),
        version: "1.24".to_string(),
        license: "LGPL".to_string(),
        source: "gstreamer".to_string(),
        elements: vec!["tee".to_string()],
    };
    let text = handler
        .gst_list_plugins(&ListPluginsParams { filter: Some("core".to_string()) }, Ok(vec![core]))
        .unwrap();
    assert_eq!(
        text,
        "Found 1 plugins:\n\n- coreelements (v1.24) - Core\n  License: LGPL, Source: gstreamer\n  Elements: tee\n\n"
    );
    assert!(!handler.needs_plugins());
    assert_eq!(
        handler
            .gst_list_plugins(&ListPluginsParams { filter: Some("video".to_string()) }, Ok(vec![]))
            .unwrap(),
        "No plugins found matching the criteria."
    );

    handler.config.max_search_results = 1;
    let text = handler
        .gst_search_elements(
            &SearchElementsParams { query: "sink".to_string() },
            Ok(vec![element("fakesink", "Sink"), element("sink", "Sink")]),
        )
        .unwrap();
    assert_eq!(
        text,
        "Found 1 elements matching 'sink':\n\n- sink (sink element)\n  Plugin: core, Classification: Sink\n"
    );
    let failed = failure(handler.gst_search_elements(
        &SearchElementsParams { query: "sink".to_string() },
        Err(GStreamerMcpError::GStreamerInit("down".to_string())),
    ));
    assert_eq!(failed.code, -32004);

    let params = InspectElementParams { element_name: "nope".to_string() };
    let inspected = gstreamer_mcp::discovery::inspect_element("nope", InspectOutcome::NoSuchElement);
    let missing = failure(handler.gst_inspect_element(&params, inspected));
    assert_eq!(missing.code, -32001);
    assert_eq!(missing.message, "Element not found: nope");
}
