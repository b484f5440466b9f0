use gstreamer_mcp::discovery::{
    ElementInfo, ElementReport, InspectOutcome, PadTemplateInfo, PropertyInfo,
};
use gstreamer_mcp::error::GStreamerMcpError;
use gstreamer_mcp::pipeline::{
    BuildOutcome, BusMessage, EngineReading, PipelineManager, PipelineState, StateChangeReply,
    Timestamp,
};
use gstreamer_mcp::repl::{
    execute_help, execute_inspect, execute_launch, execute_list, execute_search,
    execute_state, execute_status, execute_stop, execute_validate, resolve_pipeline_id,
    show_pipelines, show_results, ReplCommand, ReplLine, HELP_TEXT,
};

fn read(line: &str) -> Result<ReplCommand, String> {
    ReplCommand::parse(line)
}

#[test]
fn commands_without_arguments() {
    for line in ["help", "h", "?", "HELP", "", "   ", "help me please"] {
        assert!(matches!(read(line), Ok(ReplCommand::Help)), "{:?}", line);
    }
    for line in ["list", "ls", "pipelines", " LS "] {
        assert!(matches!(read(line), Ok(ReplCommand::List)), "{:?}", line);
    }
    for line in ["exit", "quit", "q", "Quit now"] {
        assert!(matches!(read(line), Ok(ReplCommand::Exit)), "{:?}", line);
    }
}

#[test]
fn commands_that_take_the_rest_of_the_line() {
    match read("launch  videotestsrc   !  autovideosink") {
        Ok(ReplCommand::Launch(description)) => {
            assert_eq!(description, "videotestsrc ! autovideosink")
        }
        other => panic!("{:?}", other),
    }
    match read("l fakesrc") {
        Ok(ReplCommand::Launch(description)) => assert_eq!(description, "fakesrc"),
        other => panic!("{:?}", other),
    }
    match read("search video sink") {
        Ok(ReplCommand::Search(query)) => assert_eq!(query, "video sink"),
        other => panic!("{:?}", other),
    }
    match read("V a ! b") {
        Ok(ReplCommand::Validate(description)) => assert_eq!(description, "a ! b"),
        other => panic!("{:?}", other),
    }
    match read("validate a") {
        Ok(ReplCommand::Validate(description)) => assert_eq!(description, "a"),
        other => panic!("{:?}", other),
    }
}

#[test]
fn commands_that_take_words() {
    match read("stop p1") {
        Ok(ReplCommand::Stop(id)) => assert_eq!(id, "p1"),
        other => panic!("{:?}", other),
    }
    match read("s last") {
        Ok(ReplCommand::Stop(id)) => assert_eq!(id, "last"),
        other => panic!("{:?}", other),
    }
    match read("status P1") {
        Ok(ReplCommand::Status(id)) => assert_eq!(id, "P1"),
        other => panic!("{:?}", other),
    }
    match read("stat .") {
        Ok(ReplCommand::Status(id)) => assert_eq!(id, "."),
        other => panic!("{:?}", other),
    }
    match read("state p1 PLAYING") {
        Ok(ReplCommand::State(id, state)) => {
            assert_eq!(id, "p1");
            assert_eq!(state, "PLAYING");
        }
        other => panic!("{:?}", other),
    }
    match read("inspect fakesink") {
        Ok(ReplCommand::Inspect(element)) => assert_eq!(element, "fakesink"),
        other => panic!("{:?}", other),
    }
    match read("i fakesink") {
        Ok(ReplCommand::Inspect(element)) => assert_eq!(element, "fakesink"),
        other => panic!("{:?}", other),
    }
}

fn complaint(line: &str) -> String {
    match read(line) {
        Err(text) => text,
        Ok(command) => panic!("{:?} gave {:?}", line, command),
    }
}

#[test]
fn complaints() {
    assert_eq!(complaint("launch"), "Usage: launch <pipeline-description>");
    assert_eq!(complaint("l"), "Usage: launch <pipeline-description>");
    assert_eq!(complaint("stop"), "Usage: stop <pipeline-id>");
    assert_eq!(complaint("stop a b"), "Usage: stop <pipeline-id>");
    assert_eq!(complaint("status"), "Usage: status <pipeline-id>");
    assert_eq!(complaint("stat a b"), "Usage: status <pipeline-id>");
    assert_eq!(
        complaint("state p1"),
        "Usage: state <pipeline-id> <null|ready|paused|playing>"
    );
    assert_eq!(
        complaint("state p1 playing now"),
        "Usage: state <pipeline-id> <null|ready|paused|playing>"
    );
    assert_eq!(complaint("inspect"), "Usage: inspect <element-name>");
    assert_eq!(complaint("i a b"), "Usage: inspect <element-name>");
    assert_eq!(complaint("search"), "Usage: search <query>");
    assert_eq!(complaint("validate"), "Usage: validate <pipeline-description>");
    assert_eq!(
        complaint("Frobnicate now"),
        "Unknown command: Frobnicate. Type 'help' for available commands."
    );
}

#[test]
fn last_and_dot_stand_for_the_last_pipeline() {
    let last = Some("pipeline-7".to_string());
    assert_eq!(resolve_pipeline_id("last", &last), Ok("pipeline-7".to_string()));
    assert_eq!(resolve_pipeline_id(".", &last), Ok("pipeline-7".to_string()));
    assert_eq!(resolve_pipeline_id("p1", &last), Ok("p1".to_string()));
    assert_eq!(resolve_pipeline_id("p1", &None), Ok("p1".to_string()));
    assert_eq!(resolve_pipeline_id("Last", &None), Ok("Last".to_string()));
    assert_eq!(
        resolve_pipeline_id("last", &None),
        Err("No pipeline has been launched yet".to_string())
    );
    assert_eq!(
        resolve_pipeline_id(".", &None),
        Err("No pipeline has been launched yet".to_string())
    );
}

fn texts(lines: &[ReplLine]) -> Vec<(bool, &str)> {
    lines.iter().map(|line| (line.failure, line.text.as_str())).collect()
}

fn manager_with(ids: &[&str]) -> PipelineManager {
    let mut manager = PipelineManager::new(3);
    for id in ids {
        manager
            .create_pipeline("fakesrc ! fakesink", Some(id.to_string()), BuildOutcome::Built)
            .unwrap();
    }
    manager
}

#[test]
fn help_is_one_block_of_sixteen_lines() {
    let lines = execute_help();
    assert_eq!(lines.len(), 1);
    assert!(!lines[0].failure);
    assert_eq!(lines[0].text, HELP_TEXT);
    let printed: Vec<&str> = HELP_TEXT.lines().collect();
    assert_eq!(printed.len(), 16);
    assert_eq!(printed[0], "Available commands:");
    assert_eq!(printed[1], "  help, h, ?                    - Show this help message");
    assert_eq!(printed[11], "");
    assert_eq!(printed[15], "  - Example: launch videotestsrc ! autovideosink");
}

#[test]
fn list_command() {
    assert_eq!(texts(&execute_list(&manager_with(&[]))), vec![(false, "No active pipelines")]);
    assert_eq!(
        texts(&execute_list(&manager_with(&["p1"]))),
        vec![
            (false, "Active pipelines:"),
            (false, "  p1 - State: Null, Description: fakesrc ! fakesink")
        ]
    );
    assert_eq!(show_pipelines(&manager_with(&["a", "b"]).list_pipelines()).len(), 3);
}

#[test]
fn launch_command() {
    let mut manager = manager_with(&[]);
    let mut last = None;
    let lines = execute_launch(
        &mut manager,
        &mut last,
        "videotestsrc ! fakesink",
        BuildOutcome::Built,
        StateChangeReply::Async,
    );
    let id = last.clone().unwrap();
    assert!(id.starts_with("pipeline-"));
    assert_eq!(
        texts(&lines),
        vec![(false, format!("Pipeline launched successfully with ID: {}", id).as_str())]
    );
    assert_eq!(manager.get_pipeline(&id).unwrap().info.state, "Playing");

    // a pipeline that the engine refuses to play is remembered all the same
    let lines = execute_launch(
        &mut manager,
        &mut last,
        "a ! b",
        BuildOutcome::Built,
        StateChangeReply::Rejected,
    );
    assert_eq!(
        texts(&lines),
        vec![(
            true,
            "Pipeline created but failed to play: Failed to change pipeline state to Playing"
        )]
    );
    let second = last.clone().unwrap();
    assert_ne!(second, id);
    assert_eq!(manager.get_pipeline(&second).unwrap().info.state, "Null");

    let lines = execute_launch(
        &mut manager,
        &mut last,
        "a ! ! b",
        BuildOutcome::ParseFailed("syntax error".to_string()),
        StateChangeReply::Async,
    );
    assert_eq!(
        texts(&lines),
        vec![(true, "Failed to launch pipeline: Failed to parse pipeline: syntax error")]
    );
    assert_eq!(last, Some(second));
    assert_eq!(manager.len(), 2);
    manager.create_pipeline("x", Some("third".to_string()), BuildOutcome::Built).unwrap();
    let lines = execute_launch(
        &mut manager,
        &mut last,
        "a ! b",
        BuildOutcome::Built,
        StateChangeReply::Async,
    );
    assert_eq!(
        texts(&lines),
        vec![(true, "Failed to launch pipeline: Maximum pipeline limit (3) reached")]
    );
}

#[test]
fn stop_command() {
    let mut manager = manager_with(&["p1", "p2"]);
    let mut last = Some("p2".to_string());
    let lines = execute_stop(&mut manager, &mut last, "p1").unwrap();
    assert_eq!(texts(&lines), vec![(false, "Pipeline p1 stopped")]);
    assert_eq!(last, Some("p2".to_string()));
    let lines = execute_stop(&mut manager, &mut last, "last").unwrap();
    assert_eq!(texts(&lines), vec![(false, "Pipeline p2 stopped")]);
    assert_eq!(last, None);
    assert_eq!(manager.len(), 0);
    assert_eq!(
        execute_stop(&mut manager, &mut last, ".").unwrap_err(),
        "No pipeline has been launched yet"
    );
    let lines = execute_stop(&mut manager, &mut last, "p1").unwrap();
    assert_eq!(texts(&lines), vec![(true, "Failed to stop pipeline: Pipeline 'p1' not found")]);
}

#[test]
fn status_command() {
    let mut manager = manager_with(&["p1"]);
    manager.add_bus_message(
        "p1",
        BusMessage {
            timestamp: Timestamp { seconds: 0, nanoseconds: 0 },
            message_type: "Error".to_string(),
            message: "boom".to_string(),
            source: None,
        },
    );
    let reading = EngineReading {
        current: PipelineState::Paused,
        pending: PipelineState::Playing,
        position: Some(1_500),
        duration: Some(0),
    };
    let lines = execute_status(&manager, &None, "p1", &reading).unwrap();
    assert_eq!(
        texts(&lines),
        vec![
            (false, "Pipeline p1 status:"),
            (false, "  State: \"Paused\""),
            (false, "  Pending: Some(\"Playing\")"),
            (false, "  Position: 1500s"),
            (false, "  Errors: 1, Warnings: 0"),
        ]
    );
    let resting = EngineReading {
        current: PipelineState::Null,
        pending: PipelineState::VoidPending,
        position: None,
        duration: Some(7),
    };
    let lines = execute_status(&manager, &Some("p1".to_string()), ".", &resting).unwrap();
    assert_eq!(
        texts(&lines),
        vec![
            (false, "Pipeline p1 status:"),
            (false, "  State: \"Null\""),
            (false, "  Pending: None"),
            (false, "  Duration: 7s"),
            (false, "  Errors: 1, Warnings: 0"),
        ]
    );
    let lines = execute_status(&manager, &None, "p9", &resting).unwrap();
    assert_eq!(
        texts(&lines),
        vec![(true, "Failed to get pipeline status: Pipeline 'p9' not found")]
    );
    assert_eq!(
        execute_status(&manager, &None, "last", &resting).unwrap_err(),
        "No pipeline has been launched yet"
    );
}

#[test]
fn state_command() {
    let mut manager = manager_with(&["p1"]);
    let last = Some("p1".to_string());
    let lines =
        execute_state(&mut manager, &last, "last", "PLAYING", StateChangeReply::Async).unwrap();
    assert_eq!(texts(&lines), vec![(false, "Pipeline p1 state changed to: Playing")]);
    assert_eq!(manager.get_pipeline("p1").unwrap().info.state, "Playing");
    let lines = execute_state(
        &mut manager,
        &last,
        "p1",
        "paused",
        StateChangeReply::Success(PipelineState::Ready),
    )
    .unwrap();
    assert_eq!(texts(&lines), vec![(false, "Pipeline p1 state changed to: Ready")]);
    let lines =
        execute_state(&mut manager, &last, "p1", "halted", StateChangeReply::Async).unwrap();
    assert_eq!(
        texts(&lines),
        vec![(true, "Invalid state: halted. Use null, ready, paused, or playing")]
    );
    let lines =
        execute_state(&mut manager, &last, "p1", "null", StateChangeReply::Rejected).unwrap();
    assert_eq!(
        texts(&lines),
        vec![(true, "Failed to change pipeline state: Failed to change pipeline state to Null")]
    );
    let lines = execute_state(&mut manager, &last, "p2", "null", StateChangeReply::Async).unwrap();
    assert_eq!(
        texts(&lines),
        vec![(true, "Failed to change pipeline state: Pipeline 'p2' not found")]
    );
    assert_eq!(manager.get_pipeline("p1").unwrap().info.state, "Paused");
    assert_eq!(
        execute_state(&mut manager, &None, ".", "null", StateChangeReply::Async).unwrap_err(),
        "No pipeline has been launched yet"
    );
}

fn element(name: &str, classification: &str) -> ElementInfo {
    ElementInfo {
        name: name.to_string(),
        description: format!("{} element", name),
        plugin_name: "core".to_string(),
        rank: "None".to_string(),
        classification: classification.to_string(),
    }
}

#[test]
fn search_command() {
    assert_eq!(
        texts(&execute_search("xyz", Ok(vec![element("tee", "Generic")]))),
        vec![(false, "No elements found matching 'xyz'")]
    );
    assert_eq!(
        texts(&execute_search("sink", Ok(vec![element("fakesink", "Sink"), element("sink", "Sink")]))),
        vec![
            (false, "Elements matching 'sink':"),
            (false, "  sink - Sink"),
            (false, "  fakesink - Sink"),
        ]
    );
    let many: Vec<ElementInfo> = (0..12).map(|i| element(&format!("sink{}", i), "Sink")).collect();
    let lines = execute_search("sink", Ok(many));
    assert_eq!(lines.len(), 12);
    assert_eq!(lines[1].text, "  sink0 - Sink");
    assert_eq!(lines[10].text, "  sink9 - Sink");
    assert_eq!(lines[11].text, "  ... and 2 more");
    let ten: Vec<ElementInfo> = (0..10).map(|i| element(&format!("sink{}", i), "Sink")).collect();
    assert_eq!(show_results(&ten, "sink").len(), 11);
    let crowd: Vec<ElementInfo> = (0..150).map(|i| element(&format!("sink{}", i), "Sink")).collect();
    let lines = execute_search("sink", Ok(crowd));
    assert_eq!(lines[11].text, "  ... and 90 more");
    assert_eq!(
        texts(&execute_search("x", Err(GStreamerMcpError::RegistryError("gone".to_string())))),
        vec![(true, "Failed to search elements: Registry access failed: gone")]
    );
}

#[test]
fn validate_command() {
    assert_eq!(
        texts(&execute_validate("a ! b name=x ! c", &BuildOutcome::Built)),
        vec![
            (false, "Pipeline is valid!"),
            (false, "Elements that would be created:"),
            (false, "  - a"),
            (false, "  - b"),
            (false, "  - c"),
        ]
    );
    assert_eq!(
        texts(&execute_validate("a ! ! b", &BuildOutcome::ParseFailed("bad".to_string()))),
        vec![(false, "Pipeline is invalid: Invalid pipeline description: bad")]
    );
    assert_eq!(
        texts(&execute_validate("a", &BuildOutcome::NotInitialized("down".to_string()))),
        vec![(false, "Pipeline is invalid: GStreamer initialization failed: down")]
    );
}

#[test]
fn inspect_command() {
    let report = ElementReport {
        description: "Fake Sink".to_string(),
        plugin_name: None,
        rank: "None".to_string(),
        classification: "Sink".to_string(),
        properties: vec![
            PropertyInfo {
                name: "sync".to_string(),
                value_type: "gboolean".to_string(),
                description: "Sync on the clock".to_string(),
                flags: Vec::new(),
                default_value: None,
            },
            PropertyInfo {
                name: "async".to_string(),
                value_type: "gboolean".to_string(),
                description: "Go asynchronously to PAUSED".to_string(),
                flags: Vec::new(),
                default_value: None,
            },
        ],
        pad_templates: vec![PadTemplateInfo {
            name: "sink".to_string(),
            direction: "Sink".to_string(),
            presence: "Always".to_string(),
            caps: "ANY".to_string(),
        }],
        signals: Vec::new(),
    };
    assert_eq!(
        texts(&execute_inspect("fakesink", InspectOutcome::Found(report))),
        vec![
            (false, "Element: fakesink"),
            (false, "Description: Fake Sink"),
            (false, "Classification: Sink"),
            (false, "\nProperties:"),
            (false, "  async (gboolean) - Go asynchronously to PAUSED"),
            (false, "  sync (gboolean) - Sync on the clock"),
            (false, "\nPad Templates:"),
            (false, "  sink (\"Sink\") - Caps: ANY"),
        ]
    );
    assert_eq!(
        texts(&execute_inspect("nope", InspectOutcome::NoSuchElement)),
        vec![(true, "Failed to inspect element: Element not found: nope")]
    );
    assert_eq!(
        texts(&execute_inspect("odd", InspectOutcome::BuildFailed("no memory".to_string()))),
        vec![(true, "Failed to inspect element: Element not found: odd: no memory")]
    );
    assert_eq!(
        texts(&execute_inspect("any", InspectOutcome::NotInitialized("down".to_string()))),
        vec![(true, "Failed to inspect element: GStreamer initialization failed: down")]
    );
}
