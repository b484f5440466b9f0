use gstreamer_mcp::bus_handler::{
    classify, create_blocking_bus_handler, failure_text, message_to_bus_message, poll_seconds,
    BusHandler, EventKind, EventSource, RawEvent, WatchAction, WatchSignal,
    DEFAULT_POLL_SECONDS,
};
use gstreamer_mcp::pipeline::{BuildOutcome, PipelineManager, PipelineState, Timestamp};

fn noon() -> Timestamp {
    Timestamp { seconds: 43_200, nanoseconds: 5 }
}

fn from_element(kind: EventKind) -> RawEvent {
    RawEvent {
        kind,
        source: Some(EventSource {
            path: "/GstPipeline:pipeline0/GstFakeSrc:fakesrc0".to_string(),
            class_name: "GstFakeSrc".to_string(),
        }),
    }
}

fn from_pipeline(kind: EventKind) -> RawEvent {
    RawEvent {
        kind,
        source: Some(EventSource {
            path: "/GstPipeline:pipeline0".to_string(),
            class_name: "GstPipeline".to_string(),
        }),
    }
}

fn manager_with(id: &str) -> PipelineManager {
    let mut manager = PipelineManager::new(4);
    manager
        .create_pipeline("fakesrc ! fakesink", Some(id.to_string()), BuildOutcome::Built)
        .unwrap();
    manager
}

fn state_change() -> EventKind {
    EventKind::StateChanged { old: PipelineState::Null, current: PipelineState::Ready }
}

#[test]
fn element_state_changes_give_no_record() {
    assert!(classify(&from_element(state_change()), noon()).is_none());
    assert!(classify(&RawEvent { kind: state_change(), source: None }, noon()).is_none());
}

#[test]
fn pipeline_state_changes_give_a_record() {
    let record = classify(&from_pipeline(state_change()), noon()).unwrap();
    assert_eq!(record.message_type, "StateChanged");
    assert_eq!(record.message, "State changed from Null to Ready");
    assert_eq!(record.source, Some("/GstPipeline:pipeline0".to_string()));
    assert_eq!(record.timestamp, noon());
}

#[test]
fn errors_and_warnings_name_source_text_and_detail() {
    let error = from_element(EventKind::Error {
        error: "Internal data stream error.".to_string(),
        debug: Some("streaming stopped, reason \"not-linked\" (-1)".to_string()),
    });
    let record = classify(&error, noon()).unwrap();
    assert_eq!(record.message_type, "Error");
    assert_eq!(
        record.message,
        "Error from Some(\"/GstPipeline:pipeline0/GstFakeSrc:fakesrc0\"): Internal data stream error. (Some(\"streaming stopped, reason \\\"not-linked\\\" (-1)\"))"
    );
    assert_eq!(
        record.source,
        Some("/GstPipeline:pipeline0/GstFakeSrc:fakesrc0".to_string())
    );

    let warning = RawEvent {
        kind: EventKind::Warning { error: "slow".to_string(), debug: None },
        source: None,
    };
    let record = classify(&warning, noon()).unwrap();
    assert_eq!(record.message_type, "Warning");
    assert_eq!(record.message, "Warning from None: slow (None)");
    assert_eq!(record.source, None);
}

#[test]
fn every_other_known_kind_gives_its_own_text() {
    let cases: Vec<(EventKind, &str, &str)> = vec![
        (EventKind::Eos, "Eos", "End of stream"),
        (EventKind::Buffering { percent: 42 }, "Buffering", "Buffering: 42%"),
        (EventKind::Buffering { percent: 0 }, "Buffering", "Buffering: 0%"),
        (EventKind::Buffering { percent: -7 }, "Buffering", "Buffering: -7%"),
        (
            EventKind::Buffering { percent: i32::MIN },
            "Buffering",
            "Buffering: -2147483648%",
        ),
        (
            EventKind::Tag { tags: "TagList { title: \"x\" }".to_string() },
            "Tag",
            "Tags: TagList { title: \"x\" }",
        ),
        (
            EventKind::StreamStatus { status: "Enter".to_string() },
            "StreamStatus",
            "Stream status: Enter",
        ),
        (EventKind::Application, "Application", "Application-specific message"),
        (EventKind::Element, "Element", "Element-specific message"),
        (EventKind::DurationChanged, "DurationChanged", "Duration changed"),
        (EventKind::Latency, "Latency", "Latency update"),
    ];
    for (kind, name, text) in cases {
        let record = classify(&from_element(kind), noon()).unwrap();
        assert_eq!(record.message_type, name);
        assert_eq!(record.message, text);
        assert_eq!(record.timestamp, noon());
    }
}

#[test]
fn unknown_kinds_give_no_record() {
    let event = from_pipeline(EventKind::Other { name: "NewClock".to_string() });
    assert!(classify(&event, noon()).is_none());
}

#[test]
fn failure_text_joins_its_parts() {
    assert_eq!(failure_text("Error from ", "None", "boom", "None"), "Error from None: boom (None)");
}

#[test]
fn the_monitor_records_and_counts() {
    let mut manager = manager_with("p");
    let handler = BusHandler::new("p".to_string());
    assert_eq!(handler.pipeline_id(), "p");
    handler.handle_message(
        &mut manager,
        &from_element(EventKind::Error { error: "boom".to_string(), debug: None }),
    );
    handler.handle_message(
        &mut manager,
        &from_element(EventKind::Warning { error: "hm".to_string(), debug: None }),
    );
    handler.handle_message(&mut manager, &from_element(state_change()));
    handler.handle_message(&mut manager, &from_pipeline(state_change()));
    handler.handle_message(
        &mut manager,
        &from_pipeline(EventKind::Other { name: "AsyncDone".to_string() }),
    );
    let entry = manager.get_pipeline("p").unwrap();
    assert_eq!(entry.info.error_count, 1);
    assert_eq!(entry.info.warning_count, 1);
    assert_eq!(entry.bus_messages.len(), 3);
    assert_eq!(entry.bus_messages[0].message_type, "Error");
    assert_eq!(entry.bus_messages[1].message_type, "Warning");
    assert_eq!(entry.bus_messages[2].message_type, "StateChanged");
}

#[test]
fn the_watch_goes_on_until_the_stream_ends() {
    let mut manager = manager_with("p");
    let mut handler = BusHandler::new("p".to_string());
    assert!(handler.watching());
    let action = handler.watch_pipeline(
        &mut manager,
        WatchSignal::Message(from_element(EventKind::Buffering { percent: 10 })),
    );
    assert_eq!(action, WatchAction::Continue);
    assert!(handler.watching());
    // an error does not end the watch
    let action = handler.watch_pipeline(
        &mut manager,
        WatchSignal::Message(from_element(EventKind::Error {
            error: "boom".to_string(),
            debug: None,
        })),
    );
    assert_eq!(action, WatchAction::Continue);
    let action = handler.watch_pipeline(&mut manager, WatchSignal::Message(from_pipeline(EventKind::Eos)));
    assert_eq!(action, WatchAction::Stop);
    assert!(!handler.watching());
    assert_eq!(manager.get_pipeline("p").unwrap().bus_messages.len(), 3);
    assert_eq!(manager.get_pipeline("p").unwrap().bus_messages[2].message_type, "Eos");
    // once stopped, nothing more is recorded
    let action = handler.watch_pipeline(
        &mut manager,
        WatchSignal::Message(from_element(EventKind::Latency)),
    );
    assert_eq!(action, WatchAction::Stop);
    assert_eq!(manager.get_pipeline("p").unwrap().bus_messages.len(), 3);
}

#[test]
fn shutdown_and_the_end_of_events_stop_the_watch() {
    let mut manager = manager_with("p");
    let mut handler = BusHandler::new("p".to_string());
    assert_eq!(handler.watch_pipeline(&mut manager, WatchSignal::Shutdown), WatchAction::Stop);
    assert!(!handler.watching());
    let mut handler = BusHandler::new("p".to_string());
    assert_eq!(handler.watch_pipeline(&mut manager, WatchSignal::StreamEnded), WatchAction::Stop);
    assert!(!handler.watching());
    assert!(manager.get_pipeline("p").unwrap().bus_messages.is_empty());
}

#[test]
fn the_blocking_monitor_records_every_kind() {
    let record = message_to_bus_message(&from_pipeline(state_change()), noon());
    assert_eq!(record.message_type, "StateChanged");
    assert_eq!(record.message, "Message received");
    assert_eq!(record.source, Some("/GstPipeline:pipeline0".to_string()));
    let record = message_to_bus_message(
        &from_element(EventKind::Other { name: "NewClock".to_string() }),
        noon(),
    );
    assert_eq!(record.message_type, "NewClock");
    assert_eq!(record.message, "Message received");
    let record = message_to_bus_message(&from_element(EventKind::Eos), noon());
    assert_eq!(record.message_type, "Eos");
    assert_eq!(record.message, "End of stream");
    let record = message_to_bus_message(
        &from_element(EventKind::Error {
            error: "boom".to_string(),
            debug: Some("why".to_string()),
        }),
        noon(),
    );
    assert_eq!(record.message_type, "Error");
    assert_eq!(record.message, "Error: boom (Some(\"why\"))");
    let record = message_to_bus_message(
        &from_element(EventKind::Warning { error: "hm".to_string(), debug: None }),
        noon(),
    );
    assert_eq!(record.message_type, "Warning");
    assert_eq!(record.message, "Warning: hm (None)");
    assert_eq!(record.timestamp, noon());
}

#[test]
fn the_blocking_monitor_stops_on_eos_error_and_timeout() {
    let mut manager = manager_with("p");
    assert_eq!(
        create_blocking_bus_handler(&mut manager, "p", Some(from_element(state_change()))),
        WatchAction::Continue
    );
    assert_eq!(
        create_blocking_bus_handler(
            &mut manager,
            "p",
            Some(from_element(EventKind::Warning { error: "hm".to_string(), debug: None }))
        ),
        WatchAction::Continue
    );
    assert_eq!(
        create_blocking_bus_handler(
            &mut manager,
            "p",
            Some(from_element(EventKind::Error { error: "boom".to_string(), debug: None }))
        ),
        WatchAction::Stop
    );
    assert_eq!(
        create_blocking_bus_handler(&mut manager, "p", Some(from_pipeline(EventKind::Eos))),
        WatchAction::Stop
    );
    assert_eq!(create_blocking_bus_handler(&mut manager, "p", None), WatchAction::Stop);
    let entry = manager.get_pipeline("p").unwrap();
    assert_eq!(entry.bus_messages.len(), 4);
    assert_eq!(entry.info.error_count, 1);
    assert_eq!(entry.info.warning_count, 1);
}

#[test]
fn the_poll_waits_five_seconds_unless_told_otherwise() {
    assert_eq!(DEFAULT_POLL_SECONDS, 5);
    assert_eq!(poll_seconds(None), 5);
    assert_eq!(poll_seconds(Some(2)), 2);
    assert_eq!(poll_seconds(Some(0)), 0);
}
