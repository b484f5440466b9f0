//! The bus monitor: what to make of each event that a pipeline's engine reports, and when
//! to stop listening.

use crate::error::prefixed;
use crate::pipeline::{BusMessage, BusMessageView, PipelineInstanceView, PipelineManager, PipelineState, Timestamp, current_time};
use crate::text::{debug_of_optional_text, debug_optional_text, decimal_text, optional_text, signed_decimal};
use vstd::prelude::*;
use vstd::string::*;

verus! {

/// Seconds that one poll of the blocking monitor waits where no other wait is asked for.
pub const DEFAULT_POLL_SECONDS: u64 = 5;

/// The component that reported an event.
#[derive(Debug)]
pub struct EventSource {
    /// Its path within the pipeline.
    pub path: String,
    /// The name of its type; `GstPipeline` for the pipeline itself.
    pub class_name: String,
}

/// What an event says, by kind.
#[derive(Debug)]
pub enum EventKind {
    Eos,
    /// An error, with its text and the engine's debug detail.
    Error { error: String, debug: Option<String> },
    /// A warning, with its text and the engine's debug detail.
    Warning { error: String, debug: Option<String> },
    StateChanged { old: PipelineState, current: PipelineState },
    Buffering { percent: i32 },
    /// Tags, as the engine renders them.
    Tag { tags: String },
    /// A stream status, as the engine renders its type.
    StreamStatus { status: String },
    Application,
    Element,
    DurationChanged,
    Latency,
    /// Any other kind, with the name of its message type.
    Other { name: String },
}

/// One event from a pipeline's engine.
#[derive(Debug)]
pub struct RawEvent {
    pub kind: EventKind,
    /// The component that reported it, where known.
    pub source: Option<EventSource>,
}

impl RawEvent {
    /// The path of the reporting component, where known.
    pub open spec fn source_path(self) -> Option<Seq<char>> {
        match self.source {
            Some(source) => Some(source.path@),
            None => None,
        }
    }

    /// Whether the pipeline itself reported the event, not one of its elements.
    pub open spec fn from_pipeline(self) -> bool {
        self.source matches Some(source) && source.class_name@ == "GstPipeline"@
    }

    /// The name of the event's message type.
    pub open spec fn kind_text(self) -> Seq<char> {
        match self.kind {
            EventKind::Eos => "Eos"@,
            EventKind::Error { .. } => "Error"@,
            EventKind::Warning { .. } => "Warning"@,
            EventKind::StateChanged { .. } => "StateChanged"@,
            EventKind::Buffering { .. } => "Buffering"@,
            EventKind::Tag { .. } => "Tag"@,
            EventKind::StreamStatus { .. } => "StreamStatus"@,
            EventKind::Application => "Application"@,
            EventKind::Element => "Element"@,
            EventKind::DurationChanged => "DurationChanged"@,
            EventKind::Latency => "Latency"@,
            EventKind::Other { name } => name@,
        }
    }

    /// Whether the monitor keeps a record of the event: not of a state change that an
    /// element reports, and not of a kind the monitor does not know.
    pub open spec fn of_interest(self) -> bool {
        match self.kind {
            EventKind::StateChanged { .. } => self.from_pipeline(),
            EventKind::Other { .. } => false,
            _ => true,
        }
    }

    /// The text that the monitor records for the event.
    pub open spec fn monitor_text(self) -> Seq<char> {
        match self.kind {
            EventKind::Eos => "End of stream"@,
            EventKind::Error { error, debug } => "Error from "@ + debug_of_optional_text(
                self.source_path(),
            ) + ": "@ + error@ + " ("@ + debug_of_optional_text(optional_text(debug)) + ")"@,
            EventKind::Warning { error, debug } => "Warning from "@ + debug_of_optional_text(
                self.source_path(),
            ) + ": "@ + error@ + " ("@ + debug_of_optional_text(optional_text(debug)) + ")"@,
            EventKind::StateChanged { old, current } => "State changed from "@ + old.name_text()
                + " to "@ + current.name_text(),
            EventKind::Buffering { percent } => "Buffering: "@ + decimal_text(percent as int)
                + "%"@,
            EventKind::Tag { tags } => "Tags: "@ + tags@,
            EventKind::StreamStatus { status } => "Stream status: "@ + status@,
            EventKind::Application => "Application-specific message"@,
            EventKind::Element => "Element-specific message"@,
            EventKind::DurationChanged => "Duration changed"@,
            EventKind::Latency => "Latency update"@,
            EventKind::Other { .. } => Seq::<char>::empty(),
        }
    }

    /// The text that the blocking monitor records for the event.
    pub open spec fn polled_text(self) -> Seq<char> {
        match self.kind {
            EventKind::Eos => "End of stream"@,
            EventKind::Error { error, debug } => "Error: "@ + error@ + " ("@
                + debug_of_optional_text(optional_text(debug)) + ")"@,
            EventKind::Warning { error, debug } => "Warning: "@ + error@ + " ("@
                + debug_of_optional_text(optional_text(debug)) + ")"@,
            _ => "Message received"@,
        }
    }

    /// The record that the monitor keeps of the event when it arrives at time `at`, if it
    /// keeps one.
    pub open spec fn classified(self, at: Timestamp) -> Option<BusMessageView> {
        if self.of_interest() {
            Some(
                BusMessageView {
                    timestamp: at,
                    message_type: self.kind_text(),
                    message: self.monitor_text(),
                    source: self.source_path(),
                },
            )
        } else {
            None
        }
    }

    /// The record that the blocking monitor keeps of the event when it arrives at time `at`.
    pub open spec fn polled(self, at: Timestamp) -> BusMessageView {
        BusMessageView {
            timestamp: at,
            message_type: self.kind_text(),
            message: self.polled_text(),
            source: self.source_path(),
        }
    }

    /// Whether the event ends the stream.
    pub open spec fn is_eos(self) -> bool {
        self.kind is Eos
    }

    /// Whether the event ends the blocking monitor: the end of the stream, or an error.
    pub open spec fn ends_polling(self) -> bool {
        self.kind is Eos || self.kind is Error
    }

    fn path(&self) -> (path: Option<String>)
        ensures
            optional_text(path) == self.source_path(),
    {
        match &self.source {
            Some(source) => Some(source.path.clone()),
            None => None,
        }
    }

    fn is_from_pipeline(&self) -> (yes: bool)
        ensures
            yes == self.from_pipeline(),
    {
        match &self.source {
            Some(source) => source.class_name == "GstPipeline".to_owned(),
            None => false,
        }
    }

    fn kind_name(&self) -> (name: String)
        ensures
            name@ == self.kind_text(),
    {
        match &self.kind {
            EventKind::Eos => "Eos".to_owned(),
            EventKind::Error { .. } => "Error".to_owned(),
            EventKind::Warning { .. } => "Warning".to_owned(),
            EventKind::StateChanged { .. } => "StateChanged".to_owned(),
            EventKind::Buffering { .. } => "Buffering".to_owned(),
            EventKind::Tag { .. } => "Tag".to_owned(),
            EventKind::StreamStatus { .. } => "StreamStatus".to_owned(),
            EventKind::Application => "Application".to_owned(),
            EventKind::Element => "Element".to_owned(),
            EventKind::DurationChanged => "DurationChanged".to_owned(),
            EventKind::Latency => "Latency".to_owned(),
            EventKind::Other { name } => name.clone(),
        }
    }
}

/// The text of a report of a failure: `label`, the rendered source, the failure's own
/// text, and the rendered debug detail in brackets.
pub fn failure_text(label: &str, source: &str, error: &str, debug: &str) -> (text: String)
    ensures
        text@ == label@ + source@ + ": "@ + error@ + " ("@ + debug@ + ")"@,
{
    let mut text = label.to_owned();
    text.append(source);
    text.append(": ");
    text.append(error);
    text.append(" (");
    text.append(debug);
    text.append(")");
    text
}

/// The record that the monitor keeps of `event` when it arrives at time `at`: none of a
/// state change that an element reports, none of a kind it does not know, and one of
/// every other event.
pub fn classify(event: &RawEvent, at: Timestamp) -> (record: Option<BusMessage>)
    ensures
        match record {
            Some(message) => Some(message@) == event.classified(at),
            None => event.classified(at) is None,
        },
{
    let message = match &event.kind {
        EventKind::Eos => "End of stream".to_owned(),
        EventKind::Error { error, debug } => {
            let source = debug_optional_text(&event.path());
            let detail = debug_optional_text(debug);
            let text = failure_text("Error from ", source.as_str(), error.as_str(), detail.as_str());
            assert(text@ =~= event.monitor_text());
            text
        },
        EventKind::Warning { error, debug } => {
            let source = debug_optional_text(&event.path());
            let detail = debug_optional_text(debug);
            let text = failure_text(
                "Warning from ",
                source.as_str(),
                error.as_str(),
                detail.as_str(),
            );
            assert(text@ =~= event.monitor_text());
            text
        },
        EventKind::StateChanged { old, current } => {
            if !event.is_from_pipeline() {
                return None;
            }
            let mut text = "State changed from ".to_owned();
            text.append(old.name().as_str());
            text.append(" to ");
            text.append(current.name().as_str());
            text
        },
        EventKind::Buffering { percent } => {
            let mut text = "Buffering: ".to_owned();
            text.append(signed_decimal(*percent as i64).as_str());
            text.append("%");
            text
        },
        EventKind::Tag { tags } => prefixed("Tags: ", tags.as_str()),
        EventKind::StreamStatus { status } => prefixed("Stream status: ", status.as_str()),
        EventKind::Application => "Application-specific message".to_owned(),
        EventKind::Element => "Element-specific message".to_owned(),
        EventKind::DurationChanged => "Duration changed".to_owned(),
        EventKind::Latency => "Latency update".to_owned(),
        EventKind::Other { .. } => {
            return None;
        },
    };
    Some(
        BusMessage {
            timestamp: at,
            message_type: event.kind_name(),
            message,
            source: event.path(),
        },
    )
}

/// The record that the blocking monitor keeps of `event` when it arrives at time `at`.
pub fn message_to_bus_message(event: &RawEvent, at: Timestamp) -> (message: BusMessage)
    ensures
        message@ == event.polled(at),
{
    let text = match &event.kind {
        EventKind::Eos => "End of stream".to_owned(),
        EventKind::Error { error, debug } => {
            let detail = debug_optional_text(debug);
            let text = failure_text("Error", "", error.as_str(), detail.as_str());
            proof {
                reveal_strlit("");
                reveal_strlit("Error");
                reveal_strlit(": ");
                reveal_strlit("Error: ");
                assert("Error"@ + ""@ + ": "@ =~= "Error: "@);
                assert(text@ =~= "Error: "@ + error@ + " ("@ + detail@ + ")"@);
                assert(text@ =~= event.polled_text());
            }
            text
        },
        EventKind::Warning { error, debug } => {
            let detail = debug_optional_text(debug);
            let text = failure_text("Warning", "", error.as_str(), detail.as_str());
            proof {
                reveal_strlit("");
                reveal_strlit("Warning");
                reveal_strlit(": ");
                reveal_strlit("Warning: ");
                assert("Warning"@ + ""@ + ": "@ =~= "Warning: "@);
                assert(text@ =~= "Warning: "@ + error@ + " ("@ + detail@ + ")"@);
                assert(text@ =~= event.polled_text());
            }
            text
        },
        _ => "Message received".to_owned(),
    };
    BusMessage {
        timestamp: at,
        message_type: event.kind_name(),
        message: text,
        source: event.path(),
    }
}

/// The registry after the monitor of the pipeline under `id` kept `record`, if it kept
/// one and the pipeline is registered.
pub open spec fn recorded(
    registry: Map<Seq<char>, PipelineInstanceView>,
    id: Seq<char>,
    record: Option<BusMessageView>,
) -> Map<Seq<char>, PipelineInstanceView> {
    match record {
        Some(message) => if registry.contains_key(id) {
            registry.insert(id, registry[id].record(message))
        } else {
            registry
        },
        None => registry,
    }
}

/// What the monitor's wait ended with.
#[derive(Debug)]
pub enum WatchSignal {
    /// The engine reported an event.
    Message(RawEvent),
    /// The engine's stream of events ended.
    StreamEnded,
    /// The monitor was told to stop.
    Shutdown,
}

/// What the monitor does next.
#[derive(Clone, Copy, Debug, PartialEq, Eq, Structural)]
pub enum WatchAction {
    /// Wait for the next signal.
    Continue,
    /// Stop listening to the pipeline's events.
    Stop,
}

/// The monitor of one pipeline's events.
pub struct BusHandler {
    pipeline_id: String,
    watching: bool,
}

impl BusHandler {
    /// The identifier of the pipeline that this monitor watches.
    pub closed spec fn watched(&self) -> Seq<char> {
        self.pipeline_id@
    }

    /// Whether this monitor still listens.
    pub closed spec fn is_watching(&self) -> bool {
        self.watching
    }

    /// A monitor that listens to the events of the pipeline registered under
    /// `pipeline_id`.
    pub fn new(pipeline_id: String) -> (handler: Self)
        ensures
            handler.watched() == pipeline_id@,
            handler.is_watching(),
    {
        BusHandler { pipeline_id, watching: true }
    }

    /// The identifier of the pipeline that this monitor watches.
    pub fn pipeline_id(&self) -> (id: &str)
        ensures
            id@ == self.watched(),
    {
        self.pipeline_id.as_str()
    }

    /// Whether this monitor still listens.
    pub fn watching(&self) -> (yes: bool)
        ensures
            yes == self.is_watching(),
    {
        self.watching
    }

    /// Keeps a record of `event` in the history of the watched pipeline, stamped with the
    /// time of this call, unless the event is of no interest.
    pub fn handle_message(&self, manager: &mut PipelineManager, event: &RawEvent)
        requires
            old(manager).wf(),
        ensures
            final(manager).wf(),
            final(manager).max() == old(manager).max(),
            exists|at: Timestamp|
                final(manager)@ == recorded(
                    old(manager)@,
                    self.watched(),
                    #[trigger] event.classified(at),
                ),
    {
        let at = current_time();
        match classify(event, at) {
            Some(message) => {
                manager.add_bus_message(self.pipeline_id.as_str(), message);
            },
            None => {},
        }
        assert(manager@ == recorded(old(manager)@, self.watched(), event.classified(at)));
    }

    /// One turn of the watch: takes what the wait ended with and says what to do next. An
    /// event is handled as `handle_message` does, and the watch goes on unless the event
    /// ends the stream. The end of the engine's events, and the order to stop, end the
    /// watch and record nothing. A monitor that has stopped records nothing and stays
    /// stopped.
    pub fn watch_pipeline(&mut self, manager: &mut PipelineManager, signal: WatchSignal) -> (action:
        WatchAction)
        requires
            old(manager).wf(),
        ensures
            final(manager).wf(),
            final(manager).max() == old(manager).max(),
            final(self).watched() == old(self).watched(),
            final(self).is_watching() == (action == WatchAction::Continue),
            action == WatchAction::Continue <==> old(self).is_watching() && (
            signal matches WatchSignal::Message(event) && !event.is_eos()),
            match signal {
                WatchSignal::Message(event) => if old(self).is_watching() {
                    exists|at: Timestamp|
                        final(manager)@ == recorded(
                            old(manager)@,
                            old(self).watched(),
                            #[trigger] event.classified(at),
                        )
                } else {
                    final(manager)@ == old(manager)@
                },
                _ => final(manager)@ == old(manager)@,
            },
    {
        if !self.watching {
            return WatchAction::Stop;
        }
        match signal {
            WatchSignal::Message(event) => {
                self.handle_message(manager, &event);
                if let EventKind::Eos = event.kind {
                    self.watching = false;
                    WatchAction::Stop
                } else {
                    WatchAction::Continue
                }
            },
            _ => {
                self.watching = false;
                WatchAction::Stop
            },
        }
    }
}

/// The wait of one poll, in seconds: `timeout` where given, 5 seconds where not.
pub fn poll_seconds(timeout: Option<u64>) -> (seconds: u64)
    ensures
        seconds == match timeout {
            Some(given) => given,
            None => DEFAULT_POLL_SECONDS,
        },
{
    match timeout {
        Some(given) => given,
        None => DEFAULT_POLL_SECONDS,
    }
}

/// One turn of the blocking monitor of the pipeline registered under `pipeline_id`: takes
/// what one poll of the engine returned and says what to do next. An event is recorded,
/// stamped with the time of this call, whatever its kind; polling goes on unless the event
/// ends the stream or is an error. A poll that timed out without an event ends the
/// monitor.
pub fn create_blocking_bus_handler(
    manager: &mut PipelineManager,
    pipeline_id: &str,
    polled: Option<RawEvent>,
) -> (action: WatchAction)
    requires
        old(manager).wf(),
    ensures
        final(manager).wf(),
        final(manager).max() == old(manager).max(),
        action == WatchAction::Continue <==> (polled matches Some(event) && !event.ends_polling()),
        match polled {
            Some(event) => exists|at: Timestamp|
                final(manager)@ == recorded(
                    old(manager)@,
                    pipeline_id@,
                    Some(#[trigger] event.polled(at)),
                ),
            None => final(manager)@ == old(manager)@,
        },
{
    match polled {
        Some(event) => {
            let at = current_time();
            let message = message_to_bus_message(&event, at);
            manager.add_bus_message(pipeline_id, message);
            assert(manager@ == recorded(old(manager)@, pipeline_id@, Some(event.polled(at))));
            match event.kind {
                EventKind::Eos => WatchAction::Stop,
                EventKind::Error { .. } => WatchAction::Stop,
                _ => WatchAction::Continue,
            }
        },
        None => WatchAction::Stop,
    }
}

/// A state change that an element reports never gives a record, and one that the
/// pipeline itself reports always does; whether any other event gives one depends on its
/// kind alone.
pub proof fn lemma_state_changes_of_elements_are_dropped(event: RawEvent, at: Timestamp)
    ensures
        event.kind is StateChanged ==> (event.classified(at) is Some <==> event.from_pipeline()),
        event.kind is StateChanged && !event.from_pipeline() ==> forall|
            registry: Map<Seq<char>, PipelineInstanceView>,
            id: Seq<char>,
        | #[trigger] recorded(registry, id, event.classified(at)) == registry,
        !(event.kind is StateChanged) && !(event.kind is Other) ==> event.classified(at) is Some,
        event.kind is Other ==> event.classified(at) is None,
        event.classified(at) matches Some(record) ==> record.timestamp == at && record.message_type
            == event.kind_text() && record.source == event.source_path(),
{
}

} // verus!
