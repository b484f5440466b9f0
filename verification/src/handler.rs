//! The operations that the server offers on pipelines, each from its parameters and what
//! the engine answered to the text that the caller is shown.

use crate::cli::OperationalMode;
use crate::config::{optional_names, Configuration};
use crate::error::GStreamerMcpError;
use crate::pipeline::{
    element_names_of, is_creation_failure, is_generated_id, show_time, time_text, validate_pipeline_description,
    BuildOutcome, BusMessage, BusMessageView, EngineReading, PipelineInfo, PipelineInfoView,
    PipelineInstanceView, PipelineManager, PipelineState, PipelineStatus, StateChangeReply,
    Timestamp, message_views, pending_name, signed_nanoseconds,
};
use crate::text::{
    decimal_digits, decimal_text, lowercase_of, optional_text, signed_decimal, texts_of,
    unsigned_decimal,
};
use crate::discovery::{
    best_matches, details_text, element_views, elements_text, filter_elements, filter_plugins, kept_elements,
    kept_plugins, plugin_views, plugins_text, rank_elements, search_text, show_details,
    show_elements, show_plugins, show_search, DiscoveryCache, ElementDetailedInfo, ElementInfo,
    ElementInfoView, PluginInfo, PluginInfoView,
};
use crate::tool_registry::{
    enabled_tools, optional_list, ToolRegistry, GST_LAUNCH_PIPELINE, GST_LIST_ELEMENTS,
    GST_SET_PIPELINE_STATE,
};
use vstd::hash_set::StringHashSet;
use vstd::prelude::*;
use vstd::string::*;

verus! {

/// The code of a failure that says the method asked for does not exist.
pub const METHOD_NOT_FOUND: i32 = -32601;

/// The code of a failure that says a name given is not valid.
pub const INVALID_NAME: i32 = -32003;

/// How many of a pipeline's most recent messages a status shows.
pub const STATUS_MESSAGES: usize = 10;

#[derive(Debug)]
pub struct ListElementsParams {
    /// Optional filter to match element names
    pub filter: Option<String>,
    /// Optional category to filter elements by classification
    pub category: Option<String>,
}

#[derive(Debug)]
pub struct InspectElementParams {
    /// Name of the GStreamer element to inspect
    pub element_name: String,
}

#[derive(Debug)]
pub struct ListPluginsParams {
    /// Optional filter to match plugin names
    pub filter: Option<String>,
}

#[derive(Debug)]
pub struct SearchElementsParams {
    /// Search query to match against element names and descriptions
    pub query: String,
}

#[derive(Debug)]
pub struct LaunchPipelineParams {
    /// Pipeline description in gst-launch syntax
    pub pipeline_description: String,
    /// Whether to start the pipeline immediately
    pub auto_play: Option<bool>,
    /// Optional custom pipeline ID
    pub pipeline_id: Option<String>,
}

#[derive(Debug)]
pub struct SetPipelineStateParams {
    /// Pipeline identifier
    pub pipeline_id: String,
    /// Target state (null, ready, paused, playing)
    pub state: String,
}

#[derive(Debug)]
pub struct GetPipelineStatusParams {
    /// Pipeline identifier
    pub pipeline_id: String,
    /// Include recent bus messages
    pub include_messages: Option<bool>,
}

#[derive(Debug)]
pub struct StopPipelineParams {
    /// Pipeline identifier
    pub pipeline_id: String,
    /// Force termination
    pub force: Option<bool>,
}

#[derive(Debug)]
pub struct ListGstPipelinesParams {
    /// Include detailed information
    pub include_details: Option<bool>,
}

#[derive(Debug)]
pub struct ValidatePipelineParams {
    /// Pipeline description to validate
    pub pipeline_description: String,
}

/// A failure as the caller of a tool is told of it: a code and a sentence.
#[derive(Debug)]
pub struct ToolFailure {
    pub code: i32,
    pub message: String,
}

impl ToolFailure {
    /// The failure that tells of `error`.
    pub fn from_error(error: &GStreamerMcpError) -> (failure: Self)
        ensures
            failure.code == error.code_of(),
            failure.message@ == error.message_text(),
    {
        ToolFailure { code: error.code(), message: error.message() }
    }
}

/// The sentence that says a tool is switched off.
pub open spec fn not_enabled_text(tool: Seq<char>) -> Seq<char> {
    "Tool '"@ + tool + "' is not available in the current mode"@
}

/// The sentence that says `given` names no state that can be asked for.
pub open spec fn invalid_state_text(given: Seq<char>) -> Seq<char> {
    "Invalid state '"@ + given + "'. Must be one of: null, ready, paused, playing"@
}

/// What is shown of a pipeline that was created and started.
pub open spec fn launched_text(id: Seq<char>, state: PipelineState, description: Seq<char>) -> Seq<
    char,
> {
    "Pipeline '"@ + id + "' launched successfully.\nState: "@ + state.name_text()
        + "\nDescription: "@ + description
}

/// What is shown of a pipeline that was created and not started.
pub open spec fn created_text(id: Seq<char>, description: Seq<char>) -> Seq<char> {
    "Pipeline '"@ + id + "' created successfully in NULL state.\nDescription: "@ + description
}

/// What is shown of a pipeline whose state was changed.
pub open spec fn state_changed_text(id: Seq<char>, state: PipelineState) -> Seq<char> {
    "Pipeline '"@ + id + "' state changed to "@ + state.name_text()
}

/// What is shown of a pipeline that was stopped and removed.
pub open spec fn stopped_text(id: Seq<char>) -> Seq<char> {
    "Pipeline '"@ + id + "' stopped and removed successfully"@
}

/// The line that shows one message of a history.
pub open spec fn message_line(message: BusMessageView) -> Seq<char> {
    "  ["@ + time_text(message.timestamp) + "] "@ + message.message_type + ": "@
        + message.message + "\n"@
}

/// The lines that show the messages of a history, one after the other.
pub open spec fn message_lines(messages: Seq<BusMessageView>) -> Seq<char>
    decreases messages.len(),
{
    if messages.len() == 0 {
        Seq::<char>::empty()
    } else {
        message_lines(messages.drop_last()) + message_line(messages.last())
    }
}

/// The first lines of a status: identifier, description and state.
pub open spec fn status_head(id: Seq<char>, description: Seq<char>, state: Seq<char>) -> Seq<
    char,
> {
    "Pipeline: "@ + id + "\nDescription: "@ + description + "\nState: "@ + state + "\n"@
}

/// The line of a status that names the pending state, where there is one.
pub open spec fn pending_line(pending: Option<Seq<char>>) -> Seq<char> {
    match pending {
        Some(name) => "Pending State: "@ + name + "\n"@,
        None => Seq::<char>::empty(),
    }
}

/// The line of a status that shows a time in nanoseconds, where it is known: a negative
/// number stands for an unknown time and gives no line.
pub open spec fn nanoseconds_line(label: Seq<char>, nanoseconds: i64) -> Seq<char> {
    if nanoseconds >= 0 {
        label + decimal_text(nanoseconds as int) + " ns\n"@
    } else {
        Seq::<char>::empty()
    }
}

/// The line of a status that shows the two counters.
pub open spec fn counts_line(errors: u32, warnings: u32) -> Seq<char> {
    "Errors: "@ + decimal_digits(errors as nat) + ", Warnings: "@ + decimal_digits(
        warnings as nat,
    ) + "\n"@
}

/// The lines of a status that show the two times.
pub open spec fn times_lines(created_at: Timestamp, last_state_change: Timestamp) -> Seq<char> {
    "Created: "@ + time_text(created_at) + "\nLast State Change: "@ + time_text(
        last_state_change,
    ) + "\n"@
}

/// The part of a status that shows messages, where there are any.
pub open spec fn messages_part(messages: Seq<BusMessageView>) -> Seq<char> {
    if messages.len() > 0 {
        "\nRecent Messages:\n"@ + message_lines(messages)
    } else {
        Seq::<char>::empty()
    }
}

/// What is shown of the status of the pipeline `entry` when the engine reports `reading`,
/// with the pipeline's last messages where they are asked for and there are any.
pub open spec fn status_text(
    entry: PipelineInstanceView,
    reading: EngineReading,
    include_messages: bool,
) -> Seq<char> {
    status_head(entry.info.id, entry.info.description, reading.current.name_text())
        + pending_line(pending_name(reading.pending)) + nanoseconds_line(
        "Position: "@,
        signed_nanoseconds(reading.position),
    ) + nanoseconds_line("Duration: "@, signed_nanoseconds(reading.duration)) + counts_line(
        entry.info.error_count,
        entry.info.warning_count,
    ) + times_lines(entry.info.created_at, entry.info.last_state_change) + messages_part(
        if include_messages {
            entry.recent(STATUS_MESSAGES as nat)
        } else {
            Seq::<BusMessageView>::empty()
        },
    )
}

/// The entry of a list of pipelines that shows `info`, at length or in short.
pub open spec fn listing_entry(info: PipelineInfoView, details: bool) -> Seq<char> {
    if details {
        "ID: "@ + info.id + "\n  Description: "@ + info.description + "\n  State: "@ + info.state
            + "\n  Created: "@ + time_text(info.created_at) + "\n  Errors: "@ + decimal_digits(
            info.error_count as nat,
        ) + ", Warnings: "@ + decimal_digits(info.warning_count as nat) + "\n\n"@
    } else {
        "- "@ + info.id + " ("@ + info.state + ")\n"@
    }
}

/// The entries of a list of pipelines, one after the other.
pub open spec fn listing_entries(infos: Seq<PipelineInfoView>, details: bool) -> Seq<char>
    decreases infos.len(),
{
    if infos.len() == 0 {
        Seq::<char>::empty()
    } else {
        listing_entries(infos.drop_last(), details) + listing_entry(infos.last(), details)
    }
}

/// What is shown of the pipelines `infos`.
pub open spec fn listing_text(infos: Seq<PipelineInfoView>, details: bool) -> Seq<char> {
    if infos.len() == 0 {
        "No active pipelines"@
    } else {
        "Active pipelines: "@ + decimal_digits(infos.len()) + "\n\n"@ + listing_entries(
            infos,
            details,
        )
    }
}

/// What each of `infos` holds, in the same order.
pub open spec fn info_views(infos: Seq<PipelineInfo>) -> Seq<PipelineInfoView> {
    Seq::new(infos.len(), |i: int| infos[i]@)
}

/// Whether `infos` lists the pipelines of `registry`: each of them once, in any order.
pub open spec fn lists_registry(
    infos: Seq<PipelineInfoView>,
    registry: Map<Seq<char>, PipelineInstanceView>,
) -> bool {
    &&& infos.len() == registry.dom().len()
    &&& forall|i: int|
        0 <= i < infos.len() ==> registry.contains_key((#[trigger] infos[i]).id) && infos[i]
            == registry[infos[i].id].info
    &&& forall|i: int, j: int|
        0 <= i < j < infos.len() ==> (#[trigger] infos[i]).id != (#[trigger] infos[j]).id
}

/// The lines that name the elements of a description, one after the other.
pub open spec fn element_lines(names: Seq<Seq<char>>) -> Seq<char>
    decreases names.len(),
{
    if names.len() == 0 {
        Seq::<char>::empty()
    } else {
        element_lines(names.drop_last()) + "- "@ + names.last() + "\n"@
    }
}

/// What is shown of a description that the engine could parse.
pub open spec fn valid_text(names: Seq<Seq<char>>) -> Seq<char> {
    "Pipeline description is valid!\n\nElements that would be created ("@ + decimal_digits(
        names.len(),
    ) + "):\n"@ + element_lines(names)
}

/// What is shown of a description that could not be validated, for the reason `reason`.
pub open spec fn invalid_text(reason: Seq<char>) -> Seq<char> {
    "Pipeline validation failed:\n"@ + reason
}

/// Shows the messages of a history, one line each.
pub fn show_messages(messages: &Vec<BusMessage>) -> (text: String)
    ensures
        text@ == message_lines(message_views(messages@)),
{
    let mut text = String::new();
    let mut i: usize = 0;
    let ghost all = message_views(messages@);
    assert(all.take(0) =~= Seq::<BusMessageView>::empty());
    while i < messages.len()
        invariant
            i <= messages.len(),
            all == message_views(messages@),
            text@ == message_lines(all.take(i as int)),
        decreases messages.len() - i,
    {
        let ghost before = text@;
        proof {
            let grown = all.take(i + 1);
            assert(grown.drop_last() =~= all.take(i as int));
            assert(grown.last() == messages@[i as int]@);
        }
        text.append("  [");
        text.append(show_time(messages[i].timestamp).as_str());
        text.append("] ");
        text.append(messages[i].message_type.as_str());
        text.append(": ");
        text.append(messages[i].message.as_str());
        text.append("\n");
        assert(text@ =~= before + message_line(messages@[i as int]@));
        i = i + 1;
    }
    assert(all.take(messages.len() as int) =~= all);
    text
}

/// Shows the elements of a description that the engine could parse.
pub fn show_valid(names: &Vec<String>) -> (text: String)
    ensures
        text@ == valid_text(texts_of(names@)),
{
    let mut text = "Pipeline description is valid!\n\nElements that would be created (".to_owned();
    text.append(unsigned_decimal(names.len() as u64).as_str());
    text.append("):\n");
    let ghost head = text@;
    let ghost all = texts_of(names@);
    assert(all.take(0) =~= Seq::<Seq<char>>::empty());
    assert(text@ =~= head + element_lines(all.take(0)));
    let mut i: usize = 0;
    while i < names.len()
        invariant
            i <= names.len(),
            all == texts_of(names@),
            text@ == head + element_lines(all.take(i as int)),
        decreases names.len() - i,
    {
        let ghost before = text@;
        proof {
            let grown = all.take(i + 1);
            assert(grown.drop_last() =~= all.take(i as int));
            assert(grown.last() == names@[i as int]@);
        }
        text.append("- ");
        text.append(names[i].as_str());
        text.append("\n");
        assert(text@ =~= head + (element_lines(all.take(i as int)) + "- "@ + names@[i as int]@
            + "\n"@));
        i = i + 1;
    }
    assert(all.take(names.len() as int) =~= all);
    text
}

/// Shows a list of pipelines.
pub fn show_listing(infos: &Vec<PipelineInfo>, details: bool) -> (text: String)
    ensures
        text@ == listing_text(info_views(infos@), details),
{
    if infos.len() == 0 {
        return "No active pipelines".to_owned();
    }
    let mut text = "Active pipelines: ".to_owned();
    text.append(unsigned_decimal(infos.len() as u64).as_str());
    text.append("\n\n");
    let ghost head = text@;
    let ghost all = info_views(infos@);
    assert(all.take(0) =~= Seq::<PipelineInfoView>::empty());
    assert(text@ =~= head + listing_entries(all.take(0), details));
    let mut i: usize = 0;
    while i < infos.len()
        invariant
            i <= infos.len(),
            all == info_views(infos@),
            text@ == head + listing_entries(all.take(i as int), details),
        decreases infos.len() - i,
    {
        let ghost before = text@;
        proof {
            let grown = all.take(i + 1);
            assert(grown.drop_last() =~= all.take(i as int));
            assert(grown.last() == infos@[i as int]@);
        }
        let info = &infos[i];
        if details {
            text.append("ID: ");
            text.append(info.id.as_str());
            text.append("\n  Description: ");
            text.append(info.description.as_str());
            text.append("\n  State: ");
            text.append(info.state.as_str());
            text.append("\n  Created: ");
            text.append(show_time(info.created_at).as_str());
            text.append("\n  Errors: ");
            text.append(unsigned_decimal(info.error_count as u64).as_str());
            text.append(", Warnings: ");
            text.append(unsigned_decimal(info.warning_count as u64).as_str());
            text.append("\n\n");
        } else {
            text.append("- ");
            text.append(info.id.as_str());
            text.append(" (");
            text.append(info.state.as_str());
            text.append(")\n");
        }
        assert(text@ =~= before + listing_entry(infos@[i as int]@, details));
        assert(text@ =~= head + (listing_entries(all.take(i as int), details) + listing_entry(
            infos@[i as int]@,
            details,
        )));
        i = i + 1;
    }
    assert(all.take(infos.len() as int) =~= all);
    text
}

fn show_head(status: &PipelineStatus) -> (text: String)
    ensures
        text@ == status_head(status.id@, status.description@, status.state@),
{
    let mut text = "Pipeline: ".to_owned();
    text.append(status.id.as_str());
    text.append("\nDescription: ");
    text.append(status.description.as_str());
    text.append("\nState: ");
    text.append(status.state.as_str());
    text.append("\n");
    text
}

fn show_pending(pending: &Option<String>) -> (text: String)
    ensures
        text@ == pending_line(optional_text(*pending)),
{
    match pending {
        Some(name) => {
            let mut text = "Pending State: ".to_owned();
            text.append(name.as_str());
            text.append("\n");
            text
        },
        None => String::new(),
    }
}

fn show_nanoseconds(label: &str, nanoseconds: i64) -> (text: String)
    ensures
        text@ == nanoseconds_line(label@, nanoseconds),
{
    if nanoseconds >= 0 {
        let mut text = label.to_owned();
        text.append(signed_decimal(nanoseconds).as_str());
        text.append(" ns\n");
        text
    } else {
        String::new()
    }
}

fn show_counts(errors: u32, warnings: u32) -> (text: String)
    ensures
        text@ == counts_line(errors, warnings),
{
    let mut text = "Errors: ".to_owned();
    text.append(unsigned_decimal(errors as u64).as_str());
    text.append(", Warnings: ");
    text.append(unsigned_decimal(warnings as u64).as_str());
    text.append("\n");
    text
}

fn show_times(created_at: Timestamp, last_state_change: Timestamp) -> (text: String)
    ensures
        text@ == times_lines(created_at, last_state_change),
{
    let mut text = "Created: ".to_owned();
    text.append(show_time(created_at).as_str());
    text.append("\nLast State Change: ");
    text.append(show_time(last_state_change).as_str());
    text.append("\n");
    text
}

fn show_messages_part(messages: &Vec<BusMessage>) -> (text: String)
    ensures
        text@ == messages_part(message_views(messages@)),
{
    if messages.len() > 0 {
        let mut text = "\nRecent Messages:\n".to_owned();
        text.append(show_messages(messages).as_str());
        text
    } else {
        String::new()
    }
}

/// Shows a pipeline's status, and `messages` below it where there are any.
pub fn show_status(status: &PipelineStatus, messages: &Vec<BusMessage>) -> (text: String)
    ensures
        text@ == status_head(status.id@, status.description@, status.state@) + pending_line(
            optional_text(status.pending_state),
        ) + nanoseconds_line("Position: "@, status.position) + nanoseconds_line(
            "Duration: "@,
            status.duration,
        ) + counts_line(status.error_count, status.warning_count) + times_lines(
            status.created_at,
            status.last_state_change,
        ) + messages_part(message_views(messages@)),
{
    let mut text = show_head(status);
    text.append(show_pending(&status.pending_state).as_str());
    text.append(show_nanoseconds("Position: ", status.position).as_str());
    text.append(show_nanoseconds("Duration: ", status.duration).as_str());
    text.append(show_counts(status.error_count, status.warning_count).as_str());
    text.append(show_times(status.created_at, status.last_state_change).as_str());
    text.append(show_messages_part(messages).as_str());
    text
}

/// The state that was reached when `state` was asked for and the engine answered `reply`.
pub open spec fn reached_state(state: PipelineState, reply: StateChangeReply) -> PipelineState {
    match reply {
        StateChangeReply::Success(current) => current,
        _ => state,
    }
}

/// The elements that a listing shows before its filters: those that the cache holds,
/// where it is in use and holds any, and those that were discovered otherwise.
pub open spec fn listed_elements(
    cache_enabled: bool,
    cached: Option<Seq<ElementInfoView>>,
    discovered: Result<Vec<ElementInfo>, GStreamerMcpError>,
) -> Result<Seq<ElementInfoView>, GStreamerMcpError> {
    if cache_enabled && cached is Some {
        Ok(cached->0)
    } else {
        match discovered {
            Ok(found) => Ok(element_views(found@)),
            Err(error) => Err(error),
        }
    }
}

/// The plugins that a listing shows before its filter: those that the cache holds, where
/// it is in use and holds any, and those that were discovered otherwise.
pub open spec fn listed_plugins(
    cache_enabled: bool,
    cached: Option<Seq<PluginInfoView>>,
    discovered: Result<Vec<PluginInfo>, GStreamerMcpError>,
) -> Result<Seq<PluginInfoView>, GStreamerMcpError> {
    if cache_enabled && cached is Some {
        Ok(cached->0)
    } else {
        match discovered {
            Ok(found) => Ok(plugin_views(found@)),
            Err(error) => Err(error),
        }
    }
}

/// Whether a launch sets the new pipeline to play: the caller did not ask otherwise, and
/// the engine did not refuse.
pub open spec fn launch_plays(auto_play: Option<bool>, play: StateChangeReply) -> bool {
    auto_play != Some(false) && play != StateChangeReply::Rejected
}

/// The registry after a pipeline was created in `before` under `id` and, where `plays`
/// holds, noted to have been set to play.
pub open spec fn registry_after_launch(
    before: Map<Seq<char>, PipelineInstanceView>,
    id: Seq<char>,
    description: Seq<char>,
    created_at: Timestamp,
    changed_at: Timestamp,
    played_at: Timestamp,
    plays: bool,
) -> Map<Seq<char>, PipelineInstanceView> {
    let created = before.insert(
        id,
        PipelineInstanceView::fresh(id, description, created_at, changed_at),
    );
    if plays {
        created.insert(id, created[id].with_declared_state(PipelineState::Playing, played_at))
    } else {
        created
    }
}

/// Whether a launch with the parameters `params`, to which the engine answered `play` when
/// asked to play, has made the registry `after` of the registry `before` and ended in
/// `result`, when the new pipeline has the identifier `id`, was created and last changed at
/// the first two times, and was set to play at the third.
pub open spec fn is_launch(
    before: Map<Seq<char>, PipelineInstanceView>,
    after: Map<Seq<char>, PipelineInstanceView>,
    params: LaunchPipelineParams,
    play: StateChangeReply,
    result: Result<String, ToolFailure>,
    id: Seq<char>,
    created_at: Timestamp,
    changed_at: Timestamp,
    played_at: Timestamp,
) -> bool {
    &&& after == registry_after_launch(
        before,
        id,
        params.pipeline_description@,
        created_at,
        changed_at,
        played_at,
        launch_plays(params.auto_play, play),
    )
    &&& match params.pipeline_id {
        Some(custom) => id == custom@,
        None => is_generated_id(id),
    }
    &&& if params.auto_play == Some(false) {
        result matches Ok(text) && text@ == created_text(id, params.pipeline_description@)
    } else if play == StateChangeReply::Rejected {
        result matches Err(failure) && tells_of(
            failure,
            GStreamerMcpError::StateChangeError(PipelineState::Playing),
        )
    } else {
        result matches Ok(text) && text@ == launched_text(
            id,
            reached_state(PipelineState::Playing, play),
            params.pipeline_description@,
        )
    }
}

/// Whether `failure` tells of `error`.
pub open spec fn tells_of(failure: ToolFailure, error: GStreamerMcpError) -> bool {
    failure.code == error.code_of() && failure.message@ == error.message_text()
}

/// Whether `failure` tells of the failure that creating a pipeline ends in, when the
/// registry is full or not and the engine answered `outcome`.
pub open spec fn tells_of_creation_failure(
    failure: ToolFailure,
    full: bool,
    max: nat,
    outcome: BuildOutcome,
) -> bool {
    exists|error: GStreamerMcpError|
        #[trigger] tells_of(failure, error) && is_creation_failure(
            error,
            full,
            max,
            outcome,
        )
}

/// Whether `failure` says that the tool named `tool` is switched off.
pub open spec fn says_not_enabled(failure: ToolFailure, tool: Seq<char>) -> bool {
    failure.code == METHOD_NOT_FOUND && failure.message@ == not_enabled_text(tool)
}

/// The server's state behind its tools: its settings, what it has discovered, its
/// pipelines, and the tools that are switched on.
pub struct GStreamerHandler {
    pub config: Configuration,
    pub cache: DiscoveryCache,
    pub pipeline_manager: PipelineManager,
    pub tool_registry: ToolRegistry,
    pub enabled_tools: StringHashSet,
}

fn as_list(names: &Option<Vec<String>>) -> (list: Option<&[String]>)
    ensures
        optional_list(list) == optional_names(*names),
{
    match names {
        Some(held) => Some(held.as_slice()),
        None => None,
    }
}

impl GStreamerHandler {
    /// Validity: the registry of pipelines is valid.
    pub open spec fn wf(&self) -> bool {
        self.pipeline_manager.wf()
    }

    /// A server with the default settings, no pipelines, room for 10 of them, and the
    /// tools that the default settings switch on.
    pub fn new() -> (result: Result<Self, GStreamerMcpError>)
        ensures
            result matches Ok(handler) && handler.wf() && handler.pipeline_manager@ == Map::<
                Seq<char>,
                PipelineInstanceView,
            >::empty() && handler.pipeline_manager.max() == 10 && handler.enabled_tools@
                == enabled_tools(OperationalMode::All, None, None)
                && handler.cache.cached_elements() is None && handler.cache.cached_plugins() is None,
    {
        Self::with_config(Configuration::default())
    }

    /// A server with the settings `config`, no pipelines, room for 10 of them, and the
    /// tools that the settings switch on.
    pub fn with_config(config: Configuration) -> (result: Result<Self, GStreamerMcpError>)
        ensures
            result matches Ok(handler) && handler.wf() && handler.config == config
                && handler.pipeline_manager@ == Map::<Seq<char>, PipelineInstanceView>::empty()
                && handler.pipeline_manager.max() == 10 && handler.enabled_tools@ == enabled_tools(
                config.operational_mode,
                optional_names(config.included_tools),
                optional_names(config.excluded_tools),
            ) && handler.cache.cached_elements() is None && handler.cache.cached_plugins() is None,
    {
        let tool_registry = ToolRegistry::new();
        let enabled_tools = tool_registry.filter_tools(
            &config.operational_mode,
            as_list(&config.included_tools),
            as_list(&config.excluded_tools),
        );
        Ok(
            GStreamerHandler {
                config,
                cache: DiscoveryCache::new(),
                pipeline_manager: PipelineManager::new(10),
                tool_registry,
                enabled_tools,
            },
        )
    }

    /// Check if a tool is enabled based on current configuration
    pub fn is_tool_enabled(&self, tool_name: &str) -> (enabled: bool)
        ensures
            enabled == self.enabled_tools@.contains(tool_name@),
    {
        self.enabled_tools.contains(tool_name)
    }

    fn not_enabled(tool_name: &str) -> (failure: ToolFailure)
        ensures
            says_not_enabled(failure, tool_name@),
    {
        let mut message = "Tool '".to_owned();
        message.append(tool_name);
        message.append("' is not available in the current mode");
        ToolFailure { code: METHOD_NOT_FOUND, message }
    }

    /// Launch a GStreamer pipeline from description: registers the pipeline that the engine
    /// built, and notes that it was set to play unless the caller asked otherwise; `play`
    /// is the engine's answer to the request to play, and is not looked at where none was
    /// made. A pipeline that was registered stays so where the engine refuses to play it.
    pub fn gst_launch_pipeline(
        &mut self,
        params: LaunchPipelineParams,
        outcome: BuildOutcome,
        play: StateChangeReply,
    ) -> (result: Result<String, ToolFailure>)
        requires
            old(self).wf(),
        ensures
            final(self).wf(),
            final(self).pipeline_manager.max() == old(self).pipeline_manager.max(),
            final(self).enabled_tools@ == old(self).enabled_tools@,
            final(self).config == old(self).config,
            !old(self).enabled_tools@.contains(GST_LAUNCH_PIPELINE@) ==> {
                &&& result matches Err(failure)
                &&& says_not_enabled(failure, GST_LAUNCH_PIPELINE@)
                &&& final(self).pipeline_manager@ == old(self).pipeline_manager@
            },
            old(self).enabled_tools@.contains(GST_LAUNCH_PIPELINE@) && !(outcome is Built && old(
                self,
            ).pipeline_manager@.dom().len() < old(self).pipeline_manager.max()) ==> {
                &&& result matches Err(failure)
                &&& tells_of_creation_failure(
                    failure,
                    old(self).pipeline_manager@.dom().len() >= old(self).pipeline_manager.max(),
                    old(self).pipeline_manager.max(),
                    outcome,
                )
                &&& final(self).pipeline_manager@ == old(self).pipeline_manager@
            },
            old(self).enabled_tools@.contains(GST_LAUNCH_PIPELINE@) && outcome is Built && old(
                self,
            ).pipeline_manager@.dom().len() < old(self).pipeline_manager.max() ==> exists|
                id: Seq<char>,
                created_at: Timestamp,
                changed_at: Timestamp,
                played_at: Timestamp,
            |
                is_launch(
                    old(self).pipeline_manager@,
                    final(self).pipeline_manager@,
                    params,
                    play,
                    result,
                    id,
                    created_at,
                    changed_at,
                    played_at,
                ),
    {
        if !self.is_tool_enabled(GST_LAUNCH_PIPELINE) {
            return Err(Self::not_enabled(GST_LAUNCH_PIPELINE));
        }
        let ghost before = self.pipeline_manager@;
        let created = self.pipeline_manager.create_pipeline(
            params.pipeline_description.as_str(),
            params.pipeline_id.clone(),
            outcome,
        );
        let id = match created {
            Ok(id) => id,
            Err(error) => {
                let failure = ToolFailure::from_error(&error);
                assert(tells_of(failure, error));
                assert(tells_of_creation_failure(
                    failure,
                    before.dom().len() >= old(self).pipeline_manager.max(),
                    old(self).pipeline_manager.max(),
                    outcome,
                ));
                return Err(failure);
            },
        };
        let ghost (created_at, changed_at) = choose|created_at: Timestamp, changed_at: Timestamp|
            self.pipeline_manager@ == before.insert(
                id@,
                #[trigger] PipelineInstanceView::fresh(
                    id@,
                    params.pipeline_description@,
                    created_at,
                    changed_at,
                ),
            );
        let ghost registered = self.pipeline_manager@;
        let auto_play = match params.auto_play {
            Some(choice) => choice,
            None => true,
        };
        if auto_play {
            match self.pipeline_manager.set_pipeline_state(
                id.as_str(),
                PipelineState::Playing,
                play,
            ) {
                Ok(state) => {
                    let ghost played_at = choose|played_at: Timestamp|
                        self.pipeline_manager@ == registered.insert(
                            id@,
                            #[trigger] registered[id@].with_declared_state(
                                PipelineState::Playing,
                                played_at,
                            ),
                        );
                    let mut text = "Pipeline '".to_owned();
                    text.append(id.as_str());
                    text.append("' launched successfully.\nState: ");
                    text.append(state.name().as_str());
                    text.append("\nDescription: ");
                    text.append(params.pipeline_description.as_str());
                    let result = Ok(text);
                    assert(is_launch(
                        before,
                        self.pipeline_manager@,
                        params,
                        play,
                        result,
                        id@,
                        created_at,
                        changed_at,
                        played_at,
                    ));
                    result
                },
                Err(error) => {
                    let result = Err(ToolFailure::from_error(&error));
                    assert(is_launch(
                        before,
                        self.pipeline_manager@,
                        params,
                        play,
                        result,
                        id@,
                        created_at,
                        changed_at,
                        created_at,
                    ));
                    result
                },
            }
        } else {
            let mut text = "Pipeline '".to_owned();
            text.append(id.as_str());
            text.append("' created successfully in NULL state.\nDescription: ");
            text.append(params.pipeline_description.as_str());
            let result = Ok(text);
            assert(is_launch(
                before,
                self.pipeline_manager@,
                params,
                play,
                result,
                id@,
                created_at,
                changed_at,
                created_at,
            ));
            result
        }
    }

    /// Change the state of a running pipeline: notes what the engine answered when the
    /// state that `params` names was asked of the pipeline that it names. A tool that is
    /// switched off, a name that is no state, an unknown pipeline and a request that the
    /// engine rejected each fail and change nothing.
    pub fn gst_set_pipeline_state(
        &mut self,
        params: &SetPipelineStateParams,
        reply: StateChangeReply,
    ) -> (result: Result<String, ToolFailure>)
        requires
            old(self).wf(),
        ensures
            final(self).wf(),
            final(self).pipeline_manager.max() == old(self).pipeline_manager.max(),
            final(self).enabled_tools@ == old(self).enabled_tools@,
            final(self).config == old(self).config,
            result is Ok <==> {
                &&& old(self).enabled_tools@.contains(GST_SET_PIPELINE_STATE@)
                &&& PipelineState::named(lowercase_of(params.state@)) is Some
                &&& old(self).pipeline_manager@.contains_key(params.pipeline_id@)
                &&& reply != StateChangeReply::Rejected
            },
            match result {
                Ok(text) => {
                    let state = PipelineState::named(lowercase_of(params.state@))->0;
                    &&& text@ == state_changed_text(params.pipeline_id@, reached_state(state, reply))
                    &&& exists|at: Timestamp|
                        final(self).pipeline_manager@ == old(self).pipeline_manager@.insert(
                            params.pipeline_id@,
                            #[trigger] old(self).pipeline_manager@[params.pipeline_id@].with_declared_state(
                                state,
                                at,
                            ),
                        )
                },
                Err(failure) => {
                    &&& final(self).pipeline_manager@ == old(self).pipeline_manager@
                    &&& if !old(self).enabled_tools@.contains(GST_SET_PIPELINE_STATE@) {
                        says_not_enabled(failure, GST_SET_PIPELINE_STATE@)
                    } else {
                        match PipelineState::named(lowercase_of(params.state@)) {
                            None => failure.code == INVALID_NAME && failure.message@
                                == invalid_state_text(params.state@),
                            Some(state) => if old(self).pipeline_manager@.contains_key(
                                params.pipeline_id@,
                            ) {
                                tells_of(failure, GStreamerMcpError::StateChangeError(state))
                            } else {
                                failure.code == -32000 && failure.message@ == "Pipeline '"@
                                    + params.pipeline_id@ + "' not found"@
                            },
                        }
                    }
                },
            },
    {
        if !self.is_tool_enabled(GST_SET_PIPELINE_STATE) {
            return Err(Self::not_enabled(GST_SET_PIPELINE_STATE));
        }
        let state = match PipelineState::parse(params.state.as_str()) {
            Some(state) => state,
            None => {
                let mut message = "Invalid state '".to_owned();
                message.append(params.state.as_str());
                message.append("'. Must be one of: null, ready, paused, playing");
                return Err(ToolFailure { code: INVALID_NAME, message });
            },
        };
        match self.pipeline_manager.set_pipeline_state(params.pipeline_id.as_str(), state, reply) {
            Ok(reached) => {
                let mut text = "Pipeline '".to_owned();
                text.append(params.pipeline_id.as_str());
                text.append("' state changed to ");
                text.append(reached.name().as_str());
                Ok(text)
            },
            Err(error) => Err(ToolFailure::from_error(&error)),
        }
    }

    /// Get current status of a pipeline: shows the status of the pipeline that `params`
    /// names, when the engine reports `reading` of it, with up to 10 of its last messages
    /// where they are asked for. Fails where there is no such pipeline.
    pub fn gst_get_pipeline_status(
        &self,
        params: &GetPipelineStatusParams,
        reading: &EngineReading,
    ) -> (result: Result<String, ToolFailure>)
        requires
            self.wf(),
        ensures
            result is Ok <==> self.pipeline_manager@.contains_key(params.pipeline_id@),
            match result {
                Ok(text) => text@ == status_text(
                    self.pipeline_manager@[params.pipeline_id@],
                    *reading,
                    params.include_messages == Some(true),
                ),
                Err(failure) => failure.code == -32000 && failure.message@ == "Pipeline '"@
                    + params.pipeline_id@ + "' not found"@,
            },
    {
        let status = match self.pipeline_manager.get_pipeline_status(
            params.pipeline_id.as_str(),
            reading,
        ) {
            Ok(status) => status,
            Err(error) => {
                return Err(ToolFailure::from_error(&error));
            },
        };
        let wanted = match params.include_messages {
            Some(choice) => choice,
            None => false,
        };
        let messages = if wanted {
            self.pipeline_manager.get_bus_messages(params.pipeline_id.as_str(), STATUS_MESSAGES)
        } else {
            let none: Vec<BusMessage> = Vec::new();
            assert(message_views(none@) =~= Seq::<BusMessageView>::empty());
            none
        };
        Ok(show_status(&status, &messages))
    }

    /// Stop and cleanup a pipeline: takes the pipeline that `params` names out of the
    /// registry. Fails, and changes nothing, where there is no such pipeline.
    pub fn gst_stop_pipeline(&mut self, params: &StopPipelineParams) -> (result: Result<
        String,
        ToolFailure,
    >)
        requires
            old(self).wf(),
        ensures
            final(self).wf(),
            final(self).pipeline_manager.max() == old(self).pipeline_manager.max(),
            final(self).enabled_tools@ == old(self).enabled_tools@,
            final(self).config == old(self).config,
            result is Ok <==> old(self).pipeline_manager@.contains_key(params.pipeline_id@),
            match result {
                Ok(text) => {
                    &&& text@ == stopped_text(params.pipeline_id@)
                    &&& final(self).pipeline_manager@ == old(self).pipeline_manager@.remove(
                        params.pipeline_id@,
                    )
                },
                Err(failure) => {
                    &&& failure.code == -32000
                    &&& failure.message@ == "Pipeline '"@ + params.pipeline_id@ + "' not found"@
                    &&& final(self).pipeline_manager@ == old(self).pipeline_manager@
                },
            },
    {
        match self.pipeline_manager.remove_pipeline(params.pipeline_id.as_str()) {
            Ok(_) => {
                let mut text = "Pipeline '".to_owned();
                text.append(params.pipeline_id.as_str());
                text.append("' stopped and removed successfully");
                Ok(text)
            },
            Err(error) => Err(ToolFailure::from_error(&error)),
        }
    }

    /// List all active pipelines: shows each registered pipeline once, in no particular
    /// order, in short or at length.
    pub fn gst_list_pipelines(&self, params: &ListGstPipelinesParams) -> (result: Result<
        String,
        ToolFailure,
    >)
        requires
            self.wf(),
        ensures
            result matches Ok(text) && exists|infos: Seq<PipelineInfoView>|
                #[trigger] lists_registry(infos, self.pipeline_manager@) && text@ == listing_text(
                    infos,
                    params.include_details == Some(true),
                ),
    {
        let infos = self.pipeline_manager.list_pipelines();
        let details = match params.include_details {
            Some(choice) => choice,
            None => false,
        };
        let text = show_listing(&infos, details);
        assert(lists_registry(info_views(infos@), self.pipeline_manager@));
        Ok(text)
    }

    /// Validate a pipeline description without launching: shows the elements that the
    /// description names where the engine could parse it, and the reason where it could
    /// not. Never fails.
    pub fn gst_validate_pipeline(
        &self,
        params: &ValidatePipelineParams,
        outcome: &BuildOutcome,
    ) -> (result: Result<String, ToolFailure>)
        ensures
            result matches Ok(text) && text@ == match *outcome {
                BuildOutcome::NotInitialized(detail) => invalid_text(
                    "GStreamer initialization failed: "@ + detail@,
                ),
                BuildOutcome::ParseFailed(detail) => invalid_text(
                    "Invalid pipeline description: "@ + detail@,
                ),
                _ => valid_text(element_names_of(params.pipeline_description@)),
            },
    {
        match validate_pipeline_description(params.pipeline_description.as_str(), outcome) {
            Ok(names) => Ok(show_valid(&names)),
            Err(error) => {
                let mut text = "Pipeline validation failed:\n".to_owned();
                text.append(error.message().as_str());
                Ok(text)
            },
        }
    }


    /// Whether the elements of the engine's registry have to be discovered before they can
    /// be listed: not where the cache is in use and holds them.
    pub fn needs_elements(&self) -> (needed: bool)
        ensures
            needed == !(self.config.cache_enabled && self.cache.cached_elements() is Some),
    {
        !(self.config.cache_enabled && self.cache.has_elements())
    }

    /// Whether the plugins of the engine's registry have to be discovered before they can
    /// be listed: not where the cache is in use and holds them.
    pub fn needs_plugins(&self) -> (needed: bool)
        ensures
            needed == !(self.config.cache_enabled && self.cache.cached_plugins() is Some),
    {
        !(self.config.cache_enabled && self.cache.has_plugins())
    }

    /// List all available GStreamer elements: shows those whose name and classification
    /// pass the filters of `params`. The elements are those that the cache holds, where it
    /// is in use and holds any, and those that were `discovered` otherwise; a cache in use
    /// keeps what was discovered. Fails where the tool is switched off or the discovery
    /// failed.
    pub fn gst_list_elements(
        &mut self,
        params: &ListElementsParams,
        discovered: Result<Vec<ElementInfo>, GStreamerMcpError>,
    ) -> (result: Result<String, ToolFailure>)
        ensures
            final(self).pipeline_manager == old(self).pipeline_manager,
            final(self).enabled_tools@ == old(self).enabled_tools@,
            final(self).config == old(self).config,
            final(self).cache.cached_plugins() == old(self).cache.cached_plugins(),
            !old(self).enabled_tools@.contains(GST_LIST_ELEMENTS@) ==> {
                &&& result matches Err(failure)
                &&& says_not_enabled(failure, GST_LIST_ELEMENTS@)
                &&& final(self).cache.cached_elements() == old(self).cache.cached_elements()
            },
            old(self).enabled_tools@.contains(GST_LIST_ELEMENTS@) ==> match listed_elements(
                old(self).config.cache_enabled,
                old(self).cache.cached_elements(),
                discovered,
            ) {
                Ok(elements) => {
                    &&& result matches Ok(text)
                    &&& text@ == elements_text(
                        kept_elements(
                            elements,
                            optional_text(params.filter),
                            optional_text(params.category),
                        ),
                    )
                    &&& final(self).cache.cached_elements() == if old(self).config.cache_enabled {
                        Some(elements)
                    } else {
                        old(self).cache.cached_elements()
                    }
                },
                Err(error) => {
                    &&& result matches Err(failure)
                    &&& tells_of(failure, error)
                    &&& final(self).cache.cached_elements() == old(self).cache.cached_elements()
                },
            },
    {
        if !self.is_tool_enabled(GST_LIST_ELEMENTS) {
            return Err(Self::not_enabled(GST_LIST_ELEMENTS));
        }
        let found = if self.config.cache_enabled {
            self.cache.get_elements(discovered)
        } else {
            discovered
        };
        match found {
            Ok(elements) => {
                let kept = filter_elements(&elements, &params.filter, &params.category);
                Ok(show_elements(&kept))
            },
            Err(error) => Err(ToolFailure::from_error(&error)),
        }
    }

    /// Get detailed information about a GStreamer element: shows what the engine told of
    /// it, and fails where the engine told of a failure.
    pub fn gst_inspect_element(
        &self,
        params: &InspectElementParams,
        inspected: Result<ElementDetailedInfo, GStreamerMcpError>,
    ) -> (result: Result<String, ToolFailure>)
        ensures
            match inspected {
                Ok(info) => result matches Ok(text) && text@ == details_text(info),
                Err(error) => result matches Err(failure) && tells_of(failure, error),
            },
    {
        match inspected {
            Ok(info) => Ok(show_details(&info)),
            Err(error) => Err(ToolFailure::from_error(&error)),
        }
    }

    /// List all available GStreamer plugins: shows those whose name passes the filter of
    /// `params`. The plugins are those that the cache holds, where it is in use and holds
    /// any, and those that were `discovered` otherwise; a cache in use keeps what was
    /// discovered. Fails where the discovery failed.
    pub fn gst_list_plugins(
        &mut self,
        params: &ListPluginsParams,
        discovered: Result<Vec<PluginInfo>, GStreamerMcpError>,
    ) -> (result: Result<String, ToolFailure>)
        ensures
            final(self).pipeline_manager == old(self).pipeline_manager,
            final(self).enabled_tools@ == old(self).enabled_tools@,
            final(self).config == old(self).config,
            final(self).cache.cached_elements() == old(self).cache.cached_elements(),
            match listed_plugins(
                old(self).config.cache_enabled,
                old(self).cache.cached_plugins(),
                discovered,
            ) {
                Ok(plugins) => {
                    &&& result matches Ok(text)
                    &&& text@ == plugins_text(kept_plugins(plugins, optional_text(params.filter)))
                    &&& final(self).cache.cached_plugins() == if old(self).config.cache_enabled {
                        Some(plugins)
                    } else {
                        old(self).cache.cached_plugins()
                    }
                },
                Err(error) => {
                    &&& result matches Err(failure)
                    &&& tells_of(failure, error)
                    &&& final(self).cache.cached_plugins() == old(self).cache.cached_plugins()
                },
            },
    {
        let found = if self.config.cache_enabled {
            self.cache.get_plugins(discovered)
        } else {
            discovered
        };
        match found {
            Ok(plugins) => {
                let kept = filter_plugins(&plugins, &params.filter);
                Ok(show_plugins(&kept))
            },
            Err(error) => Err(ToolFailure::from_error(&error)),
        }
    }

    /// Search GStreamer elements by keyword: shows the elements among those `discovered`
    /// that match the query of `params`, best first, and no more of them than the settings
    /// allow. Fails where the discovery failed.
    pub fn gst_search_elements(
        &self,
        params: &SearchElementsParams,
        discovered: Result<Vec<ElementInfo>, GStreamerMcpError>,
    ) -> (result: Result<String, ToolFailure>)
        ensures
            match discovered {
                Ok(elements) => result matches Ok(text) && text@ == search_text(
                    best_matches(
                        element_views(elements@),
                        params.query@,
                        self.config.max_search_results as nat,
                    ),
                    params.query@,
                ),
                Err(error) => result matches Err(failure) && tells_of(failure, error),
            },
    {
        match discovered {
            Ok(elements) => {
                let found = rank_elements(
                    &elements,
                    params.query.as_str(),
                    self.config.max_search_results,
                );
                Ok(show_search(&found, params.query.as_str()))
            },
            Err(error) => Err(ToolFailure::from_error(&error)),
        }
    }

}

} // verus!
