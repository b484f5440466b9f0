//! The commands of the interactive mode: how a line that was typed is read.

use crate::discovery::{
    best_matches, element_views, inspect_element, property_names, search_elements,
    ElementDetailedInfo, ElementInfo, ElementInfoView, ElementReport, InspectOutcome,
    PadTemplateInfo, PropertyInfo,
};
use crate::error::{prefixed, GStreamerMcpError};
use crate::handler::{info_views, lists_registry, registry_after_launch};
use crate::pipeline::{
    element_names_of, is_creation_failure, is_generated_id, pending_name, signed_nanoseconds,
    validate_pipeline_description, BuildOutcome, EngineReading, PipelineInfo, PipelineInfoView,
    PipelineInstanceView, PipelineManager, PipelineState, StateChangeReply, Timestamp,
};
use crate::text::{
    debug_of_optional_text, debug_of_text, debug_optional_text, debug_text, decimal_digits,
    decimal_text, is_sorting, join, joined, lowercase_of, optional_text, signed_decimal,
    split_words, texts_of, to_lowercase, unsigned_decimal, words_of,
};
use vstd::prelude::*;
use vstd::string::*;

verus! {

/// REPL commands
#[derive(Debug)]
pub enum ReplCommand {
    Help,
    List,
    Launch(String),
    Stop(String),
    Status(String),
    State(String, String),
    Inspect(String),
    Search(String),
    Validate(String),
    Exit,
}

/// What a `ReplCommand` holds.
#[verifier::ext_equal]
pub enum ReplCommandView {
    Help,
    List,
    Launch(Seq<char>),
    Stop(Seq<char>),
    Status(Seq<char>),
    State(Seq<char>, Seq<char>),
    Inspect(Seq<char>),
    Search(Seq<char>),
    Validate(Seq<char>),
    Exit,
}

impl View for ReplCommand {
    type V = ReplCommandView;

    open spec fn view(&self) -> ReplCommandView {
        match *self {
            ReplCommand::Help => ReplCommandView::Help,
            ReplCommand::List => ReplCommandView::List,
            ReplCommand::Launch(description) => ReplCommandView::Launch(description@),
            ReplCommand::Stop(id) => ReplCommandView::Stop(id@),
            ReplCommand::Status(id) => ReplCommandView::Status(id@),
            ReplCommand::State(id, state) => ReplCommandView::State(id@, state@),
            ReplCommand::Inspect(element) => ReplCommandView::Inspect(element@),
            ReplCommand::Search(query) => ReplCommandView::Search(query@),
            ReplCommand::Validate(description) => ReplCommandView::Validate(description@),
            ReplCommand::Exit => ReplCommandView::Exit,
        }
    }
}

/// What a result of reading a command holds.
pub open spec fn reading_view(result: Result<ReplCommand, String>) -> Result<
    ReplCommandView,
    Seq<char>,
> {
    match result {
        Ok(command) => Ok(command@),
        Err(complaint) => Err(complaint@),
    }
}

/// The command that the words of a line make, when `command` is the first word in lower
/// case; or the complaint about them. A line without a word asks for help.
pub open spec fn command_of(words: Seq<Seq<char>>, command: Seq<char>) -> Result<
    ReplCommandView,
    Seq<char>,
> {
    if words.len() == 0 || command == "help"@ || command == "h"@ || command == "?"@ {
        Ok(ReplCommandView::Help)
    } else if command == "list"@ || command == "ls"@ || command == "pipelines"@ {
        Ok(ReplCommandView::List)
    } else if command == "launch"@ || command == "l"@ {
        if words.len() < 2 {
            Err("Usage: launch <pipeline-description>"@)
        } else {
            Ok(ReplCommandView::Launch(joined(words.skip(1), " "@)))
        }
    } else if command == "stop"@ || command == "s"@ {
        if words.len() != 2 {
            Err("Usage: stop <pipeline-id>"@)
        } else {
            Ok(ReplCommandView::Stop(words[1]))
        }
    } else if command == "status"@ || command == "stat"@ {
        if words.len() != 2 {
            Err("Usage: status <pipeline-id>"@)
        } else {
            Ok(ReplCommandView::Status(words[1]))
        }
    } else if command == "state"@ {
        if words.len() != 3 {
            Err("Usage: state <pipeline-id> <null|ready|paused|playing>"@)
        } else {
            Ok(ReplCommandView::State(words[1], words[2]))
        }
    } else if command == "inspect"@ || command == "i"@ {
        if words.len() != 2 {
            Err("Usage: inspect <element-name>"@)
        } else {
            Ok(ReplCommandView::Inspect(words[1]))
        }
    } else if command == "search"@ {
        if words.len() < 2 {
            Err("Usage: search <query>"@)
        } else {
            Ok(ReplCommandView::Search(joined(words.skip(1), " "@)))
        }
    } else if command == "validate"@ || command == "v"@ {
        if words.len() < 2 {
            Err("Usage: validate <pipeline-description>"@)
        } else {
            Ok(ReplCommandView::Validate(joined(words.skip(1), " "@)))
        }
    } else if command == "exit"@ || command == "quit"@ || command == "q"@ {
        Ok(ReplCommandView::Exit)
    } else {
        Err("Unknown command: "@ + words[0] + ". Type 'help' for available commands."@)
    }
}

/// The command that a line makes, or the complaint about it: a line without a word asks
/// for help, and the first word of any other line, whatever its letter case, names the
/// command.
pub open spec fn command_of_line(line: Seq<char>) -> Result<ReplCommandView, Seq<char>> {
    let words = words_of(line);
    command_of(words, lowercase_of(words[0]))
}

fn is_word(command: &String, word: &str) -> (same: bool)
    ensures
        same == (command@ == word@),
{
    *command == word.to_owned()
}

impl ReplCommand {
    /// The command that the words `parts` of a line make, when `command` is the first of
    /// them in lower case; or the complaint about them.
    pub fn from_words(parts: &Vec<String>, command: &String) -> (result: Result<Self, String>)
        ensures
            reading_view(result) == command_of(texts_of(parts@), command@),
    {
        if parts.len() == 0 || is_word(command, "help") || is_word(command, "h") || is_word(command, "?") {
            Ok(ReplCommand::Help)
        } else if is_word(command, "list") || is_word(command, "ls") || is_word(
            command,
            "pipelines",
        ) {
            Ok(ReplCommand::List)
        } else if is_word(command, "launch") || is_word(command, "l") {
            if parts.len() < 2 {
                Err("Usage: launch <pipeline-description>".to_owned())
            } else {
                Ok(ReplCommand::Launch(join(parts, 1, " ")))
            }
        } else if is_word(command, "stop") || is_word(command, "s") {
            if parts.len() != 2 {
                Err("Usage: stop <pipeline-id>".to_owned())
            } else {
                Ok(ReplCommand::Stop(parts[1].clone()))
            }
        } else if is_word(command, "status") || is_word(command, "stat") {
            if parts.len() != 2 {
                Err("Usage: status <pipeline-id>".to_owned())
            } else {
                Ok(ReplCommand::Status(parts[1].clone()))
            }
        } else if is_word(command, "state") {
            if parts.len() != 3 {
                Err("Usage: state <pipeline-id> <null|ready|paused|playing>".to_owned())
            } else {
                Ok(ReplCommand::State(parts[1].clone(), parts[2].clone()))
            }
        } else if is_word(command, "inspect") || is_word(command, "i") {
            if parts.len() != 2 {
                Err("Usage: inspect <element-name>".to_owned())
            } else {
                Ok(ReplCommand::Inspect(parts[1].clone()))
            }
        } else if is_word(command, "search") {
            if parts.len() < 2 {
                Err("Usage: search <query>".to_owned())
            } else {
                Ok(ReplCommand::Search(join(parts, 1, " ")))
            }
        } else if is_word(command, "validate") || is_word(command, "v") {
            if parts.len() < 2 {
                Err("Usage: validate <pipeline-description>".to_owned())
            } else {
                Ok(ReplCommand::Validate(join(parts, 1, " ")))
            }
        } else if is_word(command, "exit") || is_word(command, "quit") || is_word(command, "q") {
            Ok(ReplCommand::Exit)
        } else {
            let mut complaint = "Unknown command: ".to_owned();
            complaint.append(parts[0].as_str());
            complaint.append(". Type 'help' for available commands.");
            Err(complaint)
        }
    }

    /// Reads the command that `input` makes, or complains about it.
    pub fn parse(input: &str) -> (result: Result<Self, String>)
        ensures
            reading_view(result) == command_of_line(input@),
    {
        let parts = split_words(input);
        assert(texts_of(parts@) =~= words_of(input@));
        if parts.len() == 0 {
            return Ok(ReplCommand::Help);
        }
        let command = to_lowercase(parts[0].as_str());
        Self::from_words(&parts, &command)
    }
}

/// The identifier that `id` stands for: the last launched pipeline's for `last` and `.`,
/// and `id` itself otherwise. Complains where `last` or `.` is given and no pipeline was
/// launched yet.
pub fn resolve_pipeline_id(id: &str, last_pipeline_id: &Option<String>) -> (result: Result<
    String,
    String,
>)
    ensures
        match resolved_id(id@, optional_text(*last_pipeline_id)) {
            Some(pipeline) => result matches Ok(resolved) && resolved@ == pipeline,
            None => result matches Err(complaint) && complaint@
                == "No pipeline has been launched yet"@,
        },
{
    let given = id.to_owned();
    if is_word(&given, "last") || is_word(&given, ".") {
        match last_pipeline_id {
            Some(last) => Ok(last.clone()),
            None => Err("No pipeline has been launched yet".to_owned()),
        }
    } else {
        Ok(given)
    }
}

/// What the interactive mode tells about its commands.
pub const HELP_TEXT: &'static str =
    "Available commands:\n  help, h, ?                    - Show this help message\n  list, ls, pipelines           - List active pipelines\n  launch <description>          - Launch a new pipeline\n  stop <pipeline-id>            - Stop a pipeline\n  status <pipeline-id>          - Get pipeline status\n  state <id> <state>            - Set pipeline state (null/ready/paused/playing)\n  inspect <element>             - Inspect an element\n  search <query>                - Search for elements\n  validate <description>        - Validate pipeline syntax\n  exit, quit, q                 - Exit REPL\n\nTips:\n  - Use 'last' or '.' as pipeline-id to refer to the last launched pipeline\n  - Pipeline descriptions use gst-launch syntax\n  - Example: launch videotestsrc ! autovideosink";

/// How many results of a search the interactive mode shows.
pub const SHOWN_RESULTS: usize = 10;

/// How many results the interactive mode asks of a search.
pub const SEARCHED_RESULTS: usize = 100;

/// One line that the interactive mode prints.
#[derive(Debug)]
pub struct ReplLine {
    /// Whether the line tells of a failure, and goes where failures are told.
    pub failure: bool,
    pub text: String,
}

/// What a `ReplLine` holds.
#[verifier::ext_equal]
pub struct ReplLineView {
    pub failure: bool,
    pub text: Seq<char>,
}

impl View for ReplLine {
    type V = ReplLineView;

    open spec fn view(&self) -> ReplLineView {
        ReplLineView { failure: self.failure, text: self.text@ }
    }
}

/// What each of `lines` holds, in the same order.
pub open spec fn line_views(lines: Seq<ReplLine>) -> Seq<ReplLineView> {
    Seq::new(lines.len(), |i: int| lines[i]@)
}

/// A line that tells what was done.
pub open spec fn told(text: Seq<char>) -> ReplLineView {
    ReplLineView { failure: false, text }
}

/// A line that tells of a failure.
pub open spec fn failed(text: Seq<char>) -> ReplLineView {
    ReplLineView { failure: true, text }
}

fn tell(lines: &mut Vec<ReplLine>, text: String)
    ensures
        line_views(final(lines)@) == line_views(old(lines)@).push(told(text@)),
{
    lines.push(ReplLine { failure: false, text });
    assert(line_views(lines@) =~= line_views(old(lines)@).push(told(text@)));
}

fn only(line: ReplLine) -> (lines: Vec<ReplLine>)
    ensures
        line_views(lines@) == seq![line@],
        lines.len() == 1,
        lines[0] == line,
{
    let mut lines: Vec<ReplLine> = Vec::new();
    lines.push(line);
    assert(line_views(lines@) =~= seq![line@]);
    lines
}

fn failure_line(label: &str, error: &GStreamerMcpError) -> (lines: Vec<ReplLine>)
    ensures
        line_views(lines@) == seq![failed(label@ + error.message_text())],
        lines.len() == 1,
        lines[0]@ == failed(label@ + error.message_text()),
{
    only(ReplLine { failure: true, text: prefixed(label, error.message().as_str()) })
}

/// What the command `help` prints.
pub fn execute_help() -> (lines: Vec<ReplLine>)
    ensures
        line_views(lines@) == seq![told(HELP_TEXT@)],
{
    only(ReplLine { failure: false, text: HELP_TEXT.to_owned() })
}

/// The line that shows one pipeline of a list.
pub open spec fn pipeline_line(info: PipelineInfoView) -> ReplLineView {
    told("  "@ + info.id + " - State: "@ + info.state + ", Description: "@ + info.description)
}

/// The lines that show the pipelines `infos`.
pub open spec fn pipelines_lines(infos: Seq<PipelineInfoView>) -> Seq<ReplLineView> {
    if infos.len() == 0 {
        seq![told("No active pipelines"@)]
    } else {
        seq![told("Active pipelines:"@)] + Seq::new(infos.len(), |i: int| pipeline_line(infos[i]))
    }
}

/// What the command `list` prints of the pipelines `infos`.
pub fn show_pipelines(infos: &Vec<PipelineInfo>) -> (lines: Vec<ReplLine>)
    ensures
        line_views(lines@) == pipelines_lines(info_views(infos@)),
{
    if infos.len() == 0 {
        return only(ReplLine { failure: false, text: "No active pipelines".to_owned() });
    }
    let mut lines = only(ReplLine { failure: false, text: "Active pipelines:".to_owned() });
    let mut i: usize = 0;
    while i < infos.len()
        invariant
            i <= infos.len(),
            lines.len() == i + 1,
            lines[0]@ == told("Active pipelines:"@),
            forall|k: int| 0 <= k < i ==> (#[trigger] lines[k + 1])@ == pipeline_line(infos@[k]@),
        decreases infos.len() - i,
    {
        let info = &infos[i];
        let mut text = "  ".to_owned();
        text.append(info.id.as_str());
        text.append(" - State: ");
        text.append(info.state.as_str());
        text.append(", Description: ");
        text.append(info.description.as_str());
        lines.push(ReplLine { failure: false, text });
        i = i + 1;
    }
    proof {
        let shown = pipelines_lines(info_views(infos@));
        assert(shown.len() == infos.len() + 1);
        assert forall|k: int| 0 <= k < shown.len() implies line_views(lines@)[k] == shown[k] by {
            if k > 0 {
                assert(lines[(k - 1) + 1]@ == pipeline_line(infos@[k - 1]@));
                assert(shown[k] == pipeline_line(info_views(infos@)[k - 1]));
            }
        }
        assert(line_views(lines@) =~= shown);
    }
    lines
}

/// What the command `list` prints: each registered pipeline once, in no particular
/// order.
pub fn execute_list(manager: &PipelineManager) -> (lines: Vec<ReplLine>)
    requires
        manager.wf(),
    ensures
        exists|infos: Seq<PipelineInfoView>| #[trigger]
            lists_registry(infos, manager@) && line_views(lines@) == pipelines_lines(infos),
{
    let infos = manager.list_pipelines();
    let lines = show_pipelines(&infos);
    assert(lists_registry(info_views(infos@), manager@));
    lines
}

/// Whether a launch from the interactive mode, to which the engine answered `play` when
/// asked to play, has made the registry `after` of the registry `before`, printed
/// `lines`, and left `last` as the last launched pipeline, when the new pipeline has the
/// identifier `id`, was created and last changed at the first two times, and was set to
/// play at the third.
pub open spec fn is_repl_launch(
    before: Map<Seq<char>, PipelineInstanceView>,
    after: Map<Seq<char>, PipelineInstanceView>,
    description: Seq<char>,
    play: StateChangeReply,
    lines: Seq<ReplLineView>,
    last: Option<Seq<char>>,
    id: Seq<char>,
    created_at: Timestamp,
    changed_at: Timestamp,
    played_at: Timestamp,
) -> bool {
    &&& is_generated_id(id)
    &&& last == Some(id)
    &&& after == registry_after_launch(
        before,
        id,
        description,
        created_at,
        changed_at,
        played_at,
        play != StateChangeReply::Rejected,
    )
    &&& lines == if play == StateChangeReply::Rejected {
        seq![
            failed(
                "Pipeline created but failed to play: "@ + GStreamerMcpError::StateChangeError(
                    PipelineState::Playing,
                ).message_text(),
            ),
        ]
    } else {
        seq![told("Pipeline launched successfully with ID: "@ + id)]
    }
}

/// Whether `lines` tell that no pipeline could be created, when the registry is full or
/// not and the engine answered `outcome`.
pub open spec fn tell_creation_failure(
    lines: Seq<ReplLineView>,
    full: bool,
    max: nat,
    outcome: BuildOutcome,
) -> bool {
    exists|error: GStreamerMcpError| #[trigger]
        is_creation_failure(error, full, max, outcome) && lines == seq![
            failed("Failed to launch pipeline: "@ + error.message_text()),
        ]
}

/// Carries out the command `launch`: registers the pipeline that the engine built of
/// `description` under a new identifier, notes that it was set to play, and remembers it
/// as the last launched pipeline, also where the engine refused to play it. Where no
/// pipeline could be created, nothing changes.
pub fn execute_launch(
    manager: &mut PipelineManager,
    last_pipeline_id: &mut Option<String>,
    description: &str,
    outcome: BuildOutcome,
    play: StateChangeReply,
) -> (lines: Vec<ReplLine>)
    requires
        old(manager).wf(),
    ensures
        final(manager).wf(),
        final(manager).max() == old(manager).max(),
        !(outcome is Built && old(manager)@.dom().len() < old(manager).max()) ==> {
            &&& final(manager)@ == old(manager)@
            &&& *final(last_pipeline_id) == *old(last_pipeline_id)
            &&& tell_creation_failure(
                line_views(lines@),
                old(manager)@.dom().len() >= old(manager).max(),
                old(manager).max(),
                outcome,
            )
        },
        outcome is Built && old(manager)@.dom().len() < old(manager).max() ==> exists|
            id: Seq<char>,
            created_at: Timestamp,
            changed_at: Timestamp,
            played_at: Timestamp,
        |
            is_repl_launch(
                old(manager)@,
                final(manager)@,
                description@,
                play,
                line_views(lines@),
                optional_text(*final(last_pipeline_id)),
                id,
                created_at,
                changed_at,
                played_at,
            ),
{
    let ghost before = manager@;
    let id = match manager.create_pipeline(description, None, outcome) {
        Ok(id) => id,
        Err(error) => {
            let lines = failure_line("Failed to launch pipeline: ", &error);
            assert(is_creation_failure(
                error,
                before.dom().len() >= old(manager).max(),
                old(manager).max(),
                outcome,
            ));
            assert(tell_creation_failure(
                line_views(lines@),
                before.dom().len() >= old(manager).max(),
                old(manager).max(),
                outcome,
            ));
            return lines;
        },
    };
    let ghost (created_at, changed_at) = choose|created_at: Timestamp, changed_at: Timestamp|
        manager@ == before.insert(
            id@,
            #[trigger] PipelineInstanceView::fresh(id@, description@, created_at, changed_at),
        );
    let ghost registered = manager@;
    let lines = match manager.set_pipeline_state(id.as_str(), PipelineState::Playing, play) {
        Ok(_) => {
            let ghost played_at = choose|played_at: Timestamp|
                manager@ == registered.insert(
                    id@,
                    #[trigger] registered[id@].with_declared_state(
                        PipelineState::Playing,
                        played_at,
                    ),
                );
            let lines = only(
                ReplLine {
                    failure: false,
                    text: prefixed("Pipeline launched successfully with ID: ", id.as_str()),
                },
            );
            assert(is_repl_launch(
                before,
                manager@,
                description@,
                play,
                line_views(lines@),
                Some(id@),
                id@,
                created_at,
                changed_at,
                played_at,
            ));
            lines
        },
        Err(error) => {
            let lines = failure_line("Pipeline created but failed to play: ", &error);
            assert(is_repl_launch(
                before,
                manager@,
                description@,
                play,
                line_views(lines@),
                Some(id@),
                id@,
                created_at,
                changed_at,
                created_at,
            ));
            lines
        },
    };
    *last_pipeline_id = Some(id);
    lines
}

/// The last launched pipeline after the pipeline `stopped` was stopped: none where that
/// was the last one.
pub open spec fn last_after_stop(last: Option<Seq<char>>, stopped: Seq<char>) -> Option<Seq<char>> {
    if last == Some(stopped) {
        None
    } else {
        last
    }
}

/// Carries out the command `stop` for the pipeline that `id` stands for: takes it out of
/// the registry, and forgets it as the last launched pipeline where it was that. Complains
/// and does nothing where `id` stands for no pipeline.
pub fn execute_stop(
    manager: &mut PipelineManager,
    last_pipeline_id: &mut Option<String>,
    id: &str,
) -> (result: Result<Vec<ReplLine>, String>)
    requires
        old(manager).wf(),
    ensures
        final(manager).wf(),
        final(manager).max() == old(manager).max(),
        match resolved_id(id@, optional_text(*old(last_pipeline_id))) {
            None => {
                &&& result matches Err(complaint)
                &&& complaint@ == "No pipeline has been launched yet"@
                &&& final(manager)@ == old(manager)@
                &&& *final(last_pipeline_id) == *old(last_pipeline_id)
            },
            Some(pipeline) => {
                &&& result matches Ok(lines)
                &&& if old(manager)@.contains_key(pipeline) {
                    &&& final(manager)@ == old(manager)@.remove(pipeline)
                    &&& optional_text(*final(last_pipeline_id)) == last_after_stop(
                        optional_text(*old(last_pipeline_id)),
                        pipeline,
                    )
                    &&& line_views(lines@) == seq![told("Pipeline "@ + pipeline + " stopped"@)]
                } else {
                    &&& final(manager)@ == old(manager)@
                    &&& *final(last_pipeline_id) == *old(last_pipeline_id)
                    &&& line_views(lines@) == seq![
                        failed(
                            "Failed to stop pipeline: "@ + "Pipeline '"@ + pipeline
                                + "' not found"@,
                        ),
                    ]
                }
            },
        },
{
    let pipeline = match resolve_pipeline_id(id, last_pipeline_id) {
        Ok(pipeline) => pipeline,
        Err(complaint) => {
            return Err(complaint);
        },
    };
    match manager.remove_pipeline(pipeline.as_str()) {
        Ok(_) => {
            let mut text = "Pipeline ".to_owned();
            text.append(pipeline.as_str());
            text.append(" stopped");
            let was_last = match last_pipeline_id {
                Some(last) => *last == pipeline,
                None => false,
            };
            if was_last {
                *last_pipeline_id = None;
            }
            Ok(only(ReplLine { failure: false, text }))
        },
        Err(error) => {
            let lines = failure_line("Failed to stop pipeline: ", &error);
            assert(lines[0]@.text =~= "Failed to stop pipeline: "@ + "Pipeline '"@ + pipeline@
                + "' not found"@);
            assert(line_views(lines@) =~= seq![
                failed("Failed to stop pipeline: "@ + "Pipeline '"@ + pipeline@ + "' not found"@),
            ]);
            Ok(lines)
        },
    }
}

/// The identifier that `id` stands for, when `last` is the last launched pipeline: that
/// one for `last` and `.`, where there is one, and `id` itself otherwise.
pub open spec fn resolved_id(id: Seq<char>, last: Option<Seq<char>>) -> Option<Seq<char>> {
    if id == "last"@ || id == "."@ {
        last
    } else {
        Some(id)
    }
}

/// The line of a status that shows a time, where it is known and not 0.
pub open spec fn time_line(label: Seq<char>, nanoseconds: i64) -> Seq<ReplLineView> {
    if nanoseconds > 0 {
        seq![told(label + decimal_text(nanoseconds as int) + "s"@)]
    } else {
        Seq::<ReplLineView>::empty()
    }
}

/// The lines that show the status of the pipeline `entry`, asked for as `pipeline`, when
/// the engine reports `reading`.
pub open spec fn status_lines(
    pipeline: Seq<char>,
    entry: PipelineInstanceView,
    reading: EngineReading,
) -> Seq<ReplLineView> {
    seq![
        told("Pipeline "@ + pipeline + " status:"@),
        told("  State: "@ + debug_of_text(reading.current.name_text())),
        told("  Pending: "@ + debug_of_optional_text(pending_name(reading.pending))),
    ] + time_line("  Position: "@, signed_nanoseconds(reading.position)) + time_line(
        "  Duration: "@,
        signed_nanoseconds(reading.duration),
    ) + seq![
        told(
            "  Errors: "@ + decimal_digits(entry.info.error_count as nat) + ", Warnings: "@
                + decimal_digits(entry.info.warning_count as nat),
        ),
    ]
}

fn tell_time(lines: &mut Vec<ReplLine>, label: &str, nanoseconds: i64)
    ensures
        line_views(final(lines)@) == line_views(old(lines)@) + time_line(label@, nanoseconds),
{
    if nanoseconds > 0 {
        let mut text = label.to_owned();
        text.append(signed_decimal(nanoseconds).as_str());
        text.append("s");
        tell(lines, text);
        assert(line_views(lines@) =~= line_views(old(lines)@) + time_line(label@, nanoseconds));
    } else {
        assert(line_views(lines@) =~= line_views(old(lines)@) + time_line(label@, nanoseconds));
    }
}

/// Carries out the command `status` for the pipeline that `id` stands for, when the
/// engine reports `reading` of it. Complains where `id` stands for no pipeline.
pub fn execute_status(
    manager: &PipelineManager,
    last_pipeline_id: &Option<String>,
    id: &str,
    reading: &EngineReading,
) -> (result: Result<Vec<ReplLine>, String>)
    requires
        manager.wf(),
    ensures
        match resolved_id(id@, optional_text(*last_pipeline_id)) {
            None => result matches Err(complaint) && complaint@
                == "No pipeline has been launched yet"@,
            Some(pipeline) => result matches Ok(lines) && line_views(lines@) == if manager@.contains_key(
                pipeline,
            ) {
                status_lines(pipeline, manager@[pipeline], *reading)
            } else {
                seq![
                    failed(
                        "Failed to get pipeline status: "@ + "Pipeline '"@ + pipeline
                            + "' not found"@,
                    ),
                ]
            },
        },
{
    let pipeline = match resolve_pipeline_id(id, last_pipeline_id) {
        Ok(pipeline) => pipeline,
        Err(complaint) => {
            return Err(complaint);
        },
    };
    let status = match manager.get_pipeline_status(pipeline.as_str(), reading) {
        Ok(status) => status,
        Err(error) => {
            let lines = failure_line("Failed to get pipeline status: ", &error);
            assert(lines[0]@.text =~= "Failed to get pipeline status: "@ + "Pipeline '"@
                + pipeline@ + "' not found"@);
            assert(line_views(lines@) =~= seq![
                failed(
                    "Failed to get pipeline status: "@ + "Pipeline '"@ + pipeline@
                        + "' not found"@,
                ),
            ]);
            return Ok(lines);
        },
    };
    let mut head = "Pipeline ".to_owned();
    head.append(pipeline.as_str());
    head.append(" status:");
    let mut lines = only(ReplLine { failure: false, text: head });
    tell(&mut lines, prefixed("  State: ", debug_text(status.state.as_str()).as_str()));
    tell(
        &mut lines,
        prefixed("  Pending: ", debug_optional_text(&status.pending_state).as_str()),
    );
    tell_time(&mut lines, "  Position: ", status.position);
    tell_time(&mut lines, "  Duration: ", status.duration);
    let mut counts = "  Errors: ".to_owned();
    counts.append(unsigned_decimal(status.error_count as u64).as_str());
    counts.append(", Warnings: ");
    counts.append(unsigned_decimal(status.warning_count as u64).as_str());
    tell(&mut lines, counts);
    assert(line_views(lines@) =~= status_lines(pipeline@, manager@[pipeline@], *reading));
    Ok(lines)
}

/// The line that complains of a name that names no state.
pub open spec fn invalid_state_line(given: Seq<char>) -> ReplLineView {
    failed("Invalid state: "@ + given + ". Use null, ready, paused, or playing"@)
}

/// Carries out the command `state`: notes what the engine answered when the state that
/// `state` names was asked of the pipeline that `id` stands for. Complains, and changes
/// nothing, where `id` stands for no pipeline, `state` names no state, the pipeline is
/// unknown, or the engine rejected the request.
pub fn execute_state(
    manager: &mut PipelineManager,
    last_pipeline_id: &Option<String>,
    id: &str,
    state: &str,
    reply: StateChangeReply,
) -> (result: Result<Vec<ReplLine>, String>)
    requires
        old(manager).wf(),
    ensures
        final(manager).wf(),
        final(manager).max() == old(manager).max(),
        match resolved_id(id@, optional_text(*last_pipeline_id)) {
            None => {
                &&& result matches Err(complaint)
                &&& complaint@ == "No pipeline has been launched yet"@
                &&& final(manager)@ == old(manager)@
            },
            Some(pipeline) => {
                &&& result matches Ok(lines)
                &&& match PipelineState::named(lowercase_of(state@)) {
                    None => {
                        &&& final(manager)@ == old(manager)@
                        &&& line_views(lines@) == seq![invalid_state_line(state@)]
                    },
                    Some(target) => if !old(manager)@.contains_key(pipeline) {
                        &&& final(manager)@ == old(manager)@
                        &&& line_views(lines@) == seq![
                            failed(
                                "Failed to change pipeline state: "@ + "Pipeline '"@ + pipeline
                                    + "' not found"@,
                            ),
                        ]
                    } else if reply == StateChangeReply::Rejected {
                        &&& final(manager)@ == old(manager)@
                        &&& line_views(lines@) == seq![
                            failed(
                                "Failed to change pipeline state: "@
                                    + GStreamerMcpError::StateChangeError(target).message_text(),
                            ),
                        ]
                    } else {
                        &&& exists|at: Timestamp|
                            final(manager)@ == old(manager)@.insert(
                                pipeline,
                                #[trigger] old(manager)@[pipeline].with_declared_state(target, at),
                            )
                        &&& line_views(lines@) == seq![
                            told(
                                "Pipeline "@ + pipeline + " state changed to: "@ + (match reply {
                                    StateChangeReply::Success(current) => current,
                                    _ => target,
                                }).name_text(),
                            ),
                        ]
                    },
                }
            },
        },
{
    let pipeline = match resolve_pipeline_id(id, last_pipeline_id) {
        Ok(pipeline) => pipeline,
        Err(complaint) => {
            return Err(complaint);
        },
    };
    let target = match PipelineState::parse(state) {
        Some(target) => target,
        None => {
            let mut text = "Invalid state: ".to_owned();
            text.append(state);
            text.append(". Use null, ready, paused, or playing");
            return Ok(only(ReplLine { failure: true, text }));
        },
    };
    match manager.set_pipeline_state(pipeline.as_str(), target, reply) {
        Ok(reached) => {
            let mut text = "Pipeline ".to_owned();
            text.append(pipeline.as_str());
            text.append(" state changed to: ");
            text.append(reached.name().as_str());
            Ok(only(ReplLine { failure: false, text }))
        },
        Err(error) => {
            let lines = failure_line("Failed to change pipeline state: ", &error);
            proof {
                if !old(manager)@.contains_key(pipeline@) {
                    assert(lines[0]@.text =~= "Failed to change pipeline state: "@
                        + "Pipeline '"@ + pipeline@ + "' not found"@);
                    assert(line_views(lines@) =~= seq![
                        failed(
                            "Failed to change pipeline state: "@ + "Pipeline '"@ + pipeline@
                                + "' not found"@,
                        ),
                    ]);
                }
            }
            Ok(lines)
        },
    }
}

/// The line that shows one property of an element.
pub open spec fn property_line(property: PropertyInfo) -> ReplLineView {
    told("  "@ + property.name@ + " ("@ + property.value_type@ + ") - "@ + property.description@)
}

/// The line that shows one pad template of an element.
pub open spec fn pad_line(pad: PadTemplateInfo) -> ReplLineView {
    told("  "@ + pad.name@ + " ("@ + debug_of_text(pad.direction@) + ") - Caps: "@ + pad.caps@)
}

/// The lines that show an element in detail.
pub open spec fn inspection_lines(info: ElementDetailedInfo) -> Seq<ReplLineView> {
    seq![
        told("Element: "@ + info.name@),
        told("Description: "@ + info.description@),
        told("Classification: "@ + info.classification@),
        told("\nProperties:"@),
    ] + Seq::new(info.properties@.len(), |i: int| property_line(info.properties@[i])) + seq![
        told("\nPad Templates:"@),
    ] + Seq::new(info.pad_templates@.len(), |i: int| pad_line(info.pad_templates@[i]))
}

/// Shows an element in detail.
pub fn show_inspection(info: &ElementDetailedInfo) -> (lines: Vec<ReplLine>)
    ensures
        line_views(lines@) == inspection_lines(*info),
{
    let mut lines = only(
        ReplLine { failure: false, text: prefixed("Element: ", info.name.as_str()) },
    );
    tell(&mut lines, prefixed("Description: ", info.description.as_str()));
    tell(&mut lines, prefixed("Classification: ", info.classification.as_str()));
    tell(&mut lines, "\nProperties:".to_owned());
    let ghost head = line_views(lines@);
    let mut i: usize = 0;
    assert(line_views(lines@) =~= head + Seq::new(
        0,
        |k: int| property_line(info.properties@[k]),
    ));
    while i < info.properties.len()
        invariant
            i <= info.properties.len(),
            line_views(lines@) == head + Seq::new(
                i as nat,
                |k: int| property_line(info.properties@[k]),
            ),
        decreases info.properties.len() - i,
    {
        let ghost before = line_views(lines@);
        let property = &info.properties[i];
        let mut text = "  ".to_owned();
        text.append(property.name.as_str());
        text.append(" (");
        text.append(property.value_type.as_str());
        text.append(") - ");
        text.append(property.description.as_str());
        tell(&mut lines, text);
        assert(line_views(lines@) =~= head + Seq::new(
            (i + 1) as nat,
            |k: int| property_line(info.properties@[k]),
        ));
        i = i + 1;
    }
    tell(&mut lines, "\nPad Templates:".to_owned());
    let ghost middle = line_views(lines@);
    let mut j: usize = 0;
    assert(line_views(lines@) =~= middle + Seq::new(
        0,
        |k: int| pad_line(info.pad_templates@[k]),
    ));
    while j < info.pad_templates.len()
        invariant
            j <= info.pad_templates.len(),
            line_views(lines@) == middle + Seq::new(
                j as nat,
                |k: int| pad_line(info.pad_templates@[k]),
            ),
        decreases info.pad_templates.len() - j,
    {
        let pad = &info.pad_templates[j];
        let mut text = "  ".to_owned();
        text.append(pad.name.as_str());
        text.append(" (");
        text.append(debug_text(pad.direction.as_str()).as_str());
        text.append(") - Caps: ");
        text.append(pad.caps.as_str());
        tell(&mut lines, text);
        assert(line_views(lines@) =~= middle + Seq::new(
            (j + 1) as nat,
            |k: int| pad_line(info.pad_templates@[k]),
        ));
        j = j + 1;
    }
    assert(line_views(lines@) =~= inspection_lines(*info));
    lines
}

/// Whether `info` holds what is shown of the element named `element` of which the engine
/// told `report`: its properties are in the order of their names.
pub open spec fn is_inspection(
    info: ElementDetailedInfo,
    element: Seq<char>,
    report: ElementReport,
) -> bool {
    &&& info.name@ == element
    &&& info.description@ == report.description@
    &&& info.classification@ == report.classification@
    &&& is_sorting(property_names(report.properties@), report.properties@, info.properties@)
    &&& info.pad_templates == report.pad_templates
}

/// Carries out the command `inspect` for the element named `element`, when the engine
/// answered `outcome`: shows the element as `inspect_element` gives it, or the failure.
pub fn execute_inspect(element: &str, outcome: InspectOutcome) -> (lines: Vec<ReplLine>)
    ensures
        match outcome {
            InspectOutcome::NotInitialized(detail) => line_views(lines@) == seq![
                failed(
                    "Failed to inspect element: "@ + GStreamerMcpError::GStreamerInit(
                        detail,
                    ).message_text(),
                ),
            ],
            InspectOutcome::NoSuchElement => line_views(lines@) == seq![
                failed("Failed to inspect element: "@ + "Element not found: "@ + element@),
            ],
            InspectOutcome::BuildFailed(detail) => line_views(lines@) == seq![
                failed(
                    "Failed to inspect element: "@ + "Element not found: "@ + (element@ + ": "@
                        + detail@),
                ),
            ],
            InspectOutcome::Found(report) => exists|info: ElementDetailedInfo| #[trigger]
                is_inspection(info, element@, report) && line_views(lines@) == inspection_lines(
                    info,
                ),
        },
{
    let ghost given = outcome;
    match inspect_element(element, outcome) {
        Ok(info) => {
            let lines = show_inspection(&info);
            assert(is_inspection(info, element@, given->Found_0));
            lines
        },
        Err(error) => {
            let lines = failure_line("Failed to inspect element: ", &error);
            proof {
                if given is NoSuchElement {
                    assert(lines[0]@.text =~= "Failed to inspect element: "@
                        + "Element not found: "@ + element@);
                }
                if given is BuildFailed {
                    assert(lines[0]@.text =~= "Failed to inspect element: "@
                        + "Element not found: "@ + (element@ + ": "@
                        + given->BuildFailed_0@));
                }
                assert(line_views(lines@) =~= seq![lines[0]@]);
            }
            lines
        },
    }
}

/// The line that shows one result of a search.
pub open spec fn result_line(element: ElementInfoView) -> ReplLineView {
    told("  "@ + element.name + " - "@ + element.classification)
}

/// How many of `count` results are shown.
pub open spec fn shown_results(count: nat) -> nat {
    if count > SHOWN_RESULTS {
        SHOWN_RESULTS as nat
    } else {
        count
    }
}

/// The lines that show the results of a search for `query`: the first 10 of them, and how
/// many more there are.
pub open spec fn results_lines(results: Seq<ElementInfoView>, query: Seq<char>) -> Seq<
    ReplLineView,
> {
    if results.len() == 0 {
        seq![told("No elements found matching '"@ + query + "'"@)]
    } else {
        seq![told("Elements matching '"@ + query + "':"@)] + Seq::new(
            shown_results(results.len()),
            |i: int| result_line(results[i]),
        ) + (if results.len() > SHOWN_RESULTS {
            seq![
                told(
                    "  ... and "@ + decimal_digits((results.len() - SHOWN_RESULTS) as nat)
                        + " more"@,
                ),
            ]
        } else {
            Seq::<ReplLineView>::empty()
        })
    }
}

/// Shows the results of a search for `query`.
pub fn show_results(results: &Vec<ElementInfo>, query: &str) -> (lines: Vec<ReplLine>)
    ensures
        line_views(lines@) == results_lines(element_views(results@), query@),
{
    if results.len() == 0 {
        let mut text = "No elements found matching '".to_owned();
        text.append(query);
        text.append("'");
        return only(ReplLine { failure: false, text });
    }
    let mut head = "Elements matching '".to_owned();
    head.append(query);
    head.append("':");
    let mut lines = only(ReplLine { failure: false, text: head });
    let ghost first = line_views(lines@);
    let ghost all = element_views(results@);
    let shown: usize = if results.len() > SHOWN_RESULTS {
        SHOWN_RESULTS
    } else {
        results.len()
    };
    let mut i: usize = 0;
    assert(line_views(lines@) =~= first + Seq::new(0, |k: int| result_line(all[k])));
    while i < shown
        invariant
            i <= shown <= results.len(),
            all == element_views(results@),
            line_views(lines@) == first + Seq::new(i as nat, |k: int| result_line(all[k])),
        decreases shown - i,
    {
        let mut text = "  ".to_owned();
        text.append(results[i].name.as_str());
        text.append(" - ");
        text.append(results[i].classification.as_str());
        tell(&mut lines, text);
        assert(line_views(lines@) =~= first + Seq::new(
            (i + 1) as nat,
            |k: int| result_line(all[k]),
        ));
        i = i + 1;
    }
    if results.len() > SHOWN_RESULTS {
        let mut text = "  ... and ".to_owned();
        text.append(unsigned_decimal((results.len() - SHOWN_RESULTS) as u64).as_str());
        text.append(" more");
        tell(&mut lines, text);
    }
    assert(line_views(lines@) =~= results_lines(all, query@));
    lines
}

/// Carries out the command `search` for `query` among the elements that were
/// `discovered`: shows the best matches, or the failure of the discovery.
pub fn execute_search(
    query: &str,
    discovered: Result<Vec<ElementInfo>, GStreamerMcpError>,
) -> (lines: Vec<ReplLine>)
    ensures
        line_views(lines@) == match discovered {
            Ok(elements) => results_lines(
                best_matches(element_views(elements@), query@, SEARCHED_RESULTS as nat),
                query@,
            ),
            Err(error) => seq![failed("Failed to search elements: "@ + error.message_text())],
        },
{
    match search_elements(discovered, query, SEARCHED_RESULTS) {
        Ok(results) => show_results(&results, query),
        Err(error) => failure_line("Failed to search elements: ", &error),
    }
}

/// The lines that show the elements `names` of a description that the engine could
/// parse.
pub open spec fn valid_lines(names: Seq<Seq<char>>) -> Seq<ReplLineView> {
    seq![told("Pipeline is valid!"@), told("Elements that would be created:"@)] + Seq::new(
        names.len(),
        |i: int| told("  - "@ + names[i]),
    )
}

/// Carries out the command `validate` for `description`, when the engine answered
/// `outcome`: shows the elements that the description names, or why it is not valid.
pub fn execute_validate(description: &str, outcome: &BuildOutcome) -> (lines: Vec<ReplLine>)
    ensures
        line_views(lines@) == match *outcome {
            BuildOutcome::NotInitialized(detail) => seq![
                told(
                    "Pipeline is invalid: "@ + GStreamerMcpError::GStreamerInit(
                        detail,
                    ).message_text(),
                ),
            ],
            BuildOutcome::ParseFailed(detail) => seq![
                told("Pipeline is invalid: "@ + ("Invalid pipeline description: "@ + detail@)),
            ],
            _ => valid_lines(element_names_of(description@)),
        },
{
    match validate_pipeline_description(description, outcome) {
        Ok(names) => {
            let mut lines = only(
                ReplLine { failure: false, text: "Pipeline is valid!".to_owned() },
            );
            tell(&mut lines, "Elements that would be created:".to_owned());
            let ghost head = line_views(lines@);
            let ghost all = texts_of(names@);
            let mut i: usize = 0;
            assert(line_views(lines@) =~= head + Seq::new(0, |k: int| told("  - "@ + all[k])));
            while i < names.len()
                invariant
                    i <= names.len(),
                    all == texts_of(names@),
                    line_views(lines@) == head + Seq::new(
                        i as nat,
                        |k: int| told("  - "@ + all[k]),
                    ),
                decreases names.len() - i,
            {
                tell(&mut lines, prefixed("  - ", names[i].as_str()));
                assert(line_views(lines@) =~= head + Seq::new(
                    (i + 1) as nat,
                    |k: int| told("  - "@ + all[k]),
                ));
                i = i + 1;
            }
            assert(line_views(lines@) =~= valid_lines(all));
            lines
        },
        Err(error) => {
            let text = prefixed("Pipeline is invalid: ", error.message().as_str());
            let lines = only(ReplLine { failure: false, text });
            proof {
                if *outcome is ParseFailed {
                    assert(lines[0]@.text =~= "Pipeline is invalid: "@ + (
                    "Invalid pipeline description: "@ + outcome->ParseFailed_0@));
                }
                assert(line_views(lines@) =~= seq![lines[0]@]);
            }
            lines
        },
    }
}

} // verus!
