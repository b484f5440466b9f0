//! The pipeline registry: which pipelines exist, what state was last asked of each, and the
//! bounded history of what each one reported.

use crate::error::{prefixed, GStreamerMcpError};
use crate::text::{
    chars_of, find_non_whitespace, find_occurrence, find_whitespace, is_whitespace_char,
    lemma_next_non_whitespace, lemma_next_occurrence, lemma_next_whitespace, lowercase_of,
    next_non_whitespace, next_occurrence, next_whitespace, optional_text, texts_of,
    to_lowercase,
};
use vstd::prelude::*;
use vstd::string::*;

verus! {

/// Largest number of records a pipeline's message history keeps.
pub const HISTORY_CAPACITY: usize = 100;

/// Seconds that a query of a pipeline's state waits for the engine after a transition that
/// completed at once.
pub const STATE_QUERY_SECONDS: u64 = 1;

/// A point in time: seconds since the Unix epoch, and nanoseconds into that second.
#[derive(Clone, Copy, Debug, PartialEq, Eq, Structural)]
pub struct Timestamp {
    pub seconds: i64,
    pub nanoseconds: u32,
}

/// A state of a pipeline, as the engine names them.
#[derive(Clone, Copy, Debug, PartialEq, Eq, Hash, Structural)]
pub enum PipelineState {
    /// No state: as a pending state, no transition is under way.
    VoidPending,
    Null,
    Ready,
    Paused,
    Playing,
}

impl PipelineState {
    /// The name of this state.
    pub open spec fn name_text(self) -> Seq<char> {
        match self {
            PipelineState::VoidPending => "VoidPending"@,
            PipelineState::Null => "Null"@,
            PipelineState::Ready => "Ready"@,
            PipelineState::Paused => "Paused"@,
            PipelineState::Playing => "Playing"@,
        }
    }

    /// The state that a lower-case word names, if it names one a caller may ask for.
    pub open spec fn named(word: Seq<char>) -> Option<PipelineState> {
        if word == "null"@ {
            Some(PipelineState::Null)
        } else if word == "ready"@ {
            Some(PipelineState::Ready)
        } else if word == "paused"@ {
            Some(PipelineState::Paused)
        } else if word == "playing"@ {
            Some(PipelineState::Playing)
        } else {
            None
        }
    }

    /// The name of this state.
    pub fn name(&self) -> (text: String)
        ensures
            text@ == self.name_text(),
    {
        match self {
            PipelineState::VoidPending => "VoidPending".to_owned(),
            PipelineState::Null => "Null".to_owned(),
            PipelineState::Ready => "Ready".to_owned(),
            PipelineState::Paused => "Paused".to_owned(),
            PipelineState::Playing => "Playing".to_owned(),
        }
    }

    /// The state that `word`, already in lower case, names: one of `null`, `ready`,
    /// `paused`, `playing`.
    pub fn from_lowercase(word: &str) -> (state: Option<PipelineState>)
        ensures
            state == Self::named(word@),
    {
        let word = word.to_owned();
        if word == "null".to_owned() {
            Some(PipelineState::Null)
        } else if word == "ready".to_owned() {
            Some(PipelineState::Ready)
        } else if word == "paused".to_owned() {
            Some(PipelineState::Paused)
        } else if word == "playing".to_owned() {
            Some(PipelineState::Playing)
        } else {
            None
        }
    }

    /// The state that `text` names, whatever its letter case.
    pub fn parse(text: &str) -> (state: Option<PipelineState>)
        ensures
            state == Self::named(lowercase_of(text@)),
    {
        let lowered = to_lowercase(text);
        Self::from_lowercase(lowered.as_str())
    }
}

/// Metadata of one pipeline.
#[derive(Debug)]
pub struct PipelineInfo {
    pub id: String,
    pub description: String,
    /// Name of the state that was last asked for; the engine may still be on its way there.
    pub state: String,
    pub created_at: Timestamp,
    pub last_state_change: Timestamp,
    pub error_count: u32,
    pub warning_count: u32,
}

/// What a `PipelineInfo` holds.
#[verifier::ext_equal]
pub struct PipelineInfoView {
    pub id: Seq<char>,
    pub description: Seq<char>,
    pub state: Seq<char>,
    pub created_at: Timestamp,
    pub last_state_change: Timestamp,
    pub error_count: u32,
    pub warning_count: u32,
}

impl View for PipelineInfo {
    type V = PipelineInfoView;

    open spec fn view(&self) -> PipelineInfoView {
        PipelineInfoView {
            id: self.id@,
            description: self.description@,
            state: self.state@,
            created_at: self.created_at,
            last_state_change: self.last_state_change,
            error_count: self.error_count,
            warning_count: self.warning_count,
        }
    }
}

impl Clone for PipelineInfo {
    fn clone(&self) -> (copy: Self)
        ensures
            copy@ == self@,
    {
        PipelineInfo {
            id: self.id.clone(),
            description: self.description.clone(),
            state: self.state.clone(),
            created_at: self.created_at,
            last_state_change: self.last_state_change,
            error_count: self.error_count,
            warning_count: self.warning_count,
        }
    }
}

/// One record of what a pipeline reported.
#[derive(Debug)]
pub struct BusMessage {
    pub timestamp: Timestamp,
    /// The kind of the report, by name: `Error`, `Warning`, `Eos`, ...
    pub message_type: String,
    pub message: String,
    /// Path of the component that reported, where known.
    pub source: Option<String>,
}

/// What a `BusMessage` holds.
#[verifier::ext_equal]
pub struct BusMessageView {
    pub timestamp: Timestamp,
    pub message_type: Seq<char>,
    pub message: Seq<char>,
    pub source: Option<Seq<char>>,
}

impl View for BusMessage {
    type V = BusMessageView;

    open spec fn view(&self) -> BusMessageView {
        BusMessageView {
            timestamp: self.timestamp,
            message_type: self.message_type@,
            message: self.message@,
            source: optional_text(self.source),
        }
    }
}

impl Clone for BusMessage {
    fn clone(&self) -> (copy: Self)
        ensures
            copy@ == self@,
    {
        BusMessage {
            timestamp: self.timestamp,
            message_type: self.message_type.clone(),
            message: self.message.clone(),
            source: self.source.clone(),
        }
    }
}

/// What each of `messages` holds, in the same order.
pub open spec fn message_views(messages: Seq<BusMessage>) -> Seq<BusMessageView> {
    Seq::new(messages.len(), |i: int| messages[i]@)
}

/// A counter after one more occurrence: it stops at the largest value it can hold.
pub open spec fn bumped(count: u32) -> u32 {
    if count < u32::MAX {
        (count + 1) as u32
    } else {
        count
    }
}

/// One registered pipeline: its metadata and the history of what it reported.
#[derive(Debug)]
pub struct PipelineInstance {
    pub info: PipelineInfo,
    /// The most recent reports, oldest first.
    pub bus_messages: Vec<BusMessage>,
}

/// What a `PipelineInstance` holds.
#[verifier::ext_equal]
pub struct PipelineInstanceView {
    pub info: PipelineInfoView,
    pub bus_messages: Seq<BusMessageView>,
}

impl View for PipelineInstance {
    type V = PipelineInstanceView;

    open spec fn view(&self) -> PipelineInstanceView {
        PipelineInstanceView { info: self.info@, bus_messages: message_views(self.bus_messages@) }
    }
}

impl PipelineInstanceView {
    /// A pipeline that was just created: declared state `Null`, nothing counted, nothing
    /// reported.
    pub open spec fn fresh(
        id: Seq<char>,
        description: Seq<char>,
        created_at: Timestamp,
        last_state_change: Timestamp,
    ) -> PipelineInstanceView {
        PipelineInstanceView {
            info: PipelineInfoView {
                id,
                description,
                state: PipelineState::Null.name_text(),
                created_at,
                last_state_change,
                error_count: 0,
                warning_count: 0,
            },
            bus_messages: Seq::empty(),
        }
    }

    /// Whether the history is within its bound.
    pub open spec fn bounded(self) -> bool {
        self.bus_messages.len() <= HISTORY_CAPACITY
    }

    /// This pipeline after `message` was appended to its history: a full history first loses
    /// its oldest record, and an `Error` or a `Warning` is counted.
    pub open spec fn record(self, message: BusMessageView) -> PipelineInstanceView {
        let kept = if self.bus_messages.len() >= HISTORY_CAPACITY {
            self.bus_messages.skip(1)
        } else {
            self.bus_messages
        };
        PipelineInstanceView {
            info: PipelineInfoView {
                error_count: if message.message_type == "Error"@ {
                    bumped(self.info.error_count)
                } else {
                    self.info.error_count
                },
                warning_count: if message.message_type == "Warning"@ {
                    bumped(self.info.warning_count)
                } else {
                    self.info.warning_count
                },
                ..self.info
            },
            bus_messages: kept.push(message),
        }
    }

    /// This pipeline after `state` was asked of it at time `at`.
    pub open spec fn with_declared_state(
        self,
        state: PipelineState,
        at: Timestamp,
    ) -> PipelineInstanceView {
        PipelineInstanceView {
            info: PipelineInfoView { state: state.name_text(), last_state_change: at, ..self.info },
            ..self
        }
    }

    /// The last `limit` records of the history, oldest first; all of them where it holds
    /// no more than `limit`.
    pub open spec fn recent(self, limit: nat) -> Seq<BusMessageView> {
        if self.bus_messages.len() > limit {
            self.bus_messages.skip(self.bus_messages.len() - limit)
        } else {
            self.bus_messages
        }
    }
}

impl PipelineInstance {
    /// A pipeline that was just created.
    pub fn new(
        id: String,
        description: &str,
        created_at: Timestamp,
        last_state_change: Timestamp,
    ) -> (instance: Self)
        ensures
            instance@ == PipelineInstanceView::fresh(
                id@,
                description@,
                created_at,
                last_state_change,
            ),
    {
        let instance = PipelineInstance {
            info: PipelineInfo {
                id,
                description: description.to_owned(),
                state: PipelineState::Null.name(),
                created_at,
                last_state_change,
                error_count: 0,
                warning_count: 0,
            },
            bus_messages: Vec::new(),
        };
        assert(instance@.bus_messages =~= Seq::empty());
        instance
    }

    /// Appends `message` to the history and counts it.
    pub fn record(&mut self, message: BusMessage)
        ensures
            final(self)@ == old(self)@.record(message@),
    {
        proof {
            reveal_strlit("Error");
            reveal_strlit("Warning");
            assert("Error"@.len() != "Warning"@.len());
        }
        let kind = message.message_type.clone();
        if kind == "Error".to_owned() {
            if self.info.error_count < u32::MAX {
                self.info.error_count = self.info.error_count + 1;
            }
        } else if kind == "Warning".to_owned() {
            if self.info.warning_count < u32::MAX {
                self.info.warning_count = self.info.warning_count + 1;
            }
        }
        if self.bus_messages.len() >= HISTORY_CAPACITY {
            self.bus_messages.remove(0);
        }
        self.bus_messages.push(message);
        assert(self@.bus_messages =~= old(self)@.record(message@).bus_messages);
    }

    /// Notes that `state` was asked of this pipeline at time `at`.
    pub fn declare_state(&mut self, state: PipelineState, at: Timestamp)
        ensures
            final(self)@ == old(self)@.with_declared_state(state, at),
    {
        self.info.state = state.name();
        self.info.last_state_change = at;
    }

    /// Copies of the last `limit` records of the history, oldest first.
    pub fn recent_messages(&self, limit: usize) -> (messages: Vec<BusMessage>)
        ensures
            message_views(messages@) == self@.recent(limit as nat),
    {
        let start: usize = if self.bus_messages.len() > limit {
            self.bus_messages.len() - limit
        } else {
            0
        };
        let mut messages: Vec<BusMessage> = Vec::new();
        let mut i: usize = start;
        while i < self.bus_messages.len()
            invariant
                start <= i <= self.bus_messages.len(),
                messages.len() == i - start,
                forall|k: int|
                    0 <= k < messages.len() ==> (#[trigger] messages[k])@ == self.bus_messages[start
                        + k]@,
            decreases self.bus_messages.len() - i,
        {
            messages.push(self.bus_messages[i].clone());
            i = i + 1;
        }
        assert(message_views(messages@) =~= self@.recent(limit as nat));
        messages
    }
}

/// `chrono::Utc::now`, held as seconds and nanoseconds (`DateTime::timestamp` and
/// `DateTime::timestamp_subsec_nanos`). Trusted; nothing is claimed of the time returned.
#[verifier::external_body]
pub(crate) fn current_time() -> (now: Timestamp) {
    let now = chrono::Utc::now();
    Timestamp { seconds: now.timestamp(), nanoseconds: now.timestamp_subsec_nanos() }
}

/// `uuid::Uuid::new_v4`, rendered by the `Display` of `Uuid`. Trusted: the text has the 36
/// characters of the hyphenated form; nothing else is claimed of it.
#[verifier::external_body]
pub(crate) fn random_uuid_text() -> (text: String)
    ensures
        text@.len() == 36,
{
    uuid::Uuid::new_v4().to_string()
}

/// Whether `id` has the form of an identifier that the registry makes up: `pipeline-` and
/// 36 more characters.
pub open spec fn is_generated_id(id: Seq<char>) -> bool {
    id.len() == 45 && id.subrange(0, 9) == "pipeline-"@
}

/// What the engine made of a request to build a pipeline from a description.
#[derive(Debug)]
pub enum BuildOutcome {
    /// The engine could not be started; holds its words.
    NotInitialized(String),
    /// The description could not be parsed; holds the engine's words.
    ParseFailed(String),
    /// The description was built, but into something other than a top-level pipeline.
    NotAPipeline,
    /// The description was built into a pipeline.
    Built,
}

/// The engine's answer to a request for a state, with the state it reported when asked
/// again after a request that it had completed at once.
#[derive(Clone, Copy, Debug, PartialEq, Eq, Structural)]
pub enum StateChangeReply {
    /// The pipeline is in the requested state; holds the state then found by a bounded wait.
    Success(PipelineState),
    /// The transition was accepted and will complete later.
    Async,
    /// The transition was accepted by a source that cannot buffer ahead of playback.
    NoPreroll,
    /// The transition was rejected.
    Rejected,
}

/// What the engine reports of a pipeline when asked for its status.
#[derive(Clone, Copy, Debug, PartialEq, Eq, Structural)]
pub struct EngineReading {
    pub current: PipelineState,
    pub pending: PipelineState,
    /// Position in nanoseconds, where the engine knows it.
    pub position: Option<u64>,
    /// Duration in nanoseconds, where the engine knows it.
    pub duration: Option<u64>,
}

/// A snapshot of a pipeline's status.
#[derive(Debug)]
pub struct PipelineStatus {
    pub id: String,
    pub description: String,
    pub state: String,
    pub pending_state: Option<String>,
    /// Position in nanoseconds, `-1` where unknown.
    pub position: i64,
    /// Duration in nanoseconds, `-1` where unknown.
    pub duration: i64,
    pub error_count: u32,
    pub warning_count: u32,
    pub created_at: Timestamp,
    pub last_state_change: Timestamp,
}

/// A number of nanoseconds as the signed number with the same 64 bits, `-1` where unknown.
pub open spec fn signed_nanoseconds(reading: Option<u64>) -> i64 {
    match reading {
        Some(n) => if n <= i64::MAX {
            n as i64
        } else {
            (n - 0x1_0000_0000_0000_0000) as i64
        },
        None => -1i64,
    }
}

/// The name of a pending state: none where no transition is under way.
pub open spec fn pending_name(pending: PipelineState) -> Option<Seq<char>> {
    if pending == PipelineState::VoidPending {
        None
    } else {
        Some(pending.name_text())
    }
}

/// Whether `status` is the status of `entry` when the engine reports `reading`.
pub open spec fn status_of(
    status: PipelineStatus,
    entry: PipelineInstanceView,
    reading: EngineReading,
) -> bool {
    &&& status.id@ == entry.info.id
    &&& status.description@ == entry.info.description
    &&& status.state@ == reading.current.name_text()
    &&& optional_text(status.pending_state) == pending_name(reading.pending)
    &&& status.position == signed_nanoseconds(reading.position)
    &&& status.duration == signed_nanoseconds(reading.duration)
    &&& status.error_count == entry.info.error_count
    &&& status.warning_count == entry.info.warning_count
    &&& status.created_at == entry.info.created_at
    &&& status.last_state_change == entry.info.last_state_change
}

fn nanoseconds_as_signed(reading: Option<u64>) -> (value: i64)
    ensures
        value == signed_nanoseconds(reading),
{
    match reading {
        Some(n) => {
            if n <= 0x7fff_ffff_ffff_ffff {
                n as i64
            } else {
                let low: u64 = n - 0x8000_0000_0000_0000;
                (low as i64) + i64::MIN
            }
        },
        None => -1,
    }
}

/// Whether `error` is the failure that creating a pipeline ends in, when the registry is
/// full or not and the engine answered `outcome`.
pub open spec fn is_creation_failure(
    error: GStreamerMcpError,
    full: bool,
    max: nat,
    outcome: BuildOutcome,
) -> bool {
    match outcome {
        BuildOutcome::NotInitialized(detail) => error matches GStreamerMcpError::GStreamerInit(
            text,
        ) && text@ == detail@,
        _ => if full {
            error matches GStreamerMcpError::CapacityExceeded(limit) && limit == max
        } else {
            match outcome {
                BuildOutcome::ParseFailed(detail) => error matches GStreamerMcpError::ParseError(
                    text,
                ) && text@ == "Failed to parse pipeline: "@ + detail@,
                BuildOutcome::NotAPipeline => error is GraphTypeError,
                _ => false,
            }
        },
    }
}

/// The pipelines that exist, each under its identifier, up to a fixed number of them.
pub struct PipelineManager {
    pipelines: Vec<PipelineInstance>,
    max_pipelines: usize,
}

impl View for PipelineManager {
    type V = Map<Seq<char>, PipelineInstanceView>;

    /// The registered pipelines, each under its identifier.
    closed spec fn view(&self) -> Map<Seq<char>, PipelineInstanceView> {
        Map::new(
            |id: Seq<char>| self.ids().contains(id),
            |id: Seq<char>| self.pipelines@[self.ids().index_of(id)]@,
        )
    }
}

impl PipelineManager {
    /// The identifiers of the registered pipelines, in the order of registration.
    spec fn ids(&self) -> Seq<Seq<char>> {
        Seq::new(self.pipelines@.len(), |i: int| self.pipelines@[i].info.id@)
    }

    /// The largest number of pipelines that may be registered at once.
    pub closed spec fn max(&self) -> nat {
        self.max_pipelines as nat
    }

    /// Validity: no identifier is registered twice, no more pipelines are registered than
    /// may be, and every history is within its bound.
    pub closed spec fn wf(&self) -> bool {
        &&& self.ids().no_duplicates()
        &&& self.pipelines@.len() <= self.max_pipelines
        &&& forall|i: int|
            0 <= i < self.pipelines@.len() ==> (#[trigger] self.pipelines@[i])@.bounded()
    }

    proof fn lemma_entry(&self, i: int)
        requires
            self.ids().no_duplicates(),
            0 <= i < self.pipelines@.len(),
        ensures
            self@.contains_key(self.pipelines@[i].info.id@),
            self@[self.pipelines@[i].info.id@] == self.pipelines@[i]@,
    {
        let ids = self.ids();
        assert(ids[i] == self.pipelines@[i].info.id@);
        assert(ids.contains(ids[i]));
        let j = ids.index_of(ids[i]);
        assert(ids[j] == ids[i]);
    }

    proof fn lemma_key(&self, id: Seq<char>)
        requires
            self@.contains_key(id),
        ensures
            0 <= self.ids().index_of(id) < self.pipelines@.len(),
            self.pipelines@[self.ids().index_of(id)].info.id@ == id,
            self@[id] == self.pipelines@[self.ids().index_of(id)]@,
    {
        let ids = self.ids();
        assert(ids.contains(id));
        let j = ids.index_of(id);
        assert(0 <= j < ids.len() && ids[j] == id);
    }

    /// What validity means for the registered pipelines: they are finitely many and no
    /// more than may be, each is registered under its own identifier, and each history is
    /// within its bound.
    pub proof fn lemma_valid(&self)
        requires
            self.wf(),
        ensures
            valid_registry(self@, self.max()),
    {
        let ids = self.ids();
        assert(self@.dom() =~= ids.to_set());
        ids.unique_seq_to_set();
        assert forall|id: Seq<char>| #[trigger] self@.contains_key(id) implies self@[id].info.id
            == id && self@[id].bounded() by {
            self.lemma_key(id);
        }
    }

    proof fn lemma_size(&self)
        requires
            self.ids().no_duplicates(),
        ensures
            self@.dom().finite(),
            self@.dom().len() == self.pipelines@.len(),
    {
        let ids = self.ids();
        assert(self@.dom() =~= ids.to_set());
        ids.unique_seq_to_set();
    }

    /// An empty registry for at most `max_pipelines` pipelines.
    pub fn new(max_pipelines: usize) -> (manager: Self)
        ensures
            manager.wf(),
            manager@ == Map::<Seq<char>, PipelineInstanceView>::empty(),
            manager.max() == max_pipelines,
    {
        let manager = PipelineManager { pipelines: Vec::new(), max_pipelines };
        assert(manager@ =~= Map::<Seq<char>, PipelineInstanceView>::empty());
        manager
    }

    /// How many pipelines are registered.
    pub fn len(&self) -> (count: usize)
        requires
            self.wf(),
        ensures
            count == self@.dom().len(),
    {
        proof {
            self.lemma_size();
        }
        self.pipelines.len()
    }

    /// The largest number of pipelines that may be registered at once.
    pub fn max_pipelines(&self) -> (max: usize)
        ensures
            max == self.max(),
    {
        self.max_pipelines
    }

    /// Whether one more pipeline may be registered.
    pub fn has_capacity(&self) -> (free: bool)
        requires
            self.wf(),
        ensures
            free == (self@.dom().len() < self.max()),
    {
        proof {
            self.lemma_size();
        }
        self.pipelines.len() < self.max_pipelines
    }

    fn position(&self, id: &str) -> (at: Option<usize>)
        requires
            self.wf(),
        ensures
            match at {
                Some(i) => i < self.pipelines@.len() && self.pipelines@[i as int].info.id@ == id@
                    && self@.contains_key(id@) && self@[id@] == self.pipelines@[i as int]@,
                None => !self@.contains_key(id@),
            },
    {
        let wanted = id.to_owned();
        let mut i: usize = 0;
        while i < self.pipelines.len()
            invariant
                self.wf(),
                i <= self.pipelines@.len(),
                wanted@ == id@,
                forall|k: int| 0 <= k < i ==> self.pipelines@[k].info.id@ != id@,
            decreases self.pipelines@.len() - i,
        {
            if self.pipelines[i].info.id == wanted {
                proof {
                    self.lemma_entry(i as int);
                }
                return Some(i);
            }
            i = i + 1;
        }
        proof {
            if self@.contains_key(id@) {
                self.lemma_key(id@);
            }
        }
        None
    }

    proof fn lemma_replaced(before: &Self, after: &Self, i: int)
        requires
            before.ids().no_duplicates(),
            0 <= i < before.pipelines@.len(),
            after.pipelines@.len() == before.pipelines@.len(),
            after.pipelines@[i].info.id@ == before.pipelines@[i].info.id@,
            forall|k: int|
                0 <= k < before.pipelines@.len() && k != i ==> after.pipelines@[k]
                    == before.pipelines@[k],
        ensures
            after.ids() == before.ids(),
            after@ == before@.insert(before.pipelines@[i].info.id@, after.pipelines@[i]@),
    {
        let id = before.pipelines@[i].info.id@;
        assert(after.ids() =~= before.ids());
        before.lemma_entry(i);
        after.lemma_entry(i);
        assert forall|key: Seq<char>| after@.contains_key(key) implies #[trigger] after@[key]
            == before@.insert(id, after.pipelines@[i]@)[key] by {
            after.lemma_key(key);
            before.lemma_key(key);
        }
        assert(after@ =~= before@.insert(id, after.pipelines@[i]@));
    }

    proof fn lemma_pushed(before: &Self, after: &Self)
        requires
            before.ids().no_duplicates(),
            after.pipelines@.len() == before.pipelines@.len() + 1,
            !before@.contains_key(after.pipelines@.last().info.id@),
            forall|k: int|
                0 <= k < before.pipelines@.len() ==> after.pipelines@[k] == before.pipelines@[k],
        ensures
            after.ids().no_duplicates(),
            after@ == before@.insert(after.pipelines@.last().info.id@, after.pipelines@.last()@),
    {
        let id = after.pipelines@.last().info.id@;
        assert(after.ids() =~= before.ids().push(id));
        assert(!before.ids().contains(id));
        assert forall|a: int, b: int|
            0 <= a < after.ids().len() && 0 <= b < after.ids().len() && a != b implies after.ids()[a]
            != after.ids()[b] by {
            if a < before.ids().len() {
                assert(before.ids().contains(before.ids()[a]));
            }
            if b < before.ids().len() {
                assert(before.ids().contains(before.ids()[b]));
            }
        }
        after.lemma_entry(before.pipelines@.len() as int);
        assert forall|key: Seq<char>| after@.contains_key(key) implies #[trigger] after@[key]
            == before@.insert(id, after.pipelines@.last()@)[key] && before@.insert(
            id,
            after.pipelines@.last()@,
        ).contains_key(key) by {
            after.lemma_key(key);
            if key != id {
                let j = after.ids().index_of(key);
                assert(before.ids()[j] == key);
                before.lemma_entry(j);
            }
        }
        assert forall|key: Seq<char>| before@.contains_key(key) implies after@.contains_key(
            key,
        ) by {
            before.lemma_key(key);
            let j = before.ids().index_of(key);
            assert(after.ids()[j] == key);
        }
        assert(after@ =~= before@.insert(id, after.pipelines@.last()@));
    }

    proof fn lemma_removed(before: &Self, after: &Self, i: int)
        requires
            before.ids().no_duplicates(),
            0 <= i < before.pipelines@.len(),
            after.pipelines@ == before.pipelines@.remove(i),
        ensures
            after.ids().no_duplicates(),
            after@ == before@.remove(before.pipelines@[i].info.id@),
    {
        let id = before.pipelines@[i].info.id@;
        assert(after.ids() =~= before.ids().remove(i));
        assert forall|a: int, b: int|
            0 <= a < after.ids().len() && 0 <= b < after.ids().len() && a != b implies after.ids()[a]
            != after.ids()[b] by {
            let a0 = if a < i {
                a
            } else {
                a + 1
            };
            let b0 = if b < i {
                b
            } else {
                b + 1
            };
            assert(after.ids()[a] == before.ids()[a0]);
            assert(after.ids()[b] == before.ids()[b0]);
        }
        assert forall|key: Seq<char>| #[trigger] after@.contains_key(key) implies before@.remove(
            id,
        ).contains_key(key) && after@[key] == before@.remove(id)[key] by {
            after.lemma_key(key);
            let j = after.ids().index_of(key);
            let j0 = if j < i {
                j
            } else {
                j + 1
            };
            assert(after.pipelines@[j] == before.pipelines@[j0]);
            assert(before.ids()[j0] == key);
            assert(before.ids()[i] == id);
            assert(key != id);
            before.lemma_entry(j0);
        }
        assert forall|key: Seq<char>| #[trigger]
            before@.remove(id).contains_key(key) implies after@.contains_key(key) by {
            before.lemma_key(key);
            let j = before.ids().index_of(key);
            let j1 = if j < i {
                j
            } else {
                j - 1
            };
            assert(j != i);
            assert(after.ids()[j1] == key);
            assert(after.ids().contains(key));
        }
        assert(after@.dom() =~= before@.remove(id).dom());
        assert(after@ =~= before@.remove(id));
    }

    /// Registers the pipeline that the engine built from `description` under `id`, created
    /// and last changed at the given times. A pipeline already registered under `id` is
    /// replaced. Nothing is registered, and the failure is returned, where the engine did
    /// not start, the registry is full, or the engine built no pipeline: in this order.
    pub fn create_pipeline_at(
        &mut self,
        description: &str,
        id: String,
        outcome: &BuildOutcome,
        created_at: Timestamp,
        last_state_change: Timestamp,
    ) -> (result: Result<String, GStreamerMcpError>)
        requires
            old(self).wf(),
        ensures
            final(self).wf(),
            final(self).max() == old(self).max(),
            result is Ok <==> *outcome is Built && old(self)@.dom().len() < old(self).max(),
            match result {
                Ok(returned) => returned@ == id@ && final(self)@ == old(self)@.insert(
                    id@,
                    PipelineInstanceView::fresh(id@, description@, created_at, last_state_change),
                ),
                Err(error) => final(self)@ == old(self)@ && is_creation_failure(
                    error,
                    old(self)@.dom().len() >= old(self).max(),
                    old(self).max(),
                    *outcome,
                ),
            },
    {
        proof {
            self.lemma_size();
        }
        if let BuildOutcome::NotInitialized(detail) = outcome {
            return Err(GStreamerMcpError::GStreamerInit(detail.clone()));
        }
        if self.pipelines.len() >= self.max_pipelines {
            return Err(GStreamerMcpError::CapacityExceeded(self.max_pipelines));
        }
        match outcome {
            BuildOutcome::ParseFailed(detail) => {
                return Err(
                    GStreamerMcpError::ParseError(
                        prefixed("Failed to parse pipeline: ", detail.as_str()),
                    ),
                );
            },
            BuildOutcome::NotAPipeline => {
                return Err(GStreamerMcpError::GraphTypeError);
            },
            _ => {},
        }
        let returned = id.clone();
        let found = self.position(id.as_str());
        let instance = PipelineInstance::new(id, description, created_at, last_state_change);
        match found {
            Some(i) => {
                self.pipelines[i] = instance;
                proof {
                    Self::lemma_replaced(old(self), self, i as int);
                }
            },
            None => {
                self.pipelines.push(instance);
                proof {
                    Self::lemma_pushed(old(self), self);
                }
            },
        }
        Ok(returned)
    }

    /// Registers the pipeline that the engine built from `description`, under `custom_id`
    /// where one is given and under a new identifier of the form `pipeline-` and a random
    /// UUID where none is. The new pipeline's declared state is `Null`. A pipeline already
    /// registered under the identifier is replaced. Nothing is registered, and the failure
    /// is returned, where the engine did not start, the registry is full, or the engine
    /// built no pipeline: in this order.
    pub fn create_pipeline(
        &mut self,
        description: &str,
        custom_id: Option<String>,
        outcome: BuildOutcome,
    ) -> (result: Result<String, GStreamerMcpError>)
        requires
            old(self).wf(),
        ensures
            final(self).wf(),
            final(self).max() == old(self).max(),
            result is Ok <==> outcome is Built && old(self)@.dom().len() < old(self).max(),
            match result {
                Ok(id) => {
                    &&& match custom_id {
                        Some(custom) => id@ == custom@,
                        None => is_generated_id(id@),
                    }
                    &&& exists|created_at: Timestamp, last_state_change: Timestamp|
                        final(self)@ == old(self)@.insert(
                            id@,
                            #[trigger] PipelineInstanceView::fresh(
                                id@,
                                description@,
                                created_at,
                                last_state_change,
                            ),
                        )
                },
                Err(error) => final(self)@ == old(self)@ && is_creation_failure(
                    error,
                    old(self)@.dom().len() >= old(self).max(),
                    old(self).max(),
                    outcome,
                ),
            },
    {
        let id = match custom_id {
            Some(custom) => custom,
            None => {
                let mut generated = "pipeline-".to_owned();
                let random = random_uuid_text();
                generated.append(random.as_str());
                proof {
                    reveal_strlit("pipeline-");
                    assert(generated@.subrange(0, 9) =~= "pipeline-"@);
                }
                generated
            },
        };
        let created_at = current_time();
        let last_state_change = current_time();
        self.create_pipeline_at(description, id, &outcome, created_at, last_state_change)
    }

    /// The pipeline registered under `id`, if there is one.
    pub fn get_pipeline(&self, id: &str) -> (found: Option<&PipelineInstance>)
        requires
            self.wf(),
        ensures
            match found {
                Some(instance) => self@.contains_key(id@) && instance@ == self@[id@],
                None => !self@.contains_key(id@),
            },
    {
        match self.position(id) {
            Some(i) => Some(&self.pipelines[i]),
            None => None,
        }
    }

    /// Takes the pipeline registered under `id` out of the registry; fails where there is
    /// none.
    pub fn remove_pipeline(&mut self, id: &str) -> (result: Result<(), GStreamerMcpError>)
        requires
            old(self).wf(),
        ensures
            final(self).wf(),
            final(self).max() == old(self).max(),
            result is Ok <==> old(self)@.contains_key(id@),
            match result {
                Ok(_) => final(self)@ == old(self)@.remove(id@),
                Err(error) => {
                    &&& final(self)@ == old(self)@
                    &&& error matches GStreamerMcpError::NotFound(missing)
                    &&& missing@ == id@
                },
            },
    {
        match self.position(id) {
            Some(i) => {
                self.pipelines.remove(i);
                proof {
                    Self::lemma_removed(old(self), self, i as int);
                }
                Ok(())
            },
            None => Err(GStreamerMcpError::NotFound(id.to_owned())),
        }
    }

    /// Snapshots of the metadata of all registered pipelines, one for each, in no
    /// particular order.
    pub fn list_pipelines(&self) -> (infos: Vec<PipelineInfo>)
        requires
            self.wf(),
        ensures
            infos.len() == self@.dom().len(),
            forall|i: int|
                0 <= i < infos.len() ==> self@.contains_key((#[trigger] infos[i]).id@) && infos[i]@
                    == self@[infos[i].id@].info,
            forall|i: int, j: int|
                0 <= i < j < infos.len() ==> (#[trigger] infos[i]).id@ != (#[trigger] infos[j]).id@,
    {
        proof {
            self.lemma_size();
        }
        let mut infos: Vec<PipelineInfo> = Vec::new();
        let mut i: usize = 0;
        while i < self.pipelines.len()
            invariant
                self.wf(),
                i <= self.pipelines@.len(),
                infos.len() == i,
                forall|k: int| 0 <= k < i ==> (#[trigger] infos[k])@ == self.pipelines@[k].info@,
            decreases self.pipelines@.len() - i,
        {
            infos.push(self.pipelines[i].info.clone());
            i = i + 1;
        }
        proof {
            assert forall|k: int| 0 <= k < infos.len() implies self@.contains_key(
                (#[trigger] infos[k]).id@,
            ) && infos[k]@ == self@[infos[k].id@].info by {
                self.lemma_entry(k);
            }
            assert forall|a: int, b: int| 0 <= a < b < infos.len() implies (#[trigger] infos[a]).id@
                != (#[trigger] infos[b]).id@ by {
                assert(self.ids()[a] == infos[a]@.id);
                assert(self.ids()[b] == infos[b]@.id);
            }
        }
        infos
    }


    /// Notes what the engine answered when `state` was asked of the pipeline registered
    /// under `id`, at time `at`. An accepted request makes `state` the declared state; the
    /// state returned is the one the engine then reported where it had completed the request
    /// at once, and `state` itself where completion is still to come. A rejected request,
    /// or an unknown identifier, changes nothing.
    pub fn set_pipeline_state_at(
        &mut self,
        id: &str,
        state: PipelineState,
        reply: StateChangeReply,
        at: Timestamp,
    ) -> (result: Result<PipelineState, GStreamerMcpError>)
        requires
            old(self).wf(),
        ensures
            final(self).wf(),
            final(self).max() == old(self).max(),
            result is Ok <==> old(self)@.contains_key(id@) && reply != StateChangeReply::Rejected,
            match result {
                Ok(reached) => {
                    &&& reached == match reply {
                        StateChangeReply::Success(current) => current,
                        _ => state,
                    }
                    &&& final(self)@ == old(self)@.insert(
                        id@,
                        old(self)@[id@].with_declared_state(state, at),
                    )
                },
                Err(error) => {
                    &&& final(self)@ == old(self)@
                    &&& if old(self)@.contains_key(id@) {
                        error == GStreamerMcpError::StateChangeError(state)
                    } else {
                        error matches GStreamerMcpError::NotFound(missing) && missing@ == id@
                    }
                },
            },
    {
        let i = match self.position(id) {
            Some(i) => i,
            None => {
                return Err(GStreamerMcpError::NotFound(id.to_owned()));
            },
        };
        match reply {
            StateChangeReply::Rejected => Err(GStreamerMcpError::StateChangeError(state)),
            StateChangeReply::Success(current) => {
                self.pipelines[i].declare_state(state, at);
                proof {
                    Self::lemma_replaced(old(self), self, i as int);
                }
                Ok(current)
            },
            _ => {
                self.pipelines[i].declare_state(state, at);
                proof {
                    Self::lemma_replaced(old(self), self, i as int);
                }
                Ok(state)
            },
        }
    }

    /// Notes what the engine answered when `state` was asked of the pipeline registered
    /// under `id`; the time of the change is the time of this call. See
    /// `set_pipeline_state_at`.
    pub fn set_pipeline_state(
        &mut self,
        id: &str,
        state: PipelineState,
        reply: StateChangeReply,
    ) -> (result: Result<PipelineState, GStreamerMcpError>)
        requires
            old(self).wf(),
        ensures
            final(self).wf(),
            final(self).max() == old(self).max(),
            result is Ok <==> old(self)@.contains_key(id@) && reply != StateChangeReply::Rejected,
            match result {
                Ok(reached) => {
                    &&& reached == match reply {
                        StateChangeReply::Success(current) => current,
                        _ => state,
                    }
                    &&& exists|at: Timestamp|
                        final(self)@ == old(self)@.insert(
                            id@,
                            #[trigger] old(self)@[id@].with_declared_state(state, at),
                        )
                },
                Err(error) => {
                    &&& final(self)@ == old(self)@
                    &&& if old(self)@.contains_key(id@) {
                        error == GStreamerMcpError::StateChangeError(state)
                    } else {
                        error matches GStreamerMcpError::NotFound(missing) && missing@ == id@
                    }
                },
            },
    {
        let at = current_time();
        self.set_pipeline_state_at(id, state, reply, at)
    }

    /// The status of the pipeline registered under `id`, when the engine reports
    /// `reading` of it; fails where there is none.
    pub fn get_pipeline_status(&self, id: &str, reading: &EngineReading) -> (result: Result<
        PipelineStatus,
        GStreamerMcpError,
    >)
        requires
            self.wf(),
        ensures
            result is Ok <==> self@.contains_key(id@),
            match result {
                Ok(status) => status_of(status, self@[id@], *reading),
                Err(error) => error matches GStreamerMcpError::NotFound(missing) && missing@ == id@,
            },
    {
        let instance = match self.get_pipeline(id) {
            Some(instance) => instance,
            None => {
                return Err(GStreamerMcpError::NotFound(id.to_owned()));
            },
        };
        let pending_state = match reading.pending {
            PipelineState::VoidPending => None,
            pending => Some(pending.name()),
        };
        Ok(
            PipelineStatus {
                id: instance.info.id.clone(),
                description: instance.info.description.clone(),
                state: reading.current.name(),
                pending_state,
                position: nanoseconds_as_signed(reading.position),
                duration: nanoseconds_as_signed(reading.duration),
                error_count: instance.info.error_count,
                warning_count: instance.info.warning_count,
                created_at: instance.info.created_at,
                last_state_change: instance.info.last_state_change,
            },
        )
    }

    /// Appends `message` to the history of the pipeline registered under `id` and counts
    /// it; does nothing where there is none.
    pub fn add_bus_message(&mut self, id: &str, message: BusMessage)
        requires
            old(self).wf(),
        ensures
            final(self).wf(),
            final(self).max() == old(self).max(),
            final(self)@ == if old(self)@.contains_key(id@) {
                old(self)@.insert(id@, old(self)@[id@].record(message@))
            } else {
                old(self)@
            },
    {
        match self.position(id) {
            Some(i) => {
                self.pipelines[i].record(message);
                proof {
                    Self::lemma_replaced(old(self), self, i as int);
                }
            },
            None => {},
        }
    }

    /// Copies of the last `limit` records of the history of the pipeline registered under
    /// `id`, oldest first; none where there is no such pipeline.
    pub fn get_bus_messages(&self, id: &str, limit: usize) -> (messages: Vec<BusMessage>)
        requires
            self.wf(),
        ensures
            message_views(messages@) == if self@.contains_key(id@) {
                self@[id@].recent(limit as nat)
            } else {
                Seq::<BusMessageView>::empty()
            },
    {
        match self.get_pipeline(id) {
            Some(instance) => instance.recent_messages(limit),
            None => {
                let messages: Vec<BusMessage> = Vec::new();
                assert(message_views(messages@) =~= Seq::<BusMessageView>::empty());
                messages
            },
        }
    }

}

/// The smaller of two indices.
pub open spec fn earlier(a: int, b: int) -> int {
    if a <= b {
        a
    } else {
        b
    }
}

/// The element name in the part of a description `s` that starts at `from` and ends before
/// `end`: the part's first word, up to its first `=`. It is empty where the part holds
/// only white space or its first word starts with `=`.
pub open spec fn element_name_in(s: Seq<char>, from: int, end: int) -> Seq<char> {
    let start = earlier(next_non_whitespace(s, from), end);
    let stop = earlier(earlier(next_whitespace(s, start), next_occurrence(s, start, '=')), end);
    s.subrange(start, stop)
}

/// The element names in the parts of `s` that start at or after `from`; `!` separates the
/// parts, and a part without a name gives none.
pub open spec fn element_names_from(s: Seq<char>, from: int) -> Seq<Seq<char>>
    decreases s.len() - from,
{
    if from < 0 || from > s.len() {
        Seq::<Seq<char>>::empty()
    } else {
        let end = next_occurrence(s, from, '!');
        let name = element_name_in(s, from, end);
        let here = if name.len() > 0 {
            seq![name]
        } else {
            Seq::<Seq<char>>::empty()
        };
        if end >= s.len() || end < from {
            here
        } else {
            here + element_names_from(s, end + 1)
        }
    }
}

/// The element names that the description `s` refers to, in order.
pub open spec fn element_names_of(s: Seq<char>) -> Seq<Seq<char>> {
    element_names_from(s, 0)
}

fn earlier_of(a: usize, b: usize) -> (least: usize)
    ensures
        least == earlier(a as int, b as int),
{
    if a <= b {
        a
    } else {
        b
    }
}

/// The element names that `description` refers to, in order: of each part between link
/// separators `!`, the first word up to its first `=`, where that is not empty.
pub fn element_names(description: &str) -> (names: Vec<String>)
    ensures
        texts_of(names@) == element_names_of(description@),
{
    let chars = chars_of(description);
    let mut names: Vec<String> = Vec::new();
    let mut at: usize = 0;
    assert(texts_of(names@) =~= Seq::<Seq<char>>::empty());
    loop
        invariant_except_break
            texts_of(names@) + element_names_from(description@, at as int) == element_names_of(
                description@,
            ),
        invariant
            chars@ == description@,
            at <= chars.len(),
        ensures
            texts_of(names@) == element_names_of(description@),
        decreases chars.len() - at,
    {
        let end = find_occurrence(&chars, at, '!');
        let start = earlier_of(find_non_whitespace(&chars, at), end);
        let stop = earlier_of(
            earlier_of(find_whitespace(&chars, start), find_occurrence(&chars, start, '=')),
            end,
        );
        let ghost before = texts_of(names@);
        let ghost name = element_name_in(description@, at as int, end as int);
        assert(name == description@.subrange(start as int, stop as int));
        if stop > start {
            names.push(description.substring_char(start, stop).to_owned());
            assert(texts_of(names@) =~= before + seq![name]);
        } else {
            assert(name.len() == 0);
            assert(texts_of(names@) =~= before + Seq::<Seq<char>>::empty());
        }
        if end >= chars.len() {
            assert(texts_of(names@) + Seq::<Seq<char>>::empty() =~= texts_of(names@));
            break;
        }
        assert(texts_of(names@) + element_names_from(description@, end + 1) =~= before
            + element_names_from(description@, at as int));
        at = end + 1;
    }
    names
}

/// The element names that `description` refers to, where the engine could parse it; the
/// failure where the engine did not start or could not parse it. Whether what was built is
/// a pipeline does not matter here.
pub fn validate_pipeline_description(description: &str, outcome: &BuildOutcome) -> (result: Result<
    Vec<String>,
    GStreamerMcpError,
>)
    ensures
        match *outcome {
            BuildOutcome::NotInitialized(detail) => result matches Err(
                GStreamerMcpError::GStreamerInit(text),
            ) && text@ == detail@,
            BuildOutcome::ParseFailed(detail) => result matches Err(
                GStreamerMcpError::ParseError(text),
            ) && text@ == "Invalid pipeline description: "@ + detail@,
            _ => result matches Ok(names) && texts_of(names@) == element_names_of(description@),
        },
{
    match outcome {
        BuildOutcome::NotInitialized(detail) => Err(GStreamerMcpError::GStreamerInit(detail.clone())),
        BuildOutcome::ParseFailed(detail) => Err(
            GStreamerMcpError::ParseError(
                prefixed("Invalid pipeline description: ", detail.as_str()),
            ),
        ),
        _ => Ok(element_names(description)),
    }
}

/// Whether `registry` is what a valid registry for at most `max` pipelines holds: finitely
/// many pipelines and no more than `max`, each under its own identifier, each with a
/// history within its bound.
pub open spec fn valid_registry(registry: Map<Seq<char>, PipelineInstanceView>, max: nat) -> bool {
    &&& registry.dom().finite()
    &&& registry.dom().len() <= max
    &&& forall|id: Seq<char>| #[trigger]
        registry.contains_key(id) ==> registry[id].info.id == id && registry[id].bounded()
}

/// A pipeline that was just created under `id` is registered, under `id` and under no
/// other identifier, and its declared state is `Null`; the pipelines under other
/// identifiers are as they were.
pub proof fn lemma_created_pipeline_is_unique(
    registry: Map<Seq<char>, PipelineInstanceView>,
    max: nat,
    id: Seq<char>,
    description: Seq<char>,
    created_at: Timestamp,
    last_state_change: Timestamp,
)
    requires
        valid_registry(registry, max),
        registry.dom().len() < max,
    ensures
        ({
            let after = registry.insert(
                id,
                PipelineInstanceView::fresh(id, description, created_at, last_state_change),
            );
            &&& valid_registry(after, max)
            &&& after.contains_key(id)
            &&& after[id].info.state == PipelineState::Null.name_text()
            &&& after[id].info.error_count == 0 && after[id].info.warning_count == 0
            &&& after[id].bus_messages.len() == 0
            &&& forall|other: Seq<char>|
                after.contains_key(other) && (#[trigger] after[other]).info.id == id ==> other
                    == id
            &&& forall|other: Seq<char>|
                other != id ==> after.contains_key(other) == registry.contains_key(other)
                    && #[trigger] after[other] == registry[other]
        }),
{
}

/// A registry never holds more pipelines than it may: creating one in a full registry
/// is refused whatever a started engine built, and once a pipeline has left a full
/// registry, there is room for one again.
pub proof fn lemma_capacity(
    registry: Map<Seq<char>, PipelineInstanceView>,
    max: nat,
    outcome: BuildOutcome,
    error: GStreamerMcpError,
    leaving: Seq<char>,
)
    requires
        valid_registry(registry, max),
        registry.dom().len() == max,
        !(outcome is NotInitialized),
        is_creation_failure(error, true, max, outcome),
        registry.contains_key(leaving),
    ensures
        error matches GStreamerMcpError::CapacityExceeded(limit) && limit == max,
        valid_registry(registry.remove(leaving), max),
        registry.remove(leaving).dom().len() < max,
{
}

/// A pipeline that was removed is no longer registered, so that looking it up finds
/// nothing and removing it once more fails; the other pipelines are as they were.
pub proof fn lemma_removed_pipeline_is_gone(
    registry: Map<Seq<char>, PipelineInstanceView>,
    max: nat,
    id: Seq<char>,
)
    requires
        valid_registry(registry, max),
        registry.contains_key(id),
    ensures
        !registry.remove(id).contains_key(id),
        valid_registry(registry.remove(id), max),
        registry.remove(id).dom().len() == registry.dom().len() - 1,
        forall|other: Seq<char>|
            other != id ==> registry.remove(id).contains_key(other) == registry.contains_key(other)
                && #[trigger] registry.remove(id)[other] == registry[other],
{
}

/// A history never holds more than `HISTORY_CAPACITY` records: appending to a history
/// within the bound keeps it within the bound, and appending to a full one drops exactly
/// its oldest record.
pub proof fn lemma_history_is_bounded(entry: PipelineInstanceView, message: BusMessageView)
    requires
        entry.bounded(),
    ensures
        entry.record(message).bounded(),
        entry.record(message).bus_messages.last() == message,
        entry.bus_messages.len() < HISTORY_CAPACITY ==> entry.record(message).bus_messages
            == entry.bus_messages.push(message),
        entry.bus_messages.len() == HISTORY_CAPACITY ==> {
            &&& entry.record(message).bus_messages.len() == HISTORY_CAPACITY
            &&& entry.record(message).bus_messages == entry.bus_messages.skip(1).push(message)
            &&& forall|i: int|
                0 <= i < HISTORY_CAPACITY - 1 ==> #[trigger] entry.record(message).bus_messages[i]
                    == entry.bus_messages[i + 1]
        },
{
}

/// The pipeline `entry` after each of `messages` was appended to its history, in order.
pub open spec fn record_all(
    entry: PipelineInstanceView,
    messages: Seq<BusMessageView>,
) -> PipelineInstanceView
    decreases messages.len(),
{
    if messages.len() == 0 {
        entry
    } else {
        record_all(entry, messages.drop_last()).record(messages.last())
    }
}

/// How many of `messages` are of the kind named `kind`.
pub open spec fn count_of_kind(messages: Seq<BusMessageView>, kind: Seq<char>) -> nat
    decreases messages.len(),
{
    if messages.len() == 0 {
        0
    } else if messages.last().message_type == kind {
        count_of_kind(messages.drop_last(), kind) + 1
    } else {
        count_of_kind(messages.drop_last(), kind)
    }
}

/// A count as a counter holds it: the count itself up to the largest value of the
/// counter, and that value beyond.
pub open spec fn counted(count: nat) -> u32 {
    if count <= u32::MAX {
        count as u32
    } else {
        u32::MAX
    }
}

/// The counters of a pipeline count the records ever appended to its history, the ones
/// that it has dropped since included: after any sequence of appends to a new pipeline,
/// the error counter holds the number of `Error` records among them and the warning
/// counter the number of `Warning` records. The history then holds the last
/// `HISTORY_CAPACITY` of them, or all where they are fewer.
pub proof fn lemma_counters_count_all_records(
    id: Seq<char>,
    description: Seq<char>,
    created_at: Timestamp,
    last_state_change: Timestamp,
    messages: Seq<BusMessageView>,
)
    ensures
        ({
            let entry = record_all(
                PipelineInstanceView::fresh(id, description, created_at, last_state_change),
                messages,
            );
            &&& entry.info.error_count == counted(count_of_kind(messages, "Error"@))
            &&& entry.info.warning_count == counted(count_of_kind(messages, "Warning"@))
            &&& entry.bus_messages == if messages.len() > HISTORY_CAPACITY {
                messages.skip(messages.len() - HISTORY_CAPACITY)
            } else {
                messages
            }
        }),
    decreases messages.len(),
{
    let fresh = PipelineInstanceView::fresh(id, description, created_at, last_state_change);
    if messages.len() == 0 {
        assert(record_all(fresh, messages).bus_messages =~= messages);
    } else {
        lemma_counters_count_all_records(
            id,
            description,
            created_at,
            last_state_change,
            messages.drop_last(),
        );
        let before = record_all(fresh, messages.drop_last());
        let after = before.record(messages.last());
        assert(record_all(fresh, messages) == after);
        let expected = if messages.len() > HISTORY_CAPACITY {
            messages.skip(messages.len() - HISTORY_CAPACITY)
        } else {
            messages
        };
        assert(after.bus_messages =~= expected);
    }
}

/// Counters never decrease: appending a record leaves each counter as it was or one
/// higher.
pub proof fn lemma_counters_never_decrease(entry: PipelineInstanceView, message: BusMessageView)
    ensures
        entry.record(message).info.error_count >= entry.info.error_count,
        entry.record(message).info.warning_count >= entry.info.warning_count,
        entry.record(message).info.error_count <= entry.info.error_count + 1,
        entry.record(message).info.warning_count <= entry.info.warning_count + 1,
{
}

/// How `chrono` shows the time that is `seconds` and `nanoseconds` after the Unix epoch:
/// what `Display` gives for the `DateTime<Utc>` that `DateTime::from_timestamp` makes of the
/// two numbers, and nothing where it makes none.
pub uninterp spec fn rendered_time(seconds: i64, nanoseconds: u32) -> Option<Seq<char>>;

/// `chrono::DateTime::from_timestamp` and the `Display` of its result. Trusted: the text
/// is how `chrono` shows that time, which depends on the two numbers alone; there is none
/// where `chrono` makes no time of them.
#[verifier::external_body]
pub(crate) fn render_time(at: Timestamp) -> (text: Option<String>)
    ensures
        optional_text(text) == rendered_time(at.seconds, at.nanoseconds),
{
    match chrono::DateTime::from_timestamp(at.seconds, at.nanoseconds) {
        Some(time) => Some(time.to_string()),
        None => None,
    }
}

/// The text that stands for a time: how `chrono` shows it, and `?` where it cannot.
pub open spec fn time_text(at: Timestamp) -> Seq<char> {
    match rendered_time(at.seconds, at.nanoseconds) {
        Some(text) => text,
        None => "?"@,
    }
}

/// The text that stands for `rendered`, the rendering of a time where there is one.
pub fn time_or_unknown(rendered: Option<String>) -> (text: String)
    ensures
        text@ == match rendered {
            Some(shown) => shown@,
            None => "?"@,
        },
{
    match rendered {
        Some(shown) => shown,
        None => "?".to_owned(),
    }
}

/// Shows a time as text.
pub fn show_time(at: Timestamp) -> (text: String)
    ensures
        text@ == time_text(at),
{
    time_or_unknown(render_time(at))
}

/// Whether `name` can be the name of an element: it is not empty and holds no white
/// space, no `!` and no `=`.
pub open spec fn is_element_name(name: Seq<char>) -> bool {
    &&& name.len() > 0
    &&& forall|i: int|
        0 <= i < name.len() ==> !is_whitespace_char(#[trigger] name[i]) && name[i] != '!'
            && name[i] != '='
}

/// Every name that is found in a description can be the name of an element.
pub proof fn lemma_element_names_are_names(s: Seq<char>, from: int)
    requires
        0 <= from <= s.len(),
    ensures
        forall|k: int|
            0 <= k < element_names_from(s, from).len() ==> is_element_name(
                #[trigger] element_names_from(s, from)[k],
            ),
    decreases s.len() - from,
{
    let end = next_occurrence(s, from, '!');
    lemma_next_occurrence(s, from, '!');
    lemma_next_non_whitespace(s, from);
    let start = earlier(next_non_whitespace(s, from), end);
    lemma_next_whitespace(s, start);
    lemma_next_occurrence(s, start, '=');
    let stop = earlier(earlier(next_whitespace(s, start), next_occurrence(s, start, '=')), end);
    let name = element_name_in(s, from, end);
    assert(name == s.subrange(start, stop));
    if name.len() > 0 {
        assert forall|i: int| 0 <= i < name.len() implies !is_whitespace_char(#[trigger] name[i])
            && name[i] != '!' && name[i] != '=' by {
            assert(name[i] == s[start + i]);
        }
        assert(is_element_name(name));
    }
    let here = if name.len() > 0 {
        seq![name]
    } else {
        Seq::<Seq<char>>::empty()
    };
    if end < s.len() {
        lemma_element_names_are_names(s, end + 1);
        let rest = element_names_from(s, end + 1);
        assert(element_names_from(s, from) == here + rest);
        assert forall|k: int| 0 <= k < (here + rest).len() implies is_element_name(
            #[trigger] (here + rest)[k],
        ) by {
            if k >= here.len() {
                assert((here + rest)[k] == rest[k - here.len()]);
            }
        }
    } else {
        assert(element_names_from(s, from) == here);
    }
}

/// Asking the same state of a pipeline twice leaves it as asking once at the later time
/// does.
pub proof fn lemma_same_state_twice(
    entry: PipelineInstanceView,
    state: PipelineState,
    first: Timestamp,
    second: Timestamp,
)
    ensures
        entry.with_declared_state(state, first).with_declared_state(state, second)
            == entry.with_declared_state(state, second),
        entry.with_declared_state(state, first).info.state == state.name_text(),
        entry.with_declared_state(state, first).bus_messages == entry.bus_messages,
        entry.with_declared_state(state, first).info.error_count == entry.info.error_count,
        entry.with_declared_state(state, first).info.warning_count == entry.info.warning_count,
{
}

} // verus!
