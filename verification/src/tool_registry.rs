//! The tools that the server knows, and which of them a mode and its include and exclude
//! lists enable.

use crate::cli::OperationalMode;
use crate::text::texts_of;
use vstd::hash_set::StringHashSet;
use vstd::prelude::*;
use vstd::string::*;

verus! {

pub const GST_LIST_ELEMENTS: &'static str = "gst_list_elements";

pub const GST_INSPECT_ELEMENT: &'static str = "gst_inspect_element";

pub const GST_LIST_PLUGINS: &'static str = "gst_list_plugins";

pub const GST_SEARCH_ELEMENTS: &'static str = "gst_search_elements";

pub const GST_LAUNCH_PIPELINE: &'static str = "gst_launch_pipeline";

pub const GST_SET_PIPELINE_STATE: &'static str = "gst_set_pipeline_state";

pub const GST_GET_PIPELINE_STATUS: &'static str = "gst_get_pipeline_status";

pub const GST_STOP_PIPELINE: &'static str = "gst_stop_pipeline";

pub const GST_LIST_PIPELINES: &'static str = "gst_list_pipelines";

pub const GST_VALIDATE_PIPELINE: &'static str = "gst_validate_pipeline";

pub const ABOUT_LIST_ELEMENTS: &'static str =
    "Lists all available GStreamer elements with optional filtering. Accepts name filter and category filter (both optional). Returns element names, descriptions, plugin sources, and rank values. Use to discover available media processing components.";

pub const ABOUT_INSPECT_ELEMENT: &'static str =
    "Retrieves detailed information about a specific GStreamer element. Accepts element name (required). Returns properties with types/defaults, pad templates, signals, and classification. Use to understand element capabilities and configuration options.";

pub const ABOUT_LIST_PLUGINS: &'static str =
    "Lists all available GStreamer plugins. Accepts name filter (optional). Returns plugin names, versions, descriptions, licenses, and contained elements. Use to explore available plugin functionality.";

pub const ABOUT_SEARCH_ELEMENTS: &'static str =
    "Searches for GStreamer elements by keyword. Accepts search query (required). Returns relevance-ranked results matching element names, descriptions, and classifications. Use to find elements for specific media processing tasks.";

pub const ABOUT_LAUNCH_PIPELINE: &'static str =
    "Creates and launches a GStreamer pipeline from description. Accepts gst-launch syntax, auto-play flag (default: true), and custom ID (optional). Returns pipeline ID and current state. Use to start media processing pipelines.";

pub const ABOUT_SET_PIPELINE_STATE: &'static str =
    "Changes the state of an active pipeline. Accepts pipeline ID and target state (null/ready/paused/playing). Returns new state and transition success status. Use to control pipeline playback and processing.";

pub const ABOUT_GET_PIPELINE_STATUS: &'static str =
    "Retrieves current status of a pipeline. Accepts pipeline ID and include_messages flag (optional). Returns state, position, duration, and recent bus messages. Use to monitor pipeline health and playback progress.";

pub const ABOUT_STOP_PIPELINE: &'static str =
    "Stops and releases resources for a pipeline. Accepts pipeline ID and force flag (optional). Returns cleanup status. Use to properly terminate pipelines and free resources.";

pub const ABOUT_LIST_PIPELINES: &'static str =
    "Lists all currently active pipelines. Accepts include_details flag (optional). Returns pipeline IDs, descriptions, states, and creation times. Use to manage multiple concurrent pipelines.";

pub const ABOUT_VALIDATE_PIPELINE: &'static str =
    "Validates pipeline description syntax without launching. Accepts gst-launch syntax description. Returns validation status and list of elements that would be created. Use to verify pipeline correctness before execution.";

/// Category of MCP tools
#[derive(Clone, Copy, Debug, PartialEq, Eq, Hash, Structural)]
pub enum ToolCategory {
    Discovery,
    Pipeline,
    Seek,
    Suggestions,
    CodeGeneration,
    PluginDevelopment,
}

/// Metadata for a single tool
#[derive(Debug)]
pub struct ToolMetadata {
    pub name: String,
    pub category: ToolCategory,
    pub description: String,
    pub modes: Vec<OperationalMode>,
}

/// What a `ToolMetadata` holds.
#[verifier::ext_equal]
pub struct ToolView {
    pub name: Seq<char>,
    pub category: ToolCategory,
    pub description: Seq<char>,
    pub modes: Seq<OperationalMode>,
}

impl ToolView {
    /// Whether the tool is offered in `mode`: every tool is in mode `All`, and in any other
    /// mode those that list it.
    pub open spec fn available_in(self, mode: OperationalMode) -> bool {
        mode == OperationalMode::All || self.modes.contains(mode)
    }
}

impl View for ToolMetadata {
    type V = ToolView;

    open spec fn view(&self) -> ToolView {
        ToolView {
            name: self.name@,
            category: self.category,
            description: self.description@,
            modes: self.modes@,
        }
    }
}

impl Clone for ToolMetadata {
    fn clone(&self) -> (copy: Self)
        ensures
            copy@ == self@,
    {
        ToolMetadata {
            name: self.name.clone(),
            category: self.category,
            description: self.description.clone(),
            modes: self.modes.clone(),
        }
    }
}

impl ToolMetadata {
    /// The metadata of a tool.
    pub fn new(name: &str, category: ToolCategory, description: &str, modes: Vec<
        OperationalMode,
    >) -> (tool: Self)
        ensures
            tool@ == (ToolView {
                name: name@,
                category,
                description: description@,
                modes: modes@,
            }),
    {
        Self { name: name.to_owned(), category, description: description.to_owned(), modes }
    }

    /// Check if this tool is available in the given mode
    pub fn is_available_in_mode(&self, mode: &OperationalMode) -> (available: bool)
        ensures
            available == self@.available_in(*mode),
    {
        if *mode == OperationalMode::All {
            return true;
        }
        let mut i: usize = 0;
        while i < self.modes.len()
            invariant
                i <= self.modes.len(),
                forall|k: int| 0 <= k < i ==> self.modes@[k] != *mode,
            decreases self.modes.len() - i,
        {
            if self.modes[i] == *mode {
                return true;
            }
            i = i + 1;
        }
        false
    }
}

/// The modes of a tool that only reads: all four.
pub open spec fn reading_modes() -> Seq<OperationalMode> {
    seq![
        OperationalMode::All,
        OperationalMode::Live,
        OperationalMode::Dev,
        OperationalMode::Discovery,
    ]
}

/// The modes of a tool that changes pipelines.
pub open spec fn control_modes() -> Seq<OperationalMode> {
    seq![OperationalMode::All, OperationalMode::Live]
}

/// The modes of a tool that reports on pipelines.
pub open spec fn monitoring_modes() -> Seq<OperationalMode> {
    seq![OperationalMode::All, OperationalMode::Live, OperationalMode::Discovery]
}

/// The tools that the server knows, in the order in which a registry lists them.
pub open spec fn catalogue() -> Seq<ToolView> {
    seq![
        ToolView {
            name: GST_LIST_ELEMENTS@,
            category: ToolCategory::Discovery,
            description: ABOUT_LIST_ELEMENTS@,
            modes: reading_modes(),
        },
        ToolView {
            name: GST_INSPECT_ELEMENT@,
            category: ToolCategory::Discovery,
            description: ABOUT_INSPECT_ELEMENT@,
            modes: reading_modes(),
        },
        ToolView {
            name: GST_LIST_PLUGINS@,
            category: ToolCategory::Discovery,
            description: ABOUT_LIST_PLUGINS@,
            modes: reading_modes(),
        },
        ToolView {
            name: GST_SEARCH_ELEMENTS@,
            category: ToolCategory::Discovery,
            description: ABOUT_SEARCH_ELEMENTS@,
            modes: reading_modes(),
        },
        ToolView {
            name: GST_LAUNCH_PIPELINE@,
            category: ToolCategory::Pipeline,
            description: ABOUT_LAUNCH_PIPELINE@,
            modes: control_modes(),
        },
        ToolView {
            name: GST_SET_PIPELINE_STATE@,
            category: ToolCategory::Pipeline,
            description: ABOUT_SET_PIPELINE_STATE@,
            modes: control_modes(),
        },
        ToolView {
            name: GST_GET_PIPELINE_STATUS@,
            category: ToolCategory::Pipeline,
            description: ABOUT_GET_PIPELINE_STATUS@,
            modes: monitoring_modes(),
        },
        ToolView {
            name: GST_STOP_PIPELINE@,
            category: ToolCategory::Pipeline,
            description: ABOUT_STOP_PIPELINE@,
            modes: control_modes(),
        },
        ToolView {
            name: GST_LIST_PIPELINES@,
            category: ToolCategory::Pipeline,
            description: ABOUT_LIST_PIPELINES@,
            modes: monitoring_modes(),
        },
        ToolView {
            name: GST_VALIDATE_PIPELINE@,
            category: ToolCategory::Pipeline,
            description: ABOUT_VALIDATE_PIPELINE@,
            modes: reading_modes(),
        },
    ]
}

/// What each of `tools` holds, in the same order.
pub open spec fn tool_views(tools: Seq<ToolMetadata>) -> Seq<ToolView> {
    Seq::new(tools.len(), |i: int| tools[i]@)
}

/// The names of those of `tools` that are offered in `mode`, in the same order.
pub open spec fn names_available(tools: Seq<ToolView>, mode: OperationalMode) -> Seq<Seq<char>>
    decreases tools.len(),
{
    if tools.len() == 0 {
        Seq::<Seq<char>>::empty()
    } else if tools.last().available_in(mode) {
        names_available(tools.drop_last(), mode).push(tools.last().name)
    } else {
        names_available(tools.drop_last(), mode)
    }
}

/// Whether the catalogue holds a tool of this name.
pub open spec fn is_known_tool(name: Seq<char>) -> bool {
    exists|i: int| 0 <= i < catalogue().len() && (#[trigger] catalogue()[i]).name == name
}

/// Whether a tool name passes an include list and an exclude list: it is on the first,
/// where there is one, and not on the second, where there is one.
pub open spec fn passes_lists(
    name: Seq<char>,
    included: Option<Seq<Seq<char>>>,
    excluded: Option<Seq<Seq<char>>>,
) -> bool {
    &&& included matches Some(wanted) ==> wanted.contains(name)
    &&& excluded matches Some(unwanted) ==> !unwanted.contains(name)
}

/// The names of the tools that `mode` and the two lists enable.
pub open spec fn enabled_tools(
    mode: OperationalMode,
    included: Option<Seq<Seq<char>>>,
    excluded: Option<Seq<Seq<char>>>,
) -> Set<Seq<char>> {
    Set::new(
        |name: Seq<char>|
            names_available(catalogue(), mode).contains(name) && passes_lists(
                name,
                included,
                excluded,
            ),
    )
}

/// The texts of an optional list of names.
pub open spec fn optional_list(names: Option<&[String]>) -> Option<Seq<Seq<char>>> {
    match names {
        Some(list) => Some(texts_of(list@)),
        None => None,
    }
}

fn reading() -> (modes: Vec<OperationalMode>)
    ensures
        modes@ == reading_modes(),
{
    let modes = vec![
        OperationalMode::All,
        OperationalMode::Live,
        OperationalMode::Dev,
        OperationalMode::Discovery,
    ];
    assert(modes@ =~= reading_modes());
    modes
}

fn control() -> (modes: Vec<OperationalMode>)
    ensures
        modes@ == control_modes(),
{
    let modes = vec![OperationalMode::All, OperationalMode::Live];
    assert(modes@ =~= control_modes());
    modes
}

fn monitoring() -> (modes: Vec<OperationalMode>)
    ensures
        modes@ == monitoring_modes(),
{
    let modes = vec![OperationalMode::All, OperationalMode::Live, OperationalMode::Discovery];
    assert(modes@ =~= monitoring_modes());
    modes
}

/// Registry of all available tools
pub struct ToolRegistry {
    tools: Vec<ToolMetadata>,
}

impl View for ToolRegistry {
    type V = Seq<ToolView>;

    /// The tools of the registry, in the order in which it lists them.
    closed spec fn view(&self) -> Seq<ToolView> {
        tool_views(self.tools@)
    }
}

/// Whether `list` holds `name`.
pub fn list_holds(list: &[String], name: &String) -> (held: bool)
    ensures
        held == texts_of(list@).contains(name@),
{
    let mut i: usize = 0;
    while i < list.len()
        invariant
            i <= list.len(),
            forall|k: int| 0 <= k < i ==> texts_of(list@)[k] != name@,
        decreases list.len() - i,
    {
        if list[i] == *name {
            assert(texts_of(list@)[i as int] == name@);
            return true;
        }
        i = i + 1;
    }
    false
}

/// No two tools of the catalogue share a name.
pub proof fn lemma_catalogue_names_differ()
    ensures
        forall|i: int, j: int|
            0 <= i < j < catalogue().len() ==> (#[trigger] catalogue()[i]).name
                != (#[trigger] catalogue()[j]).name,
{
    reveal_strlit("gst_list_elements");
    reveal_strlit("gst_inspect_element");
    reveal_strlit("gst_list_plugins");
    reveal_strlit("gst_search_elements");
    reveal_strlit("gst_launch_pipeline");
    reveal_strlit("gst_set_pipeline_state");
    reveal_strlit("gst_get_pipeline_status");
    reveal_strlit("gst_stop_pipeline");
    reveal_strlit("gst_list_pipelines");
    reveal_strlit("gst_validate_pipeline");
    let names = Seq::new(catalogue().len(), |i: int| catalogue()[i].name);
    assert(names[0][4] != names[1][4]);
    assert(names[0].len() != names[2].len());
    assert(names[0][4] != names[3][4]);
    assert(names[0].len() != names[4].len());
    assert(names[0].len() != names[5].len());
    assert(names[0].len() != names[6].len());
    assert(names[0][4] != names[7][4]);
    assert(names[0].len() != names[8].len());
    assert(names[0].len() != names[9].len());
    assert(names[1].len() != names[2].len());
    assert(names[1][4] != names[3][4]);
    assert(names[1][4] != names[4][4]);
    assert(names[1].len() != names[5].len());
    assert(names[1].len() != names[6].len());
    assert(names[1].len() != names[7].len());
    assert(names[1].len() != names[8].len());
    assert(names[1].len() != names[9].len());
    assert(names[2].len() != names[3].len());
    assert(names[2].len() != names[4].len());
    assert(names[2].len() != names[5].len());
    assert(names[2].len() != names[6].len());
    assert(names[2].len() != names[7].len());
    assert(names[2].len() != names[8].len());
    assert(names[2].len() != names[9].len());
    assert(names[3][4] != names[4][4]);
    assert(names[3].len() != names[5].len());
    assert(names[3].len() != names[6].len());
    assert(names[3].len() != names[7].len());
    assert(names[3].len() != names[8].len());
    assert(names[3].len() != names[9].len());
    assert(names[4].len() != names[5].len());
    assert(names[4].len() != names[6].len());
    assert(names[4].len() != names[7].len());
    assert(names[4].len() != names[8].len());
    assert(names[4].len() != names[9].len());
    assert(names[5].len() != names[6].len());
    assert(names[5].len() != names[7].len());
    assert(names[5].len() != names[8].len());
    assert(names[5].len() != names[9].len());
    assert(names[6].len() != names[7].len());
    assert(names[6].len() != names[8].len());
    assert(names[6].len() != names[9].len());
    assert(names[7].len() != names[8].len());
    assert(names[7].len() != names[9].len());
    assert(names[8].len() != names[9].len());
}

impl ToolRegistry {
    /// A registry holds the catalogue, no more and no less.
    #[verifier::type_invariant]
    closed spec fn holds_catalogue(&self) -> bool {
        tool_views(self.tools@) == catalogue()
    }

    /// Create and initialize the tool registry with all known tools
    pub fn new() -> (registry: Self)
        ensures
            registry@ == catalogue(),
    {
        let mut tools: Vec<ToolMetadata> = Vec::new();
        tools.push(
            ToolMetadata::new(
                GST_LIST_ELEMENTS,
                ToolCategory::Discovery,
                ABOUT_LIST_ELEMENTS,
                reading(),
            ),
        );
        tools.push(
            ToolMetadata::new(
                GST_INSPECT_ELEMENT,
                ToolCategory::Discovery,
                ABOUT_INSPECT_ELEMENT,
                reading(),
            ),
        );
        tools.push(
            ToolMetadata::new(
                GST_LIST_PLUGINS,
                ToolCategory::Discovery,
                ABOUT_LIST_PLUGINS,
                reading(),
            ),
        );
        tools.push(
            ToolMetadata::new(
                GST_SEARCH_ELEMENTS,
                ToolCategory::Discovery,
                ABOUT_SEARCH_ELEMENTS,
                reading(),
            ),
        );
        tools.push(
            ToolMetadata::new(
                GST_LAUNCH_PIPELINE,
                ToolCategory::Pipeline,
                ABOUT_LAUNCH_PIPELINE,
                control(),
            ),
        );
        tools.push(
            ToolMetadata::new(
                GST_SET_PIPELINE_STATE,
                ToolCategory::Pipeline,
                ABOUT_SET_PIPELINE_STATE,
                control(),
            ),
        );
        tools.push(
            ToolMetadata::new(
                GST_GET_PIPELINE_STATUS,
                ToolCategory::Pipeline,
                ABOUT_GET_PIPELINE_STATUS,
                monitoring(),
            ),
        );
        tools.push(
            ToolMetadata::new(
                GST_STOP_PIPELINE,
                ToolCategory::Pipeline,
                ABOUT_STOP_PIPELINE,
                control(),
            ),
        );
        tools.push(
            ToolMetadata::new(
                GST_LIST_PIPELINES,
                ToolCategory::Pipeline,
                ABOUT_LIST_PIPELINES,
                monitoring(),
            ),
        );
        tools.push(
            ToolMetadata::new(
                GST_VALIDATE_PIPELINE,
                ToolCategory::Pipeline,
                ABOUT_VALIDATE_PIPELINE,
                reading(),
            ),
        );
        assert(tool_views(tools@) =~= catalogue());
        Self { tools }
    }

    /// Get all tools available in a specific mode: their names, in the order of the
    /// catalogue.
    pub fn get_tools_for_mode(&self, mode: &OperationalMode) -> (names: Vec<String>)
        ensures
            texts_of(names@) == names_available(catalogue(), *mode),
    {
        proof {
            use_type_invariant(self);
        }
        let mut names: Vec<String> = Vec::new();
        let mut i: usize = 0;
        assert(catalogue().take(0) =~= Seq::<ToolView>::empty());
        assert(texts_of(names@) =~= Seq::<Seq<char>>::empty());
        while i < self.tools.len()
            invariant
                tool_views(self.tools@) == catalogue(),
                i <= self.tools.len(),
                texts_of(names@) == names_available(catalogue().take(i as int), *mode),
            decreases self.tools.len() - i,
        {
            let ghost before = texts_of(names@);
            proof {
                let grown = catalogue().take(i + 1);
                assert(grown.drop_last() =~= catalogue().take(i as int));
                assert(grown.last() == self.tools@[i as int]@);
            }
            if self.tools[i].is_available_in_mode(mode) {
                names.push(self.tools[i].name.clone());
                assert(texts_of(names@) =~= before.push(self.tools@[i as int].name@));
            }
            i = i + 1;
        }
        assert(catalogue().take(self.tools.len() as int) =~= catalogue());
        names
    }

    /// Filter tools based on mode and include/exclude lists: of the tools available in
    /// `mode`, those that are on `included`, where it is given, and not on `excluded`,
    /// where it is given.
    pub fn filter_tools(
        &self,
        mode: &OperationalMode,
        included: Option<&[String]>,
        excluded: Option<&[String]>,
    ) -> (enabled: StringHashSet)
        ensures
            enabled@ == enabled_tools(*mode, optional_list(included), optional_list(excluded)),
    {
        let names = self.get_tools_for_mode(mode);
        let mut enabled = StringHashSet::new();
        let mut i: usize = 0;
        let ghost available = names_available(catalogue(), *mode);
        while i < names.len()
            invariant
                i <= names.len(),
                texts_of(names@) == available,
                forall|name: Seq<char>| #[trigger]
                    enabled@.contains(name) <==> available.take(i as int).contains(name)
                        && passes_lists(name, optional_list(included), optional_list(excluded)),
            decreases names.len() - i,
        {
            let on_included = match included {
                Some(list) => list_holds(list, &names[i]),
                None => true,
            };
            let on_excluded = match excluded {
                Some(list) => list_holds(list, &names[i]),
                None => false,
            };
            let ghost before = enabled@;
            proof {
                assert(available.take(i + 1) =~= available.take(i as int).push(names@[i as int]@));
                assert(available[i as int] == names@[i as int]@);
            }
            if on_included && !on_excluded {
                enabled.insert(names[i].clone());
            }
            proof {
                assert forall|name: Seq<char>| #[trigger]
                    enabled@.contains(name) <==> available.take(i + 1).contains(name)
                        && passes_lists(
                        name,
                        optional_list(included),
                        optional_list(excluded),
                    ) by {
                    let grown = available.take(i + 1);
                    let earlier = available.take(i as int);
                    if grown.contains(name) {
                        let k = choose|k: int| 0 <= k < grown.len() && grown[k] == name;
                        if k < i {
                            assert(earlier[k] == name);
                        }
                    }
                    if earlier.contains(name) {
                        let k = choose|k: int| 0 <= k < earlier.len() && earlier[k] == name;
                        assert(grown[k] == name);
                    }
                    assert(grown[i as int] == names@[i as int]@);
                }
            }
            i = i + 1;
        }
        assert(available.take(names.len() as int) =~= available);
        assert(enabled@ =~= enabled_tools(*mode, optional_list(included), optional_list(excluded)));
        enabled
    }

    /// Check if a specific tool is registered
    pub fn has_tool(&self, name: &str) -> (known: bool)
        ensures
            known == is_known_tool(name@),
    {
        self.get_tool(name).is_some()
    }

    /// Get metadata for a specific tool
    pub fn get_tool(&self, name: &str) -> (found: Option<&ToolMetadata>)
        ensures
            match found {
                Some(tool) => tool.name@ == name@ && exists|i: int|
                    0 <= i < catalogue().len() && #[trigger] catalogue()[i] == tool@,
                None => !is_known_tool(name@),
            },
            found is Some <==> is_known_tool(name@),
    {
        proof {
            use_type_invariant(self);
        }
        let wanted = name.to_owned();
        let mut i: usize = 0;
        while i < self.tools.len()
            invariant
                tool_views(self.tools@) == catalogue(),
                wanted@ == name@,
                i <= self.tools.len(),
                forall|k: int| 0 <= k < i ==> (#[trigger] catalogue()[k]).name != name@,
            decreases self.tools.len() - i,
        {
            if self.tools[i].name == wanted {
                assert(catalogue()[i as int] == self.tools@[i as int]@);
                return Some(&self.tools[i]);
            }
            assert(catalogue()[i as int] == self.tools@[i as int]@);
            i = i + 1;
        }
        None
    }

    /// Get all registered tools: their names, in the order of the catalogue.
    pub fn all_tools(&self) -> (names: Vec<String>)
        ensures
            texts_of(names@) == Seq::new(catalogue().len(), |i: int| catalogue()[i].name),
    {
        proof {
            use_type_invariant(self);
        }
        let mut names: Vec<String> = Vec::new();
        let mut i: usize = 0;
        while i < self.tools.len()
            invariant
                tool_views(self.tools@) == catalogue(),
                i <= self.tools.len(),
                names.len() == i,
                forall|k: int| 0 <= k < i ==> (#[trigger] names[k])@ == catalogue()[k].name,
            decreases self.tools.len() - i,
        {
            assert(catalogue()[i as int] == self.tools@[i as int]@);
            names.push(self.tools[i].name.clone());
            i = i + 1;
        }
        assert(texts_of(names@) =~= Seq::new(catalogue().len(), |i: int| catalogue()[i].name));
        names
    }
}

impl Default for ToolRegistry {
    fn default() -> (registry: Self)
        ensures
            registry@ == catalogue(),
    {
        Self::new()
    }

}

} // verus!
