//! Command-line options and the configuration they select.

use crate::text::same_text;
use std::path::PathBuf;
use vstd::prelude::*;
use vstd::string::*;

verus! {

/// `std::path::PathBuf`: a file-system path that the library carries through without
/// looking into it.
#[verifier::external_type_specification]
#[verifier::external_body]
pub struct ExPathBuf(PathBuf);

/// Which group of tools the server offers.
#[derive(Clone, Copy, Debug, PartialEq, Eq, Hash, Structural)]
pub enum OperationalMode {
    /// All tools enabled (default)
    All,
    /// Live operations mode (pipeline control, monitoring)
    Live,
    /// Development mode (code generation, suggestions)
    Dev,
    /// Discovery mode (read-only operations)
    Discovery,
}

impl OperationalMode {
    /// The name of the mode, as it is written on the command line and in files.
    pub open spec fn name_text(self) -> Seq<char> {
        match self {
            OperationalMode::All => "all"@,
            OperationalMode::Live => "live"@,
            OperationalMode::Dev => "dev"@,
            OperationalMode::Discovery => "discovery"@,
        }
    }

    /// The mode that `name` names, if it names one.
    pub open spec fn named(name: Seq<char>) -> Option<OperationalMode> {
        if name == "all"@ {
            Some(OperationalMode::All)
        } else if name == "live"@ {
            Some(OperationalMode::Live)
        } else if name == "dev"@ {
            Some(OperationalMode::Dev)
        } else if name == "discovery"@ {
            Some(OperationalMode::Discovery)
        } else {
            None
        }
    }

    /// The name of the mode, as it is written on the command line and in files.
    pub fn name(&self) -> (name: &'static str)
        ensures
            name@ == self.name_text(),
    {
        match self {
            OperationalMode::All => "all",
            OperationalMode::Live => "live",
            OperationalMode::Dev => "dev",
            OperationalMode::Discovery => "discovery",
        }
    }

    /// The mode that `name` names: one of `all`, `live`, `dev`, `discovery`.
    pub fn from_name(name: &str) -> (mode: Option<OperationalMode>)
        ensures
            mode == Self::named(name@),
    {
        if same_text(name, "all") {
            Some(OperationalMode::All)
        } else if same_text(name, "live") {
            Some(OperationalMode::Live)
        } else if same_text(name, "dev") {
            Some(OperationalMode::Dev)
        } else if same_text(name, "discovery") {
            Some(OperationalMode::Discovery)
        } else {
            None
        }
    }
}

/// Naming a mode and reading the name back gives the mode again.
pub proof fn lemma_mode_names_read_back(mode: OperationalMode)
    ensures
        OperationalMode::named(mode.name_text()) == Some(mode),
{
    reveal_strlit("all");
    reveal_strlit("live");
    reveal_strlit("dev");
    reveal_strlit("discovery");
    assert("all"@.len() == 3 && "live"@.len() == 4 && "discovery"@.len() == 9);
    assert("all"@[0] != "dev"@[0]);
}

impl Default for OperationalMode {
    fn default() -> (mode: Self)
        ensures
            mode == OperationalMode::All,
    {
        OperationalMode::All
    }
}

/// The command-line options as they were given.
#[derive(Debug)]
pub struct Cli {
    /// Operational mode for the server
    pub mode: OperationalMode,
    /// Run in REPL mode for interactive testing
    pub repl: bool,
    /// Specific tools to enable
    pub tools: Option<Vec<String>>,
    /// Tools to exclude
    pub exclude_tools: Option<Vec<String>>,
    /// Configuration file path
    pub config: Option<PathBuf>,
    /// Verbosity: how many times the verbose flag was given
    pub verbose: u8,
    /// Disable colored output
    pub no_color: bool,
}

/// Parsed configuration from CLI arguments
#[derive(Debug, Clone)]
pub struct ParsedConfig {
    pub mode: OperationalMode,
    pub repl: bool,
    pub included_tools: Option<Vec<String>>,
    pub excluded_tools: Option<Vec<String>>,
    pub config_path: Option<PathBuf>,
    pub verbose_level: u8,
    pub no_color: bool,
}

impl Cli {
    /// Turns the given options into the configuration they select.
    pub fn parse_args(cli: Cli) -> (config: ParsedConfig)
        ensures
            config.mode == cli.mode,
            config.repl == cli.repl,
            config.included_tools == cli.tools,
            config.excluded_tools == cli.exclude_tools,
            config.config_path == cli.config,
            config.verbose_level == cli.verbose,
            config.no_color == cli.no_color,
    {
        ParsedConfig {
            mode: cli.mode,
            repl: cli.repl,
            included_tools: cli.tools,
            excluded_tools: cli.exclude_tools,
            config_path: cli.config,
            verbose_level: cli.verbose,
            no_color: cli.no_color,
        }
    }

    /// As `parse_args`: options taken from the environment arrive in `cli` like the others.
    pub fn parse_with_env(cli: Cli) -> (config: ParsedConfig)
        ensures
            config.mode == cli.mode,
            config.repl == cli.repl,
            config.included_tools == cli.tools,
            config.excluded_tools == cli.exclude_tools,
            config.config_path == cli.config,
            config.verbose_level == cli.verbose,
            config.no_color == cli.no_color,
    {
        Self::parse_args(cli)
    }
}

} // verus!
