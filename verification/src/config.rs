//! Server configuration and how the command line overrides it.

use crate::cli::{OperationalMode, ParsedConfig};
use crate::text::{
    copy_names, optional_text, parse_truth, parse_unsigned, texts_of, truth_of, unsigned_of,
};
use vstd::prelude::*;

verus! {

/// The texts of an optional list of names.
pub open spec fn optional_names(names: Option<Vec<String>>) -> Option<Seq<Seq<char>>> {
    match names {
        Some(list) => Some(texts_of(list@)),
        None => None,
    }
}

/// Settings of a running server.
#[derive(Debug)]
pub struct Configuration {
    pub cache_enabled: bool,
    pub cache_ttl_seconds: u64,
    pub max_search_results: usize,
    pub operational_mode: OperationalMode,
    pub included_tools: Option<Vec<String>>,
    pub excluded_tools: Option<Vec<String>>,
}

/// Whether discovery results are cached when nothing says otherwise.
pub fn default_cache_enabled() -> (enabled: bool)
    ensures
        enabled,
{
    true
}

/// Seconds a cached discovery result stays valid when nothing says otherwise: 5 minutes.
pub fn default_cache_ttl() -> (seconds: u64)
    ensures
        seconds == 300,
{
    300
}

/// Largest number of search results when nothing says otherwise.
pub fn default_max_results() -> (count: usize)
    ensures
        count == 100,
{
    100
}

impl Default for Configuration {
    fn default() -> (config: Self)
        ensures
            config.cache_enabled,
            config.cache_ttl_seconds == 300,
            config.max_search_results == 100,
            config.operational_mode == OperationalMode::All,
            config.included_tools is None,
            config.excluded_tools is None,
    {
        Self {
            cache_enabled: default_cache_enabled(),
            cache_ttl_seconds: default_cache_ttl(),
            max_search_results: default_max_results(),
            operational_mode: OperationalMode::All,
            included_tools: None,
            excluded_tools: None,
        }
    }
}

impl Clone for Configuration {
    fn clone(&self) -> (copy: Self)
        ensures
            copy.cache_enabled == self.cache_enabled,
            copy.cache_ttl_seconds == self.cache_ttl_seconds,
            copy.max_search_results == self.max_search_results,
            copy.operational_mode == self.operational_mode,
            optional_names(copy.included_tools) == optional_names(self.included_tools),
            optional_names(copy.excluded_tools) == optional_names(self.excluded_tools),
    {
        Configuration {
            cache_enabled: self.cache_enabled,
            cache_ttl_seconds: self.cache_ttl_seconds,
            max_search_results: self.max_search_results,
            operational_mode: self.operational_mode,
            included_tools: match &self.included_tools {
                Some(names) => Some(copy_names(names)),
                None => None,
            },
            excluded_tools: match &self.excluded_tools {
                Some(names) => Some(copy_names(names)),
                None => None,
            },
        }
    }
}

impl Configuration {
    /// Merge what the environment says into the configuration: each of the three texts,
    /// where it is given and writes a value of its setting, replaces that setting; one that
    /// is not given, or writes no such value, leaves its setting as it is. The first is the
    /// text about the cache being in use (`true` or `false`), the second the one about the
    /// seconds that the cache keeps its contents, the third the one about the largest number
    /// of search results.
    pub fn merge_env_vars(
        &mut self,
        cache_enabled: &Option<String>,
        cache_ttl: &Option<String>,
        max_results: &Option<String>,
    )
        ensures
            final(self).cache_enabled == match optional_text(*cache_enabled) {
                Some(text) => match truth_of(text) {
                    Some(value) => value,
                    None => old(self).cache_enabled,
                },
                None => old(self).cache_enabled,
            },
            final(self).cache_ttl_seconds == match optional_text(*cache_ttl) {
                Some(text) => match unsigned_of(text) {
                    Some(value) => value,
                    None => old(self).cache_ttl_seconds,
                },
                None => old(self).cache_ttl_seconds,
            },
            final(self).max_search_results == match optional_text(*max_results) {
                Some(text) => match unsigned_of(text) {
                    Some(value) => if value <= usize::MAX {
                        value as usize
                    } else {
                        old(self).max_search_results
                    },
                    None => old(self).max_search_results,
                },
                None => old(self).max_search_results,
            },
            final(self).operational_mode == old(self).operational_mode,
            final(self).included_tools == old(self).included_tools,
            final(self).excluded_tools == old(self).excluded_tools,
    {
        match cache_enabled {
            Some(text) => match parse_truth(text.as_str()) {
                Some(value) => {
                    self.cache_enabled = value;
                },
                None => {},
            },
            None => {},
        }
        match cache_ttl {
            Some(text) => match parse_unsigned(text.as_str()) {
                Some(value) => {
                    self.cache_ttl_seconds = value;
                },
                None => {},
            },
            None => {},
        }
        match max_results {
            Some(text) => match parse_unsigned(text.as_str()) {
                Some(value) => {
                    if value <= usize::MAX as u64 {
                        self.max_search_results = value as usize;
                    }
                },
                None => {},
            },
            None => {},
        }
    }

    /// Merge CLI arguments into configuration.
    /// Priority: CLI args > env vars > config file > defaults
    ///
    /// The mode is always taken from the command line; a tool list is taken only where the
    /// command line gives one.
    pub fn merge_cli_args(&mut self, cli_config: &ParsedConfig)
        ensures
            final(self).operational_mode == cli_config.mode,
            optional_names(final(self).included_tools) == if cli_config.included_tools is Some {
                optional_names(cli_config.included_tools)
            } else {
                optional_names(old(self).included_tools)
            },
            optional_names(final(self).excluded_tools) == if cli_config.excluded_tools is Some {
                optional_names(cli_config.excluded_tools)
            } else {
                optional_names(old(self).excluded_tools)
            },
            final(self).cache_enabled == old(self).cache_enabled,
            final(self).cache_ttl_seconds == old(self).cache_ttl_seconds,
            final(self).max_search_results == old(self).max_search_results,
    {
        self.operational_mode = cli_config.mode;
        match &cli_config.included_tools {
            Some(names) => {
                self.included_tools = Some(copy_names(names));
            },
            None => {},
        }
        match &cli_config.excluded_tools {
            Some(names) => {
                self.excluded_tools = Some(copy_names(names));
            },
            None => {},
        }
    }
}

} // verus!
