use gstreamer_mcp::cli::{Cli, OperationalMode};
use gstreamer_mcp::config::{
    default_cache_enabled, default_cache_ttl, default_max_results, Configuration,
};
use std::path::PathBuf;

#[test]
fn test_default_mode() {
    assert_eq!(OperationalMode::default(), OperationalMode::All);
}

fn sample_cli() -> Cli {
    Cli {
        mode: OperationalMode::Live,
        repl: true,
        tools: Some(vec!["gst_list_elements".to_string()]),
        exclude_tools: None,
        config: Some(PathBuf::from("gstreamer-mcp.toml")),
        verbose: 2,
        no_color: true,
    }
}

#[test]
fn parse_args_carries_every_option() {
    let config = Cli::parse_args(sample_cli());
    assert_eq!(config.mode, OperationalMode::Live);
    assert!(config.repl);
    assert_eq!(config.included_tools, Some(vec!["gst_list_elements".to_string()]));
    assert_eq!(config.excluded_tools, None);
    assert_eq!(config.config_path, Some(PathBuf::from("gstreamer-mcp.toml")));
    assert_eq!(config.verbose_level, 2);
    assert!(config.no_color);
}

#[test]
fn parse_with_env_agrees_with_parse_args() {
    let config = Cli::parse_with_env(sample_cli());
    assert_eq!(config.mode, OperationalMode::Live);
    assert_eq!(config.included_tools, Some(vec!["gst_list_elements".to_string()]));
    assert_eq!(config.verbose_level, 2);
}

#[test]
fn configuration_defaults() {
    let config = Configuration::default();
    assert!(config.cache_enabled);
    assert_eq!(config.cache_ttl_seconds, 300);
    assert_eq!(config.max_search_results, 100);
    assert_eq!(config.operational_mode, OperationalMode::All);
    assert_eq!(config.included_tools, None);
    assert_eq!(config.excluded_tools, None);
    assert!(default_cache_enabled());
    assert_eq!(default_cache_ttl(), 300);
    assert_eq!(default_max_results(), 100);
}

#[test]
fn merge_cli_args_overrides_mode_and_given_lists_only() {
    let mut config = Configuration::default();
    config.excluded_tools = Some(vec!["gst_stop_pipeline".to_string()]);
    let parsed = Cli::parse_args(sample_cli());
    config.merge_cli_args(&parsed);
    assert_eq!(config.operational_mode, OperationalMode::Live);
    assert_eq!(config.included_tools, Some(vec!["gst_list_elements".to_string()]));
    assert_eq!(config.excluded_tools, Some(vec!["gst_stop_pipeline".to_string()]));
    assert!(config.cache_enabled);
    assert_eq!(config.cache_ttl_seconds, 300);
    assert_eq!(config.max_search_results, 100);
}

#[test]
fn configuration_clone_keeps_every_field() {
    let mut config = Configuration::default();
    config.included_tools = Some(vec!["a".to_string(), "b".to_string()]);
    config.cache_ttl_seconds = 7;
    let copy = config.clone();
    assert_eq!(copy.included_tools, Some(vec!["a".to_string(), "b".to_string()]));
    assert_eq!(copy.excluded_tools, None);
    assert_eq!(copy.cache_ttl_seconds, 7);
}

#[test]
fn test_mode_serialization() {
    let mode = OperationalMode::Live;
    let serialized = serde_json::to_string(mode.name()).unwrap();
    assert_eq!(serialized, "\"live\"");

    let name: String = serde_json::from_str(&serialized).unwrap();
    let deserialized = OperationalMode::from_name(&name).unwrap();
    assert_eq!(deserialized, OperationalMode::Live);
}

#[test]
fn mode_names_read_back() {
    for mode in [
        OperationalMode::All,
        OperationalMode::Live,
        OperationalMode::Dev,
        OperationalMode::Discovery,
    ] {
        assert_eq!(OperationalMode::from_name(mode.name()), Some(mode));
    }
    assert_eq!(OperationalMode::All.name(), "all");
    assert_eq!(OperationalMode::Dev.name(), "dev");
    assert_eq!(OperationalMode::Discovery.name(), "discovery");
    assert_eq!(OperationalMode::from_name("Live"), None);
    assert_eq!(OperationalMode::from_name(""), None);
}

fn given(text: &str) -> Option<String> {
    Some(text.to_string())
}

#[test]
fn environment_values_replace_settings_when_they_parse() {
    let mut config = Configuration::default();
    config.merge_env_vars(&given("false"), &given("60"), &given("25"));
    assert!(!config.cache_enabled);
    assert_eq!(config.cache_ttl_seconds, 60);
    assert_eq!(config.max_search_results, 25);
    config.merge_env_vars(&given("true"), &given("+7"), &given("0"));
    assert!(config.cache_enabled);
    assert_eq!(config.cache_ttl_seconds, 7);
    assert_eq!(config.max_search_results, 0);
    assert_eq!(config.operational_mode, OperationalMode::All);
}

#[test]
fn environment_values_that_do_not_parse_change_nothing() {
    let mut config = Configuration::default();
    config.merge_env_vars(&given("yes"), &given("5 minutes"), &given("-1"));
    assert!(config.cache_enabled);
    assert_eq!(config.cache_ttl_seconds, 300);
    assert_eq!(config.max_search_results, 100);
    config.merge_env_vars(&given("TRUE"), &given(""), &given("18446744073709551616"));
    assert!(config.cache_enabled);
    assert_eq!(config.cache_ttl_seconds, 300);
    assert_eq!(config.max_search_results, 100);
    config.merge_env_vars(&None, &None, &None);
    assert_eq!(config.cache_ttl_seconds, 300);
    config.merge_env_vars(&None, &given("18446744073709551615"), &None);
    assert_eq!(config.cache_ttl_seconds, u64::MAX);
}
