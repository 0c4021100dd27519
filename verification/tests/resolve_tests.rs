use prefix_mapper::resolve::{map_file_config, needs_secondary, SecondaryLookup};
use prefix_mapper::settings::{Client, FileConfig, YamlConfig};

fn base_config() -> FileConfig {
    FileConfig {
        old_web_prefix: "/static".to_owned(),
        new_web_prefix: None,
        local_config_path: None,
        config_path: None,
        exclude_path: None,
        source_path: "./src".to_owned(),
        output_path: "./out".to_owned(),
        file_types: None,
    }
}

fn loaded(prefix: &str) -> SecondaryLookup {
    SecondaryLookup::Loaded(YamlConfig { client: Client { web_prefix: prefix.to_owned() } })
}

#[test]
fn explicit_prefix_used_directly() {
    let mut fc = base_config();
    fc.new_web_prefix = Some("/assets".to_owned());
    let s = map_file_config(fc, SecondaryLookup::NotAttempted, SecondaryLookup::NotAttempted);
    assert_eq!(s.new_web_prefix, "/assets");
    assert_eq!(s.old_web_prefix, "/static");
}

#[test]
fn explicit_prefix_ignores_failed_secondary() {
    // An unreadable secondary source must not disturb a resolution whose
    // prefix was given directly.
    let mut fc = base_config();
    fc.new_web_prefix = Some("/assets".to_owned());
    fc.local_config_path = Some("/no/such/file.yaml".to_owned());
    let s = map_file_config(fc, SecondaryLookup::Failed, SecondaryLookup::Failed);
    assert_eq!(s.new_web_prefix, "/assets");
}

#[test]
fn explicit_empty_prefix_kept() {
    let mut fc = base_config();
    fc.new_web_prefix = Some("".to_owned());
    let s = map_file_config(fc, SecondaryLookup::NotAttempted, SecondaryLookup::NotAttempted);
    assert_eq!(s.new_web_prefix, "");
}

#[test]
fn root_prefix_from_secondary_normalizes_to_empty() {
    // Secondary config supplies the bare root "/": the resolved prefix is "".
    let fc = base_config();
    let s = map_file_config(fc, loaded("/"), SecondaryLookup::NotAttempted);
    assert_eq!(s.new_web_prefix, "");
}

#[test]
fn explicit_root_prefix_normalizes_to_empty() {
    let mut fc = base_config();
    fc.new_web_prefix = Some("/".to_owned());
    let s = map_file_config(fc, SecondaryLookup::NotAttempted, SecondaryLookup::NotAttempted);
    assert_eq!(s.new_web_prefix, "");
}

#[test]
fn failed_local_falls_back() {
    // The local path points at a nonexistent file; the fallback secondary
    // config is valid and supplies "/v2".
    let fc = base_config();
    let s = map_file_config(fc, SecondaryLookup::Failed, loaded("/v2"));
    assert_eq!(s.new_web_prefix, "/v2");
}

#[test]
fn absent_local_falls_back() {
    let fc = base_config();
    let s = map_file_config(fc, SecondaryLookup::NotAttempted, loaded("/v3"));
    assert_eq!(s.new_web_prefix, "/v3");
}

#[test]
fn loaded_local_wins_over_fallback() {
    let fc = base_config();
    let s = map_file_config(fc, loaded("/local"), loaded("/fallback"));
    assert_eq!(s.new_web_prefix, "/local");
}

#[test]
fn loaded_empty_local_is_accepted_as_is() {
    // A successfully loaded secondary config with an empty prefix wins: the
    // chain does not fall further just because the prefix is empty.
    let fc = base_config();
    let s = map_file_config(fc, loaded(""), loaded("/fallback"));
    assert_eq!(s.new_web_prefix, "");
}

#[test]
fn all_attempts_fail_defaults_to_empty() {
    let fc = base_config();
    let s = map_file_config(fc, SecondaryLookup::Failed, SecondaryLookup::Failed);
    assert_eq!(s.new_web_prefix, "");
}

#[test]
fn git_pattern_always_appended() {
    let fc = base_config();
    let s = map_file_config(fc, SecondaryLookup::NotAttempted, SecondaryLookup::NotAttempted);
    assert_eq!(s.exclude_path, vec!["\\.git$".to_owned()]);
}

#[test]
fn user_patterns_kept_in_order_before_git_pattern() {
    let mut fc = base_config();
    fc.exclude_path = Some(vec!["^skip".to_owned(), "tmp".to_owned()]);
    let s = map_file_config(fc, SecondaryLookup::NotAttempted, SecondaryLookup::NotAttempted);
    assert_eq!(
        s.exclude_path,
        vec!["^skip".to_owned(), "tmp".to_owned(), "\\.git$".to_owned()]
    );
}

#[test]
fn file_types_default_to_empty() {
    let fc = base_config();
    let s = map_file_config(fc, SecondaryLookup::NotAttempted, SecondaryLookup::NotAttempted);
    assert!(s.file_types.is_empty());
}

#[test]
fn paths_copied_through() {
    let mut fc = base_config();
    fc.file_types = Some(vec!["html".to_owned()]);
    let s = map_file_config(fc, SecondaryLookup::NotAttempted, SecondaryLookup::NotAttempted);
    assert_eq!(s.source_path, "./src");
    assert_eq!(s.output_path, "./out");
    assert_eq!(s.file_types, vec!["html".to_owned()]);
}

#[test]
fn needs_secondary_only_without_explicit_prefix() {
    let fc = base_config();
    assert!(needs_secondary(&fc));
    let mut fc = base_config();
    fc.new_web_prefix = Some("".to_owned());
    assert!(!needs_secondary(&fc));
}
