use tramp_cli::cascade::{is_truthy_value, user_config_suppressed, CascadePhase, CascadeResolver};
use tramp_cli::config::{merge_configs, Config, LoadedConfig, Rule};

fn found(path: &str, root: bool, no_external_lookup: bool, var: Option<&str>) -> Option<LoadedConfig> {
    Some(LoadedConfig {
        config: Config {
            root,
            no_external_lookup,
            root_config_lookup_disable_env_var: var.map(|v| v.to_string()),
            rules: vec![Rule { binary_pattern: Some(path.to_string()), ..Default::default() }],
        },
        path: path.to_string(),
    })
}

fn paths(r: &CascadeResolver) -> Vec<String> {
    r.configs().iter().map(|c| c.path.clone()).collect()
}

#[test]
fn is_truthy_value_cases() {
    assert!(!is_truthy_value(""));
    assert!(!is_truthy_value("0"));
    assert!(!is_truthy_value("false"));
    assert!(!is_truthy_value("FALSE"));
    assert!(!is_truthy_value("No"));
    assert!(!is_truthy_value("no"));
    assert!(is_truthy_value("1"));
    assert!(is_truthy_value("true"));
    assert!(is_truthy_value("yes"));
    assert!(is_truthy_value("00"));
    assert!(is_truthy_value("nope"));
}

#[test]
fn suppression_needs_one_truthy_value() {
    assert!(!user_config_suppressed(&[]));
    assert!(!user_config_suppressed(&[None, Some("0".to_string()), Some(String::new())]));
    assert!(user_config_suppressed(&[None, Some("1".to_string())]));
}

#[test]
fn walk_collects_most_specific_first_then_user() {
    let mut r = CascadeResolver::new();
    assert_eq!(r.visit_directory(found("/a/b/c", false, false, None), true), CascadePhase::Walking);
    assert_eq!(r.visit_directory(None, true), CascadePhase::Walking);
    assert_eq!(r.visit_directory(found("/a", false, false, Some("CI")), true), CascadePhase::Walking);
    assert_eq!(r.visit_directory(None, false), CascadePhase::UserLookup);
    assert_eq!(r.user_config_disable_vars(), vec!["CI".to_string()]);
    r.add_user_config(&[None], found("/home", false, false, None));
    assert_eq!(r.phase(), CascadePhase::Finished);
    assert_eq!(paths(&r), vec!["/a/b/c", "/a", "/home"]);
    let merged = merge_configs(&r.into_configs());
    let sources: Vec<&str> = merged.rules.iter().map(|x| x.source.as_str()).collect();
    assert_eq!(sources, vec!["/a/b/c", "/a", "/home"]);
}

#[test]
fn root_stops_walk_but_user_config_still_comes() {
    let mut r = CascadeResolver::new();
    assert_eq!(r.visit_directory(found("/a/b", true, false, None), true), CascadePhase::UserLookup);
    r.add_user_config(&[], found("/home", false, false, None));
    assert_eq!(paths(&r), vec!["/a/b", "/home"]);
}

#[test]
fn suppressed_user_config_is_left_out() {
    let mut r = CascadeResolver::new();
    assert_eq!(r.visit_directory(found("/a/b", true, false, Some("CI")), true), CascadePhase::UserLookup);
    assert!(user_config_suppressed(&[Some("true".to_string())]));
    r.add_user_config(&[Some("true".to_string())], found("/home", false, false, None));
    assert_eq!(r.phase(), CascadePhase::Finished);
    assert_eq!(paths(&r), vec!["/a/b"]);
}

#[test]
fn authoritative_config_ends_everything() {
    let mut r = CascadeResolver::new();
    assert_eq!(r.visit_directory(found("/a/b", false, true, None), true), CascadePhase::Finished);
    assert_eq!(paths(&r), vec!["/a/b"]);
    let merged = merge_configs(&r.into_configs());
    assert_eq!(merged.rules.len(), 1);
    assert!(merged.no_external_lookup);
}

#[test]
fn authoritative_config_replaces_more_specific_ones() {
    let mut r = CascadeResolver::new();
    assert_eq!(r.visit_directory(found("/a/b", false, false, None), true), CascadePhase::Walking);
    assert_eq!(r.visit_directory(None, true), CascadePhase::Walking);
    assert_eq!(r.visit_directory(found("/a", true, true, None), true), CascadePhase::Finished);
    assert_eq!(paths(&r), vec!["/a"]);
    let merged = merge_configs(&r.into_configs());
    let sources: Vec<&str> = merged.rules.iter().map(|x| x.source.as_str()).collect();
    assert_eq!(sources, vec!["/a"]);
    assert!(merged.no_external_lookup);
}

#[test]
fn user_config_kept_when_values_are_falsy() {
    let mut r = CascadeResolver::new();
    assert_eq!(r.visit_directory(found("/a", false, false, Some("CI")), false), CascadePhase::UserLookup);
    r.add_user_config(&[Some("no".to_string())], found("/home", false, false, None));
    assert_eq!(paths(&r), vec!["/a", "/home"]);
}

#[test]
fn empty_walk_reaches_user_lookup() {
    let mut r = CascadeResolver::new();
    assert_eq!(r.visit_directory(None, false), CascadePhase::UserLookup);
    assert!(r.user_config_disable_vars().is_empty());
    r.add_user_config(&[], None);
    assert!(r.configs().is_empty());
}
