use tramp_cli::config::{MergedConfig, Rule, RuleWithSource};
use tramp_cli::error::TrampError;
use tramp_cli::matcher::{compile_rules, find_matching_rule, CompiledRule, MatchContext};
use tramp_cli::pattern::compile_regex;

fn make_rule_with_source(rule: Rule) -> RuleWithSource {
    RuleWithSource { rule, source: "test.toml".to_string() }
}

#[test]
fn test_compile_valid_regex() {
    let result = compile_regex(r".*/cargo$");
    assert!(result.is_ok());
}

#[test]
fn test_compile_invalid_regex() {
    let result = compile_regex(r"[invalid");
    assert!(result.is_err());
    match result.unwrap_err() {
        TrampError::InvalidRegex { pattern, .. } => {
            assert_eq!(pattern, "[invalid");
        }
        _ => panic!("Expected InvalidRegex error"),
    }
}

#[test]
fn test_rule_matches_binary_pattern() {
    let rule = Rule { binary_pattern: Some(r".*/cargo$".to_string()), ..Default::default() };
    let rws = make_rule_with_source(rule);
    let compiled = CompiledRule::from_rule_with_source(&rws).unwrap();

    let ctx = MatchContext { binary_path: "/usr/local/bin/cargo", cwd: "/home/user/project", args: &[] };
    assert!(compiled.matches(&ctx));

    let ctx_no_match =
        MatchContext { binary_path: "/usr/local/bin/rustc", cwd: "/home/user/project", args: &[] };
    assert!(!compiled.matches(&ctx_no_match));
}

#[test]
fn test_rule_matches_cwd_pattern() {
    let rule = Rule { cwd_pattern: Some(r".*/my-project$".to_string()), ..Default::default() };
    let rws = make_rule_with_source(rule);
    let compiled = CompiledRule::from_rule_with_source(&rws).unwrap();

    let ctx =
        MatchContext { binary_path: "/usr/local/bin/cargo", cwd: "/home/user/my-project", args: &[] };
    assert!(compiled.matches(&ctx));

    let ctx_no_match = MatchContext {
        binary_path: "/usr/local/bin/cargo",
        cwd: "/home/user/other-project",
        args: &[],
    };
    assert!(!compiled.matches(&ctx_no_match));
}

#[test]
fn test_rule_matches_both_patterns() {
    let rule = Rule {
        binary_pattern: Some(r".*/cargo$".to_string()),
        cwd_pattern: Some(r".*/my-project$".to_string()),
        ..Default::default()
    };
    let rws = make_rule_with_source(rule);
    let compiled = CompiledRule::from_rule_with_source(&rws).unwrap();

    let ctx =
        MatchContext { binary_path: "/usr/local/bin/cargo", cwd: "/home/user/my-project", args: &[] };
    assert!(compiled.matches(&ctx));

    let ctx_cwd_mismatch = MatchContext {
        binary_path: "/usr/local/bin/cargo",
        cwd: "/home/user/other-project",
        args: &[],
    };
    assert!(!compiled.matches(&ctx_cwd_mismatch));

    let ctx_binary_mismatch =
        MatchContext { binary_path: "/usr/local/bin/rustc", cwd: "/home/user/my-project", args: &[] };
    assert!(!compiled.matches(&ctx_binary_mismatch));
}

#[test]
fn test_rule_with_no_patterns_matches_everything() {
    let rule = Rule::default();
    let rws = make_rule_with_source(rule);
    let compiled = CompiledRule::from_rule_with_source(&rws).unwrap();

    let ctx = MatchContext { binary_path: "/any/path", cwd: "/any/dir", args: &[] };
    assert!(compiled.matches(&ctx));
}

#[test]
fn test_find_matching_rule_first_wins() {
    let rules = vec![
        Rule {
            binary_pattern: Some(r".*/cargo$".to_string()),
            arg_rewrite: Some("s/build/build --release/".to_string()),
            ..Default::default()
        },
        Rule {
            binary_pattern: Some(r".*/cargo$".to_string()),
            arg_rewrite: Some("s/build/build --debug/".to_string()),
            ..Default::default()
        },
    ];

    let rules_with_source: Vec<_> = rules.into_iter().map(make_rule_with_source).collect();
    let compiled: Vec<_> = rules_with_source
        .iter()
        .map(|r| CompiledRule::from_rule_with_source(r).unwrap())
        .collect();

    let ctx = MatchContext { binary_path: "/usr/local/bin/cargo", cwd: "/home/user/project", args: &[] };

    let matched = find_matching_rule(&compiled, &ctx);
    assert!(matched.is_some());
    assert_eq!(matched.unwrap().rule.arg_rewrite, Some("s/build/build --release/".to_string()));
}

#[test]
fn first_match_wins_over_more_specific_later_rule() {
    let general = Rule { binary_pattern: Some("cargo".to_string()), ..Default::default() };
    let specific = Rule {
        binary_pattern: Some(r"^/usr/local/bin/cargo$".to_string()),
        cwd_pattern: Some(r"^/home/user/project$".to_string()),
        ..Default::default()
    };
    let merged = MergedConfig {
        rules: vec![
            RuleWithSource { rule: Rule { binary_pattern: Some("rustc".to_string()), ..Default::default() }, source: "a".to_string() },
            RuleWithSource { rule: general, source: "b".to_string() },
            RuleWithSource { rule: specific, source: "c".to_string() },
        ],
        no_external_lookup: false,
    };
    let compiled = compile_rules(&merged).unwrap();
    assert_eq!(compiled.len(), 3);
    let ctx = MatchContext { binary_path: "/usr/local/bin/cargo", cwd: "/home/user/project", args: &[] };
    assert_eq!(find_matching_rule(&compiled, &ctx).unwrap().source, "b");
    let other = MatchContext { binary_path: "/usr/bin/ls", cwd: "/", args: &[] };
    assert!(find_matching_rule(&compiled, &other).is_none());
}

#[test]
fn compile_rules_reports_first_bad_pattern() {
    let merged = MergedConfig {
        rules: vec![
            make_rule_with_source(Rule { binary_pattern: Some("ok".to_string()), ..Default::default() }),
            make_rule_with_source(Rule {
                binary_pattern: Some("fine".to_string()),
                cwd_pattern: Some("(unclosed".to_string()),
                ..Default::default()
            }),
            make_rule_with_source(Rule { binary_pattern: Some("[bad".to_string()), ..Default::default() }),
        ],
        no_external_lookup: false,
    };
    match compile_rules(&merged) {
        Err(TrampError::InvalidRegex { pattern, .. }) => assert_eq!(pattern, "(unclosed"),
        _ => panic!("Expected InvalidRegex error"),
    }
}

#[test]
fn compiled_rule_keeps_rule_and_source() {
    let rws = RuleWithSource {
        rule: Rule { binary_pattern: Some("x".to_string()), pre_hook: Some("/h.sh".to_string()), ..Default::default() },
        source: "/p/.tramp.toml".to_string(),
    };
    let compiled = CompiledRule::from_rule_with_source(&rws).unwrap();
    assert_eq!(compiled.source, "/p/.tramp.toml");
    assert_eq!(compiled.rule.pre_hook, Some("/h.sh".to_string()));
    assert_eq!(compiled.binary_regex.as_ref().unwrap().as_str(), "x");
    assert!(compiled.cwd_regex.is_none());
}
