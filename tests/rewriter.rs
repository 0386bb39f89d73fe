use tramp_cli::config::Rule;
use tramp_cli::error::TrampError;
use tramp_cli::rewriter::{
    plan_rewrite, rewrite_args, rewrite_command, split_by_delimiter, split_command, RewritePlan,
    Substitution,
};

#[test]
fn test_parse_simple_substitution() {
    let sub = Substitution::parse("s/foo/bar/").unwrap();
    assert_eq!(sub.replacement, "bar");
    assert!(!sub.global);
}

#[test]
fn test_parse_global_substitution() {
    let sub = Substitution::parse("s/foo/bar/g").unwrap();
    assert_eq!(sub.replacement, "bar");
    assert!(sub.global);
}

#[test]
fn test_parse_different_delimiter() {
    let sub = Substitution::parse("s#foo#bar#").unwrap();
    assert_eq!(sub.replacement, "bar");
}

#[test]
fn test_parse_escaped_delimiter() {
    let sub = Substitution::parse(r"s/foo\/bar/baz/").unwrap();
    assert_eq!(sub.replacement, "baz");
    assert_eq!(sub.apply("foo/bar"), "baz");
}

#[test]
fn test_apply_substitution() {
    let sub = Substitution::parse("s/build/build --release/").unwrap();
    assert_eq!(sub.apply("build"), "build --release");
}

#[test]
fn test_apply_global_substitution() {
    let sub = Substitution::parse("s/foo/bar/g").unwrap();
    assert_eq!(sub.apply("foo foo foo"), "bar bar bar");
}

#[test]
fn test_apply_non_global_substitution() {
    let sub = Substitution::parse("s/foo/bar/").unwrap();
    assert_eq!(sub.apply("foo foo foo"), "bar foo foo");
}

#[test]
fn test_apply_with_capture_groups() {
    let sub = Substitution::parse(r"s/(\w+)/[$1]/").unwrap();
    assert_eq!(sub.apply("hello world"), "[hello] world");
}

#[test]
fn test_apply_with_capture_groups_global() {
    let sub = Substitution::parse(r"s/(\w+)/[$1]/g").unwrap();
    assert_eq!(sub.apply("hello world"), "[hello] [world]");
}

#[test]
fn test_rewrite_args() {
    let sub = Substitution::parse("s/^build$/build --release/").unwrap();
    let args = vec!["build".to_string()];
    let rewritten = rewrite_args(&args, &sub);
    assert_eq!(rewritten, vec!["build", "--release"]);
}

#[test]
fn test_rewrite_command() {
    let sub = Substitution::parse("s/kubectl/kubectl --context=dev/").unwrap();
    let (binary, args) = rewrite_command("kubectl", &["get".to_string(), "pods".to_string()], &sub);
    assert_eq!(binary, "kubectl");
    assert_eq!(args, vec!["--context=dev", "get", "pods"]);
}

#[test]
fn test_invalid_substitution_no_s() {
    let result = Substitution::parse("foo/bar/");
    assert!(result.is_err());
}

#[test]
fn test_invalid_substitution_too_short() {
    let result = Substitution::parse("s");
    assert!(result.is_err());
}

#[test]
fn substitution_round_trip() {
    let sub = Substitution::parse("s/X/Y/").unwrap();
    assert_eq!(sub.apply("X"), "Y");
    assert_eq!(sub.apply("XX"), "YX");
    let all = Substitution::parse("s/X/Y/g").unwrap();
    assert_eq!(all.apply("XX"), "YY");
    assert_eq!(all.apply("none"), "none");
    assert_eq!(sub.apply("nothing here"), "nothing here");
}

#[test]
fn escaped_delimiter_is_one_literal_pattern() {
    let sub = Substitution::parse(r"s/foo\/bar/baz/").unwrap();
    assert_eq!(sub.pattern.as_str(), "foo/bar");
    assert_eq!(sub.apply("x foo/bar y"), "x baz y");
    assert_eq!(
        split_by_delimiter(r"foo\/bar/baz/", '/'),
        vec!["foo/bar".to_string(), "baz".to_string(), String::new()]
    );
}

#[test]
fn split_keeps_backslash_not_before_delimiter() {
    assert_eq!(
        split_by_delimiter(r"a\d+/b\/c", '/'),
        vec![r"a\d+".to_string(), "b/c".to_string()]
    );
    assert_eq!(split_by_delimiter("", '/'), vec![String::new()]);
    assert_eq!(split_by_delimiter("é|ü", '|'), vec!["é".to_string(), "ü".to_string()]);
}

#[test]
fn parse_errors_name_the_offending_text() {
    for bad in ["", "x/a/b/", "s", "s/only"] {
        match Substitution::parse(bad) {
            Err(TrampError::InvalidRegex { pattern, .. }) => assert_eq!(pattern, bad),
            _ => panic!("Expected InvalidRegex error"),
        }
    }
    match Substitution::parse("s/(open/x/") {
        Err(TrampError::InvalidRegex { pattern, .. }) => assert_eq!(pattern, "(open"),
        _ => panic!("Expected InvalidRegex error"),
    }
}

#[test]
fn parse_flags_and_multibyte_delimiter() {
    let sub = Substitution::parse("s|a|b|ig").unwrap();
    assert!(sub.global);
    let sub = Substitution::parse("s|a|b|i").unwrap();
    assert!(!sub.global);
    let sub = Substitution::parse("s§a§b§").unwrap();
    assert_eq!(sub.pattern.as_str(), "a");
    assert_eq!(sub.replacement, "b");
}

#[test]
fn split_command_uses_fallback_for_empty_line() {
    let (binary, args) = split_command("  \t ", "/bin/echo");
    assert_eq!(binary, "/bin/echo");
    assert!(args.is_empty());
    let (binary, args) = split_command(" a  b\u{3000}c ", "/bin/echo");
    assert_eq!(binary, "a");
    assert_eq!(args, vec!["b", "c"]);
}

#[test]
fn rewrite_command_can_empty_the_line() {
    let sub = Substitution::parse("s/.*//").unwrap();
    let (binary, args) = rewrite_command("/bin/echo", &["x".to_string()], &sub);
    assert_eq!(binary, "/bin/echo");
    assert!(args.is_empty());
}

#[test]
fn plan_follows_strategy_order() {
    let args = vec!["hello".to_string(), "world".to_string()];
    let alt = Rule { alternate_command: Some("true".to_string()), ..Default::default() };
    match plan_rewrite("/bin/false", &args, &alt).unwrap() {
        RewritePlan::ResolveAlternate { command, args: a } => {
            assert_eq!(command, "true");
            assert_eq!(a, args);
        }
        _ => panic!("expected the alternate command"),
    }
    let arg = Rule { arg_rewrite: Some("s/hello/goodbye/".to_string()), ..Default::default() };
    match plan_rewrite("/bin/echo", &args, &arg).unwrap() {
        RewritePlan::Run { binary, args: a } => {
            assert_eq!(binary, "/bin/echo");
            assert_eq!(a, vec!["goodbye", "world"]);
        }
        _ => panic!("expected a run"),
    }
    let cmd = Rule { command_rewrite: Some("s#^/bin/echo#printf#".to_string()), ..Default::default() };
    match plan_rewrite("/bin/echo", &args, &cmd).unwrap() {
        RewritePlan::ResolveRewritten { command, args: a } => {
            assert_eq!(command, "printf");
            assert_eq!(a, args);
        }
        _ => panic!("expected a rewritten command"),
    }
    match plan_rewrite("/bin/echo", &args, &Rule::default()).unwrap() {
        RewritePlan::Run { binary, args: a } => {
            assert_eq!(binary, "/bin/echo");
            assert_eq!(a, args);
        }
        _ => panic!("expected a run"),
    }
    let broken = Rule { arg_rewrite: Some("s/[x/y/".to_string()), ..Default::default() };
    match plan_rewrite("/bin/echo", &args, &broken) {
        Err(TrampError::InvalidRegex { pattern, .. }) => assert_eq!(pattern, "[x"),
        _ => panic!("Expected InvalidRegex error"),
    }
}
