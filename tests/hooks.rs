use tramp_cli::hooks::{build_hook_env, HookContext, HookType};

#[test]
fn test_hook_type_as_str() {
    assert_eq!(HookType::Pre.as_str(), "pre");
    assert_eq!(HookType::Post.as_str(), "post");
    assert_eq!(HookType::Intercept.as_str(), "intercept");
}

#[test]
fn test_build_hook_env_basic() {
    let ctx = HookContext {
        original_binary: "/usr/local/bin/cargo",
        original_args: &["build".to_string(), "--release".to_string()],
        cwd: "/home/user/project",
        hook_type: HookType::Pre,
        executed_binary: None,
        executed_args: None,
        exit_code: None,
    };

    let env = build_hook_env(&ctx);

    assert_eq!(env.get("TRAMP_ORIGINAL_BINARY").unwrap(), "/usr/local/bin/cargo");
    assert_eq!(env.get("TRAMP_ORIGINAL_ARGS").unwrap(), "build --release");
    assert_eq!(env.get("TRAMP_ORIGINAL_ARGC").unwrap(), "2");
    assert_eq!(env.get("TRAMP_ORIGINAL_ARG_0").unwrap(), "build");
    assert_eq!(env.get("TRAMP_ORIGINAL_ARG_1").unwrap(), "--release");
    assert_eq!(env.get("TRAMP_CWD").unwrap(), "/home/user/project");
    assert_eq!(env.get("TRAMP_HOOK_TYPE").unwrap(), "pre");

    assert!(env.get("TRAMP_EXECUTED_BINARY").is_none());
    assert!(env.get("TRAMP_EXECUTED_ARGS").is_none());
    assert!(env.get("TRAMP_EXIT_CODE").is_none());
}

#[test]
fn test_build_hook_env_post_hook() {
    let executed_args = vec![
        "build".to_string(),
        "--release".to_string(),
        "--locked".to_string(),
    ];
    let ctx = HookContext {
        original_binary: "/usr/local/bin/cargo",
        original_args: &["build".to_string(), "--release".to_string()],
        cwd: "/home/user/project",
        hook_type: HookType::Post,
        executed_binary: Some("/usr/local/bin/cargo"),
        executed_args: Some(&executed_args),
        exit_code: Some(0),
    };

    let env = build_hook_env(&ctx);

    assert_eq!(env.get("TRAMP_HOOK_TYPE").unwrap(), "post");
    assert_eq!(env.get("TRAMP_EXECUTED_BINARY").unwrap(), "/usr/local/bin/cargo");
    assert_eq!(env.get("TRAMP_EXECUTED_ARGS").unwrap(), "build --release --locked");
    assert_eq!(env.get("TRAMP_EXIT_CODE").unwrap(), "0");
}

#[test]
fn test_build_hook_env_empty_args() {
    let ctx = HookContext {
        original_binary: "/usr/local/bin/cargo",
        original_args: &[],
        cwd: "/home/user/project",
        hook_type: HookType::Pre,
        executed_binary: None,
        executed_args: None,
        exit_code: None,
    };

    let env = build_hook_env(&ctx);

    assert_eq!(env.get("TRAMP_ORIGINAL_ARGS").unwrap(), "");
    assert_eq!(env.get("TRAMP_ORIGINAL_ARGC").unwrap(), "0");
    assert!(env.get("TRAMP_ORIGINAL_ARG_0").is_none());
}

#[test]
fn test_build_hook_env_intercept_hook() {
    let executed_args = vec!["deploy".to_string(), "--env=staging".to_string()];
    let ctx = HookContext {
        original_binary: "/usr/local/bin/deploy",
        original_args: &["deploy".to_string(), "--env=staging".to_string()],
        cwd: "/home/user/my-app",
        hook_type: HookType::Intercept,
        executed_binary: Some("/usr/local/bin/deploy"),
        executed_args: Some(&executed_args),
        exit_code: None,
    };

    let env = build_hook_env(&ctx);

    assert_eq!(env.get("TRAMP_HOOK_TYPE").unwrap(), "intercept");
    assert_eq!(env.get("TRAMP_ORIGINAL_BINARY").unwrap(), "/usr/local/bin/deploy");
    assert_eq!(env.get("TRAMP_ORIGINAL_ARGS").unwrap(), "deploy --env=staging");
    assert_eq!(env.get("TRAMP_ORIGINAL_ARGC").unwrap(), "2");
    assert_eq!(env.get("TRAMP_ORIGINAL_ARG_0").unwrap(), "deploy");
    assert_eq!(env.get("TRAMP_ORIGINAL_ARG_1").unwrap(), "--env=staging");
    assert_eq!(env.get("TRAMP_CWD").unwrap(), "/home/user/my-app");
    assert_eq!(env.get("TRAMP_EXECUTED_BINARY").unwrap(), "/usr/local/bin/deploy");
    assert_eq!(env.get("TRAMP_EXECUTED_ARGS").unwrap(), "deploy --env=staging");
    assert!(env.get("TRAMP_EXIT_CODE").is_none());
}

#[test]
fn hook_env_many_args_and_negative_exit_code() {
    let args: Vec<String> = (0..12).map(|i| format!("a{}", i)).collect();
    let ctx = HookContext {
        original_binary: "/bin/tool",
        original_args: &args,
        cwd: "/",
        hook_type: HookType::Post,
        executed_binary: Some("/bin/other"),
        executed_args: Some(&[]),
        exit_code: Some(-1),
    };
    let env = build_hook_env(&ctx);
    assert_eq!(env.get("TRAMP_ORIGINAL_ARGC").unwrap(), "12");
    assert_eq!(env.get("TRAMP_ORIGINAL_ARG_10").unwrap(), "a10");
    assert_eq!(env.get("TRAMP_ORIGINAL_ARG_11").unwrap(), "a11");
    assert!(env.get("TRAMP_ORIGINAL_ARG_12").is_none());
    assert_eq!(env.get("TRAMP_EXECUTED_ARGS").unwrap(), "");
    assert_eq!(env.get("TRAMP_EXIT_CODE").unwrap(), "-1");
    assert_eq!(env.entries.len(), 3 + 12 + 2 + 3);
    assert_eq!(env.entries[0].0, "TRAMP_ORIGINAL_BINARY");
    assert_eq!(env.entries[19].0, "TRAMP_EXIT_CODE");
}

#[test]
fn hook_env_exit_code_of_post_hook() {
    let ctx = HookContext {
        original_binary: "/bin/sh",
        original_args: &["-c".to_string(), "exit 42".to_string()],
        cwd: "/tmp",
        hook_type: HookType::Post,
        executed_binary: Some("/bin/sh"),
        executed_args: Some(&["-c".to_string(), "exit 42".to_string()]),
        exit_code: Some(42),
    };
    let env = build_hook_env(&ctx);
    assert_eq!(env.get("TRAMP_EXIT_CODE").unwrap(), "42");
    assert_eq!(env.get("TRAMP_ORIGINAL_ARGS").unwrap(), "-c exit 42");
}
