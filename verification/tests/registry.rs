use webhook_server::config::{default_timeout, Config, Hook, HookDefinition, Timeout};
use webhook_server::registry::{same_text, HookRegistry};

fn definition(location: &str, program: &str) -> HookDefinition {
    HookDefinition {
        location: location.to_string(),
        program: program.to_string(),
        args: None,
        secret: None,
    }
}

#[test]
fn default_timeout_is_one_minute() {
    assert_eq!(default_timeout(), Timeout { secs: 60 });
    assert_eq!(default_timeout().as_secs(), 60);
    assert!(!default_timeout().is_unlimited());
}

#[test]
fn timeout_of_zero_is_unlimited() {
    assert!(Timeout::from_secs(0).is_unlimited());
    assert!(!Timeout::from_secs(1).is_unlimited());
    assert!(!Timeout::from_secs(u64::MAX).is_unlimited());
    assert_eq!(Timeout::from_secs(7).as_secs(), 7);
}

#[test]
fn command_line_of_a_program_alone() {
    let hook = Hook::new("echo".to_string(), None, None);
    assert_eq!(hook.command_line(), "echo");
    let hook = Hook::new("echo".to_string(), Some(vec![]), Some("s3cr3t".to_string()));
    assert_eq!(hook.command_line(), "echo");
}

#[test]
fn command_line_parts_arguments_by_single_spaces() {
    let hook = Hook::new(
        "/usr/bin/env".to_string(),
        Some(vec!["sh".to_string(), "-c".to_string(), "cat > /dev/null".to_string()]),
        None,
    );
    assert_eq!(hook.command_line(), "/usr/bin/env sh -c cat > /dev/null");
    let hook = Hook::new("p".to_string(), Some(vec!["".to_string(), "x".to_string()]), None);
    assert_eq!(hook.command_line(), "p  x");
}

#[test]
fn hook_keeps_what_it_was_made_of() {
    let hook = Hook::new(
        "deploy".to_string(),
        Some(vec!["--now".to_string()]),
        Some("s3cr3t".to_string()),
    );
    assert_eq!(hook.program, "deploy");
    assert_eq!(hook.args, Some(vec!["--now".to_string()]));
    assert_eq!(hook.secret, Some("s3cr3t".to_string()));
}

#[test]
fn same_text_compares_strings() {
    assert!(same_text("", ""));
    assert!(same_text("/deploy", "/deploy"));
    assert!(!same_text("/deploy", "/deploy/"));
    assert!(!same_text("/deploy", "/Deploy"));
    assert!(!same_text("/deploy", "/deplo"));
    assert!(same_text("/h\u{e9}llo/\u{4e16}\u{754c}", "/h\u{e9}llo/\u{4e16}\u{754c}"));
    assert!(!same_text("/h\u{e9}llo", "/hello"));
}

#[test]
fn empty_registry_has_no_hook() {
    let registry = HookRegistry::from_definitions(vec![]);
    assert_eq!(registry.len(), 0);
    assert!(registry.lookup("/").is_none());
    assert!(registry.lookup("").is_none());
    assert!(registry.lookup("/deploy").is_none());
}

#[test]
fn registry_finds_each_hook_by_its_path() {
    let registry = HookRegistry::from_definitions(vec![
        definition("/deploy", "deploy.sh"),
        definition("/build", "make"),
        definition("/test", "cargo"),
    ]);
    assert_eq!(registry.len(), 3);
    assert_eq!(registry.lookup("/deploy").unwrap().program, "deploy.sh");
    assert_eq!(registry.lookup("/build").unwrap().program, "make");
    assert_eq!(registry.lookup("/test").unwrap().program, "cargo");
}

#[test]
fn registry_matches_paths_exactly() {
    let registry = HookRegistry::from_definitions(vec![definition("/deploy", "deploy.sh")]);
    assert!(registry.lookup("/deploy").is_some());
    assert!(registry.lookup("/deploy/").is_none());
    assert!(registry.lookup("/deploy/now").is_none());
    assert!(registry.lookup("/dep").is_none());
    assert!(registry.lookup("deploy").is_none());
    assert!(registry.lookup("/DEPLOY").is_none());
    assert!(registry.lookup("/").is_none());
    assert!(registry.lookup("").is_none());
}

#[test]
fn later_definition_of_a_path_wins() {
    let registry = HookRegistry::from_definitions(vec![
        definition("/deploy", "first"),
        definition("/build", "make"),
        definition("/deploy", "second"),
        definition("/deploy", "third"),
    ]);
    assert_eq!(registry.len(), 2);
    assert_eq!(registry.lookup("/deploy").unwrap().program, "third");
    assert_eq!(registry.lookup("/build").unwrap().program, "make");
}

#[test]
fn registry_keeps_arguments_and_secret() {
    let registry = HookRegistry::from_definitions(vec![HookDefinition {
        location: "/deploy".to_string(),
        program: "deploy.sh".to_string(),
        args: Some(vec!["--env".to_string(), "prod".to_string()]),
        secret: Some("s3cr3t".to_string()),
    }]);
    let hook = registry.lookup("/deploy").unwrap();
    assert_eq!(hook.program, "deploy.sh");
    assert_eq!(hook.args, Some(vec!["--env".to_string(), "prod".to_string()]));
    assert_eq!(hook.secret, Some("s3cr3t".to_string()));
    assert_eq!(hook.command_line(), "deploy.sh --env prod");
}

#[test]
fn config_keeps_its_parts() {
    let registry = HookRegistry::from_definitions(vec![definition("/deploy", "deploy.sh")]);
    let config = Config::new(None, Timeout::from_secs(5), registry);
    assert!(config.bind.is_none());
    assert_eq!(config.timeout.as_secs(), 5);
    assert_eq!(config.hook.lookup("/deploy").unwrap().program, "deploy.sh");
}
