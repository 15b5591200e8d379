use pr_bot::agent::{
    agent_args, agent_prompt, child_environment, forced_environment, group_kill_args,
    inherited_variables, run_succeeded, sanitize_label, task_dir_name, tasks_dir, workflow_path,
    RunOutcome,
};
use pr_bot::config::Config;
use pr_bot::text::{decimal_string, replace_text};

#[test]
fn task_directory_names_are_sanitized_and_distinct() {
    assert_eq!(sanitize_label("owner/repo issue#1"), "owner-repo-issue-1");
    assert_eq!(sanitize_label("a_b-C9.ü"), "a_b-C9--");
    let first = task_dir_name("owner/repo issue#1", 1_700_000_000_000_000_000, 0);
    let second = task_dir_name("owner/repo issue#1", 1_700_000_000_000_000_000, 1);
    assert_eq!(first, "owner-repo-issue-1-1700000000000000000-0");
    assert_ne!(first, second);
    assert!(!first.contains('/'));
}

#[test]
fn task_and_workflow_paths() {
    let mut c = Config::with_defaults("bot".to_string(), "human".to_string());
    c.cache_dir = "/var/cache/pr-bot".to_string();
    c.workflows_dir = "/etc/pr-bot/workflows/".to_string();
    assert_eq!(tasks_dir(&c), "/var/cache/pr-bot/tasks");
    assert_eq!(workflow_path(&c, "missing"), "/etc/pr-bot/workflows/missing.md");
}

#[test]
fn prompt_puts_the_trusted_workflow_before_the_untrusted_context() {
    let prompt = agent_prompt("# trusted workflow\nDo the work.", r#"{"body":"untrusted"}"#);
    assert_eq!(
        prompt,
        "Follow this trusted workflow:\n\n# trusted workflow\nDo the work.\n\nHere is the untrusted task context as JSON:\n\n{\"body\":\"untrusted\"}"
    );
    assert!(prompt.contains("untrusted task context"));
}

#[test]
fn agent_arguments() {
    let args = agent_args("/tmp/task", &None, "prompt");
    assert_eq!(args, vec!["run", "--auto", "--pure", "--dir", "/tmp/task", "prompt"]);
    let args = agent_args("/tmp/task", &Some("m/x".to_string()), "prompt");
    assert_eq!(args, vec!["run", "--auto", "--pure", "--dir", "/tmp/task", "--model", "m/x", "prompt"]);
    assert!(!args.iter().any(|a| a.contains("dangerously-skip-permissions")));
}

#[test]
fn environment_keeps_only_allowlisted_variables() {
    let parent = vec![
        ("PR_BOT_TEST_SECRET".to_string(), "must-not-leak".to_string()),
        ("PATH".to_string(), "/usr/bin".to_string()),
        ("HOME".to_string(), "/home/u".to_string()),
        ("GH_TOKEN".to_string(), "secret".to_string()),
        ("PATH".to_string(), "/second".to_string()),
    ];
    let child = child_environment(&parent);
    assert_eq!(
        child,
        vec![
            ("HOME".to_string(), "/home/u".to_string()),
            ("PATH".to_string(), "/usr/bin".to_string()),
            (
                "OPENCODE_PERMISSION".to_string(),
                "{\"external_directory\":\"deny\",\"question\":\"deny\",\"doom_loop\":\"deny\"}".to_string()
            ),
            ("OPENCODE_DISABLE_AUTOUPDATE".to_string(), "true".to_string()),
            ("OPENCODE_DISABLE_CLAUDE_CODE".to_string(), "true".to_string()),
        ]
    );
    assert!(!child.iter().any(|(k, _)| k == "PR_BOT_TEST_SECRET"));
}

#[test]
fn process_group_signals_and_outcomes() {
    assert_eq!(group_kill_args("TERM", 4242), vec!["-s", "TERM", "--", "-4242"]);
    assert!(run_succeeded(RunOutcome::Exited { success: true }));
    assert!(!run_succeeded(RunOutcome::Exited { success: false }));
    assert!(!run_succeeded(RunOutcome::WaitFailed));
    assert!(!run_succeeded(RunOutcome::TimedOut));
}

#[test]
fn text_helpers() {
    assert_eq!(decimal_string(0), "0");
    assert_eq!(decimal_string(1209600), "1209600");
    assert_eq!(decimal_string(u128::MAX), "340282366920938463463374607431768211455");
    assert_eq!(replace_text("a/b/c", "/", "-"), "a-b-c");
    assert_eq!(replace_text("aaa", "aa", "b"), "ba");
}

#[test]
fn inherited_variables_are_chosen_by_name() {
    let names: Vec<String> = ["PR_BOT_TEST_SECRET", "PATH", "HOME", "GH_TOKEN", "PATH", "LANG"]
        .iter()
        .map(|n| n.to_string())
        .collect();
    assert_eq!(inherited_variables(&names), vec![2, 1, 5]);
    assert!(inherited_variables(&vec!["SECRET".to_string()]).is_empty());
    let forced = forced_environment();
    assert_eq!(forced.len(), 3);
    assert_eq!(forced[1], ("OPENCODE_DISABLE_AUTOUPDATE".to_string(), "true".to_string()));
}
