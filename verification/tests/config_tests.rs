use pr_bot::config::{
    default_attribution_enabled, default_attribution_text, default_gh,
    default_health_check_grace_period, default_health_check_interval, default_max_concurrent,
    default_opencode, default_poll_interval, default_task_timeout, default_true, join_paths,
    path_under_or_tmp, Attribution, Config,
};

fn config_from_toml(text: &str) -> Config {
    let table: toml::Table = toml::from_str(text).unwrap();
    Config::with_defaults(
        table["bot_username"].as_str().unwrap().to_string(),
        table["authorized_user"].as_str().unwrap().to_string(),
    )
}

#[test]
fn health_check_grace_period_defaults_to_fourteen_days() {
    let config = config_from_toml(
        r#"
                bot_username = "bot"
                authorized_user = "human"
            "#,
    );

    assert_eq!(config.health_check_grace_period_secs, 14 * 24 * 60 * 60);
}

#[test]
fn minimal_config_takes_every_default() {
    let config = config_from_toml("bot_username = \"bot\"\nauthorized_user = \"human\"\n");
    assert_eq!(config.bot_username, "bot");
    assert_eq!(config.authorized_user, "human");
    assert_eq!(config.max_concurrent, 3);
    assert_eq!(config.opencode_bin, "opencode");
    assert_eq!(config.gh_bin, "gh");
    assert_eq!(config.poll_interval_secs, 300);
    assert_eq!(config.health_check_interval_secs, 60);
    assert_eq!(config.task_timeout_secs, 1800);
    assert!(config.poll_mentions);
    assert!(config.model.is_none());
    assert!(!config.attribution.enabled);
    assert_eq!(config.attribution.text, "");
    assert!(config.workflows_dir.ends_with("pr-bot/workflows"));
    assert!(config.cache_dir.ends_with("pr-bot"));
    assert!(config.state_file.ends_with("pr-bot/state.json"));
}

#[test]
fn default_values() {
    assert!(default_attribution_enabled());
    assert!(default_true());
    assert_eq!(default_max_concurrent(), 3);
    assert_eq!(default_opencode(), "opencode");
    assert_eq!(default_gh(), "gh");
    assert_eq!(default_poll_interval(), 300);
    assert_eq!(default_health_check_interval(), 60);
    assert_eq!(default_health_check_grace_period(), 1_209_600);
    assert_eq!(default_task_timeout(), 1800);
    assert_eq!(
        default_attribution_text(),
        "---\n*Authored by @{author}. Powered by [PR bot](https://github.com/johnsaigle/pr-bot)*"
    );
}

#[test]
fn signature_names_the_authorized_user() {
    let attribution = Attribution::with_defaults();
    assert!(attribution.enabled);
    assert_eq!(
        attribution.signature("alice"),
        "---\n*Authored by @alice. Powered by [PR bot](https://github.com/johnsaigle/pr-bot)*"
    );
    let twice = Attribution { enabled: true, text: "{author} and {author}{author".to_string() };
    assert_eq!(twice.signature("bob"), "bob and bob{author");
    let none = Attribution { enabled: true, text: "plain".to_string() };
    assert_eq!(none.signature("bob"), "plain");
}

#[test]
fn attribution_context_carries_the_signature() {
    let mut config = Config::with_defaults("bot".to_string(), "human".to_string());
    config.attribution = Attribution::with_defaults();
    let ctx = config.attribution_context();
    assert!(ctx.enabled);
    assert!(ctx.signature.contains("@human."));
    let absent = Attribution::default();
    assert!(!absent.enabled);
    assert_eq!(absent.text, "");
}

#[test]
fn paths_are_joined_as_on_unix() {
    assert_eq!(join_paths("/home/u/.config", "pr-bot/workflows"), "/home/u/.config/pr-bot/workflows");
    assert_eq!(join_paths("/home/u/.config/", "pr-bot"), "/home/u/.config/pr-bot");
    assert_eq!(join_paths("", "pr-bot"), "pr-bot");
    assert_eq!(join_paths("/base", "/abs"), "/abs");
    assert_eq!(path_under_or_tmp(None, "pr-bot/state.json"), "/tmp/pr-bot/state.json");
    assert_eq!(path_under_or_tmp(Some("/c".to_string()), "pr-bot"), "/c/pr-bot");
}
