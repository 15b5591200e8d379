use pr_bot::config::Config;
use pr_bot::github::{
    api_listing_is_empty, assigned_issues_args, authorized_issues_args, authorized_prs_args,
    bot_issues_args, contains_mention, eyes_reaction_args, is_authorized, is_rate_limited,
    issue_with_repo, listing_is_empty, mentions_args, open_prs_args, pr_issue_comments_args,
    pr_mergeable_args, pr_review_comments_args, pr_reviews_args, pr_with_repo, repo_from_url,
    GhAuthor, GhIssue, GhPr,
};

fn config() -> Config {
    Config::with_defaults("bot".to_string(), "human".to_string())
}

#[test]
fn repo_from_github_urls() {
    assert_eq!(repo_from_url("https://github.com/owner/repo/issues/12"), "owner/repo");
    assert_eq!(repo_from_url("https://github.com/owner/repo"), "owner/repo");
    assert_eq!(repo_from_url("https://github.com/owner/repo/pull/3/files"), "owner/repo");
    assert_eq!(repo_from_url("https://github.com/owner"), "owner");
    assert_eq!(repo_from_url("https://github.com/"), "");
    assert_eq!(repo_from_url("owner/repo/x"), "owner/repo");
    assert_eq!(repo_from_url("http://example.com/a/b"), "http:/");
    assert_eq!(repo_from_url("plain"), "plain");
    assert_eq!(repo_from_url("a//b"), "a/");
}

#[test]
fn issues_and_prs_get_their_repository() {
    let issue = GhIssue {
        number: 4,
        title: "t".to_string(),
        body: "b".to_string(),
        url: "https://github.com/o/r/issues/4".to_string(),
        repo: String::new(),
        created_at: "2024".to_string(),
        author: None,
    };
    let issue = issue_with_repo(issue);
    assert_eq!(issue.repo, "o/r");
    assert_eq!(issue.number, 4);
    let pr = GhPr {
        number: 9,
        title: "p".to_string(),
        url: "https://github.com/o/r2/pull/9".to_string(),
        head_ref_oid: "abc".to_string(),
        repo: String::new(),
    };
    assert_eq!(pr_with_repo(pr).repo, "o/r2");
}

#[test]
fn only_the_authorized_user_is_authorized() {
    let c = config();
    let human = GhAuthor { login: "human".to_string() };
    let other = GhAuthor { login: "humans".to_string() };
    assert!(is_authorized(Some(&human), &c));
    assert!(!is_authorized(Some(&other), &c));
    assert!(!is_authorized(None, &c));
}

#[test]
fn mentions_are_whole_handles() {
    assert!(contains_mention("@bot please fix", "bot"));
    assert!(contains_mention("hey @bot", "bot"));
    assert!(contains_mention("hey @bot, thanks", "bot"));
    assert!(contains_mention("(@bot)", "bot"));
    assert!(contains_mention("@bot.", "bot"));
    assert!(!contains_mention("@botany", "bot"));
    assert!(!contains_mention("@bot-two", "bot"));
    assert!(!contains_mention("@bot_two", "bot"));
    assert!(!contains_mention("@bot2", "bot"));
    assert!(!contains_mention("@botä", "bot"));
    assert!(!contains_mention("bot without at", "bot"));
    assert!(!contains_mention("", "bot"));
    assert!(contains_mention("@botx and later @bot", "bot"));
    assert!(contains_mention("ünïcode @bot ✓", "bot"));
    assert!(contains_mention("@bot@bot", "bot"));
}

#[test]
fn listing_arguments() {
    let c = config();
    assert_eq!(
        assigned_issues_args(&c),
        vec![
            "issue", "list", "--assignee", "@bot", "--state", "open", "--search", "is:issue",
            "--json", "number,title,body,url,createdAt,author", "--limit", "30"
        ]
    );
    assert_eq!(bot_issues_args(&c)[2..4], ["--author".to_string(), "@bot".to_string()]);
    assert_eq!(authorized_issues_args(&c)[3], "@human");
    assert_eq!(
        open_prs_args(&c),
        vec![
            "pr", "list", "--author", "@bot", "--state", "open", "--json",
            "number,title,headRefOid,url", "--limit", "30"
        ]
    );
    assert_eq!(authorized_prs_args(&c)[3], "@human");
}

#[test]
fn api_arguments() {
    assert_eq!(
        pr_issue_comments_args("o/r", 12),
        vec!["api", "/repos/o/r/issues/12/comments", "--jq", "."]
    );
    assert_eq!(pr_review_comments_args("o/r", 7)[1], "/repos/o/r/pulls/7/comments");
    assert_eq!(pr_reviews_args("o/r", 0)[1], "/repos/o/r/pulls/0/reviews");
    assert_eq!(
        eyes_reaction_args("o/r", 5),
        vec![
            "api", "--method", "POST", "/repos/o/r/issues/5/reactions", "-f", "content=eyes",
            "--silent"
        ]
    );
    assert_eq!(
        pr_mergeable_args("o/r", 31),
        vec!["pr", "view", "31", "--repo", "o/r", "--json", "mergeable,mergeStateStatus"]
    );
    assert_eq!(
        mentions_args(&config()),
        vec![
            "api", "/search/issues", "--method", "GET", "-f", "q=mentions:@bot is:open", "-f",
            "sort=updated", "-f", "order=desc", "-f", "per_page=30", "--jq", ".items"
        ]
    );
}

#[test]
fn command_output_checks() {
    assert!(listing_is_empty(""));
    assert!(!listing_is_empty("[]"));
    assert!(api_listing_is_empty(""));
    assert!(api_listing_is_empty("[]"));
    assert!(!api_listing_is_empty("[ ]"));
    assert!(!api_listing_is_empty("[{}]"));
    assert!(is_rate_limited("API rate limit exceeded"));
    assert!(is_rate_limited("HTTP 429"));
    assert!(!is_rate_limited("HTTP 404: Not Found"));
}

#[test]
fn repositories_are_fixed_points_with_one_slash_at_most() {
    for url in [
        "https://github.com/owner/repo/issues/12",
        "https://github.com/owner",
        "http://example.com/a/b",
        "a//b",
        "https://github.com/https:/x",
        "plain",
    ] {
        let repo = repo_from_url(url);
        assert_eq!(repo_from_url(&repo), repo);
        assert!(repo.matches('/').count() <= 1);
    }
}

#[test]
fn mentions_survive_surrounding_text() {
    for (a, b) in [("@bot", "later"), ("x", "@bot!"), ("see @bot", "")] {
        assert!(contains_mention(a, "bot") || contains_mention(b, "bot"));
        assert!(contains_mention(&format!("prefix {a} {b}"), "bot"));
        assert!(contains_mention(&format!("{a}.{b}"), "bot"));
    }
}
