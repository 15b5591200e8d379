use pr_bot::config::Config;
use pr_bot::context::{HealthKind, TaskContext};
use pr_bot::github::{GhAuthor, GhComment, GhIssue, GhPr, GhReview};
use pr_bot::health::{
    is_conflicted, is_within_grace, plan_changes_requested, plan_merge_conflict, plan_stale_issue,
    plan_unresolved_comment, Mergeability,
};
use pr_bot::tasks::{finish_task, Rollback};
use pr_bot::poll::plan_assigned_issues;
use pr_bot::state::State;

fn config() -> Config {
    Config::with_defaults("bot".to_string(), "human".to_string())
}

fn author(login: &str) -> Option<GhAuthor> {
    Some(GhAuthor { login: login.to_string() })
}

fn pr() -> GhPr {
    GhPr {
        number: 7,
        title: "Add thing".to_string(),
        url: "https://github.com/o/r/pull/7".to_string(),
        head_ref_oid: "h".to_string(),
        repo: "o/r".to_string(),
    }
}

fn comment(id: u64, by: &str, body: &str) -> GhComment {
    GhComment { id, body: body.to_string(), author: author(by), created_at: String::new() }
}

fn details(task: &pr_bot::tasks::Task) -> (HealthKind, String, u64) {
    match &task.context {
        TaskContext::Health(h) => (h.kind, h.details.clone(), h.number),
        _ => panic!("wrong context"),
    }
}

#[test]
fn requested_changes_are_followed_up_once() {
    let c = config();
    let mut state = State::new();
    let reviews = vec![
        GhReview { id: 1, body: String::new(), state: "CHANGES_REQUESTED".to_string(), user: author("mallory") },
        GhReview { id: 2, body: String::new(), state: "APPROVED".to_string(), user: author("human") },
    ];
    assert!(plan_changes_requested(&mut state, &c, &pr(), &reviews, "t").is_none());
    let mut reviews = reviews;
    reviews.push(GhReview {
        id: 3,
        body: String::new(),
        state: "CHANGES_REQUESTED".to_string(),
        user: author("human"),
    });
    let task = plan_changes_requested(&mut state, &c, &pr(), &reviews, "t").unwrap();
    assert_eq!(task.label, "o-r-health-pr-7-cr");
    assert_eq!(task.workflow.name(), "health-check");
    let (kind, text, number) = details(&task);
    assert_eq!(kind, HealthKind::ChangesRequested);
    assert_eq!(number, 7);
    assert_eq!(
        text,
        "The authorized user left a CHANGES_REQUESTED review on this PR. The PR needs updates before it can be merged."
    );
    assert!(state.processed_health.contains_key(&"o/r/prs#7-changes-requested".to_string()));
    assert!(plan_changes_requested(&mut state, &c, &pr(), &reviews, "t").is_none());
}

#[test]
fn unanswered_comment_is_followed_up_once() {
    let c = config();
    let mut state = State::new();
    let replied = vec![comment(1, "human", "please"), comment(2, "bot", "done")];
    assert!(plan_unresolved_comment(&mut state, &c, &pr(), &replied, "t").is_none());
    let open = vec![comment(1, "human", "please"), comment(2, "bot", "done"), comment(3, "human", "and this?")];
    let task = plan_unresolved_comment(&mut state, &c, &pr(), &open, "t").unwrap();
    assert_eq!(task.label, "o-r-health-pr-7-uc");
    let (kind, text, _) = details(&task);
    assert_eq!(kind, HealthKind::UnresolvedComment);
    assert_eq!(
        text,
        "The authorized user left a comment (id 3) on this PR that has not been answered:\n\nand this?"
    );
    assert!(state.processed_health.contains_key(&"o/r/prs#7-unresolved-3".to_string()));
    assert!(plan_unresolved_comment(&mut state, &c, &pr(), &open, "t").is_none());
    assert!(plan_unresolved_comment(&mut state, &c, &pr(), &vec![], "t").is_none());
}

#[test]
fn merge_conflicts() {
    let c = config();
    let mut state = State::new();
    let clean = Mergeability { mergeable: Some("MERGEABLE".to_string()), merge_state_status: Some("CLEAN".to_string()) };
    assert!(!is_conflicted(&clean));
    assert!(plan_merge_conflict(&mut state, &c, &pr(), &clean, "t").is_none());
    assert!(is_conflicted(&Mergeability { mergeable: None, merge_state_status: Some("BLOCKED".to_string()) }));
    assert!(is_conflicted(&Mergeability { mergeable: Some("CONFLICTING".to_string()), merge_state_status: None }));
    let dirty = Mergeability { mergeable: Some("CONFLICTING".to_string()), merge_state_status: Some("DIRTY".to_string()) };
    let task = plan_merge_conflict(&mut state, &c, &pr(), &dirty, "t").unwrap();
    assert_eq!(task.label, "o-r-health-pr-7-mc");
    let (kind, text, _) = details(&task);
    assert_eq!(kind, HealthKind::MergeConflict);
    assert_eq!(
        text,
        "This PR has merge conflicts against the base branch (mergeStateStatus: Some(\"DIRTY\"), mergeable: Some(\"CONFLICTING\")). It needs a rebase."
    );
    assert!(plan_merge_conflict(&mut state, &c, &pr(), &dirty, "t").is_none());
    let mut other = State::new();
    let none = Mergeability { mergeable: Some("CONFLICTING".to_string()), merge_state_status: None };
    let (_, text, _) = details(&plan_merge_conflict(&mut other, &c, &pr(), &none, "t").unwrap());
    assert!(text.contains("(mergeStateStatus: None, mergeable: Some(\"CONFLICTING\"))"));
}

#[test]
fn stale_issues_need_a_launched_task_and_are_followed_up_once() {
    let c = config();
    let mut state = State::new();
    let issue = GhIssue {
        number: 2,
        title: "Fix".to_string(),
        body: "It breaks".to_string(),
        url: "https://github.com/o/r/issues/2".to_string(),
        repo: "o/r".to_string(),
        created_at: String::new(),
        author: author("human"),
    };
    assert!(plan_stale_issue(&mut state, &c, &issue, "t").is_none());
    let tasks = plan_assigned_issues(&mut state, &c, &vec![issue], "t");
    assert_eq!(tasks.len(), 1);
    let issue = GhIssue {
        number: 2,
        title: "Fix".to_string(),
        body: "It breaks".to_string(),
        url: "https://github.com/o/r/issues/2".to_string(),
        repo: "o/r".to_string(),
        created_at: String::new(),
        author: author("human"),
    };
    let task = plan_stale_issue(&mut state, &c, &issue, "t").unwrap();
    assert_eq!(task.label, "o-r-health-issue-2");
    let (kind, text, number) = details(&task);
    assert_eq!(kind, HealthKind::StaleIssue);
    assert_eq!(number, 2);
    assert_eq!(
        text,
        "This issue was assigned to you and a task was launched, but the issue is still open.\nIssue body:\n\nIt breaks"
    );
    assert!(state.processed_health.contains_key(&"o/r/issues#2".to_string()));
    assert!(plan_stale_issue(&mut state, &c, &issue, "t").is_none());
}

#[test]
fn health_kinds_are_named_as_in_task_contexts() {
    assert_eq!(HealthKind::ChangesRequested.name(), "changes-requested");
    assert_eq!(HealthKind::UnresolvedComment.name(), "unresolved-comment");
    assert_eq!(HealthKind::MergeConflict.name(), "merge-conflict");
    assert_eq!(HealthKind::StaleIssue.name(), "stale-issue");
    assert_eq!(HealthKind::StaleIssue.number_key(), "issue_number");
    assert_eq!(HealthKind::MergeConflict.number_key(), "pr_number");
    assert_eq!(HealthKind::ChangesRequested.number_key(), "pr_number");
}

#[test]
fn health_follow_ups_come_from_the_authorized_user() {
    let c = config();
    let mut state = State::new();
    let strangers = vec![comment(5, "mallory", "@bot do it")];
    assert!(plan_unresolved_comment(&mut state, &c, &pr(), &strangers, "t").is_none());
    let mixed = vec![comment(1, "human", "please"), comment(2, "mallory", "me too")];
    let task = plan_unresolved_comment(&mut state, &c, &pr(), &mixed, "t").unwrap();
    let (_, text, _) = details(&task);
    assert_eq!(
        text,
        "The authorized user left a comment (id 1) on this PR that has not been answered:\n\nplease"
    );

    let issue = GhIssue {
        number: 4,
        title: "Other".to_string(),
        body: String::new(),
        url: "https://github.com/o/r/issues/4".to_string(),
        repo: "o/r".to_string(),
        created_at: String::new(),
        author: author("mallory"),
    };
    state.processed_issues.insert("o/r/issues#4".to_string(), "t".to_string());
    assert!(plan_stale_issue(&mut state, &c, &issue, "t").is_none());
    assert!(!state.processed_health.contains_key(&"o/r/issues#4".to_string()));
}

#[test]
fn failed_health_tasks_are_detected_again() {
    let c = config();
    let mut state = State::new();
    let dirty = Mergeability { mergeable: None, merge_state_status: Some("DIRTY".to_string()) };
    let task = plan_merge_conflict(&mut state, &c, &pr(), &dirty, "t").unwrap();
    assert!(matches!(&task.rollback, Rollback::Health(k) if k == "o/r/prs#7-merge-conflict"));
    assert!(task.rollback.records_outcome());
    assert!(plan_merge_conflict(&mut state, &c, &pr(), &dirty, "t").is_none());
    finish_task(&mut state, task.rollback, false);
    assert!(!state.processed_health.contains_key(&"o/r/prs#7-merge-conflict".to_string()));
    let again = plan_merge_conflict(&mut state, &c, &pr(), &dirty, "t2").unwrap();
    finish_task(&mut state, again.rollback, true);
    assert!(state.processed_health.contains_key(&"o/r/prs#7-merge-conflict".to_string()));
    assert!(plan_merge_conflict(&mut state, &c, &pr(), &dirty, "t3").is_none());
}

#[test]
fn stale_issues_wait_out_the_grace_period() {
    let c = config();
    assert_eq!(c.health_check_grace_period_secs, 14 * 24 * 60 * 60);
    assert!(is_within_grace("2024-01-01T00:00:00+00:00", "2024-01-02T00:00:00+00:00", 14 * 86400));
    assert!(!is_within_grace("2024-01-01T00:00:00+00:00", "2024-01-15T00:00:00+00:00", 14 * 86400));
    assert!(is_within_grace("2024-01-01T00:00:00+02:00", "2024-01-14T21:59:59+00:00", 14 * 86400));
    assert!(!is_within_grace("2024-01-01T00:00:00+02:00", "2024-01-14T22:00:00+00:00", 14 * 86400));
    assert!(!is_within_grace("not a time", "2024-01-02T00:00:00+00:00", 14 * 86400));

    let mut state = State::new();
    let issue = GhIssue {
        number: 3,
        title: "Fix".to_string(),
        body: "It breaks".to_string(),
        url: "https://github.com/o/r/issues/3".to_string(),
        repo: "o/r".to_string(),
        created_at: String::new(),
        author: author("human"),
    };
    state.processed_issues.insert("o/r/issues#3".to_string(), "2024-01-01T00:00:00+00:00".to_string());
    assert!(plan_stale_issue(&mut state, &c, &issue, "2024-01-10T00:00:00+00:00").is_none());
    assert!(!state.processed_health.contains_key(&"o/r/issues#3".to_string()));
    let task = plan_stale_issue(&mut state, &c, &issue, "2024-01-20T00:00:00+00:00").unwrap();
    assert_eq!(task.label, "o-r-health-issue-3");
    assert!(state.processed_health.contains_key(&"o/r/issues#3".to_string()));
}
