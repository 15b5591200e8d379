use pr_bot::config::{Attribution, Config};
use pr_bot::context::{MentionSource, TaskContext, ThreadKind};
use pr_bot::github::{GhAuthor, GhComment, GhIssue, GhPr, GhReview, GhSearchItem};
use pr_bot::poll::{
    issue_thread, next_sleep, plan_assigned_issues, plan_comment_mentions, plan_issue_comments,
    plan_pr_feedback, plan_search_body, pr_thread, search_thread, after_sleep,
    MentionScan,
};
use pr_bot::state::State;
use pr_bot::tasks::{finish_task, Rollback, Workflow};

fn config() -> Config {
    let mut c = Config::with_defaults("bot".to_string(), "human".to_string());
    c.attribution = Attribution::with_defaults();
    c
}

fn author(login: &str) -> Option<GhAuthor> {
    Some(GhAuthor { login: login.to_string() })
}

fn issue(repo: &str, number: u64, by: &str) -> GhIssue {
    GhIssue {
        number,
        title: format!("title {number}"),
        body: format!("body {number}"),
        url: format!("https://github.com/{repo}/issues/{number}"),
        repo: repo.to_string(),
        created_at: "2024-01-01T00:00:00Z".to_string(),
        author: author(by),
    }
}

fn comment(id: u64, by: &str, body: &str) -> GhComment {
    GhComment {
        id,
        body: body.to_string(),
        author: author(by),
        created_at: "2024-01-01T00:00:00Z".to_string(),
    }
}

fn review(id: u64, by: &str, state: &str) -> GhReview {
    GhReview { id, body: format!("review {id}"), state: state.to_string(), user: author(by) }
}

fn pr(repo: &str, number: u64, head: &str) -> GhPr {
    GhPr {
        number,
        title: format!("pr {number}"),
        url: format!("https://github.com/{repo}/pull/{number}"),
        head_ref_oid: head.to_string(),
        repo: repo.to_string(),
    }
}

#[test]
fn assigned_issues_of_the_authorized_user_are_planned_once() {
    let c = config();
    let mut state = State::new();
    let issues = vec![issue("o/r", 1, "human"), issue("o/r", 2, "mallory"), issue("o/r", 3, "human")];
    let tasks = plan_assigned_issues(&mut state, &c, &issues, "t1");
    assert_eq!(tasks.len(), 2);
    assert_eq!(tasks[0].label, "o/r-issue-1");
    assert_eq!(tasks[1].label, "o/r-issue-3");
    assert_eq!(tasks[0].workflow, Workflow::NewIssue);
    assert_eq!(tasks[0].workflow.name(), "new-issue");
    match &tasks[0].context {
        TaskContext::NewIssue(ctx) => {
            assert_eq!(ctx.repo, "o/r");
            assert_eq!(ctx.issue_number, 1);
            assert_eq!(ctx.title, "title 1");
            assert_eq!(ctx.body, "body 1");
            assert_eq!(ctx.author.as_deref(), Some("human"));
            assert_eq!(ctx.bot_username, "bot");
            assert!(ctx.attribution.enabled);
            assert!(ctx.attribution.signature.contains("@human"));
        }
        _ => panic!("wrong context"),
    }
    let reaction = tasks[0].reaction.as_ref().unwrap();
    assert_eq!((reaction.repo.as_str(), reaction.number), ("o/r", 1));
    assert!(state.processed_issues.contains_key(&"o/r/issues#1".to_string()));
    assert!(state.processed_issues.contains_key(&"o/r/issues#3".to_string()));
    assert!(!state.processed_issues.contains_key(&"o/r/issues#2".to_string()));
    assert_eq!(state.processed_issues.get(&"o/r/issues#1".to_string()).unwrap(), "t1");

    let again = plan_assigned_issues(&mut state, &c, &issues, "t2");
    assert!(again.is_empty());
}

#[test]
fn failed_issue_task_is_planned_again() {
    let c = config();
    let mut state = State::new();
    let issues = vec![issue("o/r", 1, "human")];
    let mut tasks = plan_assigned_issues(&mut state, &c, &issues, "t1");
    let task = tasks.remove(0);
    assert!(task.rollback.records_outcome());
    finish_task(&mut state, task.rollback, false);
    assert!(!state.processed_issues.contains_key(&"o/r/issues#1".to_string()));
    let retried = plan_assigned_issues(&mut state, &c, &issues, "t2");
    assert_eq!(retried.len(), 1);
    finish_task(&mut state, Rollback::Issue("o/r/issues#1".to_string()), true);
    assert!(state.processed_issues.contains_key(&"o/r/issues#1".to_string()));
}

#[test]
fn duplicate_listing_entries_are_both_planned() {
    let c = config();
    let mut state = State::new();
    let issues = vec![issue("o/r", 1, "human"), issue("o/r", 1, "human")];
    let tasks = plan_assigned_issues(&mut state, &c, &issues, "t1");
    assert_eq!(tasks.len(), 2);
    assert_eq!(state.processed_issues.len(), 1);
}

#[test]
fn issue_comments_after_the_cursor() {
    let c = config();
    let mut state = State::new();
    let bot_issue = issue("o/r", 8, "bot");
    let comments = vec![
        comment(10, "human", "first"),
        comment(11, "mallory", "not me"),
        comment(12, "human", "second"),
    ];
    let task = plan_issue_comments(&mut state, &c, &bot_issue, &comments, "t1").unwrap();
    assert_eq!(task.label, "o/r-issue-comment-8");
    assert_eq!(task.workflow, Workflow::Mention);
    assert!(task.reaction.is_none());
    assert!(!task.rollback.records_outcome());
    match &task.context {
        TaskContext::IssueComments(ctx) => {
            assert_eq!(ctx.body, "second");
            assert_eq!(ctx.comments.len(), 2);
            assert_eq!(ctx.comments[0].body, "first");
            assert_eq!(ctx.comments[1].author.as_deref(), Some("human"));
            assert_eq!(ctx.url, "https://github.com/o/r/issues/8");
            assert_eq!(ctx.author.as_deref(), Some("bot"));
        }
        _ => panic!("wrong context"),
    }
    let cursor = state.issue_cursors.get(&"o/r/issues#8".to_string()).unwrap();
    assert_eq!(cursor.last_comment_id, 12);
    assert_eq!(cursor.last_updated, "t1");
    assert!(plan_issue_comments(&mut state, &c, &bot_issue, &comments, "t2").is_none());

    let more = vec![comment(12, "human", "second"), comment(13, "human", "third")];
    let task = plan_issue_comments(&mut state, &c, &bot_issue, &more, "t3").unwrap();
    match &task.context {
        TaskContext::IssueComments(ctx) => assert_eq!(ctx.comments.len(), 1),
        _ => panic!("wrong context"),
    }
    assert_eq!(state.issue_cursors.get(&"o/r/issues#8".to_string()).unwrap().last_comment_id, 13);
}

#[test]
fn pr_feedback_moves_the_cursor_and_rolls_back() {
    let c = config();
    let mut state = State::new();
    let p = pr("o/r", 5, "sha1");
    let ic = vec![comment(100, "human", "fix this"), comment(90, "mallory", "spam")];
    let rc = vec![comment(120, "human", "nit")];
    let rv = vec![review(7, "human", "CHANGES_REQUESTED"), review(8, "mallory", "APPROVED")];
    let task = plan_pr_feedback(&mut state, &c, &p, &ic, &rc, &rv, "t1").unwrap();
    assert_eq!(task.label, "o/r-pr-5");
    assert_eq!(task.workflow.name(), "pr-feedback");
    match &task.context {
        TaskContext::PrFeedback(ctx) => {
            assert_eq!(ctx.comments.len(), 1);
            assert_eq!(ctx.review_comments.len(), 1);
            assert_eq!(ctx.reviews.len(), 1);
            assert_eq!(ctx.reviews[0].state, "CHANGES_REQUESTED");
            assert_eq!(ctx.pr_number, 5);
        }
        _ => panic!("wrong context"),
    }
    let cursor = state.pr_cursors.get(&"o/r/prs#5".to_string()).unwrap();
    assert_eq!(cursor.last_head_sha, "sha1");
    assert_eq!(cursor.last_comment_id, 120);
    assert_eq!(cursor.last_review_id, 7);
    assert!(plan_pr_feedback(&mut state, &c, &p, &ic, &rc, &rv, "t2").is_none());

    finish_task(&mut state, task.rollback, false);
    assert!(state.pr_cursors.get(&"o/r/prs#5".to_string()).is_none());
    assert!(plan_pr_feedback(&mut state, &c, &p, &ic, &rc, &rv, "t3").is_some());
}

#[test]
fn pr_feedback_after_a_reply_needs_no_new_push() {
    let c = config();
    let mut state = State::new();
    let p = pr("o/r", 6, "sha1");
    let first = vec![comment(10, "human", "why?")];
    assert!(plan_pr_feedback(&mut state, &c, &p, &first, &vec![], &vec![], "t1").is_some());
    // Same head: the bot only replied. New feedback is still planned.
    let later = vec![comment(10, "human", "why?"), comment(11, "human", "and this?")];
    let task = plan_pr_feedback(&mut state, &c, &p, &later, &vec![], &vec![], "t2").unwrap();
    match &task.context {
        TaskContext::PrFeedback(ctx) => {
            assert_eq!(ctx.comments.len(), 1);
            assert_eq!(ctx.comments[0].body, "and this?");
        }
        _ => panic!("wrong context"),
    }
    let review_only = vec![review(3, "human", "COMMENTED")];
    assert!(plan_pr_feedback(&mut state, &c, &p, &later, &vec![], &review_only, "t3").is_some());
}

#[test]
fn pr_feedback_without_new_authorized_feedback_plans_nothing() {
    let c = config();
    let mut state = State::new();
    let p = pr("o/r", 5, "sha1");
    let ic = vec![comment(1, "mallory", "x")];
    assert!(plan_pr_feedback(&mut state, &c, &p, &ic, &vec![], &vec![], "t").is_none());
    assert_eq!(state.pr_cursors.len(), 0);
}

#[test]
fn failed_pr_feedback_restores_the_previous_cursor() {
    let c = config();
    let mut state = State::new();
    let first = plan_pr_feedback(
        &mut state,
        &c,
        &pr("o/r", 5, "sha1"),
        &vec![comment(10, "human", "a")],
        &vec![],
        &vec![],
        "t1",
    )
    .unwrap();
    finish_task(&mut state, first.rollback, true);
    let second = plan_pr_feedback(
        &mut state,
        &c,
        &pr("o/r", 5, "sha2"),
        &vec![comment(10, "human", "a"), comment(11, "human", "b")],
        &vec![],
        &vec![],
        "t2",
    )
    .unwrap();
    assert_eq!(state.pr_cursors.get(&"o/r/prs#5".to_string()).unwrap().last_comment_id, 11);
    finish_task(&mut state, second.rollback, false);
    let restored = state.pr_cursors.get(&"o/r/prs#5".to_string()).unwrap();
    assert_eq!(restored.last_head_sha, "sha1");
    assert_eq!(restored.last_comment_id, 10);
}

#[test]
fn mentions_in_authored_threads() {
    let c = config();
    let mut state = State::new();
    let thread = issue_thread(&issue("o/r", 3, "human"));
    let comments = vec![
        comment(1, "human", "@bot look"),
        comment(2, "mallory", "@bot look"),
        comment(3, "human", "no mention @botany"),
        comment(1, "human", "@bot duplicate id"),
    ];
    let tasks = plan_comment_mentions(&mut state, &c, &thread, MentionScan::AuthoredThread, &comments, "t");
    assert_eq!(tasks.len(), 1);
    assert_eq!(tasks[0].label, "o/r-auth-issue-3-comment-1");
    assert!(tasks[0].reaction.is_some());
    assert!(!tasks[0].rollback.records_outcome());
    match &tasks[0].context {
        TaskContext::Mention(m) => {
            assert_eq!(m.source, MentionSource::Comment);
            assert_eq!(m.kind, ThreadKind::Issue);
            assert_eq!(m.body, "@bot look");
            assert_eq!(m.url, "https://github.com/o/r/issues/3");
        }
        _ => panic!("wrong context"),
    }
    assert!(state.processed_mentions.contains_key(&"o/r#3#comment-1".to_string()));

    let pr_thread = pr_thread(&pr("o/r", 4, "h"));
    assert_eq!(pr_thread.url, "https://github.com/o/r/pull/4");
    let tasks = plan_comment_mentions(
        &mut state,
        &c,
        &pr_thread,
        MentionScan::AuthoredThread,
        &vec![comment(9, "human", "@bot")],
        "t",
    );
    assert_eq!(tasks[0].label, "o/r-auth-pr-4-comment-9");
}

#[test]
fn search_mentions_share_keys_with_thread_scans() {
    let c = config();
    let mut state = State::new();
    let item = GhSearchItem {
        number: 3,
        title: "t".to_string(),
        body: Some("hi @bot".to_string()),
        html_url: "https://github.com/o/r/pull/3".to_string(),
        user: author("human"),
        is_pull_request: true,
    };
    let body_task = plan_search_body(&mut state, &c, &item, "t1").unwrap();
    assert_eq!(body_task.label, "o/r-pullrequest-3-body");
    assert!(body_task.reaction.is_some());
    match &body_task.context {
        TaskContext::Mention(m) => {
            assert_eq!(m.source, MentionSource::Body);
            assert_eq!(m.kind, ThreadKind::PullRequest);
            assert_eq!(m.body, "hi @bot");
            assert_eq!(m.url, "https://github.com/o/r/pull/3");
        }
        _ => panic!("wrong context"),
    }
    assert!(plan_search_body(&mut state, &c, &item, "t2").is_none());

    let thread = search_thread(&item);
    assert_eq!(thread.repo, "o/r");
    let authored = issue_thread(&issue("o/r", 3, "human"));
    let first = plan_comment_mentions(
        &mut state,
        &c,
        &authored,
        MentionScan::AuthoredThread,
        &vec![comment(5, "human", "@bot x")],
        "t",
    );
    assert_eq!(first.len(), 1);
    let again = plan_comment_mentions(
        &mut state,
        &c,
        &thread,
        MentionScan::Search,
        &vec![comment(5, "human", "@bot x"), comment(6, "human", "@bot y")],
        "t",
    );
    assert_eq!(again.len(), 1);
    assert_eq!(again[0].label, "o/r-pullrequest-3-comment-6");
    assert!(again[0].reaction.is_none());

    let mut again = again;
    finish_task(&mut state, again.remove(0).rollback, false);
    assert!(!state.processed_mentions.contains_key(&"o/r#3#comment-6".to_string()));
    finish_task(&mut state, body_task.rollback, false);
    assert!(!state.processed_mentions.contains_key(&"o/r#3#body".to_string()));
}

#[test]
fn search_body_needs_the_authorized_author_and_a_body() {
    let c = config();
    let mut state = State::new();
    let mut item = GhSearchItem {
        number: 1,
        title: "t".to_string(),
        body: None,
        html_url: "https://github.com/o/r/issues/1".to_string(),
        user: author("human"),
        is_pull_request: false,
    };
    assert!(plan_search_body(&mut state, &c, &item, "t").is_none());
    item.body = Some("@bot".to_string());
    item.user = author("mallory");
    assert!(plan_search_body(&mut state, &c, &item, "t").is_none());
    item.user = author("human");
    let task = plan_search_body(&mut state, &c, &item, "t").unwrap();
    assert_eq!(task.label, "o/r-issue-1-body");
}

#[test]
fn sleeps_fill_the_poll_interval() {
    let mut c = config();
    c.poll_interval_secs = 150;
    c.health_check_interval_secs = 60;
    assert_eq!(next_sleep(&c, 0), 60);
    assert_eq!(next_sleep(&c, 60), 60);
    assert_eq!(next_sleep(&c, 120), 30);
}

#[test]
fn health_checks_run_until_the_poll_interval_is_used_up() {
    let mut c = config();
    c.poll_interval_secs = 150;
    c.health_check_interval_secs = 60;
    assert_eq!(after_sleep(&c, 0, 60), Some(60));
    assert_eq!(after_sleep(&c, 60, 60), Some(120));
    assert_eq!(after_sleep(&c, 120, 30), None);
    c.health_check_interval_secs = 300;
    assert_eq!(after_sleep(&c, 0, 150), None);
}

#[test]
fn thread_kinds_and_mention_sources_are_named_as_in_task_contexts() {
    assert_eq!(ThreadKind::Issue.name(), "Issue");
    assert_eq!(ThreadKind::PullRequest.name(), "PullRequest");
    assert_eq!(MentionSource::Body.name(), "body");
    assert_eq!(MentionSource::Comment.name(), "comment");
}
