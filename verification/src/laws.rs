//! What holds of the bot across calls: events are handled once, a failed
//! task is handled again, cursors only move forward, every task comes from
//! the authorized user, recent work waits out the grace period, and the
//! agent's environment and directories stay within bounds.
use vstd::prelude::*;
use vstd::string::*;

use crate::agent::{
    env_allowlist, env_lookup, forced_env, inherited_env, label_char, spec_child_environment,
    spec_sanitize_label, spec_task_dir_name,
};
use crate::config::Config;
use crate::context::TaskContext;
use crate::github::{
    github_prefix, spec_is_authorized, spec_repo_from_url, strip_github_prefix, GhComment, GhIssue,
    GhPr, GhReview, GhSearchItem,
};
use crate::text::{
    decimal, digit_char, index_of_char, lemma_index_of_char, occurs_at, starts_with_seq,
};
use crate::poll::{
    comment_qualifies, fresh_comments, issue_cursor_id, is_fresh_comment, is_new_issue,
    key_of_issue, lemma_max_comment_id_append, lemma_max_comment_id_bounds, max_comment_id,
    max_review_id, mention_selection, new_issues, planned_assigned_issues,
    planned_comment_mentions, planned_issue_comments, planned_pr_feedback, planned_search_body,
    pr_cursor_of, search_body_key, thread_comment_key, MentionScan, Thread,
};
use crate::health::{
    planned_changes_requested, planned_merge_conflict, planned_stale_issue,
    planned_unresolved_comment, Mergeability,
};
use crate::state::State;
use crate::tasks::{pr_key, recorded, state_after_finish, Rollback, Task};

verus! {

/// No element of `s` passes `pred`: the filter is empty.
pub proof fn lemma_filter_none<A>(s: Seq<A>, pred: spec_fn(A) -> bool)
    requires
        forall|k: int| 0 <= k < s.len() ==> !pred(#[trigger] s[k]),
    ensures
        s.filter(pred).len() == 0,
{
    if s.filter(pred).len() > 0 {
        let e = s.filter(pred)[0];
        s.lemma_filter_pred(pred, 0);
        assert(s.filter(pred).contains(e));
        s.lemma_filter_contains_rev(pred, e);
        let k = choose|k: int| 0 <= k < s.len() && s[k] == e;
        assert(!pred(s[k]));
    }
}

/// An element that passes `pred` is kept by the filter, and its image under
/// `f` is among the images of the kept elements.
pub proof fn lemma_filter_keeps<A, B>(s: Seq<A>, pred: spec_fn(A) -> bool, f: spec_fn(A) -> B, k: int)
    requires
        0 <= k < s.len(),
        pred(s[k]),
    ensures
        s.filter(pred).contains(s[k]),
        s.filter(pred).map_values(f).contains(f(s[k])),
{
    s.lemma_filter_contains(pred, k);
    let fs = s.filter(pred);
    let j = choose|j: int| 0 <= j < fs.len() && fs[j] == s[k];
    assert(fs.map_values(f)[j] == f(s[k]));
}

/// An assigned issue is acted on once: after the assigned issues were
/// planned, none of them is new any more, and planning the same listing
/// again (with no failed task undone in between) gives no task.
pub proof fn law_assigned_issues_once(
    s0: State,
    s1: State,
    s2: State,
    config: Config,
    issues: Seq<GhIssue>,
    now1: Seq<char>,
    now2: Seq<char>,
    first: Seq<crate::tasks::Task>,
    second: Seq<crate::tasks::Task>,
)
    requires
        planned_assigned_issues(s0, s1, config, issues, now1, first),
        planned_assigned_issues(s1, s2, config, issues, now2, second),
    ensures
        forall|k: int|
            0 <= k < issues.len() ==> !is_new_issue(
                s1.processed_issues@,
                #[trigger] issues[k],
                config.authorized_user@,
            ),
        second.len() == 0,
{
    let user = config.authorized_user@;
    let pred0 = |i: GhIssue| is_new_issue(s0.processed_issues@, i, user);
    let keyf = |i: GhIssue| key_of_issue(i);
    assert forall|k: int|
        0 <= k < issues.len() implies !is_new_issue(
        s1.processed_issues@,
        #[trigger] issues[k],
        user,
    ) by {
        let key = key_of_issue(issues[k]);
        if spec_is_authorized(issues[k].author, user) {
            if !s0.processed_issues@.contains_key(key) {
                assert(pred0(issues[k]));
                lemma_filter_keeps(issues, pred0, keyf, k);
                assert(issues.filter(pred0).map_values(keyf).contains(key));
            }
            assert(s1.processed_issues@.contains_key(key));
        }
    }
    let pred1 = |i: GhIssue| is_new_issue(s1.processed_issues@, i, user);
    assert forall|k: int| 0 <= k < issues.len() implies !pred1(#[trigger] issues[k]) by {}
    lemma_filter_none(issues, pred1);
    assert(new_issues(s1.processed_issues@, issues, user) == issues.filter(pred1));
}

/// A failed task for an assigned issue undoes its record: the issue is new
/// again and is acted on at the next poll.
pub proof fn law_failed_issue_task_is_retried(
    s0: State,
    s1: State,
    s2: State,
    config: Config,
    issues: Seq<GhIssue>,
    now: Seq<char>,
    tasks: Seq<Task>,
    k: int,
)
    requires
        planned_assigned_issues(s0, s1, config, issues, now, tasks),
        0 <= k < tasks.len(),
        state_after_finish(s1, s2, tasks[k].rollback, false),
    ensures
        is_new_issue(
            s2.processed_issues@,
            new_issues(s0.processed_issues@, issues, config.authorized_user@)[k],
            config.authorized_user@,
        ),
{
    let user = config.authorized_user@;
    let pred0 = |i: GhIssue| is_new_issue(s0.processed_issues@, i, user);
    issues.lemma_filter_pred(pred0, k);
    assert(new_issues(s0.processed_issues@, issues, user) == issues.filter(pred0));
}

/// Every task for an assigned issue is for an issue the authorized user
/// opened.
pub proof fn law_issue_tasks_come_from_authorized_user(
    s0: State,
    s1: State,
    config: Config,
    issues: Seq<GhIssue>,
    now: Seq<char>,
    tasks: Seq<Task>,
)
    requires
        planned_assigned_issues(s0, s1, config, issues, now, tasks),
    ensures
        forall|k: int|
            0 <= k < tasks.len() ==> ((#[trigger] tasks[k]).context matches TaskContext::NewIssue(c)
                && (c.author matches Some(a) && a@ == config.authorized_user@)),
{
    let user = config.authorized_user@;
    let pred0 = |i: GhIssue| is_new_issue(s0.processed_issues@, i, user);
    assert(new_issues(s0.processed_issues@, issues, user) == issues.filter(pred0));
    assert forall|k: int| 0 <= k < tasks.len() implies ((#[trigger] tasks[k]).context matches TaskContext::NewIssue(
        c,
    ) && (c.author matches Some(a) && a@ == user)) by {
        issues.lemma_filter_pred(pred0, k);
    }
}

// ─── Mentions ─────────────────────────────────────────

/// The keys of the comments a scan selected.
pub open spec fn selected_keys(
    handled: Map<Seq<char>, String>,
    thread: Thread,
    cs: Seq<GhComment>,
    bot: Seq<char>,
    user: Seq<char>,
) -> Seq<Seq<char>> {
    mention_selection(handled, thread, cs, bot, user).map_values(
        |p: GhComment| thread_comment_key(thread, p),
    )
}

/// Every qualifying comment of a scan is handled before or selected by it,
/// and every selected comment qualifies.
pub proof fn lemma_selection_covers(
    handled: Map<Seq<char>, String>,
    thread: Thread,
    cs: Seq<GhComment>,
    bot: Seq<char>,
    user: Seq<char>,
)
    ensures
        forall|k: int|
            0 <= k < cs.len() && comment_qualifies(#[trigger] cs[k], bot, user) ==> handled.contains_key(
                thread_comment_key(thread, cs[k]),
            ) || selected_keys(handled, thread, cs, bot, user).contains(
                thread_comment_key(thread, cs[k]),
            ),
        forall|k: int|
            0 <= k < mention_selection(handled, thread, cs, bot, user).len() ==> comment_qualifies(
                #[trigger] mention_selection(handled, thread, cs, bot, user)[k],
                bot,
                user,
            ),
    decreases cs.len(),
{
    if cs.len() > 0 {
        let prefix = cs.drop_last();
        lemma_selection_covers(handled, thread, prefix, bot, user);
        let prev = mention_selection(handled, thread, prefix, bot, user);
        let sel = mention_selection(handled, thread, cs, bot, user);
        let keyf = |p: GhComment| thread_comment_key(thread, p);
        let c = cs.last();
        if sel != prev {
            assert(sel == prev.push(c));
            crate::tasks::lemma_map_push(prev, c, keyf);
            assert(sel.map_values(keyf)[prev.len() as int] == keyf(c));
        }
        assert forall|k: int|
            0 <= k < cs.len() && comment_qualifies(#[trigger] cs[k], bot, user) implies handled.contains_key(
            thread_comment_key(thread, cs[k]),
        ) || selected_keys(handled, thread, cs, bot, user).contains(
            thread_comment_key(thread, cs[k]),
        ) by {
            let key = thread_comment_key(thread, cs[k]);
            if k < cs.len() - 1 {
                assert(prefix[k] == cs[k]);
                if !handled.contains_key(key) {
                    assert(prev.map_values(keyf).contains(key));
                    let j = choose|j: int|
                        0 <= j < prev.map_values(keyf).len() && prev.map_values(keyf)[j] == key;
                    if sel != prev {
                        assert(sel.map_values(keyf)[j] == key);
                    }
                }
            } else {
                if !handled.contains_key(key) && !prev.map_values(keyf).contains(key) {
                    assert(sel == prev.push(c));
                } else if !handled.contains_key(key) {
                    let j = choose|j: int|
                        0 <= j < prev.map_values(keyf).len() && prev.map_values(keyf)[j] == key;
                    if sel != prev {
                        assert(sel.map_values(keyf)[j] == key);
                    }
                }
            }
        }
        assert forall|k: int| 0 <= k < sel.len() implies comment_qualifies(#[trigger] sel[k], bot, user) by {
            if k < prev.len() {
                assert(sel[k] == prev[k]);
            }
        }
    }
}

/// A scan in which every qualifying comment is already handled selects
/// nothing.
pub proof fn lemma_selection_empty(
    handled: Map<Seq<char>, String>,
    thread: Thread,
    cs: Seq<GhComment>,
    bot: Seq<char>,
    user: Seq<char>,
)
    requires
        forall|k: int|
            0 <= k < cs.len() && comment_qualifies(#[trigger] cs[k], bot, user) ==> handled.contains_key(
                thread_comment_key(thread, cs[k]),
            ),
    ensures
        mention_selection(handled, thread, cs, bot, user).len() == 0,
    decreases cs.len(),
{
    if cs.len() > 0 {
        let prefix = cs.drop_last();
        assert forall|k: int|
            0 <= k < prefix.len() && comment_qualifies(#[trigger] prefix[k], bot, user) implies handled.contains_key(
            thread_comment_key(thread, prefix[k]),
        ) by {
            assert(prefix[k] == cs[k]);
        }
        lemma_selection_empty(handled, thread, prefix, bot, user);
        assert(cs.last() == cs[cs.len() - 1]);
    }
}

/// A mention in a comment is acted on once: scanning the same comments again
/// (with no failed task undone in between) gives no task, whether the thread
/// is scanned as the authorized user's thread or as a search result.
pub proof fn law_comment_mentions_once(
    s0: State,
    s1: State,
    s2: State,
    config: Config,
    thread: Thread,
    scan1: MentionScan,
    scan2: MentionScan,
    comments: Seq<GhComment>,
    now1: Seq<char>,
    now2: Seq<char>,
    first: Seq<Task>,
    second: Seq<Task>,
)
    requires
        planned_comment_mentions(s0, s1, config, thread, scan1, comments, now1, first),
        planned_comment_mentions(s1, s2, config, thread, scan2, comments, now2, second),
    ensures
        second.len() == 0,
{
    let bot = config.bot_username@;
    let user = config.authorized_user@;
    lemma_selection_covers(s0.processed_mentions@, thread, comments, bot, user);
    assert forall|k: int|
        0 <= k < comments.len() && comment_qualifies(#[trigger] comments[k], bot, user) implies s1.processed_mentions@.contains_key(
        thread_comment_key(thread, comments[k]),
    ) by {}
    lemma_selection_empty(s1.processed_mentions@, thread, comments, bot, user);
}

/// Every mention task of a scan is for a comment of the authorized user
/// that mentions the bot.
pub proof fn law_mention_tasks_come_from_authorized_user(
    s0: State,
    s1: State,
    config: Config,
    thread: Thread,
    scan: MentionScan,
    comments: Seq<GhComment>,
    now: Seq<char>,
    tasks: Seq<Task>,
)
    requires
        planned_comment_mentions(s0, s1, config, thread, scan, comments, now, tasks),
    ensures
        forall|k: int|
            0 <= k < tasks.len() ==> ((#[trigger] tasks[k]).context matches TaskContext::Mention(m)
                && crate::github::spec_contains_mention(m.body@, config.bot_username@)
                && (m.author matches Some(a) && a@ == config.authorized_user@)),
{
    lemma_selection_covers(
        s0.processed_mentions@,
        thread,
        comments,
        config.bot_username@,
        config.authorized_user@,
    );
}

/// Every comment the scan selects is one of the scanned comments, and its key
/// was not handled before.
proof fn lemma_selection_unhandled(
    handled: Map<Seq<char>, String>,
    thread: Thread,
    cs: Seq<GhComment>,
    bot: Seq<char>,
    user: Seq<char>,
)
    ensures
        forall|j: int|
            0 <= j < mention_selection(handled, thread, cs, bot, user).len() ==> {
                &&& cs.contains(#[trigger] mention_selection(handled, thread, cs, bot, user)[j])
                &&& !handled.contains_key(
                    thread_comment_key(thread, mention_selection(handled, thread, cs, bot, user)[j]),
                )
            },
    decreases cs.len(),
{
    if cs.len() > 0 {
        let prefix = cs.drop_last();
        lemma_selection_unhandled(handled, thread, prefix, bot, user);
        let prev = mention_selection(handled, thread, prefix, bot, user);
        let sel = mention_selection(handled, thread, cs, bot, user);
        assert forall|j: int| 0 <= j < sel.len() implies {
            &&& cs.contains(#[trigger] sel[j])
            &&& !handled.contains_key(thread_comment_key(thread, sel[j]))
        } by {
            if j < prev.len() {
                assert(sel[j] == prev[j]);
                assert(prefix.contains(prev[j]));
                let i = choose|i: int| 0 <= i < prefix.len() && prefix[i] == prev[j];
                assert(cs[i] == prefix[i]);
            } else {
                assert(sel[j] == cs.last());
                assert(cs[cs.len() - 1] == cs.last());
            }
        }
    }
}

/// An issue recorded as handled is never planned again, whatever the
/// listing: every task is for an issue whose key was not recorded.
pub proof fn law_recorded_issue_is_not_planned(
    s0: State,
    s1: State,
    config: Config,
    issues: Seq<GhIssue>,
    now: Seq<char>,
    tasks: Seq<Task>,
)
    requires
        planned_assigned_issues(s0, s1, config, issues, now, tasks),
    ensures
        forall|j: int|
            0 <= j < tasks.len() ==> ((#[trigger] tasks[j]).context matches TaskContext::NewIssue(c)
                && !s0.processed_issues@.contains_key(crate::tasks::issue_key(c.repo@, c.issue_number))),
{
    let user = config.authorized_user@;
    let pred0 = |i: GhIssue| is_new_issue(s0.processed_issues@, i, user);
    assert(new_issues(s0.processed_issues@, issues, user) == issues.filter(pred0));
    assert forall|j: int| 0 <= j < tasks.len() implies ((#[trigger] tasks[j]).context matches TaskContext::NewIssue(
        c,
    ) && !s0.processed_issues@.contains_key(crate::tasks::issue_key(c.repo@, c.issue_number))) by {
        issues.lemma_filter_pred(pred0, j);
    }
}

/// The task is a mention task for one of `comments` whose key is not among
/// the handled mentions.
pub open spec fn task_for_unhandled_comment(
    t: Task,
    handled: Map<Seq<char>, String>,
    config: Config,
    thread: Thread,
    scan: MentionScan,
    comments: Seq<GhComment>,
) -> bool {
    exists|c: GhComment|
        #![trigger comments.contains(c)]
        comments.contains(c) && crate::poll::comment_mention_task(t, thread, c, scan, config)
            && !handled.contains_key(thread_comment_key(thread, c))
}

/// A comment mention recorded as handled is never planned again, whatever
/// the comments scanned and whichever scan finds it: every task is for a
/// scanned comment whose key was not recorded.
pub proof fn law_recorded_mention_is_not_planned(
    s0: State,
    s1: State,
    config: Config,
    thread: Thread,
    scan: MentionScan,
    comments: Seq<GhComment>,
    now: Seq<char>,
    tasks: Seq<Task>,
)
    requires
        planned_comment_mentions(s0, s1, config, thread, scan, comments, now, tasks),
    ensures
        forall|j: int|
            0 <= j < tasks.len() ==> task_for_unhandled_comment(
                #[trigger] tasks[j],
                s0.processed_mentions@,
                config,
                thread,
                scan,
                comments,
            ),
{
    let bot = config.bot_username@;
    let user = config.authorized_user@;
    let sel = mention_selection(s0.processed_mentions@, thread, comments, bot, user);
    lemma_selection_unhandled(s0.processed_mentions@, thread, comments, bot, user);
    assert forall|j: int| 0 <= j < tasks.len() implies task_for_unhandled_comment(
        #[trigger] tasks[j],
        s0.processed_mentions@,
        config,
        thread,
        scan,
        comments,
    ) by {
        let w = sel[j];
        assert(comments.contains(w));
        assert(crate::poll::comment_mention_task(tasks[j], thread, w, scan, config));
        assert(!s0.processed_mentions@.contains_key(thread_comment_key(thread, w)));
    }
}

/// A search result's own text recorded as handled is never planned again.
pub proof fn law_recorded_search_body_is_not_planned(
    s0: State,
    s1: State,
    config: Config,
    item: GhSearchItem,
    now: Seq<char>,
    r: Option<Task>,
)
    requires
        planned_search_body(s0, s1, config, item, now, r),
        s0.processed_mentions@.contains_key(search_body_key(item)),
    ensures
        r is None,
{
}

/// A mention in a search result's own text is acted on once.
pub proof fn law_search_body_once(
    s0: State,
    s1: State,
    s2: State,
    config: Config,
    item: GhSearchItem,
    now1: Seq<char>,
    now2: Seq<char>,
    first: Option<Task>,
    second: Option<Task>,
)
    requires
        planned_search_body(s0, s1, config, item, now1, first),
        planned_search_body(s1, s2, config, item, now2, second),
    ensures
        second is None,
{
    assert(seq![search_body_key(item)].contains(search_body_key(item))) by {
        assert(seq![search_body_key(item)][0] == search_body_key(item));
    }
}

/// A failed task for a search result's own text is undone: the processed
/// mentions are as they were before it was planned.
pub proof fn law_failed_search_body_task_is_undone(
    s0: State,
    s1: State,
    s2: State,
    config: Config,
    item: GhSearchItem,
    now: Seq<char>,
    t: Task,
)
    requires
        planned_search_body(s0, s1, config, item, now, Some(t)),
        state_after_finish(s1, s2, t.rollback, false),
    ensures
        s2.processed_mentions@ == s0.processed_mentions@,
        s2.processed_issues@ == s0.processed_issues@,
        s2.pr_cursors@ == s0.pr_cursors@,
{
    let key = search_body_key(item);
    assert(seq![key].contains(key)) by {
        assert(seq![key][0] == key);
    }
    assert forall|k: Seq<char>| seq![key].contains(k) implies k == key by {}
    assert(s2.processed_mentions@ =~= s0.processed_mentions@);
}

/// A failed task for a mention found by the search undoes its record, so the
/// mention is acted on again.
pub proof fn law_failed_search_mention_is_retried(
    s0: State,
    s1: State,
    s2: State,
    config: Config,
    thread: Thread,
    comments: Seq<GhComment>,
    now: Seq<char>,
    tasks: Seq<Task>,
    k: int,
)
    requires
        planned_comment_mentions(s0, s1, config, thread, MentionScan::Search, comments, now, tasks),
        0 <= k < tasks.len(),
        state_after_finish(s1, s2, tasks[k].rollback, false),
    ensures
        !s2.processed_mentions@.contains_key(
            thread_comment_key(
                thread,
                mention_selection(
                    s0.processed_mentions@,
                    thread,
                    comments,
                    config.bot_username@,
                    config.authorized_user@,
                )[k],
            ),
        ),
{
}

// ─── Cursors ──────────────────────────────────────────

/// Comments on the bot's issues are acted on once: after planning, the
/// issue's cursor is at least where it was, and planning the same comments
/// again gives no task.
pub proof fn law_issue_comments_once(
    s0: State,
    s1: State,
    s2: State,
    config: Config,
    issue: GhIssue,
    comments: Seq<GhComment>,
    now1: Seq<char>,
    now2: Seq<char>,
    first: Option<Task>,
    second: Option<Task>,
)
    requires
        planned_issue_comments(s0, s1, config, issue, comments, now1, first),
        planned_issue_comments(s1, s2, config, issue, comments, now2, second),
    ensures
        issue_cursor_id(s1.issue_cursors@, key_of_issue(issue)) >= issue_cursor_id(
            s0.issue_cursors@,
            key_of_issue(issue),
        ),
        second is None,
{
    let key = key_of_issue(issue);
    let user = config.authorized_user@;
    let after0 = issue_cursor_id(s0.issue_cursors@, key);
    let fresh0 = fresh_comments(comments, after0, user);
    if fresh0.len() > 0 {
        lemma_max_comment_id_bounds(fresh0, after0);
        let after1 = issue_cursor_id(s1.issue_cursors@, key);
        assert(after1 == max_comment_id(fresh0, after0));
        let pred0 = |c: GhComment| is_fresh_comment(c, after0, user);
        let pred1 = |c: GhComment| is_fresh_comment(c, after1, user);
        assert forall|k: int| 0 <= k < comments.len() implies !pred1(#[trigger] comments[k]) by {
            if pred1(comments[k]) {
                assert(pred0(comments[k]));
                comments.lemma_filter_contains(pred0, k);
                let j = choose|j: int| 0 <= j < fresh0.len() && fresh0[j] == comments[k];
                assert(fresh0[j].id <= after1);
            }
        }
        lemma_filter_none(comments, pred1);
    }
}

/// Feedback on a pull request is acted on once: after a task was planned,
/// planning the same feedback again gives no task, whatever the pull
/// request's head; the cursor ids only grow.
pub proof fn law_pr_feedback_once(
    s0: State,
    s1: State,
    s2: State,
    config: Config,
    pr: GhPr,
    comments: Seq<GhComment>,
    review_comments: Seq<GhComment>,
    reviews: Seq<GhReview>,
    now1: Seq<char>,
    now2: Seq<char>,
    t: Task,
    second: Option<Task>,
)
    requires
        planned_pr_feedback(s0, s1, config, pr, comments, review_comments, reviews, now1, Some(t)),
        planned_pr_feedback(s1, s2, config, pr, comments, review_comments, reviews, now2, second),
    ensures
        second is None,
        pr_cursor_of(s0.pr_cursors@, pr_key(pr.repo@, pr.number)) matches Some(c) ==> {
            &&& s1.pr_cursors@[pr_key(pr.repo@, pr.number)].last_comment_id >= c.last_comment_id
            &&& s1.pr_cursors@[pr_key(pr.repo@, pr.number)].last_review_id >= c.last_review_id
        },
{
    let key = pr_key(pr.repo@, pr.number);
    let previous = pr_cursor_of(s0.pr_cursors@, key);
    let user = config.authorized_user@;
    let after_comment = match previous {
        Some(c) => c.last_comment_id,
        None => 0,
    };
    let after_review = match previous {
        Some(c) => c.last_review_id,
        None => 0,
    };
    let nc = fresh_comments(comments, after_comment, user);
    let nrc = fresh_comments(review_comments, after_comment, user);
    let nr = crate::poll::fresh_reviews(reviews, after_review, user);
    lemma_max_comment_id_bounds(nc + nrc, after_comment);
    lemma_max_review_id_bounds(nr, after_review);
    let c1 = s1.pr_cursors@[key];
    assert(pr_cursor_of(s1.pr_cursors@, key) == Some(c1));
    lemma_nothing_fresh_past(comments, after_comment, c1.last_comment_id, user, nc + nrc, 0);
    lemma_nothing_fresh_past(review_comments, after_comment, c1.last_comment_id, user, nc + nrc, nc.len() as int);
    let pred0 = |r: GhReview| crate::poll::is_fresh_review(r, after_review, user);
    let pred1 = |r: GhReview| crate::poll::is_fresh_review(r, c1.last_review_id, user);
    assert forall|k: int| 0 <= k < reviews.len() implies !pred1(#[trigger] reviews[k]) by {
        if pred1(reviews[k]) {
            assert(pred0(reviews[k]));
            reviews.lemma_filter_contains(pred0, k);
            let j = choose|j: int| 0 <= j < nr.len() && nr[j] == reviews[k];
            assert(nr[j].id <= c1.last_review_id);
        }
    }
    lemma_filter_none(reviews, pred1);
    assert(crate::poll::fresh_reviews(reviews, c1.last_review_id, user).len() == 0);
}

/// When every comment fresh after `after` sits in `all` from position `off`
/// on, and `all`'s ids are at most `to`, no comment is fresh after `to`.
proof fn lemma_nothing_fresh_past(
    cs: Seq<GhComment>,
    after: u64,
    to: u64,
    user: Seq<char>,
    all: Seq<GhComment>,
    off: int,
)
    requires
        after <= to,
        0 <= off,
        off + fresh_comments(cs, after, user).len() <= all.len(),
        forall|j: int|
            0 <= j < fresh_comments(cs, after, user).len() ==> all[off + j]
                == #[trigger] fresh_comments(cs, after, user)[j],
        forall|k: int| 0 <= k < all.len() ==> (#[trigger] all[k]).id <= to,
    ensures
        fresh_comments(cs, to, user).len() == 0,
{
    let f0 = fresh_comments(cs, after, user);
    let pred0 = |c: GhComment| is_fresh_comment(c, after, user);
    let pred1 = |c: GhComment| is_fresh_comment(c, to, user);
    assert forall|k: int| 0 <= k < cs.len() implies !pred1(#[trigger] cs[k]) by {
        if pred1(cs[k]) {
            assert(pred0(cs[k]));
            cs.lemma_filter_contains(pred0, k);
            let j = choose|j: int| 0 <= j < f0.len() && f0[j] == cs[k];
            assert(all[off + j] == f0[j]);
        }
    }
    lemma_filter_none(cs, pred1);
}

/// The maximum review id is at least the floor and at least every id.
pub proof fn lemma_max_review_id_bounds(rs: Seq<GhReview>, floor: u64)
    ensures
        max_review_id(rs, floor) >= floor,
        forall|k: int| 0 <= k < rs.len() ==> max_review_id(rs, floor) >= #[trigger] rs[k].id,
    decreases rs.len(),
{
    if rs.len() > 0 {
        lemma_max_review_id_bounds(rs.drop_last(), floor);
        assert forall|k: int| 0 <= k < rs.len() implies max_review_id(rs, floor) >= #[trigger] rs[k].id by {
            if k < rs.len() - 1 {
                assert(rs.drop_last()[k] == rs[k]);
            }
        }
    }
}

/// The comments newer than a cursor that pass the filter are all written by
/// the authorized user.
proof fn lemma_fresh_comments_authorized(cs: Seq<GhComment>, after: u64, user: Seq<char>)
    ensures
        forall|k: int|
            0 <= k < fresh_comments(cs, after, user).len() ==> spec_is_authorized(
                #[trigger] fresh_comments(cs, after, user)[k].author,
                user,
            ),
{
    let pred = |c: GhComment| is_fresh_comment(c, after, user);
    assert forall|k: int| 0 <= k < fresh_comments(cs, after, user).len() implies spec_is_authorized(
        #[trigger] fresh_comments(cs, after, user)[k].author,
        user,
    ) by {
        cs.lemma_filter_pred(pred, k);
    }
}

/// Every comment an issue-comment task shows the agent was written by the
/// authorized user.
pub proof fn law_issue_comment_tasks_come_from_authorized_user(
    s0: State,
    s1: State,
    config: Config,
    issue: GhIssue,
    comments: Seq<GhComment>,
    now: Seq<char>,
    t: Task,
)
    requires
        planned_issue_comments(s0, s1, config, issue, comments, now, Some(t)),
    ensures
        t.context matches TaskContext::IssueComments(c) && forall|k: int|
            0 <= k < c.comments@.len() ==> (#[trigger] c.comments@[k].author matches Some(a) && a@
                == config.authorized_user@),
{
    let after = issue_cursor_id(s0.issue_cursors@, key_of_issue(issue));
    lemma_fresh_comments_authorized(comments, after, config.authorized_user@);
}

/// Every comment, review comment and review a feedback task shows the agent
/// was written by the authorized user.
pub proof fn law_feedback_tasks_come_from_authorized_user(
    s0: State,
    s1: State,
    config: Config,
    pr: GhPr,
    comments: Seq<GhComment>,
    review_comments: Seq<GhComment>,
    reviews: Seq<GhReview>,
    now: Seq<char>,
    t: Task,
)
    requires
        planned_pr_feedback(s0, s1, config, pr, comments, review_comments, reviews, now, Some(t)),
    ensures
        t.context matches TaskContext::PrFeedback(c) && {
            &&& forall|k: int|
                0 <= k < c.comments@.len() ==> (#[trigger] c.comments@[k].author matches Some(a)
                    && a@ == config.authorized_user@)
            &&& forall|k: int|
                0 <= k < c.review_comments@.len() ==> (
                #[trigger] c.review_comments@[k].author matches Some(a) && a@
                    == config.authorized_user@)
            &&& forall|k: int|
                0 <= k < c.reviews@.len() ==> (#[trigger] c.reviews@[k].author matches Some(a) && a@
                    == config.authorized_user@)
        },
{
    let user = config.authorized_user@;
    let previous = pr_cursor_of(s0.pr_cursors@, pr_key(pr.repo@, pr.number));
    let after_comment = match previous {
        Some(c) => c.last_comment_id,
        None => 0,
    };
    let after_review = match previous {
        Some(c) => c.last_review_id,
        None => 0,
    };
    lemma_fresh_comments_authorized(comments, after_comment, user);
    lemma_fresh_comments_authorized(review_comments, after_comment, user);
    let pred = |r: GhReview| crate::poll::is_fresh_review(r, after_review, user);
    let fr = crate::poll::fresh_reviews(reviews, after_review, user);
    assert forall|k: int| 0 <= k < fr.len() implies spec_is_authorized(#[trigger] fr[k].user, user) by {
        reviews.lemma_filter_pred(pred, k);
    }
}

/// A failed feedback task puts the pull request's cursor back as it was
/// before the task was planned, so the same feedback is acted on again.
pub proof fn law_failed_pr_feedback_is_undone(
    s0: State,
    s1: State,
    s2: State,
    config: Config,
    pr: GhPr,
    comments: Seq<GhComment>,
    review_comments: Seq<GhComment>,
    reviews: Seq<GhReview>,
    now: Seq<char>,
    t: Task,
)
    requires
        planned_pr_feedback(s0, s1, config, pr, comments, review_comments, reviews, now, Some(t)),
        state_after_finish(s1, s2, t.rollback, false),
    ensures
        s2.pr_cursors@ == s0.pr_cursors@,
{
    let key = pr_key(pr.repo@, pr.number);
    match pr_cursor_of(s0.pr_cursors@, key) {
        Some(c) => {
            assert(s2.pr_cursors@ =~= s0.pr_cursors@);
        },
        None => {
            assert(s2.pr_cursors@ =~= s0.pr_cursors@);
        },
    }
}

// ─── Health checks ────────────────────────────────────

/// Requested changes on a pull request are followed up once.
pub proof fn law_changes_requested_once(
    s0: State,
    s1: State,
    s2: State,
    config: Config,
    pr: GhPr,
    reviews: Seq<GhReview>,
    now1: Seq<char>,
    now2: Seq<char>,
    r1: Option<Task>,
    r2: Option<Task>,
)
    requires
        planned_changes_requested(s0, s1, config, pr, reviews, now1, r1),
        planned_changes_requested(s1, s2, config, pr, reviews, now2, r2),
    ensures
        r2 is None,
{
    let found = exists|k: int|
        0 <= k < reviews.len() && crate::health::requests_changes(reviews[k], config.authorized_user@);
    let key = crate::health::changes_requested_key(pr);
    if found && !s0.processed_health@.contains_key(key) {
        assert(seq![key].contains(key)) by {
            assert(seq![key][0] == key);
        }
    }
}

/// An unanswered comment on a pull request is followed up once.
pub proof fn law_unresolved_comment_once(
    s0: State,
    s1: State,
    s2: State,
    config: Config,
    pr: GhPr,
    comments: Seq<GhComment>,
    now1: Seq<char>,
    now2: Seq<char>,
    r1: Option<Task>,
    r2: Option<Task>,
)
    requires
        planned_unresolved_comment(s0, s1, config, pr, comments, now1, r1),
        planned_unresolved_comment(s1, s2, config, pr, comments, now2, r2),
    ensures
        r2 is None,
{
    let auth = crate::health::authorized_comments(comments, config.authorized_user@);
    if auth.len() > 0 {
        let last = auth.last();
        let key = crate::health::unresolved_key(pr, last.id);
        if !crate::health::bot_replied_after(comments, last.id, config.bot_username@)
            && !s0.processed_health@.contains_key(key) {
            assert(seq![key].contains(key)) by {
                assert(seq![key][0] == key);
            }
        }
    }
}

/// A merge conflict of a pull request is followed up once.
pub proof fn law_merge_conflict_once(
    s0: State,
    s1: State,
    s2: State,
    config: Config,
    pr: GhPr,
    m: Mergeability,
    now1: Seq<char>,
    now2: Seq<char>,
    r1: Option<Task>,
    r2: Option<Task>,
)
    requires
        planned_merge_conflict(s0, s1, config, pr, m, now1, r1),
        planned_merge_conflict(s1, s2, config, pr, m, now2, r2),
    ensures
        r2 is None,
{
    let key = crate::health::merge_conflict_key(pr);
    if crate::health::spec_is_conflicted(m) && !s0.processed_health@.contains_key(key) {
        assert(seq![key].contains(key)) by {
            assert(seq![key][0] == key);
        }
    }
}

/// A stale assigned issue is followed up once: once it was followed up, a
/// later check gives no task.
pub proof fn law_stale_issue_once(
    s0: State,
    s1: State,
    s2: State,
    config: Config,
    issue: GhIssue,
    now1: Seq<char>,
    now2: Seq<char>,
    t1: Task,
    r2: Option<Task>,
)
    requires
        planned_stale_issue(s0, s1, config, issue, now1, Some(t1)),
        planned_stale_issue(s1, s2, config, issue, now2, r2),
    ensures
        r2 is None,
{
    let key = key_of_issue(issue);
    if !s0.processed_health@.contains_key(key) {
        assert(seq![key].contains(key)) by {
            assert(seq![key][0] == key);
        }
    }
}

/// After a follow-up under `key` whose task failed, the processed health
/// problems are as they were before, and the same finding is followed up
/// again.
proof fn lemma_failed_follow_up_is_retried(
    s0: State,
    s1: State,
    s2: State,
    s3: State,
    found: bool,
    key: Seq<char>,
    now1: Seq<char>,
    now2: Seq<char>,
    t: Task,
    r3: Option<Task>,
    task_ok: spec_fn(Task) -> bool,
)
    requires
        crate::health::followed_up(s0, s1, found, key, now1, Some(t), task_ok),
        state_after_finish(s1, s2, t.rollback, false),
        crate::health::followed_up(s2, s3, found, key, now2, r3, task_ok),
    ensures
        s2.processed_health@ == s0.processed_health@,
        r3 is Some,
{
    assert(seq![key].contains(key)) by {
        assert(seq![key][0] == key);
    }
    assert forall|k: Seq<char>| k != key implies !seq![key].contains(k) by {
        if seq![key].contains(k) {
            let i = choose|i: int| 0 <= i < 1 && seq![key][i] == k;
            assert(seq![key][i] == key);
        }
    }
    assert(s2.processed_health@ =~= s0.processed_health@);
}

/// A failed follow-up of requested changes is undone: the problem is
/// detected again at the next check.
pub proof fn law_failed_changes_requested_is_retried(
    s0: State,
    s1: State,
    s2: State,
    s3: State,
    config: Config,
    pr: GhPr,
    reviews: Seq<GhReview>,
    now1: Seq<char>,
    now2: Seq<char>,
    t: Task,
    r3: Option<Task>,
)
    requires
        planned_changes_requested(s0, s1, config, pr, reviews, now1, Some(t)),
        state_after_finish(s1, s2, t.rollback, false),
        planned_changes_requested(s2, s3, config, pr, reviews, now2, r3),
    ensures
        s2.processed_health@ == s0.processed_health@,
        r3 is Some,
{
    let found = exists|k: int|
        0 <= k < reviews.len() && crate::health::requests_changes(reviews[k], config.authorized_user@);
    let ok = |t: Task|
        crate::health::health_task(
            t,
            crate::health::dashed(pr.repo@) + "-health-pr-"@ + decimal(pr.number as nat) + "-cr"@,
            pr.repo,
            pr.number,
            pr.title,
            crate::context::HealthKind::ChangesRequested,
            crate::health::changes_requested_details(),
            config,
        );
    lemma_failed_follow_up_is_retried(
        s0,
        s1,
        s2,
        s3,
        found,
        crate::health::changes_requested_key(pr),
        now1,
        now2,
        t,
        r3,
        ok,
    );
}

/// A failed follow-up of an unanswered comment is undone: the comment is
/// followed up again at the next check.
pub proof fn law_failed_unresolved_comment_is_retried(
    s0: State,
    s1: State,
    s2: State,
    s3: State,
    config: Config,
    pr: GhPr,
    comments: Seq<GhComment>,
    now1: Seq<char>,
    now2: Seq<char>,
    t: Task,
    r3: Option<Task>,
)
    requires
        planned_unresolved_comment(s0, s1, config, pr, comments, now1, Some(t)),
        state_after_finish(s1, s2, t.rollback, false),
        planned_unresolved_comment(s2, s3, config, pr, comments, now2, r3),
    ensures
        s2.processed_health@ == s0.processed_health@,
        r3 is Some,
{
    let auth = crate::health::authorized_comments(comments, config.authorized_user@);
    let last = auth.last();
    let ok = |t: Task|
        crate::health::health_task(
            t,
            crate::health::dashed(pr.repo@) + "-health-pr-"@ + decimal(pr.number as nat) + "-uc"@,
            pr.repo,
            pr.number,
            pr.title,
            crate::context::HealthKind::UnresolvedComment,
            crate::health::unresolved_details(last),
            config,
        );
    lemma_failed_follow_up_is_retried(
        s0,
        s1,
        s2,
        s3,
        !crate::health::bot_replied_after(comments, last.id, config.bot_username@),
        crate::health::unresolved_key(pr, last.id),
        now1,
        now2,
        t,
        r3,
        ok,
    );
}

/// A failed follow-up of a merge conflict is undone: the conflict is followed
/// up again at the next check.
pub proof fn law_failed_merge_conflict_is_retried(
    s0: State,
    s1: State,
    s2: State,
    s3: State,
    config: Config,
    pr: GhPr,
    m: Mergeability,
    now1: Seq<char>,
    now2: Seq<char>,
    t: Task,
    r3: Option<Task>,
)
    requires
        planned_merge_conflict(s0, s1, config, pr, m, now1, Some(t)),
        state_after_finish(s1, s2, t.rollback, false),
        planned_merge_conflict(s2, s3, config, pr, m, now2, r3),
    ensures
        s2.processed_health@ == s0.processed_health@,
        r3 is Some,
{
    let ok = |t: Task|
        crate::health::health_task(
            t,
            crate::health::dashed(pr.repo@) + "-health-pr-"@ + decimal(pr.number as nat) + "-mc"@,
            pr.repo,
            pr.number,
            pr.title,
            crate::context::HealthKind::MergeConflict,
            crate::health::merge_conflict_details(m),
            config,
        );
    lemma_failed_follow_up_is_retried(
        s0,
        s1,
        s2,
        s3,
        crate::health::spec_is_conflicted(m),
        crate::health::merge_conflict_key(pr),
        now1,
        now2,
        t,
        r3,
        ok,
    );
}

/// A failed follow-up of a stale issue is undone: unless the issue's record
/// changed in between, it is followed up again at a later check.
pub proof fn law_failed_stale_issue_is_retried(
    s0: State,
    s1: State,
    s2: State,
    s3: State,
    config: Config,
    issue: GhIssue,
    now1: Seq<char>,
    now2: Seq<char>,
    t: Task,
    r3: Option<Task>,
)
    requires
        planned_stale_issue(s0, s1, config, issue, now1, Some(t)),
        state_after_finish(s1, s2, t.rollback, false),
        planned_stale_issue(s2, s3, config, issue, now2, r3),
        !crate::health::within_grace(
            s2.processed_issues@[key_of_issue(issue)]@,
            now2,
            config.health_check_grace_period_secs,
        ),
    ensures
        s2.processed_health@ == s0.processed_health@,
        r3 is Some,
{
    let key = key_of_issue(issue);
    assert(seq![key].contains(key)) by {
        assert(seq![key][0] == key);
    }
    assert forall|k: Seq<char>| k != key implies !seq![key].contains(k) by {
        if seq![key].contains(k) {
            let i = choose|i: int| 0 <= i < 1 && seq![key][i] == k;
            assert(seq![key][i] == key);
        }
    }
    assert(s2.processed_health@ =~= s0.processed_health@);
}

/// An assigned issue whose task was launched less than the grace period ago
/// is not followed up, and nothing is recorded.
pub proof fn law_stale_issue_waits_out_the_grace_period(
    s0: State,
    s1: State,
    config: Config,
    issue: GhIssue,
    now: Seq<char>,
    r: Option<Task>,
)
    requires
        planned_stale_issue(s0, s1, config, issue, now, r),
        s0.processed_issues@.contains_key(key_of_issue(issue)),
        crate::health::within_grace(
            s0.processed_issues@[key_of_issue(issue)]@,
            now,
            config.health_check_grace_period_secs,
        ),
    ensures
        r is None,
        s1.processed_health@ == s0.processed_health@,
{
}

/// Requested changes are followed up only when a review of the authorized
/// user requests them.
pub proof fn law_changes_requested_come_from_authorized_user(
    s0: State,
    s1: State,
    config: Config,
    pr: GhPr,
    reviews: Seq<GhReview>,
    now: Seq<char>,
    t: Task,
)
    requires
        planned_changes_requested(s0, s1, config, pr, reviews, now, Some(t)),
    ensures
        exists|k: int|
            0 <= k < reviews.len() && (#[trigger] reviews[k]).state@ == "CHANGES_REQUESTED"@
                && spec_is_authorized(reviews[k].user, config.authorized_user@),
{
}

/// An unanswered comment is followed up only for a comment of the authorized
/// user, whose text the task's details carry.
pub proof fn law_unresolved_comment_comes_from_authorized_user(
    s0: State,
    s1: State,
    config: Config,
    pr: GhPr,
    comments: Seq<GhComment>,
    now: Seq<char>,
    t: Task,
)
    requires
        planned_unresolved_comment(s0, s1, config, pr, comments, now, Some(t)),
    ensures
        exists|k: int|
            0 <= k < comments.len() && spec_is_authorized(
                (#[trigger] comments[k]).author,
                config.authorized_user@,
            ) && (t.context matches TaskContext::Health(h) && h.details@
                == crate::health::unresolved_details(comments[k])),
{
    let user = config.authorized_user@;
    let pred = |c: GhComment| spec_is_authorized(c.author, user);
    let auth = comments.filter(pred);
    assert(auth == crate::health::authorized_comments(comments, user));
    let i = auth.len() - 1;
    comments.lemma_filter_pred(pred, i);
    comments.lemma_filter_contains_rev(pred, auth[i]);
    let k = choose|k: int| 0 <= k < comments.len() && comments[k] == auth[i];
    assert(spec_is_authorized(comments[k].author, user));
}

/// A stale issue is followed up only for an issue of the authorized user
/// whose task was launched.
pub proof fn law_stale_issue_comes_from_authorized_user(
    s0: State,
    s1: State,
    config: Config,
    issue: GhIssue,
    now: Seq<char>,
    t: Task,
)
    requires
        planned_stale_issue(s0, s1, config, issue, now, Some(t)),
    ensures
        spec_is_authorized(issue.author, config.authorized_user@),
        s0.processed_issues@.contains_key(key_of_issue(issue)),
{
}

// ─── Repositories ─────────────────────────────────────

/// The first `c` of `s` is at `index_of_char(s, c)` (or there is none).
proof fn lemma_index_of_char_first(s: Seq<char>, c: char)
    ensures
        index_of_char(s, c) <= s.len(),
        forall|j: int| 0 <= j < index_of_char(s, c) ==> s[j] != c,
        index_of_char(s, c) < s.len() ==> s[index_of_char(s, c) as int] == c,
    decreases s.len(),
{
    if s.len() > 0 && s[0] != c {
        lemma_index_of_char_first(s.skip(1), c);
        assert forall|j: int| 0 <= j < index_of_char(s, c) implies s[j] != c by {
            if j > 0 {
                assert(s[j] == s.skip(1)[j - 1]);
            }
        }
        if index_of_char(s, c) < s.len() {
            assert(s[index_of_char(s, c) as int] == s.skip(1)[index_of_char(s.skip(1), c) as int]);
        }
    }
}

/// A text in which every `/` is at position `at` is not a GitHub web URL,
/// whose prefix holds two `/` in a row.
proof fn lemma_not_github_url(s: Seq<char>, at: int)
    requires
        forall|k: int| 0 <= k < s.len() && k != at ==> s[k] != '/',
    ensures
        strip_github_prefix(s) == s,
{
    reveal_strlit("https://github.com/");
    if starts_with_seq(s, github_prefix()) {
        assert(s.take(19)[6] == github_prefix()[6]);
        assert(s.take(19)[7] == github_prefix()[7]);
        assert(s[6] == '/' && s[7] == '/');
    }
}

/// A repository derived from a URL holds at most one `/`, and deriving the
/// repository again gives it back unchanged.
pub proof fn law_repo_from_url_is_a_fixed_point(url: Seq<char>)
    ensures
        forall|i: int, j: int|
            0 <= i < j < spec_repo_from_url(url).len() && spec_repo_from_url(url)[i] == '/'
                ==> spec_repo_from_url(url)[j] != '/',
        spec_repo_from_url(spec_repo_from_url(url)) == spec_repo_from_url(url),
{
    let after = strip_github_prefix(url);
    lemma_index_of_char_first(after, '/');
    let i = index_of_char(after, '/') as int;
    let r = spec_repo_from_url(url);
    if i < after.len() {
        let rest = after.skip(i + 1);
        lemma_index_of_char_first(rest, '/');
        let jj = index_of_char(rest, '/') as int;
        let x = after.take(i);
        let y = rest.take(jj);
        assert(r == x + seq!['/'] + y);
        assert forall|k: int| 0 <= k < r.len() && k != i implies r[k] != '/' by {
            if k < i {
                assert(r[k] == after[k]);
            } else {
                assert(r[k] == rest[k - i - 1]);
            }
        }
        lemma_not_github_url(r, i);
        lemma_index_of_char(r, '/', i);
        assert(r.skip(i + 1) =~= y);
        assert forall|k: int| 0 <= k < y.len() implies y[k] != '/' by {
            assert(y[k] == r[i + 1 + k]);
        }
        lemma_index_of_char(y, '/', y.len() as int);
        assert(y.take(y.len() as int) =~= y);
        assert(r.take(i) =~= x);
        assert(spec_repo_from_url(r) =~= x + seq!['/'] + y);
    } else {
        assert(r == after);
        lemma_not_github_url(r, -1);
        lemma_index_of_char(r, '/', r.len() as int);
    }
}

// ─── Mentions in surrounding text ─────────────────────

/// A mention stays a mention when text is put before it, and when after it
/// comes a character that cannot continue a user name and then any text:
/// with a mention in `a` or in `b`, `p + a + sep + b` mentions the user too.
pub proof fn law_mentions_survive_surrounding_text(
    p: Seq<char>,
    a: Seq<char>,
    sep: char,
    b: Seq<char>,
    username: Seq<char>,
)
    requires
        crate::github::spec_contains_mention(a, username) || crate::github::spec_contains_mention(
            b,
            username,
        ),
        !crate::github::is_name_char(sep),
    ensures
        crate::github::spec_contains_mention(p + a + seq![sep] + b, username),
{
    let n = seq!['@'] + username;
    let whole = p + a + seq![sep] + b;
    if crate::github::spec_contains_mention(a, username) {
        let i = choose|i: int| crate::github::mention_at(a, n, i);
        let at = p.len() + i;
        assert(whole.subrange(at, at + n.len()) =~= a.subrange(i, i + n.len()));
        if i + n.len() < a.len() {
            assert(whole[at + n.len()] == a[i + n.len()]);
        } else {
            assert(whole[at + n.len()] == sep);
        }
        assert(crate::github::mention_at(whole, n, at));
    } else {
        let i = choose|i: int| crate::github::mention_at(b, n, i);
        let at = p.len() + a.len() + 1 + i;
        assert(whole.subrange(at, at + n.len()) =~= b.subrange(i, i + n.len()));
        if i + n.len() < b.len() {
            assert(whole[at + n.len()] == b[i + n.len()]);
        }
        assert(crate::github::mention_at(whole, n, at));
    }
}

// ─── The agent's environment ──────────────────────────

/// The names of the variables the agent may get: the allowlist and the three
/// the bot sets itself.
pub open spec fn is_agent_variable(name: Seq<char>) -> bool {
    ||| env_allowlist().contains(name)
    ||| name == "OPENCODE_PERMISSION"@
    ||| name == "OPENCODE_DISABLE_AUTOUPDATE"@
    ||| name == "OPENCODE_DISABLE_CLAUDE_CODE"@
}

/// The inherited variables are named in `names`.
pub proof fn lemma_inherited_names(env: Seq<(Seq<char>, Seq<char>)>, names: Seq<Seq<char>>)
    ensures
        forall|i: int|
            0 <= i < inherited_env(env, names).len() ==> names.contains(
                #[trigger] inherited_env(env, names)[i].0,
            ),
    decreases names.len(),
{
    if names.len() > 0 {
        let prefix = names.drop_last();
        lemma_inherited_names(env, prefix);
        let before = inherited_env(env, prefix);
        let now = inherited_env(env, names);
        assert forall|i: int| 0 <= i < now.len() implies names.contains(#[trigger] now[i].0) by {
            if i < before.len() {
                assert(now[i] == before[i]);
                let j = choose|j: int| 0 <= j < prefix.len() && prefix[j] == before[i].0;
                assert(names[j] == prefix[j]);
            } else {
                assert(now[i].0 == names.last());
                assert(names[names.len() - 1] == names.last());
            }
        }
    }
}

/// No variable of the bot's environment reaches the agent unless it is on
/// the allowlist; the only others the agent gets are the three the bot sets.
pub proof fn law_agent_environment_is_allowlisted(env: Seq<(Seq<char>, Seq<char>)>)
    ensures
        forall|i: int|
            0 <= i < spec_child_environment(env).len() ==> is_agent_variable(
                #[trigger] spec_child_environment(env)[i].0,
            ),
        forall|name: Seq<char>| #[trigger]
            env_allowlist().contains(name) && env_lookup(env, name) is Some
                ==> spec_child_environment(env).contains((name, env_lookup(env, name)->0)),
{
    lemma_inherited_names(env, env_allowlist());
    let inh = inherited_env(env, env_allowlist());
    let child = spec_child_environment(env);
    assert forall|i: int| 0 <= i < child.len() implies is_agent_variable(#[trigger] child[i].0) by {
        if i < inh.len() {
            assert(child[i] == inh[i]);
        } else {
            assert(child[i] == forced_env()[i - inh.len()]);
        }
    }
    assert forall|name: Seq<char>| #[trigger]
        env_allowlist().contains(name) && env_lookup(env, name) is Some implies child.contains(
        (name, env_lookup(env, name)->0),
    ) by {
        let j = choose|j: int| 0 <= j < env_allowlist().len() && env_allowlist()[j] == name;
        lemma_inherited_has(env, env_allowlist(), j);
        let i = choose|i: int| 0 <= i < inh.len() && inh[i] == (name, env_lookup(env, name)->0);
        assert(child[i] == inh[i]);
    }
}

/// Every variable the agent inherits, chosen by position from the bot's
/// variable names, is on the allowlist.
pub proof fn law_inherited_variables_are_allowlisted(names: Seq<Seq<char>>, at: Seq<usize>)
    requires
        forall|k: int| 0 <= k < at.len() ==> at[k] < names.len(),
        forall|values: Seq<Seq<char>>|
            values.len() == names.len() ==> #[trigger] crate::agent::picked(
                crate::agent::env_of(names, values),
                at,
            ) == inherited_env(crate::agent::env_of(names, values), env_allowlist()),
    ensures
        forall|k: int| 0 <= k < at.len() ==> env_allowlist().contains(names[#[trigger] at[k] as int]),
{
    let env = crate::agent::env_of(names, names);
    assert(crate::agent::picked(env, at) == inherited_env(env, env_allowlist()));
    lemma_inherited_names(env, env_allowlist());
    assert forall|k: int| 0 <= k < at.len() implies env_allowlist().contains(names[#[trigger] at[k] as int]) by {
        assert(crate::agent::picked(env, at)[k] == env[at[k] as int]);
        assert(inherited_env(env, env_allowlist())[k].0 == names[at[k] as int]);
    }
}

/// A name of `names` that the environment holds is inherited with its value.
pub proof fn lemma_inherited_has(env: Seq<(Seq<char>, Seq<char>)>, names: Seq<Seq<char>>, j: int)
    requires
        0 <= j < names.len(),
        env_lookup(env, names[j]) is Some,
    ensures
        inherited_env(env, names).contains((names[j], env_lookup(env, names[j])->0)),
    decreases names.len(),
{
    let prefix = names.drop_last();
    let before = inherited_env(env, prefix);
    let now = inherited_env(env, names);
    if j < names.len() - 1 {
        assert(prefix[j] == names[j]);
        lemma_inherited_has(env, prefix, j);
        let i = choose|i: int| 0 <= i < before.len() && before[i] == (names[j], env_lookup(env, names[j])->0);
        assert(now[i] == before[i]);
    } else {
        assert(names.last() == names[j]);
        assert(now[before.len() as int] == (names[j], env_lookup(env, names[j])->0));
    }
}

// ─── Task directory names ─────────────────────────────

/// A decimal digit.
pub open spec fn is_digit(c: char) -> bool {
    '0' as u32 <= c as u32 <= '9' as u32
}

/// Decimal renderings are made of digits, and are not empty.
pub proof fn lemma_decimal_digits(n: nat)
    ensures
        decimal(n).len() >= 1,
        n < 10 <==> decimal(n).len() == 1,
        forall|i: int| 0 <= i < decimal(n).len() ==> is_digit(#[trigger] decimal(n)[i]),
    decreases n,
{
    if n >= 10 {
        lemma_decimal_digits(n / 10);
        assert forall|i: int| 0 <= i < decimal(n).len() implies is_digit(#[trigger] decimal(n)[i]) by {
            if i < decimal(n / 10).len() {
                assert(decimal(n)[i] == decimal(n / 10)[i]);
            }
        }
    }
}

/// Different digits have different characters.
pub proof fn lemma_digit_char_injective(a: nat, b: nat)
    requires
        a < 10,
        b < 10,
        digit_char(a) == digit_char(b),
    ensures
        a == b,
{
}

/// Different numbers have different decimal renderings.
pub proof fn lemma_decimal_injective(n: nat, m: nat)
    requires
        decimal(n) == decimal(m),
    ensures
        n == m,
    decreases n,
{
    lemma_decimal_digits(n);
    lemma_decimal_digits(m);
    if n < 10 {
        assert(m < 10);
        assert(decimal(n)[0] == digit_char(n));
        assert(decimal(m)[0] == digit_char(m));
        lemma_digit_char_injective(n, m);
    } else {
        assert(m >= 10);
        assert(decimal(n) == decimal(n / 10).push(digit_char(n % 10)));
        assert(decimal(m) == decimal(m / 10).push(digit_char(m % 10)));
        assert(decimal(n).drop_last() =~= decimal(n / 10));
        assert(decimal(m).drop_last() =~= decimal(m / 10));
        lemma_decimal_injective(n / 10, m / 10);
        assert(decimal(n).last() == digit_char(n % 10));
        assert(decimal(m).last() == digit_char(m % 10));
        lemma_digit_char_injective(n % 10, m % 10);
    }
}

/// A text that holds no `-`.
pub open spec fn dash_free(s: Seq<char>) -> bool {
    forall|i: int| 0 <= i < s.len() ==> s[i] != '-'
}

/// Text split at its last `-`: the parts after it are equal, and so are the
/// parts before it.
pub proof fn lemma_split_at_last_dash(x: Seq<char>, d: Seq<char>, y: Seq<char>, e: Seq<char>)
    requires
        x + "-"@ + d == y + "-"@ + e,
        dash_free(d),
        dash_free(e),
    ensures
        d == e,
        x == y,
{
    let dash = "-"@;
    assert(dash =~= seq!['-']) by {
        reveal_strlit("-");
    }
    let a = x + dash + d;
    let b = y + dash + e;
    assert(a == b);
    assert(a.len() == x.len() + 1 + d.len());
    assert(b.len() == y.len() + 1 + e.len());
    if d.len() < e.len() {
        let p = a.len() - d.len() - 1;
        assert(a[p] == '-');
        assert(b[p] == e[p - y.len() - 1]);
    } else if e.len() < d.len() {
        let p = b.len() - e.len() - 1;
        assert(b[p] == '-');
        assert(a[p] == d[p - x.len() - 1]);
    }
    assert(d.len() == e.len());
    assert(x.len() == y.len());
    assert forall|i: int| 0 <= i < d.len() implies d[i] == e[i] by {
        assert(a[x.len() + 1 + i] == d[i]);
        assert(b[y.len() + 1 + i] == e[i]);
    }
    assert(d =~= e);
    assert forall|i: int| 0 <= i < x.len() implies x[i] == y[i] by {
        assert(a[i] == x[i]);
        assert(b[i] == y[i]);
    }
    assert(x =~= y);
}

/// Decimal renderings hold no `-`.
pub proof fn lemma_decimal_dash_free(n: nat)
    ensures
        dash_free(decimal(n)),
{
    lemma_decimal_digits(n);
}

/// A task directory name tells its sanitized label, time and sequence number
/// apart: two tasks with different times or sequence numbers never share a
/// directory.
pub proof fn law_task_dir_names_unambiguous(
    l1: Seq<char>,
    t1: u128,
    q1: u64,
    l2: Seq<char>,
    t2: u128,
    q2: u64,
)
    requires
        spec_task_dir_name(l1, t1, q1) == spec_task_dir_name(l2, t2, q2),
    ensures
        spec_sanitize_label(l1) == spec_sanitize_label(l2),
        t1 == t2,
        q1 == q2,
{
    lemma_decimal_dash_free(t1 as nat);
    lemma_decimal_dash_free(t2 as nat);
    lemma_decimal_dash_free(q1 as nat);
    lemma_decimal_dash_free(q2 as nat);
    lemma_split_at_last_dash(
        spec_sanitize_label(l1) + "-"@ + decimal(t1 as nat),
        decimal(q1 as nat),
        spec_sanitize_label(l2) + "-"@ + decimal(t2 as nat),
        decimal(q2 as nat),
    );
    lemma_split_at_last_dash(
        spec_sanitize_label(l1),
        decimal(t1 as nat),
        spec_sanitize_label(l2),
        decimal(t2 as nat),
    );
    lemma_decimal_injective(t1 as nat, t2 as nat);
    lemma_decimal_injective(q1 as nat, q2 as nat);
}

/// A task directory name is a single path component: it holds no `/`.
pub proof fn law_task_dir_name_has_no_slash(label: Seq<char>, timestamp: u128, sequence: u64)
    ensures
        forall|i: int|
            0 <= i < spec_task_dir_name(label, timestamp, sequence).len() ==> #[trigger] spec_task_dir_name(
                label,
                timestamp,
                sequence,
            )[i] != '/',
{
    let s = spec_sanitize_label(label);
    let dt = decimal(timestamp as nat);
    let dq = decimal(sequence as nat);
    lemma_decimal_digits(timestamp as nat);
    lemma_decimal_digits(sequence as nat);
    assert("-"@ =~= seq!['-']) by {
        reveal_strlit("-");
    }
    let name = spec_task_dir_name(label, timestamp, sequence);
    assert forall|i: int| 0 <= i < name.len() implies #[trigger] name[i] != '/' by {
        if i < s.len() {
            assert(name[i] == label_char(label[i]));
        } else if i == s.len() {
        } else if i < s.len() + 1 + dt.len() {
            assert(name[i] == dt[i - s.len() - 1]);
        } else if i == s.len() + 1 + dt.len() {
        } else {
            assert(name[i] == dq[i - s.len() - 2 - dt.len()]);
        }
    }
}

// ─── Sleeping between polls ───────────────────────────

/// Each sleep between polls lasts at most one health check interval and
/// never goes past the poll interval; it is not zero when the health check
/// interval is not zero, so the poll interval is used up.
pub proof fn law_sleep_within_poll_interval(config: Config, elapsed: u64)
    requires
        elapsed < config.poll_interval_secs,
    ensures
        crate::poll::spec_next_sleep(config, elapsed) <= config.health_check_interval_secs,
        elapsed + crate::poll::spec_next_sleep(config, elapsed) <= config.poll_interval_secs,
        config.health_check_interval_secs > 0 ==> crate::poll::spec_next_sleep(config, elapsed) > 0,
{
}

/// The wait between two polls moves forward and ends: after a sleep, a
/// health check runs only with more seconds elapsed than before and fewer
/// than the poll interval, so with a non-zero health check interval at most
/// `poll_interval_secs` health checks run before the next poll.
pub proof fn law_wait_between_polls_moves_forward(config: Config, elapsed: u64)
    requires
        elapsed < config.poll_interval_secs,
        config.health_check_interval_secs > 0,
    ensures
        crate::poll::spec_after_sleep(config, elapsed, crate::poll::spec_next_sleep(config, elapsed))
            matches Some(e) ==> elapsed < e < config.poll_interval_secs,
{
}

// ─── What the operations are for ──────────────────────

/// The largest comment id: at least the floor and every id, and itself the
/// floor or one of the ids, so no smaller value bounds them all.
pub proof fn law_max_comment_id_is_the_maximum(cs: Seq<GhComment>, floor: u64)
    ensures
        max_comment_id(cs, floor) >= floor,
        forall|k: int| 0 <= k < cs.len() ==> max_comment_id(cs, floor) >= #[trigger] cs[k].id,
        max_comment_id(cs, floor) == floor || exists|k: int|
            0 <= k < cs.len() && max_comment_id(cs, floor) == #[trigger] cs[k].id,
    decreases cs.len(),
{
    lemma_max_comment_id_bounds(cs, floor);
    if cs.len() > 0 {
        let prefix = cs.drop_last();
        law_max_comment_id_is_the_maximum(prefix, floor);
        let m = max_comment_id(prefix, floor);
        if max_comment_id(cs, floor) != floor {
            if max_comment_id(cs, floor) == cs.last().id {
                assert(cs[cs.len() - 1] == cs.last());
            } else {
                let k = choose|k: int| 0 <= k < prefix.len() && m == #[trigger] prefix[k].id;
                assert(cs[k] == prefix[k]);
            }
        }
    }
}

/// The largest review id: at least the floor and every id, and itself the
/// floor or one of the ids, so no smaller value bounds them all.
pub proof fn law_max_review_id_is_the_maximum(rs: Seq<GhReview>, floor: u64)
    ensures
        max_review_id(rs, floor) >= floor,
        forall|k: int| 0 <= k < rs.len() ==> max_review_id(rs, floor) >= #[trigger] rs[k].id,
        max_review_id(rs, floor) == floor || exists|k: int|
            0 <= k < rs.len() && max_review_id(rs, floor) == #[trigger] rs[k].id,
    decreases rs.len(),
{
    lemma_max_review_id_bounds(rs, floor);
    if rs.len() > 0 {
        let prefix = rs.drop_last();
        law_max_review_id_is_the_maximum(prefix, floor);
        let m = max_review_id(prefix, floor);
        if max_review_id(rs, floor) != floor {
            if max_review_id(rs, floor) == rs.last().id {
                assert(rs[rs.len() - 1] == rs.last());
            } else {
                let k = choose|k: int| 0 <= k < prefix.len() && m == #[trigger] prefix[k].id;
                assert(rs[k] == prefix[k]);
            }
        }
    }
}

/// After feedback was planned, the pull request's review cursor is the
/// largest id among the previous cursor and the new reviews of the authorized
/// user: a later review with a larger id is still new.
pub proof fn law_pr_feedback_review_cursor_is_the_largest_id(
    s0: State,
    s1: State,
    config: Config,
    pr: GhPr,
    comments: Seq<GhComment>,
    review_comments: Seq<GhComment>,
    reviews: Seq<GhReview>,
    now: Seq<char>,
    t: Task,
)
    requires
        planned_pr_feedback(s0, s1, config, pr, comments, review_comments, reviews, now, Some(t)),
    ensures
        ({
            let c = s1.pr_cursors@[pr_key(pr.repo@, pr.number)].last_review_id;
            let floor = match pr_cursor_of(s0.pr_cursors@, pr_key(pr.repo@, pr.number)) {
                Some(p) => p.last_review_id,
                None => 0,
            };
            &&& c >= floor
            &&& forall|k: int|
                0 <= k < reviews.len() && reviews[k].id > floor && (reviews[k].user matches Some(
                    a,
                ) && a.login@ == config.authorized_user@) ==> c >= #[trigger] reviews[k].id
            &&& (c == floor || exists|k: int| 0 <= k < reviews.len() && c == #[trigger] reviews[k].id)
        }),
{
    let key = pr_key(pr.repo@, pr.number);
    let floor = match pr_cursor_of(s0.pr_cursors@, key) {
        Some(p) => p.last_review_id,
        None => 0,
    };
    let user = config.authorized_user@;
    let nr = crate::poll::fresh_reviews(reviews, floor, user);
    law_max_review_id_is_the_maximum(nr, floor);
    let pred = |r: GhReview| crate::poll::is_fresh_review(r, floor, user);
    let c = s1.pr_cursors@[key].last_review_id;
    assert forall|k: int|
        0 <= k < reviews.len() && reviews[k].id > floor && (reviews[k].user matches Some(a)
            && a.login@ == user) implies c >= #[trigger] reviews[k].id by {
        assert(pred(reviews[k]));
        reviews.lemma_filter_contains(pred, k);
        let j = choose|j: int| 0 <= j < nr.len() && nr[j] == reviews[k];
        assert(c >= nr[j].id);
    }
    if c != floor {
        let j = choose|j: int| 0 <= j < nr.len() && c == #[trigger] nr[j].id;
        reviews.lemma_filter_contains_rev(pred, nr[j]);
        let k = choose|k: int| 0 <= k < reviews.len() && reviews[k] == nr[j];
        assert(c == reviews[k].id);
    }
}

/// Where a mention ends: `@username` in `body` is a mention exactly when it is
/// at the end of the text or followed by a character that is not
/// alphanumeric, `-` or `_`.
pub proof fn law_mention_ends_at_a_non_name_character(body: Seq<char>, username: Seq<char>)
    ensures
        crate::github::spec_contains_mention(body, username) <==> exists|i: int|
            #[trigger] occurs_at(body, seq!['@'] + username, i) && (i + username.len() + 1
                == body.len() || !(crate::github::char_is_alphanumeric(
                body[i + username.len() + 1],
            ) || body[i + username.len() + 1] == '-' || body[i + username.len() + 1] == '_')),
{
    let n = seq!['@'] + username;
    if crate::github::spec_contains_mention(body, username) {
        let i = choose|i: int| crate::github::mention_at(body, n, i);
        assert(occurs_at(body, n, i));
    }
    if exists|i: int|
        #[trigger] occurs_at(body, n, i) && (i + username.len() + 1 == body.len()
            || !(crate::github::char_is_alphanumeric(body[i + username.len() + 1])
            || body[i + username.len() + 1] == '-' || body[i + username.len() + 1] == '_')) {
        let i = choose|i: int|
            #[trigger] occurs_at(body, n, i) && (i + username.len() + 1 == body.len()
                || !(crate::github::char_is_alphanumeric(body[i + username.len() + 1])
                || body[i + username.len() + 1] == '-' || body[i + username.len() + 1] == '_'));
        assert(crate::github::mention_at(body, n, i));
    }
}

/// `r1 + t1 == r2 + t2` where each tail holds a `/` first and no other `/`:
/// the two splits are the same.
proof fn lemma_split_at_last_slash(r1: Seq<char>, t1: Seq<char>, r2: Seq<char>, t2: Seq<char>)
    requires
        r1 + t1 == r2 + t2,
        t1.len() > 0 && t1[0] == '/',
        t2.len() > 0 && t2[0] == '/',
        forall|k: int| 0 < k < t1.len() ==> t1[k] != '/',
        forall|k: int| 0 < k < t2.len() ==> t2[k] != '/',
    ensures
        r1 == r2,
        t1 == t2,
{
    let s = r1 + t1;
    assert(s.len() == r1.len() + t1.len());
    assert(s.len() == (r2 + t2).len());
    assert((r2 + t2).len() == r2.len() + t2.len());
    if r1.len() < r2.len() {
        assert(s[r2.len() as int] == (r2 + t2)[r2.len() as int]);
        assert(s[r2.len() as int] == t2[0]);
        assert(s[r2.len() as int] == t1[r2.len() - r1.len()]);
    } else if r2.len() < r1.len() {
        assert(s[r1.len() as int] == t1[0]);
        assert(s[r1.len() as int] == (r2 + t2)[r1.len() as int]);
        assert((r2 + t2)[r1.len() as int] == t2[r1.len() - r2.len()]);
    }
    assert(r1 =~= s.take(r1.len() as int));
    assert(r2 =~= (r2 + t2).take(r2.len() as int));
    assert(t1 =~= s.skip(r1.len() as int));
    assert(t2 =~= (r2 + t2).skip(r2.len() as int));
}

/// `marker + decimal(n)` holds `/` only at its start, where `marker` does.
proof fn lemma_marked_decimal_slash(marker: Seq<char>, n: nat)
    requires
        marker.len() > 0 && marker[0] == '/',
        forall|k: int| 0 < k < marker.len() ==> marker[k] != '/',
    ensures
        (marker + decimal(n))[0] == '/',
        forall|k: int| 0 < k < (marker + decimal(n)).len() ==> (marker + decimal(n))[k] != '/',
{
    lemma_decimal_digits(n);
    assert forall|k: int| 0 < k < (marker + decimal(n)).len() implies (marker + decimal(n))[k] != '/' by {
        if k >= marker.len() {
            assert((marker + decimal(n))[k] == decimal(n)[k - marker.len()]);
            assert(is_digit(decimal(n)[k - marker.len()]));
        }
    }
}

/// Keys made of a repository, a marker starting with its only `/`, and a
/// number tell repository and number apart.
proof fn lemma_marked_key_injective(marker: Seq<char>, r1: Seq<char>, n1: nat, r2: Seq<char>, n2: nat)
    requires
        marker.len() > 0 && marker[0] == '/',
        forall|k: int| 0 < k < marker.len() ==> marker[k] != '/',
        r1 + (marker + decimal(n1)) == r2 + (marker + decimal(n2)),
    ensures
        r1 == r2,
        n1 == n2,
{
    lemma_marked_decimal_slash(marker, n1);
    lemma_marked_decimal_slash(marker, n2);
    lemma_split_at_last_slash(r1, marker + decimal(n1), r2, marker + decimal(n2));
    assert(decimal(n1) =~= (marker + decimal(n1)).skip(marker.len() as int));
    assert(decimal(n2) =~= (marker + decimal(n2)).skip(marker.len() as int));
    lemma_decimal_injective(n1, n2);
}

/// Different issues have different keys: an issue key names one repository
/// and one number.
pub proof fn law_issue_keys_are_distinct(r1: Seq<char>, n1: u64, r2: Seq<char>, n2: u64)
    ensures
        crate::tasks::issue_key(r1, n1) == crate::tasks::issue_key(r2, n2) ==> r1 == r2 && n1 == n2,
{
    if crate::tasks::issue_key(r1, n1) == crate::tasks::issue_key(r2, n2) {
        reveal_strlit("/issues#");
        let marker = "/issues#"@;
        assert(r1 + (marker + decimal(n1 as nat)) =~= crate::tasks::issue_key(r1, n1));
        assert(r2 + (marker + decimal(n2 as nat)) =~= crate::tasks::issue_key(r2, n2));
        lemma_marked_key_injective(marker, r1, n1 as nat, r2, n2 as nat);
    }
}

/// Different pull requests have different keys: a pull request key names
/// one repository and one number.
pub proof fn law_pr_keys_are_distinct(r1: Seq<char>, n1: u64, r2: Seq<char>, n2: u64)
    ensures
        pr_key(r1, n1) == pr_key(r2, n2) ==> r1 == r2 && n1 == n2,
{
    if pr_key(r1, n1) == pr_key(r2, n2) {
        reveal_strlit("/prs#");
        let marker = "/prs#"@;
        assert(r1 + (marker + decimal(n1 as nat)) =~= pr_key(r1, n1));
        assert(r2 + (marker + decimal(n2 as nat)) =~= pr_key(r2, n2));
        lemma_marked_key_injective(marker, r1, n1 as nat, r2, n2 as nat);
    }
}

/// A bot comment after every comment of the authorized user answers them: no
/// unanswered comment is followed up, whatever else was written after it.
pub proof fn law_bot_reply_answers_the_last_comment(
    s0: State,
    s1: State,
    config: Config,
    pr: GhPr,
    comments: Seq<GhComment>,
    now: Seq<char>,
    r: Option<Task>,
    k: int,
)
    requires
        planned_unresolved_comment(s0, s1, config, pr, comments, now, r),
        0 <= k < comments.len(),
        comments[k].author matches Some(a) && a.login@ == config.bot_username@,
        forall|j: int|
            0 <= j < comments.len() && (comments[j].author matches Some(a) && a.login@
                == config.authorized_user@) ==> #[trigger] comments[j].id < comments[k].id,
    ensures
        r is None,
        s1.processed_health@ == s0.processed_health@,
{
    let user = config.authorized_user@;
    let pred = |c: GhComment| spec_is_authorized(c.author, user);
    let auth = comments.filter(pred);
    assert(auth == crate::health::authorized_comments(comments, user));
    if auth.len() > 0 {
        let i = auth.len() - 1;
        comments.lemma_filter_pred(pred, i);
        comments.lemma_filter_contains_rev(pred, auth[i]);
        let j = choose|j: int| 0 <= j < comments.len() && comments[j] == auth[i];
        assert(comments[j].id < comments[k].id);
        assert(crate::health::bot_replied_after(comments, auth.last().id, config.bot_username@));
    }
}

/// A merge conflict is followed up only when GitHub reports the merge state
/// `DIRTY` or `BLOCKED`, or the pull request as `CONFLICTING`.
pub proof fn law_merge_conflict_needs_a_conflict_state(
    s0: State,
    s1: State,
    config: Config,
    pr: GhPr,
    m: Mergeability,
    now: Seq<char>,
    t: Task,
)
    requires
        planned_merge_conflict(s0, s1, config, pr, m, now, Some(t)),
    ensures
        (m.merge_state_status matches Some(s) && (s@ == "DIRTY"@ || s@ == "BLOCKED"@)) || (
        m.mergeable matches Some(s) && s@ == "CONFLICTING"@),
{
}

} // verus!
