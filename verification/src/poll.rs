//! The decisions of one poll: which issues, comments, reviews and mentions
//! become agent tasks, and how the processing state records them so that no
//! event is handled twice.
use vstd::prelude::*;
use vstd::string::*;

use crate::config::Config;
use crate::context::{
    IssueCommentsContext, MentionContext, MentionSource, NewIssueContext, PrFeedbackContext,
    TaskContext, ThreadKind,
};
use crate::github::{
    author_is_authorized, contains_mention, repo_from_url, spec_contains_mention, spec_is_authorized,
    spec_repo_from_url, GhComment, GhIssue, GhPr, GhReview, GhSearchItem,
};
use crate::state::{IssueCursor, PrCursor, State};
use crate::tasks::{
    attribution_for, author_login, body_mention_key, body_mention_key_of, comment_entries,
    comment_mention_key, comment_mention_key_of, lemma_push_contains, entries_of, pr_key, pr_key_of, review_entries,
    review_entries_of, issue_key, issue_key_of, joined, lemma_filter_take_step, lemma_map_push,
    lemma_recorded_push, lemma_take_all, login_of, reacts_on, recorded, with_decimal, Rollback, Task,
    ThreadRef, Workflow,
};
use crate::text::decimal;

verus! {

/// The other maps of the state are as they were.
pub open spec fn only_issues_changed(old: State, new: State) -> bool {
    &&& new.pr_cursors@ == old.pr_cursors@
    &&& new.processed_mentions@ == old.processed_mentions@
    &&& new.issue_cursors@ == old.issue_cursors@
    &&& new.processed_health@ == old.processed_health@
}

// ─── Issues assigned to the bot ───────────────────────

/// An assigned issue to act on: opened by the authorized user and not handled
/// yet.
pub open spec fn is_new_issue(
    processed: Map<Seq<char>, String>,
    issue: GhIssue,
    authorized_user: Seq<char>,
) -> bool {
    spec_is_authorized(issue.author, authorized_user) && !processed.contains_key(
        issue_key(issue.repo@, issue.number),
    )
}

/// The assigned issues to act on, in listing order.
pub open spec fn new_issues(
    processed: Map<Seq<char>, String>,
    issues: Seq<GhIssue>,
    authorized_user: Seq<char>,
) -> Seq<GhIssue> {
    issues.filter(|i: GhIssue| is_new_issue(processed, i, authorized_user))
}

/// The key of an issue.
pub open spec fn key_of_issue(i: GhIssue) -> Seq<char> {
    issue_key(i.repo@, i.number)
}

/// The task for a newly assigned issue.
pub open spec fn new_issue_task(t: Task, issue: GhIssue, config: Config) -> bool {
    &&& t.label@ == issue.repo@ + "-issue-"@ + decimal(issue.number as nat)
    &&& t.workflow == Workflow::NewIssue
    &&& t.context matches TaskContext::NewIssue(c) && {
        &&& c.repo == issue.repo
        &&& c.issue_number == issue.number
        &&& c.title == issue.title
        &&& c.body == issue.body
        &&& c.author == author_login(issue.author)
        &&& c.bot_username == config.bot_username
        &&& attribution_for(c.attribution, config)
    }
    &&& reacts_on(t, issue.repo, issue.number)
    &&& t.rollback matches Rollback::Issue(k) && k@ == key_of_issue(issue)
}

/// The task for a newly assigned issue.
pub fn issue_task(issue: &GhIssue, config: &Config) -> (t: Task)
    ensures
        new_issue_task(t, *issue, *config),
{
    let label = with_decimal(joined(issue.repo.as_str(), "-issue-"), issue.number);
    let context = TaskContext::NewIssue(
        NewIssueContext {
            repo: issue.repo.clone(),
            issue_number: issue.number,
            title: issue.title.clone(),
            body: issue.body.clone(),
            author: login_of(&issue.author),
            bot_username: config.bot_username.clone(),
            attribution: config.attribution_context(),
        },
    );
    Task {
        label,
        workflow: Workflow::NewIssue,
        context,
        reaction: Some(ThreadRef { repo: issue.repo.clone(), number: issue.number }),
        rollback: Rollback::Issue(issue_key_of(issue.repo.as_str(), issue.number)),
    }
}

/// What planning the assigned issues does: one task per new issue, in
/// listing order, each issue recorded as handled at `now`.
pub open spec fn planned_assigned_issues(
    old: State,
    new: State,
    config: Config,
    issues: Seq<GhIssue>,
    now: Seq<char>,
    tasks: Seq<Task>,
) -> bool {
    let fresh = new_issues(old.processed_issues@, issues, config.authorized_user@);
    &&& tasks.len() == fresh.len()
    &&& forall|k: int| 0 <= k < tasks.len() ==> new_issue_task(#[trigger] tasks[k], fresh[k], config)
    &&& recorded(
        old.processed_issues@,
        new.processed_issues@,
        fresh.map_values(|i: GhIssue| key_of_issue(i)),
        now,
    )
    &&& only_issues_changed(old, new)
}

/// Plans the issues assigned to the bot: every issue opened by the authorized
/// user and not yet handled becomes a task and is recorded as handled. Which
/// issues are new is decided on the state as it was before this call.
pub fn plan_assigned_issues(
    state: &mut State,
    config: &Config,
    issues: &Vec<GhIssue>,
    now: &str,
) -> (tasks: Vec<Task>)
    ensures
        planned_assigned_issues(*old(state), *final(state), *config, issues@, now@, tasks@),
{
    let ghost old_state = *state;
    let ghost user = config.authorized_user@;
    let ghost pred = |i: GhIssue| is_new_issue(old_state.processed_issues@, i, user);
    let ghost keyf = |i: GhIssue| key_of_issue(i);
    let mut fresh: Vec<bool> = Vec::new();
    let mut j: usize = 0;
    while j < issues.len()
        invariant
            j <= issues@.len(),
            fresh@.len() == j,
            *state == old_state,
            user == config.authorized_user@,
            pred == (|i: GhIssue| is_new_issue(old_state.processed_issues@, i, user)),
            forall|k: int| 0 <= k < j ==> fresh@[k] == pred(#[trigger] issues@[k]),
        decreases issues.len() - j,
    {
        let issue = &issues[j];
        let key = issue_key_of(issue.repo.as_str(), issue.number);
        let f = author_is_authorized(&issue.author, config) && !state.processed_issues.contains_key(
            &key,
        );
        assert(pred(issues@[j as int]) == f);
        fresh.push(f);
        j = j + 1;
    }
    let mut tasks: Vec<Task> = Vec::new();
    let mut j: usize = 0;
    proof {
        assert(issues@.take(0).filter(pred) =~= Seq::<GhIssue>::empty()) by {
            reveal(Seq::filter);
        }
        assert(issues@.take(0).filter(pred).map_values(keyf) =~= Seq::<Seq<char>>::empty());
    }
    while j < issues.len()
        invariant
            j <= issues@.len(),
            fresh@.len() == issues@.len(),
            user == config.authorized_user@,
            pred == (|i: GhIssue| is_new_issue(old_state.processed_issues@, i, user)),
            keyf == (|i: GhIssue| key_of_issue(i)),
            forall|k: int| 0 <= k < issues@.len() ==> fresh@[k] == pred(#[trigger] issues@[k]),
            tasks@.len() == issues@.take(j as int).filter(pred).len(),
            forall|k: int|
                0 <= k < tasks@.len() ==> new_issue_task(
                    #[trigger] tasks@[k],
                    issues@.take(j as int).filter(pred)[k],
                    *config,
                ),
            recorded(
                old_state.processed_issues@,
                state.processed_issues@,
                issues@.take(j as int).filter(pred).map_values(keyf),
                now@,
            ),
            only_issues_changed(old_state, *state),
        decreases issues.len() - j,
    {
        proof {
            lemma_filter_take_step(issues@, pred, j as int);
        }
        if fresh[j] {
            let issue = &issues[j];
            let key = issue_key_of(issue.repo.as_str(), issue.number);
            let stamp = String::from_str(now);
            proof {
                assert(keyf(issues@[j as int]) == key@);
                assert(pred(issues@[j as int]));
                lemma_map_push(issues@.take(j as int).filter(pred), issues@[j as int], keyf);
                lemma_recorded_push(
                    old_state.processed_issues@,
                    state.processed_issues@,
                    issues@.take(j as int).filter(pred).map_values(keyf),
                    now@,
                    key@,
                    stamp,
                );
            }
            state.processed_issues.insert(key, stamp);
            tasks.push(issue_task(issue, config));
        }
        j = j + 1;
    }
    proof {
        lemma_take_all(issues@);
    }
    tasks
}

// ─── Comments and reviews after a cursor ─────────────

/// Every map of the state is as it was.
pub open spec fn state_unchanged(old: State, new: State) -> bool {
    &&& new.processed_issues@ == old.processed_issues@
    &&& new.pr_cursors@ == old.pr_cursors@
    &&& new.processed_mentions@ == old.processed_mentions@
    &&& new.issue_cursors@ == old.issue_cursors@
    &&& new.processed_health@ == old.processed_health@
}

/// A comment newer than the cursor `after`, written by the authorized user.
pub open spec fn is_fresh_comment(c: GhComment, after: u64, authorized_user: Seq<char>) -> bool {
    c.id > after && spec_is_authorized(c.author, authorized_user)
}

/// The comments newer than `after` written by the authorized user, in order.
pub open spec fn fresh_comments(cs: Seq<GhComment>, after: u64, authorized_user: Seq<char>) -> Seq<
    GhComment,
> {
    cs.filter(|c: GhComment| is_fresh_comment(c, after, authorized_user))
}

/// A review newer than the cursor `after`, written by the authorized user.
pub open spec fn is_fresh_review(r: GhReview, after: u64, authorized_user: Seq<char>) -> bool {
    r.id > after && spec_is_authorized(r.user, authorized_user)
}

/// The reviews newer than `after` written by the authorized user, in order.
pub open spec fn fresh_reviews(rs: Seq<GhReview>, after: u64, authorized_user: Seq<char>) -> Seq<
    GhReview,
> {
    rs.filter(|r: GhReview| is_fresh_review(r, after, authorized_user))
}

/// The largest comment id of `cs`, or `floor` if that is larger.
pub open spec fn max_comment_id(cs: Seq<GhComment>, floor: u64) -> u64
    decreases cs.len(),
{
    if cs.len() == 0 {
        floor
    } else {
        let m = max_comment_id(cs.drop_last(), floor);
        if cs.last().id > m {
            cs.last().id
        } else {
            m
        }
    }
}

/// The largest review id of `rs`, or `floor` if that is larger.
pub open spec fn max_review_id(rs: Seq<GhReview>, floor: u64) -> u64
    decreases rs.len(),
{
    if rs.len() == 0 {
        floor
    } else {
        let m = max_review_id(rs.drop_last(), floor);
        if rs.last().id > m {
            rs.last().id
        } else {
            m
        }
    }
}

/// The maximum over two sequences in a row.
pub proof fn lemma_max_comment_id_append(a: Seq<GhComment>, b: Seq<GhComment>, floor: u64)
    ensures
        max_comment_id(a + b, floor) == max_comment_id(b, max_comment_id(a, floor)),
    decreases b.len(),
{
    if b.len() == 0 {
        assert(a + b =~= a);
    } else {
        assert((a + b).drop_last() =~= a + b.drop_last());
        lemma_max_comment_id_append(a, b.drop_last(), floor);
    }
}

/// The maximum is at least the floor and at least every id.
pub proof fn lemma_max_comment_id_bounds(cs: Seq<GhComment>, floor: u64)
    ensures
        max_comment_id(cs, floor) >= floor,
        forall|k: int| 0 <= k < cs.len() ==> max_comment_id(cs, floor) >= #[trigger] cs[k].id,
    decreases cs.len(),
{
    if cs.len() > 0 {
        lemma_max_comment_id_bounds(cs.drop_last(), floor);
        assert forall|k: int| 0 <= k < cs.len() implies max_comment_id(cs, floor) >= #[trigger] cs[k].id by {
            if k < cs.len() - 1 {
                assert(cs.drop_last()[k] == cs[k]);
            }
        }
    }
}

/// The comments newer than `after` written by the authorized user.
pub fn fresh_comments_of(cs: &Vec<GhComment>, after: u64, config: &Config) -> (r: Vec<GhComment>)
    ensures
        r@ == fresh_comments(cs@, after, config.authorized_user@),
{
    let ghost user = config.authorized_user@;
    let ghost pred = |c: GhComment| is_fresh_comment(c, after, user);
    let mut r: Vec<GhComment> = Vec::new();
    let mut j: usize = 0;
    proof {
        reveal(Seq::filter);
    }
    while j < cs.len()
        invariant
            j <= cs@.len(),
            user == config.authorized_user@,
            pred == (|c: GhComment| is_fresh_comment(c, after, user)),
            r@ == cs@.take(j as int).filter(pred),
        decreases cs.len() - j,
    {
        proof {
            lemma_filter_take_step(cs@, pred, j as int);
        }
        let c = &cs[j];
        if c.id > after && author_is_authorized(&c.author, config) {
            r.push(c.duplicate());
        }
        j = j + 1;
    }
    proof {
        lemma_take_all(cs@);
    }
    r
}

/// The reviews newer than `after` written by the authorized user.
pub fn fresh_reviews_of(rs: &Vec<GhReview>, after: u64, config: &Config) -> (r: Vec<GhReview>)
    ensures
        r@ == fresh_reviews(rs@, after, config.authorized_user@),
{
    let ghost user = config.authorized_user@;
    let ghost pred = |x: GhReview| is_fresh_review(x, after, user);
    let mut r: Vec<GhReview> = Vec::new();
    let mut j: usize = 0;
    proof {
        reveal(Seq::filter);
    }
    while j < rs.len()
        invariant
            j <= rs@.len(),
            user == config.authorized_user@,
            pred == (|x: GhReview| is_fresh_review(x, after, user)),
            r@ == rs@.take(j as int).filter(pred),
        decreases rs.len() - j,
    {
        proof {
            lemma_filter_take_step(rs@, pred, j as int);
        }
        let x = &rs[j];
        if x.id > after && author_is_authorized(&x.user, config) {
            r.push(x.duplicate());
        }
        j = j + 1;
    }
    proof {
        lemma_take_all(rs@);
    }
    r
}

/// The largest comment id, or `floor` if that is larger.
pub fn max_comment_id_of(cs: &Vec<GhComment>, floor: u64) -> (m: u64)
    ensures
        m == max_comment_id(cs@, floor),
{
    let mut m = floor;
    let mut j: usize = 0;
    while j < cs.len()
        invariant
            j <= cs@.len(),
            m == max_comment_id(cs@.take(j as int), floor),
        decreases cs.len() - j,
    {
        assert(cs@.take(j + 1).drop_last() =~= cs@.take(j as int));
        if cs[j].id > m {
            m = cs[j].id;
        }
        j = j + 1;
    }
    proof {
        lemma_take_all(cs@);
    }
    m
}

/// The largest review id, or `floor` if that is larger.
pub fn max_review_id_of(rs: &Vec<GhReview>, floor: u64) -> (m: u64)
    ensures
        m == max_review_id(rs@, floor),
{
    let mut m = floor;
    let mut j: usize = 0;
    while j < rs.len()
        invariant
            j <= rs@.len(),
            m == max_review_id(rs@.take(j as int), floor),
        decreases rs.len() - j,
    {
        assert(rs@.take(j + 1).drop_last() =~= rs@.take(j as int));
        if rs[j].id > m {
            m = rs[j].id;
        }
        j = j + 1;
    }
    proof {
        lemma_take_all(rs@);
    }
    m
}

// ─── Comments on the bot's own issues ─────────────────

/// The last comment id seen on an issue of the bot (0 when none).
pub open spec fn issue_cursor_id(cursors: Map<Seq<char>, IssueCursor>, key: Seq<char>) -> u64 {
    if cursors.contains_key(key) {
        cursors[key].last_comment_id
    } else {
        0
    }
}

/// The task for new comments of the authorized user on an issue of the bot.
pub open spec fn issue_comments_task(
    t: Task,
    issue: GhIssue,
    fresh: Seq<GhComment>,
    config: Config,
) -> bool {
    &&& t.label@ == issue.repo@ + "-issue-comment-"@ + decimal(issue.number as nat)
    &&& t.workflow == Workflow::Mention
    &&& t.context matches TaskContext::IssueComments(c) && {
        &&& c.repo == issue.repo
        &&& c.number == issue.number
        &&& c.title == issue.title
        &&& c.author == author_login(issue.author)
        &&& c.url == issue.url
        &&& c.body == fresh.last().body
        &&& entries_of(c.comments@, fresh)
        &&& attribution_for(c.attribution, config)
    }
    &&& t.reaction is None
    &&& t.rollback is Keep
}

/// What planning the comments on an issue of the bot does: when the
/// authorized user wrote comments after the issue's cursor, one task for them
/// and the cursor moved to the largest of their ids, at `now`; otherwise
/// nothing.
pub open spec fn planned_issue_comments(
    old: State,
    new: State,
    config: Config,
    issue: GhIssue,
    comments: Seq<GhComment>,
    now: Seq<char>,
    r: Option<Task>,
) -> bool {
    let key = key_of_issue(issue);
    let after = issue_cursor_id(old.issue_cursors@, key);
    let fresh = fresh_comments(comments, after, config.authorized_user@);
    if fresh.len() == 0 {
        r is None && state_unchanged(old, new)
    } else {
        &&& r matches Some(t) && issue_comments_task(t, issue, fresh, config)
        &&& new.issue_cursors@.contains_key(key)
        &&& new.issue_cursors@[key].last_comment_id == max_comment_id(fresh, after)
        &&& new.issue_cursors@[key].last_updated@ == now
        &&& new.issue_cursors@ == old.issue_cursors@.insert(key, new.issue_cursors@[key])
        &&& new.processed_issues@ == old.processed_issues@
        &&& new.pr_cursors@ == old.pr_cursors@
        &&& new.processed_mentions@ == old.processed_mentions@
        &&& new.processed_health@ == old.processed_health@
    }
}

/// Plans the comments on an issue the bot opened: the comments of the
/// authorized user after the issue's cursor become one task, and the cursor
/// moves past them.
pub fn plan_issue_comments(
    state: &mut State,
    config: &Config,
    issue: &GhIssue,
    comments: &Vec<GhComment>,
    now: &str,
) -> (r: Option<Task>)
    ensures
        planned_issue_comments(*old(state), *final(state), *config, *issue, comments@, now@, r),
{
    let key = issue_key_of(issue.repo.as_str(), issue.number);
    let after = match state.issue_cursors.get(&key) {
        Some(c) => c.last_comment_id,
        None => 0,
    };
    let fresh = fresh_comments_of(comments, after, config);
    if fresh.len() == 0 {
        return None;
    }
    let last_id = max_comment_id_of(&fresh, after);
    state.issue_cursors.insert(
        key,
        IssueCursor { last_comment_id: last_id, last_updated: String::from_str(now) },
    );
    let label = with_decimal(joined(issue.repo.as_str(), "-issue-comment-"), issue.number);
    let context = TaskContext::IssueComments(
        IssueCommentsContext {
            repo: issue.repo.clone(),
            number: issue.number,
            title: issue.title.clone(),
            author: login_of(&issue.author),
            url: issue.url.clone(),
            body: fresh[fresh.len() - 1].body.clone(),
            comments: comment_entries(&fresh),
            attribution: config.attribution_context(),
        },
    );
    Some(Task { label, workflow: Workflow::Mention, context, reaction: None, rollback: Rollback::Keep })
}

// ─── Feedback on the bot's pull requests ──────────────

/// The cursor of a pull request, if it has one.
pub open spec fn pr_cursor_of(cursors: Map<Seq<char>, PrCursor>, key: Seq<char>) -> Option<
    PrCursor,
> {
    if cursors.contains_key(key) {
        Some(cursors[key])
    } else {
        None
    }
}

/// The task for new feedback on a pull request of the bot.
pub open spec fn pr_feedback_task(
    t: Task,
    pr: GhPr,
    comments: Seq<GhComment>,
    review_comments: Seq<GhComment>,
    reviews: Seq<GhReview>,
    previous: Option<PrCursor>,
    config: Config,
) -> bool {
    &&& t.label@ == pr.repo@ + "-pr-"@ + decimal(pr.number as nat)
    &&& t.workflow == Workflow::PrFeedback
    &&& t.context matches TaskContext::PrFeedback(c) && {
        &&& c.repo == pr.repo
        &&& c.pr_number == pr.number
        &&& c.title == pr.title
        &&& c.bot_username == config.bot_username
        &&& entries_of(c.comments@, comments)
        &&& entries_of(c.review_comments@, review_comments)
        &&& review_entries_of(c.reviews@, reviews)
        &&& attribution_for(c.attribution, config)
    }
    &&& reacts_on(t, pr.repo, pr.number)
    &&& t.rollback matches Rollback::PrCursor { key, previous: p } && key@ == pr_key(
        pr.repo@,
        pr.number,
    ) && p == previous
}

/// What planning a pull request's feedback does: the conversation comments,
/// review comments and reviews of the authorized user after the cursor become
/// one task, and the cursor moves to the pull request's head and past them, at
/// `now`; the task's rollback puts the previous cursor back. With no such
/// feedback, nothing happens.
pub open spec fn planned_pr_feedback(
    old: State,
    new: State,
    config: Config,
    pr: GhPr,
    comments: Seq<GhComment>,
    review_comments: Seq<GhComment>,
    reviews: Seq<GhReview>,
    now: Seq<char>,
    r: Option<Task>,
) -> bool {
    let key = pr_key(pr.repo@, pr.number);
    let previous = pr_cursor_of(old.pr_cursors@, key);
    let after_comment = match previous {
        Some(c) => c.last_comment_id,
        None => 0,
    };
    let after_review = match previous {
        Some(c) => c.last_review_id,
        None => 0,
    };
    let user = config.authorized_user@;
    let new_comments = fresh_comments(comments, after_comment, user);
    let new_review_comments = fresh_comments(review_comments, after_comment, user);
    let new_reviews = fresh_reviews(reviews, after_review, user);
    if new_comments.len() == 0 && new_review_comments.len() == 0 && new_reviews.len() == 0 {
        r is None && state_unchanged(old, new)
    } else {
        &&& r matches Some(t) && pr_feedback_task(
            t,
            pr,
            new_comments,
            new_review_comments,
            new_reviews,
            previous,
            config,
        )
        &&& new.pr_cursors@.contains_key(key)
        &&& new.pr_cursors@[key].last_head_sha == pr.head_ref_oid
        &&& new.pr_cursors@[key].last_comment_id == max_comment_id(
            new_comments + new_review_comments,
            after_comment,
        )
        &&& new.pr_cursors@[key].last_review_id == max_review_id(new_reviews, after_review)
        &&& new.pr_cursors@[key].last_updated@ == now
        &&& new.pr_cursors@ == old.pr_cursors@.insert(key, new.pr_cursors@[key])
        &&& new.processed_issues@ == old.processed_issues@
        &&& new.processed_mentions@ == old.processed_mentions@
        &&& new.issue_cursors@ == old.issue_cursors@
        &&& new.processed_health@ == old.processed_health@
    }
}

/// Plans the feedback on a pull request of the bot: what the authorized user
/// wrote after the cursor becomes one task, and the cursor moves past it.
pub fn plan_pr_feedback(
    state: &mut State,
    config: &Config,
    pr: &GhPr,
    comments: &Vec<GhComment>,
    review_comments: &Vec<GhComment>,
    reviews: &Vec<GhReview>,
    now: &str,
) -> (r: Option<Task>)
    ensures
        planned_pr_feedback(
            *old(state),
            *final(state),
            *config,
            *pr,
            comments@,
            review_comments@,
            reviews@,
            now@,
            r,
        ),
{
    let key = pr_key_of(pr.repo.as_str(), pr.number);
    let previous = match state.pr_cursors.get(&key) {
        Some(c) => Some(c.duplicate()),
        None => None,
    };
    let after_comment = match &previous {
        Some(c) => c.last_comment_id,
        None => 0,
    };
    let after_review = match &previous {
        Some(c) => c.last_review_id,
        None => 0,
    };
    let new_comments = fresh_comments_of(comments, after_comment, config);
    let new_review_comments = fresh_comments_of(review_comments, after_comment, config);
    let new_reviews = fresh_reviews_of(reviews, after_review, config);
    if new_comments.len() == 0 && new_review_comments.len() == 0 && new_reviews.len() == 0 {
        return None;
    }
    let m1 = max_comment_id_of(&new_comments, after_comment);
    let last_comment = max_comment_id_of(&new_review_comments, m1);
    proof {
        lemma_max_comment_id_append(new_comments@, new_review_comments@, after_comment);
    }
    let last_review = max_review_id_of(&new_reviews, after_review);
    let cursor = PrCursor {
        last_head_sha: pr.head_ref_oid.clone(),
        last_comment_id: last_comment,
        last_review_id: last_review,
        last_updated: String::from_str(now),
    };
    state.pr_cursors.insert(pr_key_of(pr.repo.as_str(), pr.number), cursor);
    let label = with_decimal(joined(pr.repo.as_str(), "-pr-"), pr.number);
    let context = TaskContext::PrFeedback(
        PrFeedbackContext {
            repo: pr.repo.clone(),
            pr_number: pr.number,
            title: pr.title.clone(),
            bot_username: config.bot_username.clone(),
            comments: comment_entries(&new_comments),
            review_comments: comment_entries(&new_review_comments),
            reviews: review_entries(&new_reviews),
            attribution: config.attribution_context(),
        },
    );
    Some(
        Task {
            label,
            workflow: Workflow::PrFeedback,
            context,
            reaction: Some(ThreadRef { repo: pr.repo.clone(), number: pr.number }),
            rollback: Rollback::PrCursor { key, previous },
        },
    )
}

// ─── Mentions ─────────────────────────────────────────

/// A thread that comments are scanned in for mentions.
pub struct Thread {
    pub repo: String,
    pub number: u64,
    pub title: String,
    pub url: String,
    pub kind: ThreadKind,
}

/// How a thread came to be scanned: as a thread the authorized user opened,
/// or as a result of the mention search.
#[derive(PartialEq, Eq, Structural, Clone, Copy, Debug)]
pub enum MentionScan {
    AuthoredThread,
    Search,
}

/// An issue of the authorized user as a thread.
pub fn issue_thread(issue: &GhIssue) -> (t: Thread)
    ensures
        t.repo == issue.repo,
        t.number == issue.number,
        t.title == issue.title,
        t.url == issue.url,
        t.kind == ThreadKind::Issue,
{
    Thread {
        repo: issue.repo.clone(),
        number: issue.number,
        title: issue.title.clone(),
        url: issue.url.clone(),
        kind: ThreadKind::Issue,
    }
}

/// The web address of a pull request.
pub open spec fn pull_url(repo: Seq<char>, number: u64) -> Seq<char> {
    "https://github.com/"@ + repo + "/pull/"@ + decimal(number as nat)
}

/// A pull request of the authorized user as a thread, with its web address.
pub fn pr_thread(pr: &GhPr) -> (t: Thread)
    ensures
        t.repo == pr.repo,
        t.number == pr.number,
        t.title == pr.title,
        t.url@ == pull_url(pr.repo@, pr.number),
        t.kind == ThreadKind::PullRequest,
{
    let url = with_decimal(joined("https://github.com/", pr.repo.as_str()).concat("/pull/"), pr.number);
    Thread {
        repo: pr.repo.clone(),
        number: pr.number,
        title: pr.title.clone(),
        url,
        kind: ThreadKind::PullRequest,
    }
}

/// The kind of thread a search result is.
pub open spec fn search_kind(item: GhSearchItem) -> ThreadKind {
    if item.is_pull_request {
        ThreadKind::PullRequest
    } else {
        ThreadKind::Issue
    }
}

/// A search result as a thread: its repository derived from its address.
pub fn search_thread(item: &GhSearchItem) -> (t: Thread)
    ensures
        t.repo@ == spec_repo_from_url(item.html_url@),
        t.number == item.number,
        t.title == item.title,
        t.url == item.html_url,
        t.kind == search_kind(*item),
{
    Thread {
        repo: repo_from_url(item.html_url.as_str()),
        number: item.number,
        title: item.title.clone(),
        url: item.html_url.clone(),
        kind: if item.is_pull_request {
            ThreadKind::PullRequest
        } else {
            ThreadKind::Issue
        },
    }
}

/// The kind of thread as written in task names.
pub open spec fn kind_label(kind: ThreadKind) -> Seq<char> {
    match kind {
        ThreadKind::Issue => "issue"@,
        ThreadKind::PullRequest => "pullrequest"@,
    }
}

fn kind_label_of(kind: ThreadKind) -> (s: &'static str)
    ensures
        s@ == kind_label(kind),
{
    match kind {
        ThreadKind::Issue => "issue",
        ThreadKind::PullRequest => "pullrequest",
    }
}

/// A comment that mentions the bot and is written by the authorized user.
pub open spec fn comment_qualifies(c: GhComment, bot: Seq<char>, authorized_user: Seq<char>) -> bool {
    spec_contains_mention(c.body@, bot) && spec_is_authorized(c.author, authorized_user)
}

/// The key of a comment mention in a thread.
pub open spec fn thread_comment_key(thread: Thread, c: GhComment) -> Seq<char> {
    comment_mention_key(thread.repo@, thread.number, c.id)
}

/// The comments of a thread that become mention tasks, scanning in order: a
/// comment qualifies, and its key is neither handled before nor taken by an
/// earlier comment of the scan.
pub open spec fn mention_selection(
    handled: Map<Seq<char>, String>,
    thread: Thread,
    cs: Seq<GhComment>,
    bot: Seq<char>,
    authorized_user: Seq<char>,
) -> Seq<GhComment>
    decreases cs.len(),
{
    if cs.len() == 0 {
        Seq::empty()
    } else {
        let prev = mention_selection(handled, thread, cs.drop_last(), bot, authorized_user);
        let c = cs.last();
        let k = thread_comment_key(thread, c);
        if comment_qualifies(c, bot, authorized_user) && !handled.contains_key(k) && !prev.map_values(
            |p: GhComment| thread_comment_key(thread, p),
        ).contains(k) {
            prev.push(c)
        } else {
            prev
        }
    }
}

/// The name of a comment mention task.
pub open spec fn comment_mention_label(thread: Thread, c: GhComment, scan: MentionScan) -> Seq<char> {
    match scan {
        MentionScan::AuthoredThread => thread.repo@ + (if thread.kind == ThreadKind::Issue {
            "-auth-issue-"@
        } else {
            "-auth-pr-"@
        }) + decimal(thread.number as nat) + "-comment-"@ + decimal(c.id as nat),
        MentionScan::Search => thread.repo@ + "-"@ + kind_label(thread.kind) + "-"@ + decimal(
            thread.number as nat,
        ) + "-comment-"@ + decimal(c.id as nat),
    }
}

/// The task for a comment that mentions the bot. A thread of the authorized
/// user gets an `eyes` reaction and its mention stays recorded; a search
/// result's mention is forgotten again if the task fails.
pub open spec fn comment_mention_task(
    t: Task,
    thread: Thread,
    c: GhComment,
    scan: MentionScan,
    config: Config,
) -> bool {
    &&& t.label@ == comment_mention_label(thread, c, scan)
    &&& t.workflow == Workflow::Mention
    &&& t.context matches TaskContext::Mention(m) && {
        &&& m.repo == thread.repo
        &&& m.number == thread.number
        &&& m.title == thread.title
        &&& m.body == c.body
        &&& m.author == author_login(c.author)
        &&& m.kind == thread.kind
        &&& m.source == MentionSource::Comment
        &&& m.url == thread.url
        &&& m.bot_username == config.bot_username
        &&& attribution_for(m.attribution, config)
    }
    &&& match scan {
        MentionScan::AuthoredThread => reacts_on(t, thread.repo, thread.number) && t.rollback is Keep,
        MentionScan::Search => t.reaction is None && (t.rollback matches Rollback::Mention(k) && k@
            == thread_comment_key(thread, c)),
    }
}

fn comment_mention_task_of(thread: &Thread, c: &GhComment, scan: MentionScan, config: &Config) -> (t: Task)
    ensures
        comment_mention_task(t, *thread, *c, scan, *config),
{
    let label = match scan {
        MentionScan::AuthoredThread => {
            let head = joined(
                thread.repo.as_str(),
                match thread.kind {
                    ThreadKind::Issue => "-auth-issue-",
                    ThreadKind::PullRequest => "-auth-pr-",
                },
            );
            with_decimal(with_decimal(head, thread.number).concat("-comment-"), c.id)
        },
        MentionScan::Search => {
            let head = joined(thread.repo.as_str(), "-").concat(kind_label_of(thread.kind)).concat(
                "-",
            );
            with_decimal(with_decimal(head, thread.number).concat("-comment-"), c.id)
        },
    };
    let context = TaskContext::Mention(
        MentionContext {
            repo: thread.repo.clone(),
            number: thread.number,
            title: thread.title.clone(),
            body: c.body.clone(),
            author: login_of(&c.author),
            kind: thread.kind,
            source: MentionSource::Comment,
            url: thread.url.clone(),
            bot_username: config.bot_username.clone(),
            attribution: config.attribution_context(),
        },
    );
    match scan {
        MentionScan::AuthoredThread => Task {
            label,
            workflow: Workflow::Mention,
            context,
            reaction: Some(ThreadRef { repo: thread.repo.clone(), number: thread.number }),
            rollback: Rollback::Keep,
        },
        MentionScan::Search => Task {
            label,
            workflow: Workflow::Mention,
            context,
            reaction: None,
            rollback: Rollback::Mention(comment_mention_key_of(thread.repo.as_str(), thread.number, c.id)),
        },
    }
}

/// Only the processed mentions changed.
pub open spec fn only_mentions_changed(old: State, new: State) -> bool {
    &&& new.processed_issues@ == old.processed_issues@
    &&& new.pr_cursors@ == old.pr_cursors@
    &&& new.issue_cursors@ == old.issue_cursors@
    &&& new.processed_health@ == old.processed_health@
}

/// What scanning a thread's comments for mentions does: one task per
/// selected comment, in order, each comment's key recorded at `now`.
pub open spec fn planned_comment_mentions(
    old: State,
    new: State,
    config: Config,
    thread: Thread,
    scan: MentionScan,
    comments: Seq<GhComment>,
    now: Seq<char>,
    tasks: Seq<Task>,
) -> bool {
    let sel = mention_selection(
        old.processed_mentions@,
        thread,
        comments,
        config.bot_username@,
        config.authorized_user@,
    );
    &&& tasks.len() == sel.len()
    &&& forall|k: int|
        0 <= k < tasks.len() ==> comment_mention_task(#[trigger] tasks[k], thread, sel[k], scan, config)
    &&& recorded(
        old.processed_mentions@,
        new.processed_mentions@,
        sel.map_values(|p: GhComment| thread_comment_key(thread, p)),
        now,
    )
    &&& only_mentions_changed(old, new)
}

/// Scans a thread's comments for mentions of the bot by the authorized user:
/// each such comment not handled yet becomes a task and is recorded as
/// handled.
pub fn plan_comment_mentions(
    state: &mut State,
    config: &Config,
    thread: &Thread,
    scan: MentionScan,
    comments: &Vec<GhComment>,
    now: &str,
) -> (tasks: Vec<Task>)
    ensures
        planned_comment_mentions(*old(state), *final(state), *config, *thread, scan, comments@, now@, tasks@),
{
    let ghost old_state = *state;
    let ghost bot = config.bot_username@;
    let ghost user = config.authorized_user@;
    let ghost keyf = |p: GhComment| thread_comment_key(*thread, p);
    let mut tasks: Vec<Task> = Vec::new();
    let mut j: usize = 0;
    proof {
        assert(comments@.take(0) =~= Seq::<GhComment>::empty());
        assert(Seq::<GhComment>::empty().map_values(keyf) =~= Seq::<Seq<char>>::empty());
    }
    while j < comments.len()
        invariant
            j <= comments@.len(),
            bot == config.bot_username@,
            user == config.authorized_user@,
            keyf == (|p: GhComment| thread_comment_key(*thread, p)),
            tasks@.len() == mention_selection(old_state.processed_mentions@, *thread, comments@.take(j as int), bot, user).len(),
            forall|k: int|
                0 <= k < tasks@.len() ==> comment_mention_task(
                    #[trigger] tasks@[k],
                    *thread,
                    mention_selection(old_state.processed_mentions@, *thread, comments@.take(j as int), bot, user)[k],
                    scan,
                    *config,
                ),
            recorded(
                old_state.processed_mentions@,
                state.processed_mentions@,
                mention_selection(old_state.processed_mentions@, *thread, comments@.take(j as int), bot, user).map_values(keyf),
                now@,
            ),
            only_mentions_changed(old_state, *state),
        decreases comments.len() - j,
    {
        let ghost prefix = comments@.take(j as int);
        let ghost prev = mention_selection(old_state.processed_mentions@, *thread, prefix, bot, user);
        let c = &comments[j];
        proof {
            assert(comments@.take(j + 1).drop_last() =~= prefix);
            assert(comments@.take(j + 1).last() == comments@[j as int]);
        }
        let key = comment_mention_key_of(thread.repo.as_str(), thread.number, c.id);
        assert(key@ == keyf(*c));
        let handled = state.processed_mentions.contains_key(&key);
        proof {
            assert(handled == (old_state.processed_mentions@.contains_key(key@) || prev.map_values(keyf).contains(key@)));
        }
        if !handled && contains_mention(c.body.as_str(), config.bot_username.as_str())
            && author_is_authorized(&c.author, config) {
            let stamp = String::from_str(now);
            proof {
                lemma_map_push(prev, *c, keyf);
                lemma_recorded_push(
                    old_state.processed_mentions@,
                    state.processed_mentions@,
                    prev.map_values(keyf),
                    now@,
                    key@,
                    stamp,
                );
            }
            state.processed_mentions.insert(key, stamp);
            tasks.push(comment_mention_task_of(thread, c, scan, config));
        }
        j = j + 1;
    }
    proof {
        lemma_take_all(comments@);
    }
    tasks
}

/// The key of a search result's own text.
pub open spec fn search_body_key(item: GhSearchItem) -> Seq<char> {
    body_mention_key(spec_repo_from_url(item.html_url@), item.number)
}

/// A search result whose own text mentions the bot, written by the authorized
/// user and not handled yet.
pub open spec fn search_body_due(handled: Map<Seq<char>, String>, item: GhSearchItem, config: Config) -> bool {
    &&& !handled.contains_key(search_body_key(item))
    &&& item.body matches Some(b) && spec_contains_mention(b@, config.bot_username@)
    &&& spec_is_authorized(item.user, config.authorized_user@)
}

/// The task for a search result whose own text mentions the bot.
pub open spec fn search_body_task(t: Task, item: GhSearchItem, config: Config) -> bool {
    let repo = spec_repo_from_url(item.html_url@);
    &&& t.label@ == repo + "-"@ + kind_label(search_kind(item)) + "-"@ + decimal(item.number as nat)
        + "-body"@
    &&& t.workflow == Workflow::Mention
    &&& t.context matches TaskContext::Mention(m) && {
        &&& m.repo@ == repo
        &&& m.number == item.number
        &&& m.title == item.title
        &&& Some(m.body) == item.body
        &&& m.author == author_login(item.user)
        &&& m.kind == search_kind(item)
        &&& m.source == MentionSource::Body
        &&& m.url == item.html_url
        &&& m.bot_username == config.bot_username
        &&& attribution_for(m.attribution, config)
    }
    &&& t.reaction matches Some(r) && r.repo@ == repo && r.number == item.number
    &&& t.rollback matches Rollback::Mention(k) && k@ == search_body_key(item)
}

/// What planning a search result's own text does: a task when it is due, its
/// key recorded at `now`; otherwise nothing.
pub open spec fn planned_search_body(
    old: State,
    new: State,
    config: Config,
    item: GhSearchItem,
    now: Seq<char>,
    r: Option<Task>,
) -> bool {
    if search_body_due(old.processed_mentions@, item, config) {
        &&& r matches Some(t) && search_body_task(t, item, config)
        &&& recorded(old.processed_mentions@, new.processed_mentions@, seq![search_body_key(item)], now)
        &&& only_mentions_changed(old, new)
    } else {
        r is None && state_unchanged(old, new)
    }
}

/// Plans a search result's own text: when it mentions the bot, is written by
/// the authorized user and was not handled yet, it becomes a task and is
/// recorded as handled.
pub fn plan_search_body(state: &mut State, config: &Config, item: &GhSearchItem, now: &str) -> (r: Option<Task>)
    ensures
        planned_search_body(*old(state), *final(state), *config, *item, now@, r),
{
    let thread = search_thread(item);
    let key = body_mention_key_of(thread.repo.as_str(), thread.number);
    if state.processed_mentions.contains_key(&key) {
        return None;
    }
    let body = match &item.body {
        Some(b) => b,
        None => {
            return None;
        },
    };
    if !(contains_mention(body.as_str(), config.bot_username.as_str()) && author_is_authorized(&item.user, config)) {
        return None;
    }
    let ghost old_map = state.processed_mentions@;
    let stamp = String::from_str(now);
    proof {
        assert(recorded(old_map, old_map, Seq::<Seq<char>>::empty(), now@));
        assert(seq![key@] =~= Seq::<Seq<char>>::empty().push(key@));
        lemma_recorded_push(old_map, old_map, Seq::<Seq<char>>::empty(), now@, key@, stamp);
    }
    state.processed_mentions.insert(key, stamp);
    let label = with_decimal(
        joined(thread.repo.as_str(), "-").concat(kind_label_of(thread.kind)).concat("-"),
        thread.number,
    ).concat("-body");
    let context = TaskContext::Mention(
        MentionContext {
            repo: thread.repo.clone(),
            number: item.number,
            title: item.title.clone(),
            body: body.clone(),
            author: login_of(&item.user),
            kind: thread.kind,
            source: MentionSource::Body,
            url: item.html_url.clone(),
            bot_username: config.bot_username.clone(),
            attribution: config.attribution_context(),
        },
    );
    Some(
        Task {
            label,
            workflow: Workflow::Mention,
            context,
            reaction: Some(ThreadRef { repo: thread.repo.clone(), number: item.number }),
            rollback: Rollback::Mention(body_mention_key_of(thread.repo.as_str(), thread.number)),
        },
    )
}

// ─── Waiting between polls ────────────────────────────

/// The sleep `elapsed` seconds into a poll interval: the health check
/// interval, or what is left of the poll interval if that is shorter.
pub open spec fn spec_next_sleep(config: Config, elapsed: u64) -> u64 {
    if config.health_check_interval_secs < config.poll_interval_secs - elapsed {
        config.health_check_interval_secs
    } else {
        (config.poll_interval_secs - elapsed) as u64
    }
}

/// How long to sleep `elapsed` seconds into a poll interval: until the next
/// health check, or until the next poll if that comes first.
pub fn next_sleep(config: &Config, elapsed: u64) -> (secs: u64)
    requires
        elapsed < config.poll_interval_secs,
    ensures
        secs == spec_next_sleep(*config, elapsed),
{
    let remaining = config.poll_interval_secs - elapsed;
    if config.health_check_interval_secs < remaining {
        config.health_check_interval_secs
    } else {
        remaining
    }
}

/// Where the wait between two polls stands after sleeping `slept` seconds
/// from `elapsed`: `None` when the poll interval is used up and the next
/// poll is due, otherwise the seconds now elapsed, after which a health check
/// runs.
pub open spec fn spec_after_sleep(config: Config, elapsed: u64, slept: u64) -> Option<u64> {
    if elapsed + slept >= config.poll_interval_secs {
        None
    } else {
        Some((elapsed + slept) as u64)
    }
}

/// What follows a sleep between polls: the next poll (`None`), or a health
/// check with the seconds now elapsed.
pub fn after_sleep(config: &Config, elapsed: u64, slept: u64) -> (r: Option<u64>)
    requires
        elapsed < config.poll_interval_secs,
        slept == spec_next_sleep(*config, elapsed),
    ensures
        r == spec_after_sleep(*config, elapsed, slept),
{
    let now = elapsed + slept;
    if now >= config.poll_interval_secs {
        None
    } else {
        Some(now)
    }
}

} // verus!
