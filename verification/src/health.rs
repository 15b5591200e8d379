//! Health checks: follow-ups on the bot's open pull requests and on assigned
//! issues that stay open, each problem followed up once.
use vstd::prelude::*;
use vstd::string::*;

use crate::config::Config;
use crate::context::{HealthContext, HealthKind, TaskContext};
use crate::github::{author_is_authorized, spec_is_authorized, GhComment, GhIssue, GhPr, GhReview};
use crate::poll::state_unchanged;
use crate::state::State;
use crate::tasks::{
    issue_key, issue_key_of, joined, lemma_recorded_push, pr_key, pr_key_of, recorded, with_decimal,
    Rollback, Task, Workflow,
};
use crate::text::{decimal, replace_all, replace_text};

verus! {

/// Only the processed health problems changed.
pub open spec fn only_health_changed(old: State, new: State) -> bool {
    &&& new.processed_issues@ == old.processed_issues@
    &&& new.pr_cursors@ == old.pr_cursors@
    &&& new.processed_mentions@ == old.processed_mentions@
    &&& new.issue_cursors@ == old.issue_cursors@
}

/// `repo` with every `/` made a `-`, as written in health task names.
pub open spec fn dashed(repo: Seq<char>) -> Seq<char> {
    replace_all(repo, "/"@, "-"@)
}

fn dashed_of(repo: &str) -> (s: String)
    ensures
        s@ == dashed(repo@),
{
    proof {
        reveal_strlit("/");
    }
    replace_text(repo, "/", "-")
}

/// The task for a health problem: the health-check workflow with the
/// problem's details.
pub open spec fn health_task(
    t: Task,
    label: Seq<char>,
    repo: String,
    number: u64,
    title: String,
    kind: HealthKind,
    details: Seq<char>,
    config: Config,
) -> bool {
    &&& t.label@ == label
    &&& t.workflow == Workflow::HealthCheck
    &&& t.context matches TaskContext::Health(h) && {
        &&& h.repo == repo
        &&& h.number == number
        &&& h.title == title
        &&& h.kind == kind
        &&& h.details@ == details
        &&& h.bot_username == config.bot_username
    }
    &&& t.reaction is None
}

fn health_task_of(
    label: String,
    repo: &String,
    number: u64,
    title: &String,
    kind: HealthKind,
    details: String,
    key: String,
    config: &Config,
) -> (t: Task)
    ensures
        health_task(t, label@, *repo, number, *title, kind, details@, *config),
        t.rollback == Rollback::Health(key),
{
    Task {
        label,
        workflow: Workflow::HealthCheck,
        context: TaskContext::Health(
            HealthContext {
                repo: repo.clone(),
                number,
                title: title.clone(),
                kind,
                details,
                bot_username: config.bot_username.clone(),
            },
        ),
        reaction: None,
        rollback: Rollback::Health(key),
    }
}

/// What following up a problem under `key` does: when `found` and the key is
/// not handled yet, a task satisfying `task_ok` and the key recorded at `now`;
/// otherwise nothing. A failed task releases the key, so the problem is
/// detected again.
pub open spec fn followed_up(
    old: State,
    new: State,
    found: bool,
    key: Seq<char>,
    now: Seq<char>,
    r: Option<Task>,
    task_ok: spec_fn(Task) -> bool,
) -> bool {
    if found && !old.processed_health@.contains_key(key) {
        &&& r matches Some(t) && task_ok(t) && (t.rollback matches Rollback::Health(k) && k@ == key)
        &&& recorded(old.processed_health@, new.processed_health@, seq![key], now)
        &&& only_health_changed(old, new)
    } else {
        r is None && state_unchanged(old, new)
    }
}

/// Records `key` as a handled health problem at `now`.
fn record_health(state: &mut State, key: &String, now: &str)
    requires
        !old(state).processed_health@.contains_key(key@),
    ensures
        recorded(old(state).processed_health@, final(state).processed_health@, seq![key@], now@),
        only_health_changed(*old(state), *final(state)),
{
    let ghost old_map = state.processed_health@;
    let stamp = String::from_str(now);
    proof {
        assert(seq![key@] =~= Seq::<Seq<char>>::empty().push(key@));
        lemma_recorded_push(old_map, old_map, Seq::<Seq<char>>::empty(), now@, key@, stamp);
    }
    state.processed_health.insert(key.clone(), stamp);
}

// ─── Changes requested ────────────────────────────────

/// A review of the authorized user that requests changes.
pub open spec fn requests_changes(r: GhReview, authorized_user: Seq<char>) -> bool {
    r.state@ == "CHANGES_REQUESTED"@ && spec_is_authorized(r.user, authorized_user)
}

/// The key of a pull request's requested changes.
pub open spec fn changes_requested_key(pr: GhPr) -> Seq<char> {
    pr_key(pr.repo@, pr.number) + "-changes-requested"@
}

/// The details given for requested changes.
pub open spec fn changes_requested_details() -> Seq<char> {
    "The authorized user left a CHANGES_REQUESTED review on this PR. The PR needs updates before it can be merged."@
}

/// What checking a pull request's reviews does.
pub open spec fn planned_changes_requested(
    old: State,
    new: State,
    config: Config,
    pr: GhPr,
    reviews: Seq<GhReview>,
    now: Seq<char>,
    r: Option<Task>,
) -> bool {
    followed_up(
        old,
        new,
        exists|k: int| 0 <= k < reviews.len() && requests_changes(reviews[k], config.authorized_user@),
        changes_requested_key(pr),
        now,
        r,
        |t: Task|
            health_task(
                t,
                dashed(pr.repo@) + "-health-pr-"@ + decimal(pr.number as nat) + "-cr"@,
                pr.repo,
                pr.number,
                pr.title,
                HealthKind::ChangesRequested,
                changes_requested_details(),
                config,
            ),
    )
}

/// Follows up a pull request on which the authorized user requested changes,
/// once.
pub fn plan_changes_requested(
    state: &mut State,
    config: &Config,
    pr: &GhPr,
    reviews: &Vec<GhReview>,
    now: &str,
) -> (r: Option<Task>)
    ensures
        planned_changes_requested(*old(state), *final(state), *config, *pr, reviews@, now@, r),
{
    let ghost user = config.authorized_user@;
    proof {
        reveal_strlit("CHANGES_REQUESTED");
    }
    let marker = String::from_str("CHANGES_REQUESTED");
    let mut found = false;
    let mut j: usize = 0;
    while j < reviews.len()
        invariant
            j <= reviews@.len(),
            user == config.authorized_user@,
            marker@ == "CHANGES_REQUESTED"@,
            found == exists|k: int| 0 <= k < j && requests_changes(reviews@[k], user),
        decreases reviews.len() - j,
    {
        let r = &reviews[j];
        if r.state == marker && author_is_authorized(&r.user, config) {
            found = true;
        }
        j = j + 1;
    }
    let key = pr_key_of(pr.repo.as_str(), pr.number).concat("-changes-requested");
    if !found || state.processed_health.contains_key(&key) {
        return None;
    }
    record_health(state, &key, now);
    let label = with_decimal(joined(dashed_of(pr.repo.as_str()).as_str(), "-health-pr-"), pr.number)
        .concat("-cr");
    let details = String::from_str(
        "The authorized user left a CHANGES_REQUESTED review on this PR. The PR needs updates before it can be merged.",
    );
    Some(health_task_of(label, &pr.repo, pr.number, &pr.title, HealthKind::ChangesRequested, details, key, config))
}

// ─── Unanswered comment ───────────────────────────────

/// The comments of the authorized user, in order.
pub open spec fn authorized_comments(cs: Seq<GhComment>, authorized_user: Seq<char>) -> Seq<GhComment> {
    cs.filter(|c: GhComment| spec_is_authorized(c.author, authorized_user))
}

/// The bot replied after the comment with id `id`.
pub open spec fn bot_replied_after(cs: Seq<GhComment>, id: u64, bot: Seq<char>) -> bool {
    exists|k: int| 0 <= k < cs.len() && cs[k].id > id && spec_is_authorized(cs[k].author, bot)
}

/// The key of an unanswered comment.
pub open spec fn unresolved_key(pr: GhPr, id: u64) -> Seq<char> {
    pr_key(pr.repo@, pr.number) + "-unresolved-"@ + decimal(id as nat)
}

/// The details given for an unanswered comment.
pub open spec fn unresolved_details(c: GhComment) -> Seq<char> {
    "The authorized user left a comment (id "@ + decimal(c.id as nat)
        + ") on this PR that has not been answered:\n\n"@ + c.body@
}

/// What checking a pull request's conversation does: the last comment of the
/// authorized user, unless the bot replied after it, is followed up once.
pub open spec fn planned_unresolved_comment(
    old: State,
    new: State,
    config: Config,
    pr: GhPr,
    comments: Seq<GhComment>,
    now: Seq<char>,
    r: Option<Task>,
) -> bool {
    let auth = authorized_comments(comments, config.authorized_user@);
    if auth.len() == 0 {
        r is None && state_unchanged(old, new)
    } else {
        let last = auth.last();
        followed_up(
            old,
            new,
            !bot_replied_after(comments, last.id, config.bot_username@),
            unresolved_key(pr, last.id),
            now,
            r,
            |t: Task|
                health_task(
                    t,
                    dashed(pr.repo@) + "-health-pr-"@ + decimal(pr.number as nat) + "-uc"@,
                    pr.repo,
                    pr.number,
                    pr.title,
                    HealthKind::UnresolvedComment,
                    unresolved_details(last),
                    config,
                ),
        )
    }
}

/// Follows up, once, the last comment of the authorized user on a pull
/// request when the bot has not replied after it.
pub fn plan_unresolved_comment(
    state: &mut State,
    config: &Config,
    pr: &GhPr,
    comments: &Vec<GhComment>,
    now: &str,
) -> (r: Option<Task>)
    ensures
        planned_unresolved_comment(*old(state), *final(state), *config, *pr, comments@, now@, r),
{
    let ghost user = config.authorized_user@;
    let ghost pred = |c: GhComment| spec_is_authorized(c.author, user);
    let mut last: Option<usize> = None;
    let mut j: usize = 0;
    proof {
        reveal(Seq::filter);
        assert(comments@.take(0).filter(pred) =~= Seq::<GhComment>::empty());
    }
    while j < comments.len()
        invariant
            j <= comments@.len(),
            user == config.authorized_user@,
            pred == (|c: GhComment| spec_is_authorized(c.author, user)),
            match last {
                Some(i) => i < j && comments@.take(j as int).filter(pred).len() > 0 && comments@.take(
                    j as int,
                ).filter(pred).last() == comments@[i as int],
                None => comments@.take(j as int).filter(pred).len() == 0,
            },
        decreases comments.len() - j,
    {
        proof {
            crate::tasks::lemma_filter_take_step(comments@, pred, j as int);
        }
        if author_is_authorized(&comments[j].author, config) {
            last = Some(j);
        }
        j = j + 1;
    }
    proof {
        crate::tasks::lemma_take_all(comments@);
    }
    let i = match last {
        Some(i) => i,
        None => {
            return None;
        },
    };
    let last_comment = &comments[i];
    let mut replied = false;
    let mut j: usize = 0;
    while j < comments.len()
        invariant
            j <= comments@.len(),
            replied == exists|k: int|
                0 <= k < j && comments@[k].id > last_comment.id && spec_is_authorized(
                    comments@[k].author,
                    config.bot_username@,
                ),
        decreases comments.len() - j,
    {
        let c = &comments[j];
        if c.id > last_comment.id && match &c.author {
            Some(a) => a.login == config.bot_username,
            None => false,
        } {
            replied = true;
        }
        j = j + 1;
    }
    if replied {
        return None;
    }
    let key = with_decimal(pr_key_of(pr.repo.as_str(), pr.number).concat("-unresolved-"), last_comment.id);
    if state.processed_health.contains_key(&key) {
        return None;
    }
    record_health(state, &key, now);
    let label = with_decimal(joined(dashed_of(pr.repo.as_str()).as_str(), "-health-pr-"), pr.number)
        .concat("-uc");
    let details = with_decimal(String::from_str("The authorized user left a comment (id "), last_comment.id)
        .concat(") on this PR that has not been answered:\n\n").concat(last_comment.body.as_str());
    Some(health_task_of(label, &pr.repo, pr.number, &pr.title, HealthKind::UnresolvedComment, details, key, config))
}

// ─── Merge conflicts ──────────────────────────────────

/// Whether a pull request can be merged, as GitHub reports it.
pub struct Mergeability {
    pub mergeable: Option<String>,
    pub merge_state_status: Option<String>,
}

/// A pull request that cannot be merged as it is: its merge state is `DIRTY`
/// or `BLOCKED`, or it is `CONFLICTING`.
pub open spec fn spec_is_conflicted(m: Mergeability) -> bool {
    ||| (m.merge_state_status matches Some(s) && s@ == "DIRTY"@)
    ||| (m.merge_state_status matches Some(s) && s@ == "BLOCKED"@)
    ||| (m.mergeable matches Some(s) && s@ == "CONFLICTING"@)
}

fn text_is(s: &Option<String>, lit: &str) -> (r: bool)
    ensures
        r == (s matches Some(x) && x@ == lit@),
{
    match s {
        Some(x) => *x == String::from_str(lit),
        None => false,
    }
}

/// Whether the pull request has a merge conflict to resolve.
pub fn is_conflicted(m: &Mergeability) -> (r: bool)
    ensures
        r == spec_is_conflicted(*m),
{
    text_is(&m.merge_state_status, "DIRTY") || text_is(&m.merge_state_status, "BLOCKED") || text_is(
        &m.mergeable,
        "CONFLICTING",
    )
}

/// The `Debug` rendering of an optional string (`None`, or `Some("...")` with
/// the string escaped).
pub uninterp spec fn debug_rendering(o: Option<Seq<char>>) -> Seq<char>;

/// `format!("{:?}", o)` of std on an optional string: its `Debug` rendering.
/// The result is named, not described.
#[verifier::external_body]
fn debug_text(o: &Option<String>) -> (s: String)
    ensures
        s@ == debug_rendering(crate::text::opt_view(*o)),
{
    format!("{:?}", o)
}

/// The key of a pull request's merge conflict.
pub open spec fn merge_conflict_key(pr: GhPr) -> Seq<char> {
    pr_key(pr.repo@, pr.number) + "-merge-conflict"@
}

/// The details given for a merge conflict.
pub open spec fn merge_conflict_details(m: Mergeability) -> Seq<char> {
    "This PR has merge conflicts against the base branch (mergeStateStatus: "@ + debug_rendering(
        crate::text::opt_view(m.merge_state_status),
    ) + ", mergeable: "@ + debug_rendering(crate::text::opt_view(m.mergeable))
        + "). It needs a rebase."@
}

/// What checking a pull request's mergeability does.
pub open spec fn planned_merge_conflict(
    old: State,
    new: State,
    config: Config,
    pr: GhPr,
    m: Mergeability,
    now: Seq<char>,
    r: Option<Task>,
) -> bool {
    followed_up(
        old,
        new,
        spec_is_conflicted(m),
        merge_conflict_key(pr),
        now,
        r,
        |t: Task|
            health_task(
                t,
                dashed(pr.repo@) + "-health-pr-"@ + decimal(pr.number as nat) + "-mc"@,
                pr.repo,
                pr.number,
                pr.title,
                HealthKind::MergeConflict,
                merge_conflict_details(m),
                config,
            ),
    )
}

/// Follows up a pull request with a merge conflict, once.
pub fn plan_merge_conflict(
    state: &mut State,
    config: &Config,
    pr: &GhPr,
    m: &Mergeability,
    now: &str,
) -> (r: Option<Task>)
    ensures
        planned_merge_conflict(*old(state), *final(state), *config, *pr, *m, now@, r),
{
    if !is_conflicted(m) {
        return None;
    }
    let key = pr_key_of(pr.repo.as_str(), pr.number).concat("-merge-conflict");
    if state.processed_health.contains_key(&key) {
        return None;
    }
    record_health(state, &key, now);
    let label = with_decimal(joined(dashed_of(pr.repo.as_str()).as_str(), "-health-pr-"), pr.number)
        .concat("-mc");
    let details = String::from_str("This PR has merge conflicts against the base branch (mergeStateStatus: ")
        .concat(debug_text(&m.merge_state_status).as_str()).concat(", mergeable: ").concat(
        debug_text(&m.mergeable).as_str(),
    ).concat("). It needs a rebase.");
    Some(health_task_of(label, &pr.repo, pr.number, &pr.title, HealthKind::MergeConflict, details, key, config))
}

// ─── Stale assigned issues ────────────────────────────

/// The details given for a stale issue.
pub open spec fn stale_issue_details(issue: GhIssue) -> Seq<char> {
    "This issue was assigned to you and a task was launched, but the issue is still open.\nIssue body:\n\n"@
        + issue.body@
}

/// The seconds since the Unix epoch of an RFC 3339 date and time, when the
/// text is one.
pub uninterp spec fn rfc3339_seconds(s: Seq<char>) -> Option<i64>;

/// `chrono::DateTime::parse_from_rfc3339` of `s`, read as the number of
/// seconds since the Unix epoch (`DateTime::timestamp`): `None` when `s` is
/// not an RFC 3339 date and time. The result is named, not described.
#[verifier::external_body]
fn parse_rfc3339_seconds(s: &str) -> (r: Option<i64>)
    ensures
        r == rfc3339_seconds(s@),
{
    chrono::DateTime::parse_from_rfc3339(s).ok().map(|d| d.timestamp())
}

/// Work recorded at `launched` is still within the grace period at `now`:
/// both times can be read and less than `grace` seconds lie between them.
/// Work whose age cannot be read is not held back.
pub open spec fn within_grace(launched: Seq<char>, now: Seq<char>, grace: u64) -> bool {
    match (rfc3339_seconds(launched), rfc3339_seconds(now)) {
        (Some(a), Some(b)) => b - a < grace,
        _ => false,
    }
}

/// Whether work recorded at `launched` is still within the grace period of
/// `grace` seconds at `now`.
pub fn is_within_grace(launched: &str, now: &str, grace: u64) -> (r: bool)
    ensures
        r == within_grace(launched@, now@, grace),
{
    match (parse_rfc3339_seconds(launched), parse_rfc3339_seconds(now)) {
        (Some(a), Some(b)) => (b as i128) - (a as i128) < grace as i128,
        _ => false,
    }
}

/// What checking an assigned issue does: an issue of the authorized user
/// whose task was launched, that is still open and whose task was launched
/// at least the grace period ago, is followed up once (under its issue key).
pub open spec fn planned_stale_issue(
    old: State,
    new: State,
    config: Config,
    issue: GhIssue,
    now: Seq<char>,
    r: Option<Task>,
) -> bool {
    let key = issue_key(issue.repo@, issue.number);
    followed_up(
        old,
        new,
        spec_is_authorized(issue.author, config.authorized_user@) && old.processed_issues@.contains_key(
            key,
        ) && !within_grace(
            old.processed_issues@[key]@,
            now,
            config.health_check_grace_period_secs,
        ),
        key,
        now,
        r,
        |t: Task|
            health_task(
                t,
                dashed(issue.repo@) + "-health-issue-"@ + decimal(issue.number as nat),
                issue.repo,
                issue.number,
                issue.title,
                HealthKind::StaleIssue,
                stale_issue_details(issue),
                config,
            ),
    )
}

/// Follows up, once, an assigned issue whose task was launched at least the
/// grace period ago but that is still open.
pub fn plan_stale_issue(state: &mut State, config: &Config, issue: &GhIssue, now: &str) -> (r: Option<Task>)
    ensures
        planned_stale_issue(*old(state), *final(state), *config, *issue, now@, r),
{
    let key = issue_key_of(issue.repo.as_str(), issue.number);
    if !author_is_authorized(&issue.author, config) {
        return None;
    }
    let recent = match state.processed_issues.get(&key) {
        Some(launched) => is_within_grace(launched.as_str(), now, config.health_check_grace_period_secs),
        None => {
            return None;
        },
    };
    if recent {
        return None;
    }
    if state.processed_health.contains_key(&key) {
        return None;
    }
    record_health(state, &key, now);
    let label = with_decimal(joined(dashed_of(issue.repo.as_str()).as_str(), "-health-issue-"), issue.number);
    let details = String::from_str(
        "This issue was assigned to you and a task was launched, but the issue is still open.\nIssue body:\n\n",
    ).concat(issue.body.as_str());
    Some(
        health_task_of(
            label,
            &issue.repo,
            issue.number,
            &issue.title,
            HealthKind::StaleIssue,
            details,
            key,
            config,
        ),
    )
}

} // verus!
