//! Agent tasks: what is launched for an event, under which key the event is
//! recorded as handled, and what is undone when the task fails.
use vstd::prelude::*;
use vstd::string::*;

use crate::config::{author_placeholder, Config};
use crate::context::{AttributionContext, CommentEntry, ReviewEntry, TaskContext};
use crate::github::{GhAuthor, GhComment, GhReview};
use crate::state::{PrCursor, State};
use crate::text::{decimal, push_decimal, replace_all};

verus! {

// ─── Keys of the processing state ─────────────────────

/// Key of an issue: `{repo}/issues#{number}`.
pub open spec fn issue_key(repo: Seq<char>, number: u64) -> Seq<char> {
    repo + "/issues#"@ + decimal(number as nat)
}

/// Key of a pull request: `{repo}/prs#{number}`.
pub open spec fn pr_key(repo: Seq<char>, number: u64) -> Seq<char> {
    repo + "/prs#"@ + decimal(number as nat)
}

/// Key of a comment mention: `{repo}#{number}#comment-{id}`.
pub open spec fn comment_mention_key(repo: Seq<char>, number: u64, id: u64) -> Seq<char> {
    repo + "#"@ + decimal(number as nat) + "#comment-"@ + decimal(id as nat)
}

/// Key of a mention in a thread's own text: `{repo}#{number}#body`.
pub open spec fn body_mention_key(repo: Seq<char>, number: u64) -> Seq<char> {
    repo + "#"@ + decimal(number as nat) + "#body"@
}

/// `head` followed by the decimal rendering of `n`.
pub fn with_decimal(head: String, n: u64) -> (s: String)
    ensures
        s@ == head@ + decimal(n as nat),
{
    let mut s = head;
    push_decimal(&mut s, n as u128);
    s
}

/// `a` followed by `b`.
pub fn joined(a: &str, b: &str) -> (s: String)
    ensures
        s@ == a@ + b@,
{
    String::from_str(a).concat(b)
}

/// The key of an issue.
pub fn issue_key_of(repo: &str, number: u64) -> (k: String)
    ensures
        k@ == issue_key(repo@, number),
{
    with_decimal(joined(repo, "/issues#"), number)
}

/// The key of a pull request.
pub fn pr_key_of(repo: &str, number: u64) -> (k: String)
    ensures
        k@ == pr_key(repo@, number),
{
    with_decimal(joined(repo, "/prs#"), number)
}

/// The key of a comment mention.
pub fn comment_mention_key_of(repo: &str, number: u64, id: u64) -> (k: String)
    ensures
        k@ == comment_mention_key(repo@, number, id),
{
    let k = with_decimal(joined(repo, "#"), number);
    let k = with_decimal(k.concat("#comment-"), id);
    k
}

/// The key of a mention in a thread's own text.
pub fn body_mention_key_of(repo: &str, number: u64) -> (k: String)
    ensures
        k@ == body_mention_key(repo@, number),
{
    with_decimal(joined(repo, "#"), number).concat("#body")
}

// ─── Tasks ────────────────────────────────────────────

/// The workflow file an agent follows.
#[derive(PartialEq, Eq, Structural, Clone, Copy, Debug)]
pub enum Workflow {
    NewIssue,
    Mention,
    PrFeedback,
    HealthCheck,
}

/// The name of a workflow's file, without the `.md` extension.
pub open spec fn workflow_name(w: Workflow) -> Seq<char> {
    match w {
        Workflow::NewIssue => "new-issue"@,
        Workflow::Mention => "mention"@,
        Workflow::PrFeedback => "pr-feedback"@,
        Workflow::HealthCheck => "health-check"@,
    }
}

impl Workflow {
    /// The name of the workflow's file, without the `.md` extension.
    pub fn name(&self) -> (n: &'static str)
        ensures
            n@ == workflow_name(*self),
    {
        match self {
            Workflow::NewIssue => "new-issue",
            Workflow::Mention => "mention",
            Workflow::PrFeedback => "pr-feedback",
            Workflow::HealthCheck => "health-check",
        }
    }
}

/// What is undone in the processing state when a task fails.
pub enum Rollback {
    /// Nothing: the event stays recorded.
    Keep,
    /// The issue key is removed from the processed issues.
    Issue(String),
    /// The mention key is removed from the processed mentions.
    Mention(String),
    /// The pull request's cursor is put back as it was (removed if there was
    /// none).
    PrCursor { key: String, previous: Option<PrCursor> },
    /// The health key is removed from the processed health problems, so the
    /// problem is detected again.
    Health(String),
}

impl Rollback {
    /// Whether the task's outcome changes the state, which is then saved.
    pub fn records_outcome(&self) -> (r: bool)
        ensures
            r == !(*self is Keep),
    {
        match self {
            Rollback::Keep => false,
            _ => true,
        }
    }
}

/// An issue or pull request, by repository and number.
pub struct ThreadRef {
    pub repo: String,
    pub number: u64,
}

/// One agent task: the name of its task directory, the workflow it follows,
/// its context, the thread that gets an `eyes` reaction before it starts, and
/// what is undone if it fails.
pub struct Task {
    pub label: String,
    pub workflow: Workflow,
    pub context: TaskContext,
    pub reaction: Option<ThreadRef>,
    pub rollback: Rollback,
}

/// The task's reaction is on `repo`'s thread `number`.
pub open spec fn reacts_on(t: Task, repo: String, number: u64) -> bool {
    t.reaction matches Some(r) && r.repo == repo && r.number == number
}

/// The state after a task with this rollback finished, successfully or not.
pub open spec fn state_after_finish(old: State, new: State, rollback: Rollback, success: bool) -> bool {
    let undone = if success {
        Rollback::Keep
    } else {
        rollback
    };
    &&& new.issue_cursors@ == old.issue_cursors@
    &&& new.processed_issues@ == match undone {
        Rollback::Issue(k) => old.processed_issues@.remove(k@),
        _ => old.processed_issues@,
    }
    &&& new.processed_mentions@ == match undone {
        Rollback::Mention(k) => old.processed_mentions@.remove(k@),
        _ => old.processed_mentions@,
    }
    &&& new.pr_cursors@ == match undone {
        Rollback::PrCursor { key, previous } => match previous {
            Some(c) => old.pr_cursors@.insert(key@, c),
            None => old.pr_cursors@.remove(key@),
        },
        _ => old.pr_cursors@,
    }
    &&& new.processed_health@ == match undone {
        Rollback::Health(k) => old.processed_health@.remove(k@),
        _ => old.processed_health@,
    }
}

/// Records the outcome of a finished task: a success keeps the state, a
/// failure undoes what the rollback names, so the event is handled again.
pub fn finish_task(state: &mut State, rollback: Rollback, success: bool)
    ensures
        state_after_finish(*old(state), *final(state), rollback, success),
{
    if success {
        return;
    }
    match rollback {
        Rollback::Keep => {},
        Rollback::Issue(k) => {
            state.processed_issues.remove(&k);
        },
        Rollback::Mention(k) => {
            state.processed_mentions.remove(&k);
        },
        Rollback::PrCursor { key, previous } => {
            match previous {
                Some(c) => {
                    state.pr_cursors.insert(key, c);
                },
                None => {
                    state.pr_cursors.remove(&key);
                },
            }
        },
        Rollback::Health(k) => {
            state.processed_health.remove(&k);
        },
    }
}

// ─── Sequences ────────────────────────────────────────

/// One more element of `s` run through `filter`.
pub proof fn lemma_filter_take_step<A>(s: Seq<A>, pred: spec_fn(A) -> bool, j: int)
    requires
        0 <= j < s.len(),
    ensures
        s.take(j + 1).filter(pred) == (if pred(s[j]) {
            s.take(j).filter(pred).push(s[j])
        } else {
            s.take(j).filter(pred)
        }),
{
    reveal(Seq::filter);
    assert(s.take(j + 1).drop_last() =~= s.take(j));
    assert(s.take(j + 1).last() == s[j]);
}

/// The whole of `s` taken.
pub proof fn lemma_take_all<A>(s: Seq<A>)
    ensures
        s.take(s.len() as int) == s,
{
    assert(s.take(s.len() as int) =~= s);
}

/// `map_values` of a sequence with one more element.
pub proof fn lemma_map_push<A, B>(s: Seq<A>, x: A, f: spec_fn(A) -> B)
    ensures
        s.push(x).map_values(f) == s.map_values(f).push(f(x)),
{
    assert(s.push(x).map_values(f) =~= s.map_values(f).push(f(x)));
}

/// Membership in a sequence with one more element.
pub proof fn lemma_push_contains<A>(s: Seq<A>, x: A, y: A)
    ensures
        s.push(x).contains(y) <==> (s.contains(y) || y == x),
{
    if s.contains(y) {
        let i = choose|i: int| 0 <= i < s.len() && s[i] == y;
        assert(s.push(x)[i] == y);
    }
    if y == x {
        assert(s.push(x)[s.len() as int] == y);
    }
    if s.push(x).contains(y) {
        let i = choose|i: int| 0 <= i < s.push(x).len() && s.push(x)[i] == y;
        if i < s.len() {
            assert(s[i] == y);
        }
    }
}

/// `new` is `old` with every key of `keys` recorded at `now`.
pub open spec fn recorded(
    old: Map<Seq<char>, String>,
    new: Map<Seq<char>, String>,
    keys: Seq<Seq<char>>,
    now: Seq<char>,
) -> bool {
    &&& forall|k: Seq<char>| #[trigger]
        new.contains_key(k) <==> (old.contains_key(k) || keys.contains(k))
    &&& forall|k: Seq<char>| #[trigger]
        new.contains_key(k) && keys.contains(k) ==> new[k]@ == now
    &&& forall|k: Seq<char>| #[trigger]
        new.contains_key(k) && !keys.contains(k) ==> new[k] == old[k]
}

/// Recording one more key.
pub proof fn lemma_recorded_push(
    old: Map<Seq<char>, String>,
    mid: Map<Seq<char>, String>,
    keys: Seq<Seq<char>>,
    now: Seq<char>,
    key: Seq<char>,
    v: String,
)
    requires
        recorded(old, mid, keys, now),
        v@ == now,
    ensures
        recorded(old, mid.insert(key, v), keys.push(key), now),
{
    let new = mid.insert(key, v);
    assert forall|k: Seq<char>| #[trigger]
        new.contains_key(k) <==> (old.contains_key(k) || keys.push(key).contains(k)) by {
        lemma_push_contains(keys, key, k);
    }
    assert forall|k: Seq<char>| #[trigger]
        new.contains_key(k) && keys.push(key).contains(k) implies new[k]@ == now by {
        lemma_push_contains(keys, key, k);
    }
    assert forall|k: Seq<char>| #[trigger]
        new.contains_key(k) && !keys.push(key).contains(k) implies new[k] == old[k] by {
        lemma_push_contains(keys, key, k);
    }
}

// ─── Pieces of contexts ───────────────────────────────

/// The login of an optional author.
pub open spec fn author_login(a: Option<GhAuthor>) -> Option<String> {
    match a {
        Some(x) => Some(x.login),
        None => None,
    }
}

/// The login of an optional author.
pub fn login_of(a: &Option<GhAuthor>) -> (r: Option<String>)
    ensures
        r == author_login(*a),
{
    match a {
        Some(x) => Some(x.login.clone()),
        None => None,
    }
}

/// The attribution part of a context, for the configuration.
pub open spec fn attribution_for(a: AttributionContext, config: Config) -> bool {
    &&& a.enabled == config.attribution.enabled
    &&& a.signature@ == replace_all(
        config.attribution.text@,
        author_placeholder(),
        config.authorized_user@,
    )
}

/// A comment as shown to the agent.
pub open spec fn entry_of(e: CommentEntry, c: GhComment) -> bool {
    e.author == author_login(c.author) && e.body == c.body
}

/// Comments as shown to the agent, in order.
pub open spec fn entries_of(es: Seq<CommentEntry>, cs: Seq<GhComment>) -> bool {
    es.len() == cs.len() && forall|k: int| 0 <= k < cs.len() ==> entry_of(#[trigger] es[k], cs[k])
}

/// A review as shown to the agent.
pub open spec fn review_entry_of(e: ReviewEntry, r: GhReview) -> bool {
    e.author == author_login(r.user) && e.state == r.state && e.body == r.body
}

/// Reviews as shown to the agent, in order.
pub open spec fn review_entries_of(es: Seq<ReviewEntry>, rs: Seq<GhReview>) -> bool {
    es.len() == rs.len() && forall|k: int|
        0 <= k < rs.len() ==> review_entry_of(#[trigger] es[k], rs[k])
}

/// The comments as shown to the agent.
pub fn comment_entries(cs: &Vec<GhComment>) -> (es: Vec<CommentEntry>)
    ensures
        entries_of(es@, cs@),
{
    let mut es: Vec<CommentEntry> = Vec::new();
    let mut i: usize = 0;
    while i < cs.len()
        invariant
            i <= cs.len(),
            es@.len() == i,
            forall|k: int| 0 <= k < i ==> entry_of(#[trigger] es@[k], cs@[k]),
        decreases cs.len() - i,
    {
        let c = &cs[i];
        es.push(CommentEntry { author: login_of(&c.author), body: c.body.clone() });
        i = i + 1;
    }
    es
}

/// The reviews as shown to the agent.
pub fn review_entries(rs: &Vec<GhReview>) -> (es: Vec<ReviewEntry>)
    ensures
        review_entries_of(es@, rs@),
{
    let mut es: Vec<ReviewEntry> = Vec::new();
    let mut i: usize = 0;
    while i < rs.len()
        invariant
            i <= rs.len(),
            es@.len() == i,
            forall|k: int| 0 <= k < i ==> review_entry_of(#[trigger] es@[k], rs@[k]),
        decreases rs.len() - i,
    {
        let r = &rs[i];
        es.push(
            ReviewEntry { author: login_of(&r.user), state: r.state.clone(), body: r.body.clone() },
        );
        i = i + 1;
    }
    es
}

} // verus!
