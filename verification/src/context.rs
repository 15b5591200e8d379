//! The task context handed to an agent, as plain data. It is rendered as a
//! JSON object by the caller: every struct is an object whose keys are its
//! field names (with `kind` under the key `type`), `None` is `null`, and a
//! `Vec` is an array.
use vstd::prelude::*;

verus! {

/// Whether the agent signs its posts, and with what.
pub struct AttributionContext {
    pub enabled: bool,
    pub signature: String,
}

/// A comment as the agent sees it.
pub struct CommentEntry {
    pub author: Option<String>,
    pub body: String,
}

/// A review as the agent sees it.
pub struct ReviewEntry {
    pub author: Option<String>,
    pub state: String,
    pub body: String,
}

/// Whether a thread is an issue or a pull request.
#[derive(PartialEq, Eq, Structural, Clone, Copy, Debug)]
pub enum ThreadKind {
    Issue,
    PullRequest,
}

/// Where a mention was found: the thread's own text or one of its comments.
#[derive(PartialEq, Eq, Structural, Clone, Copy, Debug)]
pub enum MentionSource {
    Body,
    Comment,
}

/// What a health check found.
#[derive(PartialEq, Eq, Structural, Clone, Copy, Debug)]
pub enum HealthKind {
    ChangesRequested,
    UnresolvedComment,
    MergeConflict,
    StaleIssue,
}

impl ThreadKind {
    /// The name of the kind of thread in a task context.
    pub fn name(&self) -> (n: &'static str)
        ensures
            n@ == match *self {
                ThreadKind::Issue => "Issue"@,
                ThreadKind::PullRequest => "PullRequest"@,
            },
    {
        match self {
            ThreadKind::Issue => "Issue",
            ThreadKind::PullRequest => "PullRequest",
        }
    }
}

impl MentionSource {
    /// The name of where a mention was found, in a task context.
    pub fn name(&self) -> (n: &'static str)
        ensures
            n@ == match *self {
                MentionSource::Body => "body"@,
                MentionSource::Comment => "comment"@,
            },
    {
        match self {
            MentionSource::Body => "body",
            MentionSource::Comment => "comment",
        }
    }
}

impl HealthKind {
    /// The name of a health problem in a task context.
    pub fn name(&self) -> (n: &'static str)
        ensures
            n@ == match *self {
                HealthKind::ChangesRequested => "changes-requested"@,
                HealthKind::UnresolvedComment => "unresolved-comment"@,
                HealthKind::MergeConflict => "merge-conflict"@,
                HealthKind::StaleIssue => "stale-issue"@,
            },
    {
        match self {
            HealthKind::ChangesRequested => "changes-requested",
            HealthKind::UnresolvedComment => "unresolved-comment",
            HealthKind::MergeConflict => "merge-conflict",
            HealthKind::StaleIssue => "stale-issue",
        }
    }

    /// The key under which a health context gives its number: a stale issue
    /// is an issue, every other problem is on a pull request.
    pub fn number_key(&self) -> (k: &'static str)
        ensures
            k@ == if *self == HealthKind::StaleIssue {
                "issue_number"@
            } else {
                "pr_number"@
            },
    {
        match self {
            HealthKind::StaleIssue => "issue_number",
            _ => "pr_number",
        }
    }
}

/// An issue assigned to the bot by the authorized user.
pub struct NewIssueContext {
    pub repo: String,
    pub issue_number: u64,
    pub title: String,
    pub body: String,
    pub author: Option<String>,
    pub bot_username: String,
    pub attribution: AttributionContext,
}

/// New comments of the authorized user on an issue the bot opened.
pub struct IssueCommentsContext {
    pub repo: String,
    pub number: u64,
    pub title: String,
    pub author: Option<String>,
    pub url: String,
    pub body: String,
    pub comments: Vec<CommentEntry>,
    pub attribution: AttributionContext,
}

/// New feedback of the authorized user on a pull request of the bot.
pub struct PrFeedbackContext {
    pub repo: String,
    pub pr_number: u64,
    pub title: String,
    pub bot_username: String,
    pub comments: Vec<CommentEntry>,
    pub review_comments: Vec<CommentEntry>,
    pub reviews: Vec<ReviewEntry>,
    pub attribution: AttributionContext,
}

/// A mention of the bot by the authorized user.
pub struct MentionContext {
    pub repo: String,
    pub number: u64,
    pub title: String,
    pub body: String,
    pub author: Option<String>,
    pub kind: ThreadKind,
    pub source: MentionSource,
    pub url: String,
    pub bot_username: String,
    pub attribution: AttributionContext,
}

/// A problem that a health check found. `number` is the pull request's number
/// (key `pr_number`) or, for a stale issue, the issue's (key `issue_number`).
pub struct HealthContext {
    pub repo: String,
    pub number: u64,
    pub title: String,
    pub kind: HealthKind,
    pub details: String,
    pub bot_username: String,
}

/// The context of one agent task.
pub enum TaskContext {
    NewIssue(NewIssueContext),
    IssueComments(IssueCommentsContext),
    PrFeedback(PrFeedbackContext),
    Mention(MentionContext),
    Health(HealthContext),
}

} // verus!
