//! GitHub data as the bot reads it, the `gh` invocations that fetch it, and
//! the text rules applied to it: repositories from URLs, authorization and
//! mentions.
use vstd::prelude::*;
use vstd::string::*;

use crate::config::Config;
use crate::text::{
    chars_of, contains_seq, contains_text, decimal, index_of_char, find_char, occurs_at,
    push_decimal, starts_with_seq, string_of_range, matches_at,
};

verus! {

/// A GitHub account.
pub struct GhAuthor {
    pub login: String,
}

/// An issue from an issue listing. `repo` is not part of the listing: it is
/// derived from `url`.
pub struct GhIssue {
    pub number: u64,
    pub title: String,
    pub body: String,
    pub url: String,
    pub repo: String,
    pub created_at: String,
    pub author: Option<GhAuthor>,
}

/// A pull request from a listing. `repo` is derived from `url`.
pub struct GhPr {
    pub number: u64,
    pub title: String,
    pub url: String,
    pub head_ref_oid: String,
    pub repo: String,
}

/// A comment on an issue or a pull request.
pub struct GhComment {
    pub id: u64,
    pub body: String,
    pub author: Option<GhAuthor>,
    pub created_at: String,
}

/// A review of a pull request.
pub struct GhReview {
    pub id: u64,
    pub body: String,
    pub state: String,
    pub user: Option<GhAuthor>,
}

/// A result of the issue search. `is_pull_request` tells whether the result
/// carried pull request data.
pub struct GhSearchItem {
    pub number: u64,
    pub title: String,
    pub body: Option<String>,
    pub html_url: String,
    pub user: Option<GhAuthor>,
    pub is_pull_request: bool,
}

impl GhAuthor {
    /// A copy of the account.
    pub fn duplicate(&self) -> (a: Self)
        ensures
            a == *self,
    {
        GhAuthor { login: self.login.clone() }
    }
}

/// A copy of an optional account.
pub fn duplicate_author(a: &Option<GhAuthor>) -> (r: Option<GhAuthor>)
    ensures
        r == *a,
{
    match a {
        Some(x) => Some(x.duplicate()),
        None => None,
    }
}

impl GhComment {
    /// A copy of the comment.
    pub fn duplicate(&self) -> (c: Self)
        ensures
            c == *self,
    {
        GhComment {
            id: self.id,
            body: self.body.clone(),
            author: duplicate_author(&self.author),
            created_at: self.created_at.clone(),
        }
    }
}

impl GhReview {
    /// A copy of the review.
    pub fn duplicate(&self) -> (r: Self)
        ensures
            r == *self,
    {
        GhReview {
            id: self.id,
            body: self.body.clone(),
            state: self.state.clone(),
            user: duplicate_author(&self.user),
        }
    }
}

/// The views of a sequence of strings.
pub open spec fn views(v: Seq<String>) -> Seq<Seq<char>> {
    v.map_values(|s: String| s@)
}

// ─── Repositories ─────────────────────────────────────

/// The prefix of GitHub web URLs.
pub open spec fn github_prefix() -> Seq<char> {
    "https://github.com/"@
}

/// `url` without the GitHub prefix, when it has it.
pub open spec fn strip_github_prefix(url: Seq<char>) -> Seq<char> {
    if starts_with_seq(url, github_prefix()) {
        url.skip(github_prefix().len() as int)
    } else {
        url
    }
}

/// `owner/name` of the repository a GitHub URL points into: the first two
/// `/`-separated parts of the URL without its GitHub prefix. A URL with no
/// `/` after the prefix is returned without the prefix.
pub open spec fn spec_repo_from_url(url: Seq<char>) -> Seq<char> {
    let after = strip_github_prefix(url);
    let i = index_of_char(after, '/') as int;
    if i < after.len() {
        let rest = after.skip(i + 1 as int);
        after.take(i as int) + seq!['/'] + rest.take(index_of_char(rest, '/') as int)
    } else {
        after
    }
}

/// The repository (`owner/name`) that a GitHub URL points into.
pub fn repo_from_url(url: &str) -> (repo: String)
    ensures
        repo@ == spec_repo_from_url(url@),
{
    let v = chars_of(url);
    let p = chars_of("https://github.com/");
    proof {
        reveal_strlit("https://github.com/");
    }
    let start: usize = if matches_at(&v, &p, 0) {
        p.len()
    } else {
        0
    };
    proof {
        if starts_with_seq(url@, github_prefix()) {
            assert(v@.subrange(0, p@.len() as int) == v@.take(p@.len() as int));
        } else if occurs_at(v@, p@, 0) {
            assert(v@.subrange(0, p@.len() as int) == v@.take(p@.len() as int));
        }
        assert(strip_github_prefix(url@) == v@.skip(start as int));
    }
    let ghost after = v@.skip(start as int);
    let i = find_char(&v, start, '/');
    if i < v.len() {
        let j = find_char(&v, i + 1, '/');
        let mut repo = string_of_range(&v, start, i);
        crate::text::push_char(&mut repo, '/');
        let tail = string_of_range(&v, i + 1, j);
        repo.append(tail.as_str());
        proof {
            let rest = after.skip(i - start + 1);
            assert(rest == v@.skip(i + 1));
            assert(after.take(i - start) == v@.subrange(start as int, i as int));
            assert(rest.take(j - i - 1) == v@.subrange(i + 1, j as int));
        }
        repo
    } else {
        proof {
            assert(after == v@.subrange(start as int, v@.len() as int));
        }
        string_of_range(&v, start, v.len())
    }
}

/// The issue with its repository derived from its URL.
pub fn issue_with_repo(issue: GhIssue) -> (r: GhIssue)
    ensures
        r.repo@ == spec_repo_from_url(issue.url@),
        r.number == issue.number,
        r.title == issue.title,
        r.body == issue.body,
        r.url == issue.url,
        r.created_at == issue.created_at,
        r.author == issue.author,
{
    let repo = repo_from_url(issue.url.as_str());
    GhIssue { repo, ..issue }
}

/// The pull request with its repository derived from its URL.
pub fn pr_with_repo(pr: GhPr) -> (r: GhPr)
    ensures
        r.repo@ == spec_repo_from_url(pr.url@),
        r.number == pr.number,
        r.title == pr.title,
        r.url == pr.url,
        r.head_ref_oid == pr.head_ref_oid,
{
    let repo = repo_from_url(pr.url.as_str());
    GhPr { repo, ..pr }
}

// ─── Authorization and mentions ───────────────────────

/// The author is present and is the authorized user.
pub open spec fn spec_is_authorized(author: Option<GhAuthor>, authorized_user: Seq<char>) -> bool {
    match author {
        Some(a) => a.login@ == authorized_user,
        None => false,
    }
}

/// The author is present and is the authorized user of the configuration.
pub fn is_authorized(author: Option<&GhAuthor>, config: &Config) -> (r: bool)
    ensures
        r == match author {
            Some(a) => a.login@ == config.authorized_user@,
            None => false,
        },
{
    match author {
        Some(a) => a.login == config.authorized_user,
        None => false,
    }
}

/// Whether the optional author is the authorized user of the configuration.
pub fn author_is_authorized(author: &Option<GhAuthor>, config: &Config) -> (r: bool)
    ensures
        r == spec_is_authorized(*author, config.authorized_user@),
{
    match author {
        Some(a) => is_authorized(Some(a), config),
        None => false,
    }
}

/// `char::is_alphanumeric` of std (Unicode `Alphabetic` or `Numeric`).
pub uninterp spec fn char_is_alphanumeric(c: char) -> bool;

/// `char::is_alphanumeric` of std: whether the character is alphabetic or
/// numeric in the Unicode sense. The result is named, not described.
#[verifier::external_body]
fn is_alphanumeric(c: char) -> (r: bool)
    ensures
        r == char_is_alphanumeric(c),
{
    c.is_alphanumeric()
}

/// A character that may continue a GitHub user name.
pub open spec fn is_name_char(c: char) -> bool {
    char_is_alphanumeric(c) || c == '-' || c == '_'
}

/// `needle` occurs at `i` in `body` and is not followed by a name character.
pub open spec fn mention_at(body: Seq<char>, needle: Seq<char>, i: int) -> bool {
    &&& occurs_at(body, needle, i)
    &&& (i + needle.len() == body.len() || !is_name_char(body[i + needle.len()]))
}

/// `body` mentions `@username`: the handle occurs and is not the start of a
/// longer name.
pub open spec fn spec_contains_mention(body: Seq<char>, username: Seq<char>) -> bool {
    exists|i: int| mention_at(body, seq!['@'] + username, i)
}

/// Whether `body` mentions `@username` as a whole handle.
pub fn contains_mention(body: &str, username: &str) -> (r: bool)
    ensures
        r == spec_contains_mention(body@, username@),
{
    let b = chars_of(body);
    let u = chars_of(username);
    let mut needle: Vec<char> = Vec::new();
    needle.push('@');
    let mut k: usize = 0;
    while k < u.len()
        invariant
            k <= u.len(),
            needle@ == seq!['@'] + u@.take(k as int),
        decreases u.len() - k,
    {
        needle.push(u[k]);
        assert(u@.take(k + 1) == u@.take(k as int).push(u@[k as int]));
        k = k + 1;
    }
    assert(u@.take(u@.len() as int) == u@);
    let ghost n = needle@;
    assert(n == seq!['@'] + username@);
    if needle.len() > b.len() {
        assert forall|i: int| !mention_at(b@, n, i) by {}
        return false;
    }
    let last = b.len() - needle.len();
    let mut i: usize = 0;
    while i <= last
        invariant
            i <= last + 1,
            last + needle.len() == b.len(),
            needle@ == n,
            n.len() >= 1,
            n == seq!['@'] + username@,
            b@ == body@,
            forall|j: int| 0 <= j < i ==> !mention_at(b@, n, j),
        decreases last + 1 - i,
    {
        if matches_at(&b, &needle, i) {
            let after = i + needle.len();
            let boundary = if after == b.len() {
                true
            } else {
                let c = b[after];
                !(is_alphanumeric(c) || c == '-' || c == '_')
            };
            if boundary {
                assert(mention_at(b@, n, i as int));
                return true;
            }
        }
        i = i + 1;
    }
    assert forall|j: int| !mention_at(b@, n, j) by {
        if 0 <= j && j + n.len() <= b@.len() {
            assert(j < i);
        }
    }
    false
}

// ─── `gh` invocations ─────────────────────────────────

/// Arguments of an issue listing: open issues where `role_flag` names
/// `@login`, with the fields the bot reads, at most thirty.
pub open spec fn issue_list_args(role_flag: Seq<char>, login: Seq<char>) -> Seq<Seq<char>> {
    seq![
        "issue"@,
        "list"@,
        role_flag,
        seq!['@'] + login,
        "--state"@,
        "open"@,
        "--search"@,
        "is:issue"@,
        "--json"@,
        "number,title,body,url,createdAt,author"@,
        "--limit"@,
        "30"@,
    ]
}

/// Arguments of a listing of the open pull requests authored by `@login`.
pub open spec fn pr_list_args(login: Seq<char>) -> Seq<Seq<char>> {
    seq![
        "pr"@,
        "list"@,
        "--author"@,
        seq!['@'] + login,
        "--state"@,
        "open"@,
        "--json"@,
        "number,title,headRefOid,url"@,
        "--limit"@,
        "30"@,
    ]
}

/// `/repos/{repo}/{section}/{number}/{what}`.
pub open spec fn repo_endpoint(repo: Seq<char>, section: Seq<char>, number: u64, what: Seq<char>) -> Seq<char> {
    "/repos/"@ + repo + seq!['/'] + section + seq!['/'] + decimal(number as nat) + seq!['/'] + what
}

/// Arguments of a GitHub API read of `endpoint`.
pub open spec fn api_read_args(endpoint: Seq<char>) -> Seq<Seq<char>> {
    seq!["api"@, endpoint, "--jq"@, "."@]
}

fn at_login(login: &str) -> (s: String)
    ensures
        s@ == seq!['@'] + login@,
{
    proof {
        reveal_strlit("@");
    }
    String::from_str("@").concat(login)
}

fn issue_list(role_flag: &str, login: &str) -> (args: Vec<String>)
    ensures
        views(args@) == issue_list_args(role_flag@, login@),
{
    let args = vec![
        String::from_str("issue"),
        String::from_str("list"),
        String::from_str(role_flag),
        at_login(login),
        String::from_str("--state"),
        String::from_str("open"),
        String::from_str("--search"),
        String::from_str("is:issue"),
        String::from_str("--json"),
        String::from_str("number,title,body,url,createdAt,author"),
        String::from_str("--limit"),
        String::from_str("30"),
    ];
    assert(views(args@) =~= issue_list_args(role_flag@, login@));
    args
}

fn pr_list(login: &str) -> (args: Vec<String>)
    ensures
        views(args@) == pr_list_args(login@),
{
    let args = vec![
        String::from_str("pr"),
        String::from_str("list"),
        String::from_str("--author"),
        at_login(login),
        String::from_str("--state"),
        String::from_str("open"),
        String::from_str("--json"),
        String::from_str("number,title,headRefOid,url"),
        String::from_str("--limit"),
        String::from_str("30"),
    ];
    assert(views(args@) =~= pr_list_args(login@));
    args
}

/// `gh` arguments listing the open issues assigned to the bot.
pub fn assigned_issues_args(config: &Config) -> (args: Vec<String>)
    ensures
        views(args@) == issue_list_args("--assignee"@, config.bot_username@),
{
    issue_list("--assignee", config.bot_username.as_str())
}

/// `gh` arguments listing the open issues the bot opened.
pub fn bot_issues_args(config: &Config) -> (args: Vec<String>)
    ensures
        views(args@) == issue_list_args("--author"@, config.bot_username@),
{
    issue_list("--author", config.bot_username.as_str())
}

/// `gh` arguments listing the open issues the authorized user opened.
pub fn authorized_issues_args(config: &Config) -> (args: Vec<String>)
    ensures
        views(args@) == issue_list_args("--author"@, config.authorized_user@),
{
    issue_list("--author", config.authorized_user.as_str())
}

/// `gh` arguments listing the open pull requests of the bot.
pub fn open_prs_args(config: &Config) -> (args: Vec<String>)
    ensures
        views(args@) == pr_list_args(config.bot_username@),
{
    pr_list(config.bot_username.as_str())
}

/// `gh` arguments listing the open pull requests of the authorized user.
pub fn authorized_prs_args(config: &Config) -> (args: Vec<String>)
    ensures
        views(args@) == pr_list_args(config.authorized_user@),
{
    pr_list(config.authorized_user.as_str())
}

fn endpoint(repo: &str, section: &str, number: u64, what: &str) -> (e: String)
    ensures
        e@ == repo_endpoint(repo@, section@, number, what@),
{
    proof {
        reveal_strlit("/");
    }
    let mut e = String::from_str("/repos/");
    e.append(repo);
    e.append("/");
    e.append(section);
    e.append("/");
    push_decimal(&mut e, number as u128);
    e.append("/");
    e.append(what);
    assert(e@ =~= repo_endpoint(repo@, section@, number, what@));
    e
}

fn api_read(endpoint: String) -> (args: Vec<String>)
    ensures
        views(args@) == api_read_args(endpoint@),
{
    let args = vec![
        String::from_str("api"),
        endpoint,
        String::from_str("--jq"),
        String::from_str("."),
    ];
    assert(views(args@) =~= api_read_args(endpoint@));
    args
}

/// `gh` arguments reading the conversation comments of an issue or pull request.
pub fn pr_issue_comments_args(repo: &str, number: u64) -> (args: Vec<String>)
    ensures
        views(args@) == api_read_args(repo_endpoint(repo@, "issues"@, number, "comments"@)),
{
    api_read(endpoint(repo, "issues", number, "comments"))
}

/// `gh` arguments reading the review comments of a pull request.
pub fn pr_review_comments_args(repo: &str, number: u64) -> (args: Vec<String>)
    ensures
        views(args@) == api_read_args(repo_endpoint(repo@, "pulls"@, number, "comments"@)),
{
    api_read(endpoint(repo, "pulls", number, "comments"))
}

/// `gh` arguments reading the reviews of a pull request.
pub fn pr_reviews_args(repo: &str, number: u64) -> (args: Vec<String>)
    ensures
        views(args@) == api_read_args(repo_endpoint(repo@, "pulls"@, number, "reviews"@)),
{
    api_read(endpoint(repo, "pulls", number, "reviews"))
}

/// Arguments of the search for open threads that mention `@bot`, most
/// recently updated first, thirty at most.
pub open spec fn mention_search_args(bot: Seq<char>) -> Seq<Seq<char>> {
    seq![
        "api"@,
        "/search/issues"@,
        "--method"@,
        "GET"@,
        "-f"@,
        "q=mentions:@"@ + bot + " is:open"@,
        "-f"@,
        "sort=updated"@,
        "-f"@,
        "order=desc"@,
        "-f"@,
        "per_page=30"@,
        "--jq"@,
        ".items"@,
    ]
}

/// `gh` arguments searching the open threads that mention the bot.
pub fn mentions_args(config: &Config) -> (args: Vec<String>)
    ensures
        views(args@) == mention_search_args(config.bot_username@),
{
    let mut query = String::from_str("q=mentions:@");
    query.append(config.bot_username.as_str());
    query.append(" is:open");
    let args = vec![
        String::from_str("api"),
        String::from_str("/search/issues"),
        String::from_str("--method"),
        String::from_str("GET"),
        String::from_str("-f"),
        query,
        String::from_str("-f"),
        String::from_str("sort=updated"),
        String::from_str("-f"),
        String::from_str("order=desc"),
        String::from_str("-f"),
        String::from_str("per_page=30"),
        String::from_str("--jq"),
        String::from_str(".items"),
    ];
    assert(views(args@) =~= mention_search_args(config.bot_username@));
    args
}

/// Arguments adding an `eyes` reaction to an issue or pull request.
pub open spec fn eyes_reaction_args_spec(repo: Seq<char>, number: u64) -> Seq<Seq<char>> {
    seq![
        "api"@,
        "--method"@,
        "POST"@,
        repo_endpoint(repo, "issues"@, number, "reactions"@),
        "-f"@,
        "content=eyes"@,
        "--silent"@,
    ]
}

/// `gh` arguments adding an `eyes` reaction to an issue or pull request.
pub fn eyes_reaction_args(repo: &str, number: u64) -> (args: Vec<String>)
    ensures
        views(args@) == eyes_reaction_args_spec(repo@, number),
{
    let args = vec![
        String::from_str("api"),
        String::from_str("--method"),
        String::from_str("POST"),
        endpoint(repo, "issues", number, "reactions"),
        String::from_str("-f"),
        String::from_str("content=eyes"),
        String::from_str("--silent"),
    ];
    assert(views(args@) =~= eyes_reaction_args_spec(repo@, number));
    args
}

/// Arguments reading whether a pull request can be merged.
pub open spec fn pr_mergeable_args_spec(repo: Seq<char>, number: u64) -> Seq<Seq<char>> {
    seq![
        "pr"@,
        "view"@,
        decimal(number as nat),
        "--repo"@,
        repo,
        "--json"@,
        "mergeable,mergeStateStatus"@,
    ]
}

/// `gh` arguments reading whether a pull request can be merged.
pub fn pr_mergeable_args(repo: &str, number: u64) -> (args: Vec<String>)
    ensures
        views(args@) == pr_mergeable_args_spec(repo@, number),
{
    let args = vec![
        String::from_str("pr"),
        String::from_str("view"),
        crate::text::decimal_string(number as u128),
        String::from_str("--repo"),
        String::from_str(repo),
        String::from_str("--json"),
        String::from_str("mergeable,mergeStateStatus"),
    ];
    assert(views(args@) =~= pr_mergeable_args_spec(repo@, number));
    args
}

// ─── `gh` output ──────────────────────────────────────

/// A listing printed nothing: it holds no items.
pub fn listing_is_empty(stdout: &str) -> (r: bool)
    ensures
        r == (stdout@.len() == 0),
{
    let v = chars_of(stdout);
    v.len() == 0
}

/// An API read printed nothing or an empty array: it holds no items.
pub fn api_listing_is_empty(stdout: &str) -> (r: bool)
    ensures
        r == (stdout@.len() == 0 || stdout@ == "[]"@),
{
    let v = chars_of(stdout);
    proof {
        reveal_strlit("[]");
    }
    if v.len() == 0 {
        return true;
    }
    let r = v.len() == 2 && v[0] == '[' && v[1] == ']';
    proof {
        if r {
            assert(v@ =~= "[]"@);
        }
    }
    r
}

/// A failed `gh` run whose error output tells of GitHub's rate limit.
pub fn is_rate_limited(stderr: &str) -> (r: bool)
    ensures
        r == (contains_seq(stderr@, "rate limit"@) || contains_seq(stderr@, "429"@)),
{
    contains_text(stderr, "rate limit") || contains_text(stderr, "429")
}

} // verus!
