//! Configuration of the bot and the defaults of its optional settings.
use vstd::prelude::*;
use vstd::string::*;

use crate::context::AttributionContext;
use crate::text::{chars_of, opt_view, replace_all, replace_text};

verus! {

/// The placeholder in an attribution text that names the authorized user.
pub open spec fn author_placeholder() -> Seq<char> {
    "{author}"@
}

/// Joining a relative path onto a directory, as `Path::join` does on Unix:
/// an absolute `rel` replaces `base`, an empty `base` gives `rel`, and a
/// separator is put between the two when `base` does not already end with one.
pub open spec fn join_path(base: Seq<char>, rel: Seq<char>) -> Seq<char> {
    if rel.len() > 0 && rel[0] == '/' {
        rel
    } else if base.len() == 0 {
        rel
    } else if base[base.len() - 1] == '/' {
        base + rel
    } else {
        base + seq!['/'] + rel
    }
}

/// The directory used when the platform does not name one.
pub open spec fn fallback_dir(base: Option<Seq<char>>) -> Seq<char> {
    match base {
        Some(b) => b,
        None => "/tmp"@,
    }
}

/// `rel` joined onto `base`.
pub fn join_paths(base: &str, rel: &str) -> (p: String)
    ensures
        p@ == join_path(base@, rel@),
{
    let rv = chars_of(rel);
    let bv = chars_of(base);
    if rv.len() > 0 && rv[0] == '/' {
        return String::from_str(rel);
    }
    if bv.len() == 0 {
        return String::from_str(rel);
    }
    let mut p = String::from_str(base);
    if bv[bv.len() - 1] != '/' {
        p.append("/");
        proof {
            reveal_strlit("/");
        }
    }
    p.append(rel);
    p
}

/// `rel` joined onto `base`, or onto `/tmp` when there is no `base`.
pub fn path_under_or_tmp(base: Option<String>, rel: &str) -> (p: String)
    ensures
        p@ == join_path(fallback_dir(opt_view(base)), rel@),
{
    match base {
        Some(b) => join_paths(b.as_str(), rel),
        None => join_paths("/tmp", rel),
    }
}

/// `dirs::config_dir`: the platform's directory for user configuration, when
/// one is known. It depends on the environment (`XDG_CONFIG_HOME`, the home
/// directory); nothing is stated of it. A path that is not UTF-8 is converted
/// lossily.
#[verifier::external_body]
fn platform_config_dir() -> Option<String> {
    dirs::config_dir().map(|p| p.to_string_lossy().into_owned())
}

/// `dirs::cache_dir`: the platform's directory for cached data, when one is
/// known. It depends on the environment (`XDG_CACHE_HOME`, the home
/// directory); nothing is stated of it. A path that is not UTF-8 is converted
/// lossily.
#[verifier::external_body]
fn platform_cache_dir() -> Option<String> {
    dirs::cache_dir().map(|p| p.to_string_lossy().into_owned())
}

/// Attribution signature added to what the agent posts.
pub struct Attribution {
    pub enabled: bool,
    pub text: String,
}

impl Clone for Attribution {
    fn clone(&self) -> (c: Self)
        ensures
            c == *self,
    {
        Attribution { enabled: self.enabled, text: self.text.clone() }
    }
}

/// An attribution section that is absent altogether: disabled, with an empty
/// text.
impl Default for Attribution {
    fn default() -> (a: Self)
        ensures
            !a.enabled,
            a.text@ == Seq::<char>::empty(),
    {
        Attribution { enabled: false, text: String::new() }
    }
}

/// The attribution text used when an attribution section gives none.
pub open spec fn spec_default_attribution_text() -> Seq<char> {
    "---\n*Authored by @{author}. Powered by [PR bot](https://github.com/johnsaigle/pr-bot)*"@
}

/// Default for whether an attribution signature is added.
pub fn default_attribution_enabled() -> (enabled: bool)
    ensures
        enabled,
{
    true
}

/// Default attribution text, with `{author}` standing for the authorized user.
pub fn default_attribution_text() -> (text: String)
    ensures
        text@ == spec_default_attribution_text(),
{
    String::from_str(
        "---\n*Authored by @{author}. Powered by [PR bot](https://github.com/johnsaigle/pr-bot)*",
    )
}

impl Attribution {
    /// The attribution section as given when only its table is present.
    pub fn with_defaults() -> (a: Self)
        ensures
            a.enabled,
            a.text@ == spec_default_attribution_text(),
    {
        Attribution { enabled: default_attribution_enabled(), text: default_attribution_text() }
    }

    /// The signature: the attribution text with every `{author}` replaced by
    /// the authorized user.
    pub fn signature(&self, authorized_user: &str) -> (s: String)
        ensures
            s@ == replace_all(self.text@, author_placeholder(), authorized_user@),
    {
        proof {
            reveal_strlit("{author}");
        }
        replace_text(self.text.as_str(), "{author}", authorized_user)
    }
}

/// The bot's configuration. Paths are held as text.
pub struct Config {
    pub bot_username: String,
    pub authorized_user: String,
    pub workflows_dir: String,
    pub cache_dir: String,
    pub state_file: String,
    pub max_concurrent: usize,
    pub opencode_bin: String,
    pub gh_bin: String,
    pub poll_interval_secs: u64,
    pub health_check_interval_secs: u64,
    pub health_check_grace_period_secs: u64,
    pub model: Option<String>,
    pub task_timeout_secs: u64,
    pub poll_mentions: bool,
    pub attribution: Attribution,
}

impl Clone for Config {
    fn clone(&self) -> (c: Self)
        ensures
            c == *self,
    {
        Config {
            bot_username: self.bot_username.clone(),
            authorized_user: self.authorized_user.clone(),
            workflows_dir: self.workflows_dir.clone(),
            cache_dir: self.cache_dir.clone(),
            state_file: self.state_file.clone(),
            max_concurrent: self.max_concurrent,
            opencode_bin: self.opencode_bin.clone(),
            gh_bin: self.gh_bin.clone(),
            poll_interval_secs: self.poll_interval_secs,
            health_check_interval_secs: self.health_check_interval_secs,
            health_check_grace_period_secs: self.health_check_grace_period_secs,
            model: match &self.model {
                Some(m) => Some(m.clone()),
                None => None,
            },
            task_timeout_secs: self.task_timeout_secs,
            poll_mentions: self.poll_mentions,
            attribution: self.attribution.clone(),
        }
    }
}

/// `pr-bot/workflows` under the configuration directory `base` (or `/tmp`).
pub open spec fn spec_workflows_dir_in(base: Option<Seq<char>>) -> Seq<char> {
    join_path(fallback_dir(base), "pr-bot/workflows"@)
}

/// `pr-bot` under the cache directory `base` (or `/tmp`).
pub open spec fn spec_cache_dir_in(base: Option<Seq<char>>) -> Seq<char> {
    join_path(fallback_dir(base), "pr-bot"@)
}

/// `pr-bot/state.json` under the configuration directory `base` (or `/tmp`).
pub open spec fn spec_state_file_in(base: Option<Seq<char>>) -> Seq<char> {
    join_path(fallback_dir(base), "pr-bot/state.json"@)
}

/// Default directory of the workflow files: `pr-bot/workflows` under the
/// platform's configuration directory, or under `/tmp` when there is none.
pub fn default_workflows_dir() -> (p: String)
    ensures
        exists|base: Option<Seq<char>>| p@ == spec_workflows_dir_in(base),
{
    let base = platform_config_dir();
    let ghost b = opt_view(base);
    let p = path_under_or_tmp(base, "pr-bot/workflows");
    assert(p@ == spec_workflows_dir_in(b));
    p
}

/// Default cache directory: `pr-bot` under the platform's cache directory, or
/// under `/tmp` when there is none.
pub fn default_cache_dir() -> (p: String)
    ensures
        exists|base: Option<Seq<char>>| p@ == spec_cache_dir_in(base),
{
    let base = platform_cache_dir();
    let ghost b = opt_view(base);
    let p = path_under_or_tmp(base, "pr-bot");
    assert(p@ == spec_cache_dir_in(b));
    p
}

/// Default state file: `pr-bot/state.json` under the platform's configuration
/// directory, or under `/tmp` when there is none.
pub fn default_state_file() -> (p: String)
    ensures
        exists|base: Option<Seq<char>>| p@ == spec_state_file_in(base),
{
    let base = platform_config_dir();
    let ghost b = opt_view(base);
    let p = path_under_or_tmp(base, "pr-bot/state.json");
    assert(p@ == spec_state_file_in(b));
    p
}

/// Default number of agent tasks that may run at the same time.
pub fn default_max_concurrent() -> (n: usize)
    ensures
        n == 3,
{
    3
}

/// Default agent executable.
pub fn default_opencode() -> (p: String)
    ensures
        p@ == "opencode"@,
{
    String::from_str("opencode")
}

/// Default GitHub command line executable.
pub fn default_gh() -> (p: String)
    ensures
        p@ == "gh"@,
{
    String::from_str("gh")
}

/// Default number of seconds between two polls of GitHub.
pub fn default_poll_interval() -> (secs: u64)
    ensures
        secs == 300,
{
    300
}

/// Default number of seconds between two health checks.
pub fn default_health_check_interval() -> (secs: u64)
    ensures
        secs == 60,
{
    60
}

/// Default grace period of the health checks: fourteen days, in seconds.
pub fn default_health_check_grace_period() -> (secs: u64)
    ensures
        secs == 14 * 24 * 60 * 60,
{
    14 * 24 * 60 * 60
}

/// Default number of seconds an agent task may run.
pub fn default_task_timeout() -> (secs: u64)
    ensures
        secs == 1800,
{
    1800
}

/// Default of the switches that are on unless configured off.
pub fn default_true() -> (b: bool)
    ensures
        b,
{
    true
}

impl Config {
    /// The configuration given by naming only the two required accounts: every
    /// other setting takes its default.
    pub fn with_defaults(bot_username: String, authorized_user: String) -> (c: Self)
        ensures
            c.bot_username == bot_username,
            c.authorized_user == authorized_user,
            exists|base: Option<Seq<char>>| c.workflows_dir@ == spec_workflows_dir_in(base),
            exists|base: Option<Seq<char>>| c.cache_dir@ == spec_cache_dir_in(base),
            exists|base: Option<Seq<char>>| c.state_file@ == spec_state_file_in(base),
            c.max_concurrent == 3,
            c.opencode_bin@ == "opencode"@,
            c.gh_bin@ == "gh"@,
            c.poll_interval_secs == 300,
            c.health_check_interval_secs == 60,
            c.health_check_grace_period_secs == 14 * 24 * 60 * 60,
            c.model is None,
            c.task_timeout_secs == 1800,
            c.poll_mentions,
            !c.attribution.enabled,
            c.attribution.text@ == Seq::<char>::empty(),
    {
        Config {
            bot_username,
            authorized_user,
            workflows_dir: default_workflows_dir(),
            cache_dir: default_cache_dir(),
            state_file: default_state_file(),
            max_concurrent: default_max_concurrent(),
            opencode_bin: default_opencode(),
            gh_bin: default_gh(),
            poll_interval_secs: default_poll_interval(),
            health_check_interval_secs: default_health_check_interval(),
            health_check_grace_period_secs: default_health_check_grace_period(),
            model: None,
            task_timeout_secs: default_task_timeout(),
            poll_mentions: default_true(),
            attribution: Attribution::default(),
        }
    }

    /// What the agent is told about attribution: whether it is on, and the
    /// signature for the authorized user.
    pub fn attribution_context(&self) -> (ctx: AttributionContext)
        ensures
            ctx.enabled == self.attribution.enabled,
            ctx.signature@ == replace_all(
                self.attribution.text@,
                author_placeholder(),
                self.authorized_user@,
            ),
    {
        AttributionContext {
            enabled: self.attribution.enabled,
            signature: self.attribution.signature(self.authorized_user.as_str()),
        }
    }
}

} // verus!
