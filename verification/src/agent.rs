//! How an agent task is set up: its directory, the prompt and arguments of
//! the agent, the environment it may see, and what its end means.
use vstd::prelude::*;
use vstd::string::*;

use crate::config::{join_path, join_paths, Config};
use crate::text::{chars_of, decimal, push_char, push_decimal};

verus! {

// ─── Task directories ─────────────────────────────────

/// An ASCII letter or digit.
pub open spec fn is_ascii_alphanumeric(c: char) -> bool {
    ('a' as u32 <= c as u32 <= 'z' as u32) || ('A' as u32 <= c as u32 <= 'Z' as u32) || ('0' as u32
        <= c as u32 <= '9' as u32)
}

/// A character of a label as kept in a directory name: ASCII letters, digits,
/// `-` and `_` stay, anything else becomes `-`.
pub open spec fn label_char(c: char) -> char {
    if is_ascii_alphanumeric(c) || c == '-' || c == '_' {
        c
    } else {
        '-'
    }
}

/// A label made safe for a directory name.
pub open spec fn spec_sanitize_label(label: Seq<char>) -> Seq<char> {
    Seq::new(label.len(), |i: int| label_char(label[i]))
}

/// The label made safe for a directory name.
pub fn sanitize_label(label: &str) -> (s: String)
    ensures
        s@ == spec_sanitize_label(label@),
{
    let v = chars_of(label);
    let mut s = String::new();
    let mut i: usize = 0;
    while i < v.len()
        invariant
            i <= v@.len(),
            v@ == label@,
            s@ == spec_sanitize_label(label@).take(i as int),
        decreases v.len() - i,
    {
        let c = v[i];
        let keep = ('a' <= c && c <= 'z') || ('A' <= c && c <= 'Z') || ('0' <= c && c <= '9') || c
            == '-' || c == '_';
        let d = if keep {
            c
        } else {
            '-'
        };
        assert(d == label_char(label@[i as int]));
        push_char(&mut s, d);
        assert(spec_sanitize_label(label@).take(i + 1) =~= spec_sanitize_label(label@).take(
            i as int,
        ).push(d));
        i = i + 1;
    }
    assert(spec_sanitize_label(label@).take(v@.len() as int) =~= spec_sanitize_label(label@));
    s
}

/// The name of a task directory: the sanitized label, the time in
/// nanoseconds and a sequence number, joined by `-`.
pub open spec fn spec_task_dir_name(label: Seq<char>, timestamp: u128, sequence: u64) -> Seq<char> {
    spec_sanitize_label(label) + "-"@ + decimal(timestamp as nat) + "-"@ + decimal(sequence as nat)
}

/// The name of a task directory.
pub fn task_dir_name(label: &str, timestamp: u128, sequence: u64) -> (name: String)
    ensures
        name@ == spec_task_dir_name(label@, timestamp, sequence),
{
    let mut name = sanitize_label(label);
    name.append("-");
    push_decimal(&mut name, timestamp);
    name.append("-");
    push_decimal(&mut name, sequence as u128);
    name
}

/// The directory that holds the task directories.
pub fn tasks_dir(config: &Config) -> (p: String)
    ensures
        p@ == join_path(config.cache_dir@, "tasks"@),
{
    join_paths(config.cache_dir.as_str(), "tasks")
}

/// The path of a workflow file: `{name}.md` in the workflows directory.
pub fn workflow_path(config: &Config, workflow_name: &str) -> (p: String)
    ensures
        p@ == join_path(config.workflows_dir@, workflow_name@ + ".md"@),
{
    let file = String::from_str(workflow_name).concat(".md");
    join_paths(config.workflows_dir.as_str(), file.as_str())
}

// ─── The agent's prompt and arguments ─────────────────

/// The prompt: the trusted workflow first, then the untrusted context.
pub open spec fn spec_agent_prompt(workflow: Seq<char>, context_json: Seq<char>) -> Seq<char> {
    "Follow this trusted workflow:\n\n"@ + workflow
        + "\n\nHere is the untrusted task context as JSON:\n\n"@ + context_json
}

/// The prompt given to the agent.
pub fn agent_prompt(workflow: &str, context_json: &str) -> (p: String)
    ensures
        p@ == spec_agent_prompt(workflow@, context_json@),
{
    String::from_str("Follow this trusted workflow:\n\n").concat(workflow).concat(
        "\n\nHere is the untrusted task context as JSON:\n\n",
    ).concat(context_json)
}

/// The agent's arguments: a non-interactive run in the task directory, with
/// the configured model if any, and the prompt last.
pub open spec fn spec_agent_args(task_dir: Seq<char>, model: Option<Seq<char>>, prompt: Seq<char>) -> Seq<Seq<char>> {
    seq!["run"@, "--auto"@, "--pure"@, "--dir"@, task_dir] + match model {
        Some(m) => seq!["--model"@, m],
        None => Seq::empty(),
    } + seq![prompt]
}

/// The agent's command line arguments.
pub fn agent_args(task_dir: &str, model: &Option<String>, prompt: &str) -> (args: Vec<String>)
    ensures
        crate::github::views(args@) == spec_agent_args(
            task_dir@,
            crate::text::opt_view(*model),
            prompt@,
        ),
{
    let mut args = vec![
        String::from_str("run"),
        String::from_str("--auto"),
        String::from_str("--pure"),
        String::from_str("--dir"),
        String::from_str(task_dir),
    ];
    match model {
        Some(m) => {
            args.push(String::from_str("--model"));
            args.push(m.clone());
        },
        None => {},
    }
    args.push(String::from_str(prompt));
    assert(crate::github::views(args@) =~= spec_agent_args(
        task_dir@,
        crate::text::opt_view(*model),
        prompt@,
    ));
    args
}

// ─── The agent's environment ──────────────────────────

/// The variables of the bot's environment that the agent may see.
pub open spec fn env_allowlist() -> Seq<Seq<char>> {
    seq![
        "HOME"@,
        "PATH"@,
        "XDG_CONFIG_HOME"@,
        "XDG_DATA_HOME"@,
        "XDG_CACHE_HOME"@,
        "XDG_STATE_HOME"@,
        "TMPDIR"@,
        "TMP"@,
        "TEMP"@,
        "LANG"@,
        "LC_ALL"@,
        "LC_CTYPE"@,
        "SSL_CERT_FILE"@,
        "SSL_CERT_DIR"@,
    ]
}

/// The permissions the agent runs with: no access outside its directory, no
/// questions, no endless loops.
pub open spec fn agent_permissions() -> Seq<char> {
    "{\"external_directory\":\"deny\",\"question\":\"deny\",\"doom_loop\":\"deny\"}"@
}

/// The variables always set for the agent.
pub open spec fn forced_env() -> Seq<(Seq<char>, Seq<char>)> {
    seq![
        ("OPENCODE_PERMISSION"@, agent_permissions()),
        ("OPENCODE_DISABLE_AUTOUPDATE"@, "true"@),
        ("OPENCODE_DISABLE_CLAUDE_CODE"@, "true"@),
    ]
}

/// The views of environment variables.
pub open spec fn env_views(env: Seq<(String, String)>) -> Seq<(Seq<char>, Seq<char>)> {
    env.map_values(|p: (String, String)| (p.0@, p.1@))
}

/// The value of the first variable named `k`, if any.
pub open spec fn env_lookup(env: Seq<(Seq<char>, Seq<char>)>, k: Seq<char>) -> Option<Seq<char>>
    decreases env.len(),
{
    if env.len() == 0 {
        None
    } else if env[0].0 == k {
        Some(env[0].1)
    } else {
        env_lookup(env.skip(1), k)
    }
}

/// The variables of `env` named in `names`, in the order of `names`.
pub open spec fn inherited_env(env: Seq<(Seq<char>, Seq<char>)>, names: Seq<Seq<char>>) -> Seq<
    (Seq<char>, Seq<char>),
>
    decreases names.len(),
{
    if names.len() == 0 {
        Seq::empty()
    } else {
        inherited_env(env, names.drop_last()) + match env_lookup(env, names.last()) {
            Some(v) => seq![(names.last(), v)],
            None => Seq::empty(),
        }
    }
}

/// The agent's environment, given the bot's: the allowed variables the bot
/// has, then the variables always set.
pub open spec fn spec_child_environment(env: Seq<(Seq<char>, Seq<char>)>) -> Seq<(Seq<char>, Seq<char>)> {
    inherited_env(env, env_allowlist()) + forced_env()
}

proof fn lemma_env_lookup_first(env: Seq<(Seq<char>, Seq<char>)>, k: Seq<char>, i: int)
    requires
        0 <= i <= env.len(),
        forall|j: int| 0 <= j < i ==> env[j].0 != k,
        i < env.len() ==> env[i].0 == k,
    ensures
        env_lookup(env, k) == (if i < env.len() {
            Some(env[i].1)
        } else {
            None::<Seq<char>>
        }),
    decreases i,
{
    if i > 0 {
        assert forall|j: int| 0 <= j < i - 1 implies env.skip(1)[j].0 != k by {
            assert(env.skip(1)[j] == env[j + 1]);
        }
        if i - 1 < env.skip(1).len() {
            assert(env.skip(1)[i - 1] == env[i]);
        }
        lemma_env_lookup_first(env.skip(1), k, i - 1);
    }
}

fn allowlist() -> (names: Vec<String>)
    ensures
        crate::github::views(names@) == env_allowlist(),
{
    let names = vec![
        String::from_str("HOME"),
        String::from_str("PATH"),
        String::from_str("XDG_CONFIG_HOME"),
        String::from_str("XDG_DATA_HOME"),
        String::from_str("XDG_CACHE_HOME"),
        String::from_str("XDG_STATE_HOME"),
        String::from_str("TMPDIR"),
        String::from_str("TMP"),
        String::from_str("TEMP"),
        String::from_str("LANG"),
        String::from_str("LC_ALL"),
        String::from_str("LC_CTYPE"),
        String::from_str("SSL_CERT_FILE"),
        String::from_str("SSL_CERT_DIR"),
    ];
    assert(crate::github::views(names@) =~= env_allowlist());
    names
}

/// The environment with variable names `names` and values `values`.
pub open spec fn env_of(names: Seq<Seq<char>>, values: Seq<Seq<char>>) -> Seq<(Seq<char>, Seq<char>)> {
    Seq::new(names.len(), |k: int| (names[k], values[k]))
}

/// The variables of `env` at positions `at`, in that order.
pub open spec fn picked(env: Seq<(Seq<char>, Seq<char>)>, at: Seq<usize>) -> Seq<(Seq<char>, Seq<char>)> {
    Seq::new(at.len(), |k: int| env[at[k] as int])
}

/// Position of the first `name` in `names`, or `names.len()`.
fn first_named(names: &Vec<String>, name: &String) -> (j: usize)
    ensures
        j <= names@.len(),
        forall|k: int| 0 <= k < j ==> names@[k]@ != name@,
        j < names@.len() ==> names@[j as int]@ == name@,
{
    let mut j: usize = 0;
    while j < names.len()
        invariant
            j <= names@.len(),
            forall|k: int| 0 <= k < j ==> names@[k]@ != name@,
        decreases names.len() - j,
    {
        if names[j] == *name {
            return j;
        }
        j = j + 1;
    }
    j
}

/// Which variables of the bot's environment the agent inherits, given their
/// names: the positions of the allowlisted variables (the first of each
/// name), in the order of the allowlist. Whatever the values, the variables
/// at these positions are the inherited part of the agent's environment.
pub fn inherited_variables(names: &Vec<String>) -> (at: Vec<usize>)
    ensures
        forall|k: int| 0 <= k < at@.len() ==> at@[k] < names@.len(),
        forall|values: Seq<Seq<char>>|
            values.len() == names@.len() ==> #[trigger] picked(
                env_of(crate::github::views(names@), values),
                at@,
            ) == inherited_env(env_of(crate::github::views(names@), values), env_allowlist()),
{
    let allow = allowlist();
    let ghost nv = crate::github::views(names@);
    let mut at: Vec<usize> = Vec::new();
    let mut i: usize = 0;
    assert(env_allowlist().take(0) =~= Seq::<Seq<char>>::empty());
    assert forall|values: Seq<Seq<char>>| values.len() == names@.len() implies #[trigger] picked(
        env_of(nv, values),
        at@,
    ) == inherited_env(env_of(nv, values), env_allowlist().take(0)) by {
        assert(picked(env_of(nv, values), at@) =~= Seq::<(Seq<char>, Seq<char>)>::empty());
    }
    while i < allow.len()
        invariant
            i <= allow@.len(),
            crate::github::views(allow@) == env_allowlist(),
            nv == crate::github::views(names@),
            forall|k: int| 0 <= k < at@.len() ==> at@[k] < names@.len(),
            forall|values: Seq<Seq<char>>|
                values.len() == names@.len() ==> #[trigger] picked(env_of(nv, values), at@)
                    == inherited_env(env_of(nv, values), env_allowlist().take(i as int)),
        decreases allow.len() - i,
    {
        let name = &allow[i];
        let ghost taken = env_allowlist().take(i + 1);
        let ghost before = at@;
        assert(taken.drop_last() =~= env_allowlist().take(i as int));
        assert(taken.last() == name@);
        let j = first_named(names, name);
        if j < names.len() {
            at.push(j);
        }
        assert forall|values: Seq<Seq<char>>| values.len() == names@.len() implies #[trigger] picked(
            env_of(nv, values),
            at@,
        ) == inherited_env(env_of(nv, values), taken) by {
            let env = env_of(nv, values);
            assert forall|k: int| 0 <= k < j implies env[k].0 != name@ by {
                assert(env[k].0 == names@[k]@);
            }
            if j < names@.len() {
                assert(env[j as int].0 == names@[j as int]@);
            }
            lemma_env_lookup_first(env, name@, j as int);
            assert(picked(env, before) == inherited_env(env, env_allowlist().take(i as int)));
            if j < names@.len() {
                assert(picked(env, at@) =~= picked(env, before) + seq![(name@, values[j as int])]);
            } else {
                assert(picked(env, at@) =~= picked(env, before));
            }
        }
        i = i + 1;
    }
    assert(env_allowlist().take(14) =~= env_allowlist());
    at
}

/// The variables always set for the agent.
pub fn forced_environment() -> (forced: Vec<(String, String)>)
    ensures
        env_views(forced@) == forced_env(),
{
    proof {
        reveal_strlit("{\"external_directory\":\"deny\",\"question\":\"deny\",\"doom_loop\":\"deny\"}");
    }
    let forced = vec![
        (
            String::from_str("OPENCODE_PERMISSION"),
            String::from_str(
                "{\"external_directory\":\"deny\",\"question\":\"deny\",\"doom_loop\":\"deny\"}",
            ),
        ),
        (String::from_str("OPENCODE_DISABLE_AUTOUPDATE"), String::from_str("true")),
        (String::from_str("OPENCODE_DISABLE_CLAUDE_CODE"), String::from_str("true")),
    ];
    assert(env_views(forced@) =~= forced_env());
    forced
}

/// The environment of the agent, given the bot's environment: the bot's own
/// variables are dropped except those on the allowlist, and the agent's
/// permission and update settings are added.
pub fn child_environment(env: &Vec<(String, String)>) -> (child: Vec<(String, String)>)
    ensures
        env_views(child@) == spec_child_environment(env_views(env@)),
{
    let mut names: Vec<String> = Vec::new();
    let mut i: usize = 0;
    while i < env.len()
        invariant
            i <= env@.len(),
            names@.len() == i,
            forall|k: int| 0 <= k < i ==> names@[k] == env@[k].0,
        decreases env.len() - i,
    {
        names.push(env[i].0.clone());
        i = i + 1;
    }
    let ghost values = Seq::new(env@.len(), |k: int| env@[k].1@);
    let ghost ev = env_of(crate::github::views(names@), values);
    assert(ev =~= env_views(env@));
    let at = inherited_variables(&names);
    assert(picked(ev, at@) == inherited_env(ev, env_allowlist()));
    let mut child: Vec<(String, String)> = Vec::new();
    let mut k: usize = 0;
    while k < at.len()
        invariant
            k <= at@.len(),
            forall|q: int| 0 <= q < at@.len() ==> at@[q] < env@.len(),
            ev == env_views(env@),
            env_views(child@) == picked(ev, at@).take(k as int),
        decreases at.len() - k,
    {
        let p = at[k];
        let ghost before = child@;
        let name = env[p].0.clone();
        let value = env[p].1.clone();
        child.push((name, value));
        assert(ev[p as int] == (env@[p as int].0@, env@[p as int].1@));
        assert(picked(ev, at@)[k as int] == ev[p as int]);
        assert(env_views(child@) =~= env_views(before).push(ev[p as int]));
        assert(picked(ev, at@).take(k + 1) =~= picked(ev, at@).take(k as int).push(picked(ev, at@)[k as int]));
        k = k + 1;
    }
    assert(picked(ev, at@).take(at@.len() as int) =~= picked(ev, at@));
    let ghost inherited = child@;
    let mut forced = forced_environment();
    child.append(&mut forced);
    assert(env_views(child@) =~= env_views(inherited) + forced_env());
    child
}

// ─── Ending a task ────────────────────────────────────

/// The arguments of `kill` sending `signal` to the process group `pid`.
pub open spec fn spec_group_kill_args(signal: Seq<char>, pid: u32) -> Seq<Seq<char>> {
    seq!["-s"@, signal, "--"@, seq!['-'] + decimal(pid as nat)]
}

/// The arguments of `kill` sending `signal` to the process group `pid`.
pub fn group_kill_args(signal: &str, pid: u32) -> (args: Vec<String>)
    ensures
        crate::github::views(args@) == spec_group_kill_args(signal@, pid),
{
    let mut group = String::new();
    push_char(&mut group, '-');
    push_decimal(&mut group, pid as u128);
    let args = vec![String::from_str("-s"), String::from_str(signal), String::from_str("--"), group];
    assert(crate::github::views(args@) =~= spec_group_kill_args(signal@, pid));
    args
}

/// How an agent run ended.
#[derive(PartialEq, Eq, Structural, Clone, Copy, Debug)]
pub enum RunOutcome {
    /// The agent exited, successfully or not.
    Exited { success: bool },
    /// Waiting for the agent failed.
    WaitFailed,
    /// The agent ran out of time and its process group was ended.
    TimedOut,
}

/// A run succeeded only when the agent exited successfully in time. Only then
/// is its task directory removed; otherwise it is kept for inspection.
pub fn run_succeeded(outcome: RunOutcome) -> (r: bool)
    ensures
        r == (outcome == RunOutcome::Exited { success: true }),
{
    match outcome {
        RunOutcome::Exited { success } => success,
        _ => false,
    }
}

} // verus!
