//! The decisions of the worker runtime: how pipeline steps are resolved from
//! their configuration, what each step is launched with, when a pipeline
//! stops, how long a failed run waits before its retry, and what happens to a
//! run that has finished.
//!
//! Processes, timers and the databases are driven by the application, which
//! hands the outcomes back to the functions here.
use std::time::Duration;
use vstd::prelude::*;
use crate::error::GranaryError;
use crate::json::parsed_json;
use crate::models::config::{ActionConfig, OnError, StepConfig, step_name};
use crate::models::event::Event;
use crate::models::run::{CreateRun, Run, RunStatus, UpdateRunStatus, run_status_of};
use crate::models::worker::Worker;
use crate::services::template::{
    PipelineContext, StepOutput, ctx_of, records_step, render, render_all, substitute_all,
    substitute_all_with_context, substitute_with_context,
};
use crate::json::strings_or_empty;
use crate::text::{copy_opt, copy_strings, dec, int_text, owned, push_int, push_nat, push_str, text_eq, views};

verus! {

/// Default base delay for exponential backoff, in seconds.
pub const DEFAULT_BASE_DELAY_SECS: u64 = 5;

/// Default maximum number of attempts of a run.
pub const DEFAULT_MAX_ATTEMPTS: i32 = 3;

/// Default interval between event polls, in milliseconds.
pub const DEFAULT_POLL_INTERVAL_MS: u64 = 1000;

/// The variables that a list of name/value pairs sets, a later pair
/// overriding an earlier one of the same name.
pub open spec fn env_map(pairs: Seq<(String, String)>) -> Map<Seq<char>, Seq<char>>
    decreases pairs.len(),
{
    if pairs.len() == 0 {
        Map::empty()
    } else {
        env_map(pairs.drop_last()).insert(pairs.last().0@, pairs.last().1@)
    }
}

/// No name occurs twice.
pub open spec fn keys_unique(pairs: Seq<(String, String)>) -> bool {
    forall|i: int, j: int| 0 <= i < j < pairs.len() ==> pairs[i].0@ != pairs[j].0@
}

/// Replacing the pair of a name that occurs once is setting that name.
proof fn lemma_env_map_update(s: Seq<(String, String)>, j: int, p: (String, String))
    requires
        keys_unique(s),
        0 <= j < s.len(),
        s[j].0@ == p.0@,
    ensures
        env_map(s.update(j, p)) == env_map(s).insert(p.0@, p.1@),
    decreases s.len(),
{
    let u = s.update(j, p);
    if j == s.len() - 1 {
        assert(u.drop_last() =~= s.drop_last());
        assert(env_map(u) =~= env_map(s).insert(p.0@, p.1@));
    } else {
        let d = s.drop_last();
        assert(u.drop_last() =~= d.update(j, p));
        assert(keys_unique(d));
        lemma_env_map_update(d, j, p);
        assert(s.last().0@ != p.0@);
        assert(u.last() == s.last());
        assert(env_map(u) =~= env_map(s).insert(p.0@, p.1@));
    }
}

/// The keys of `env_map` are the names of the pairs.
proof fn lemma_env_map_keys(s: Seq<(String, String)>, k: Seq<char>)
    ensures
        env_map(s).contains_key(k) <==> exists|i: int| 0 <= i < s.len() && s[i].0@ == k,
    decreases s.len(),
{
    if s.len() > 0 {
        lemma_env_map_keys(s.drop_last(), k);
        if env_map(s).contains_key(k) && k != s.last().0@ {
            let i = choose|i: int| 0 <= i < s.drop_last().len() && s.drop_last()[i].0@ == k;
            assert(s[i].0@ == k);
        }
        if exists|i: int| 0 <= i < s.len() && s[i].0@ == k {
            let i = choose|i: int| 0 <= i < s.len() && s[i].0@ == k;
            if i < s.len() - 1 {
                assert(s.drop_last()[i].0@ == k);
            }
        }
    }
}

/// Sets `key` to `value` in a list of variables without repeated names.
fn set_var(env: &mut Vec<(String, String)>, key: &String, value: &String)
    requires
        keys_unique(old(env)@),
    ensures
        keys_unique(final(env)@),
        env_map(final(env)@) == env_map(old(env)@).insert(key@, value@),
{
    let mut i: usize = 0;
    while i < env.len()
        invariant
            0 <= i <= env.len(),
            env@ == old(env)@,
            keys_unique(env@),
            forall|j: int| 0 <= j < i ==> env@[j].0@ != key@,
        decreases env.len() - i,
    {
        if text_eq(env[i].0.as_str(), key.as_str()) {
            let ghost before = env@;
            let p = (key.clone(), value.clone());
            env.set(i, p);
            proof {
                lemma_env_map_update(before, i as int, p);
                assert(env@ == before.update(i as int, p));
            }
            return;
        }
        i = i + 1;
    }
    let ghost before = env@;
    env.push((key.clone(), value.clone()));
    proof {
        assert(env@.drop_last() =~= before);
        assert forall|a: int, b: int| 0 <= a < b < env@.len() implies env@[a].0@ != env@[b].0@ by {
            if b == env@.len() - 1 {
                assert(env@[a] == before[a]);
            } else {
                assert(env@[a] == before[a] && env@[b] == before[b]);
            }
        }
    }
}

/// Sets every variable of `from`, in order.
fn merge_env(env: &mut Vec<(String, String)>, from: &Vec<(String, String)>)
    requires
        keys_unique(old(env)@),
    ensures
        keys_unique(final(env)@),
        env_map(final(env)@) == env_map(old(env)@ + from@),
{
    let ghost start = env@;
    let mut i: usize = 0;
    assert(start + from@.take(0) =~= start);
    while i < from.len()
        invariant
            0 <= i <= from.len(),
            keys_unique(env@),
            env_map(env@) == env_map(start + from@.take(i as int)),
        decreases from.len() - i,
    {
        set_var(env, &from[i].0, &from[i].1);
        proof {
            let next = start + from@.take(i as int + 1);
            assert(next.drop_last() =~= start + from@.take(i as int));
            assert(next.last() == from@[i as int]);
        }
        i = i + 1;
    }
    assert(from@.take(from@.len() as int) =~= from@);
}

/// A pipeline step ready to run: its configuration merged with the action it
/// refers to.
#[derive(Debug, Clone)]
pub struct ResolvedStep {
    /// Name, for logs and output references.
    pub name: String,
    /// Command to run.
    pub command: String,
    /// Arguments (may hold templates).
    pub args: Vec<String>,
    /// Environment variables, each name once (values may hold templates).
    pub env: Vec<(String, String)>,
    /// Working directory override (may hold templates).
    pub cwd: Option<String>,
    /// What a failure of this step does.
    pub on_error: OnError,
}

/// The first action of `actions` named `name`.
pub open spec fn action_named(actions: Seq<(String, ActionConfig)>, name: Seq<char>) -> Option<ActionConfig>
    decreases actions.len(),
{
    if actions.len() == 0 {
        None
    } else if actions[0].0@ == name {
        Some(actions[0].1)
    } else {
        action_named(actions.drop_first(), name)
    }
}

/// Why the step at `index` cannot be resolved, if it cannot.
pub open spec fn step_error(step: StepConfig, index: nat, actions: Seq<(String, ActionConfig)>) -> Option<Seq<char>> {
    let name = step_name(step.name, index);
    match step.action {
        Some(a) => match action_named(actions, a@) {
            None => Some("Step '"@ + name + "' references unknown action '"@ + a@ + "'"@),
            Some(act) => if step.command is None && act.command is None {
                Some(
                    "Step '"@ + name + "' references action '"@ + a@
                        + "' which has no command defined (it may be a pipeline action)"@,
                )
            } else {
                None
            },
        },
        None => if step.command is None {
            Some("Step '"@ + name + "' has neither 'action' nor 'command' set"@)
        } else {
            None
        },
    }
}

/// The action a step refers to (when it is known).
pub open spec fn step_action(step: StepConfig, actions: Seq<(String, ActionConfig)>) -> Option<ActionConfig> {
    match step.action {
        Some(a) => action_named(actions, a@),
        None => None,
    }
}

/// A step's command: its own, else its action's.
pub open spec fn step_command(step: StepConfig, actions: Seq<(String, ActionConfig)>) -> Seq<char> {
    match step.command {
        Some(c) => c@,
        None => match step_action(step, actions) {
            Some(act) => match act.command {
                Some(c) => c@,
                None => Seq::empty(),
            },
            None => Seq::empty(),
        },
    }
}

/// A step's arguments: its own, else its action's, else none.
pub open spec fn step_args(step: StepConfig, actions: Seq<(String, ActionConfig)>) -> Seq<String> {
    match step.args {
        Some(a) => a@,
        None => match step_action(step, actions) {
            Some(act) => act.args@,
            None => Seq::empty(),
        },
    }
}

/// The variables a step runs with, before merging into a map: the pipeline's,
/// then its action's, then its own (a later one wins).
pub open spec fn step_env_layers(
    step: StepConfig,
    pipeline_env: Seq<(String, String)>,
    actions: Seq<(String, ActionConfig)>,
) -> Seq<(String, String)> {
    pipeline_env + action_env(step, actions) + own_env(step)
}

/// The variables of the action a step refers to.
pub open spec fn action_env(step: StepConfig, actions: Seq<(String, ActionConfig)>) -> Seq<(String, String)> {
    match step_action(step, actions) {
        Some(act) => act.env@,
        None => Seq::empty(),
    }
}

/// The step's own variables.
pub open spec fn own_env(step: StepConfig) -> Seq<(String, String)> {
    match step.env {
        Some(e) => e@,
        None => Seq::empty(),
    }
}

/// `r` is the resolution of the step at `index`.
pub open spec fn resolves_step(
    r: ResolvedStep,
    step: StepConfig,
    index: nat,
    pipeline_env: Seq<(String, String)>,
    actions: Seq<(String, ActionConfig)>,
) -> bool {
    &&& r.name@ == step_name(step.name, index)
    &&& r.command@ == step_command(step, actions)
    &&& r.args@ == step_args(step, actions)
    &&& keys_unique(r.env@)
    &&& env_map(r.env@) == env_map(step_env_layers(step, pipeline_env, actions))
    &&& r.cwd == step.cwd
    &&& r.on_error == match step.on_error {
        Some(o) => o,
        None => OnError::Stop,
    }
}

/// The first action named `name` (see [`action_named`]).
fn find_action<'a>(actions: &'a [(String, ActionConfig)], name: &str) -> (r: Option<&'a ActionConfig>)
    ensures
        r == (match action_named(actions@, name@) {
            Some(a) => Some(&a),
            None => None::<&ActionConfig>,
        }),
{
    let mut i: usize = 0;
    assert(actions@.subrange(0, actions@.len() as int) =~= actions@);
    while i < actions.len()
        invariant
            0 <= i <= actions@.len(),
            action_named(actions@, name@) == action_named(
                actions@.subrange(i as int, actions@.len() as int),
                name@,
            ),
        decreases actions@.len() - i,
    {
        let ghost rest = actions@.subrange(i as int, actions@.len() as int);
        assert(rest.drop_first() =~= actions@.subrange(i as int + 1, actions@.len() as int));
        if text_eq(actions[i].0.as_str(), name) {
            return Some(&actions[i].1);
        }
        i = i + 1;
    }
    None
}

/// Resolves one step, or says why it cannot be resolved.
fn resolve_step(
    step: &StepConfig,
    index: usize,
    pipeline_env: &Vec<(String, String)>,
    actions: &[(String, ActionConfig)],
) -> (r: Result<ResolvedStep, String>)
    requires
        index < u64::MAX,
    ensures
        match step_error(*step, index as nat, actions@) {
            Some(m) => r matches Err(e) && e@ == m,
            None => r matches Ok(s) && resolves_step(s, *step, index as nat, pipeline_env@, actions@),
        },
{
    let name = step.resolved_name(index);
    let action: Option<&ActionConfig> = match &step.action {
        Some(action_name) => match find_action(actions, action_name.as_str()) {
            Some(a) => {
                if step.command.is_none() && a.command.is_none() {
                    let mut m = owned("Step '");
                    push_str(&mut m, name.as_str());
                    push_str(&mut m, "' references action '");
                    push_str(&mut m, action_name.as_str());
                    push_str(&mut m, "' which has no command defined (it may be a pipeline action)");
                    return Err(m);
                }
                Some(a)
            },
            None => {
                let mut m = owned("Step '");
                push_str(&mut m, name.as_str());
                push_str(&mut m, "' references unknown action '");
                push_str(&mut m, action_name.as_str());
                push_str(&mut m, "'");
                return Err(m);
            },
        },
        None => {
            if step.command.is_none() {
                let mut m = owned("Step '");
                push_str(&mut m, name.as_str());
                push_str(&mut m, "' has neither 'action' nor 'command' set");
                return Err(m);
            }
            None
        },
    };
    let command = match &step.command {
        Some(c) => c.clone(),
        None => match action {
            Some(a) => match &a.command {
                Some(c) => c.clone(),
                None => String::new(),
            },
            None => String::new(),
        },
    };
    let args = match &step.args {
        Some(a) => copy_strings(a),
        None => match action {
            Some(a) => copy_strings(&a.args),
            None => Vec::new(),
        },
    };
    let mut env: Vec<(String, String)> = Vec::new();
    merge_env(&mut env, pipeline_env);
    let empty: Vec<(String, String)> = Vec::new();
    let ghost after_pipeline = env@;
    match action {
        Some(a) => merge_env(&mut env, &a.env),
        None => merge_env(&mut env, &empty),
    }
    let ghost after_action = env@;
    match &step.env {
        Some(e) => merge_env(&mut env, e),
        None => merge_env(&mut env, &empty),
    }
    proof {
        let base = action_env(*step, actions@);
        let own = own_env(*step);
        assert(Seq::<(String, String)>::empty() + pipeline_env@ =~= pipeline_env@);
        lemma_env_map_concat(after_pipeline, pipeline_env@, base);
        lemma_env_map_concat(after_action, pipeline_env@ + base, own);
    }
    let on_error = match step.on_error {
        Some(o) => o,
        None => OnError::Stop,
    };
    Ok(ResolvedStep { name, command, args, env, cwd: copy_opt(&step.cwd), on_error })
}

/// Merging two lists in turn gives the map of their concatenation, whatever
/// the first list was merged into.
proof fn lemma_env_map_concat(
    a: Seq<(String, String)>,
    b: Seq<(String, String)>,
    c: Seq<(String, String)>,
)
    requires
        env_map(a) == env_map(b),
    ensures
        env_map(a + c) == env_map(b + c),
    decreases c.len(),
{
    if c.len() > 0 {
        lemma_env_map_concat(a, b, c.drop_last());
        assert((a + c).drop_last() =~= a + c.drop_last());
        assert((b + c).drop_last() =~= b + c.drop_last());
    } else {
        assert(a + c =~= a);
        assert(b + c =~= b);
    }
}

/// Resolves the steps of a pipeline: each step takes its command, arguments
/// and environment from the action it names (looked up in `actions`, the
/// first entry of a name counting), its own settings overriding them; the
/// pipeline's variables are inherited, the action's override them and the
/// step's override both. The first step that cannot be resolved gives
/// [`GranaryError::Conflict`].
pub fn resolve_pipeline_steps(
    steps: &[StepConfig],
    pipeline_env: &Vec<(String, String)>,
    actions: &[(String, ActionConfig)],
) -> (r: Result<Vec<ResolvedStep>, GranaryError>)
    ensures
        r is Ok <==> forall|i: int| 0 <= i < steps@.len() ==> step_error(#[trigger] steps@[i], i as nat, actions@) is None,
        r matches Ok(v) ==> v@.len() == steps@.len() && forall|i: int|
            0 <= i < steps@.len() ==> resolves_step(#[trigger] v@[i], steps@[i], i as nat, pipeline_env@, actions@),
        r matches Err(e) ==> exists|k: int|
            #![trigger steps@[k]]
            0 <= k < steps@.len() && (forall|i: int| 0 <= i < k ==> step_error(#[trigger] steps@[i], i as nat, actions@) is None)
                && (e matches GranaryError::Conflict(m) && step_error(steps@[k], k as nat, actions@) == Some(m@)),
{
    let mut out: Vec<ResolvedStep> = Vec::new();
    let mut i: usize = 0;
    while i < steps.len()
        invariant
            0 <= i <= steps@.len(),
            out@.len() == i,
            forall|j: int| 0 <= j < i ==> step_error(#[trigger] steps@[j], j as nat, actions@) is None,
            forall|j: int| 0 <= j < i ==> resolves_step(#[trigger] out@[j], steps@[j], j as nat, pipeline_env@, actions@),
        decreases steps@.len() - i,
    {
        match resolve_step(&steps[i], i, pipeline_env, actions) {
            Ok(s) => {
                out.push(s);
            },
            Err(m) => {
                let e = GranaryError::Conflict(m);
                proof {
                    assert(!(forall|j: int| 0 <= j < steps@.len() ==> step_error(#[trigger] steps@[j], j as nat, actions@) is None)) by {
                        assert(step_error(steps@[i as int], i as nat, actions@) is Some);
                    }
                    assert(step_error(steps@[i as int], i as nat, actions@) == Some(m@));
                }
                return Err(e);
            },
        }
        i = i + 1;
    }
    Ok(out)
}

/// The first line a step writes to the run's log.
pub open spec fn step_header(name: Seq<char>, cwd: Option<Seq<char>>) -> Seq<char> {
    match cwd {
        Some(c) => "=== [step:"@ + name + "] started cwd="@ + c + " ===\n"@,
        None => "=== [step:"@ + name + "] started ===\n"@,
    }
}

/// The line a step writes to the run's log when it has exited.
pub open spec fn step_footer_text(name: Seq<char>, exit_code: int) -> Seq<char> {
    "=== [step:"@ + name + "] exit_code="@ + int_text(exit_code) + " ===\n\n"@
}

/// What a step is started with: its arguments and working directory with
/// their templates substituted, and the line announcing it in the log.
#[derive(Debug)]
pub struct StepLaunch {
    pub args: Vec<String>,
    pub cwd: String,
    pub header: String,
}

/// The step's working directory, templates substituted, given the parsed
/// payload: its own `cwd`, or the workspace.
pub open spec fn launch_cwd(
    step: ResolvedStep,
    event: Event,
    payload: crate::json::JsonValue,
    ctx: PipelineContext,
    workspace_path: Seq<char>,
) -> Seq<char> {
    match step.cwd {
        Some(t) => render(t@, event, payload, Some(ctx)),
        None => workspace_path,
    }
}

/// Prepares the launch of a pipeline step: substitutes the templates of its
/// arguments and working directory against the event and the outputs of the
/// steps before it. The event's payload is read only when there is a template
/// to fill: when it is needed and is not valid JSON, the result is
/// [`GranaryError::Json`].
pub fn step_launch(
    step: &ResolvedStep,
    event: &Event,
    ctx: &PipelineContext,
    workspace_path: &str,
) -> (r: Result<StepLaunch, GranaryError>)
    ensures
        (step.args@.len() > 0 || step.cwd is Some) && parsed_json(event.payload@) is None
            ==> r matches Err(GranaryError::Json(_)),
        step.args@.len() == 0 && step.cwd is None ==> (r matches Ok(l) && l.args@.len() == 0
            && l.cwd@ == workspace_path@ && l.header@ == step_header(step.name@, None)),
        parsed_json(event.payload@) matches Some(p) ==> (r matches Ok(l)
            && views(l.args@) == render_all(step.args@, *event, p, Some(*ctx))
            && l.cwd@ == launch_cwd(*step, *event, p, *ctx, workspace_path@)
            && l.header@ == step_header(
                step.name@,
                match step.cwd {
                    Some(_) => Some(l.cwd@),
                    None => None,
                },
            )),
{
    let args = match substitute_all_with_context(&step.args, event, Some(ctx)) {
        Ok(a) => a,
        Err(e) => {
            return Err(e);
        },
    };
    let cwd = match &step.cwd {
        Some(t) => match substitute_with_context(t.as_str(), event, Some(ctx)) {
            Ok(c) => c,
            Err(e) => {
                return Err(e);
            },
        },
        None => owned(workspace_path),
    };
    let mut header = owned("=== [step:");
    push_str(&mut header, step.name.as_str());
    if step.cwd.is_some() {
        push_str(&mut header, "] started cwd=");
        push_str(&mut header, cwd.as_str());
        push_str(&mut header, " ===\n");
    } else {
        push_str(&mut header, "] started ===\n");
    }
    Ok(StepLaunch { args, cwd, header })
}

/// The environment a step runs with: its variables with their templates
/// substituted, then `GRANARY_WORKER_ID` and `GRANARY_RUN_ID`. When the step
/// has variables and the event's payload is not valid JSON, the result is
/// [`GranaryError::Json`].
pub fn step_env(
    step: &ResolvedStep,
    event: &Event,
    ctx: &PipelineContext,
    worker_id: &str,
    run_id: &str,
) -> (r: Result<Vec<(String, String)>, GranaryError>)
    ensures
        step.env@.len() > 0 && parsed_json(event.payload@) is None ==> r matches Err(GranaryError::Json(_)),
        (step.env@.len() == 0 || parsed_json(event.payload@) is Some) ==> (r matches Ok(v) && {
            let n = step.env@.len();
            &&& v@.len() == n + 2
            &&& forall|i: int| 0 <= i < n ==> (#[trigger] v@[i]).0@ == step.env@[i].0@ && v@[i].1@
                == render(step.env@[i].1@, *event, parsed_json(event.payload@)->Some_0, Some(*ctx))
            &&& v@[n as int].0@ == "GRANARY_WORKER_ID"@ && v@[n as int].1@ == worker_id@
            &&& v@[n + 1int].0@ == "GRANARY_RUN_ID"@ && v@[n + 1int].1@ == run_id@
        }),
{
    let mut out: Vec<(String, String)> = Vec::new();
    let mut i: usize = 0;
    while i < step.env.len()
        invariant
            0 <= i <= step.env@.len(),
            out@.len() == i,
            i > 0 ==> parsed_json(event.payload@) is Some,
            forall|j: int| 0 <= j < i ==> (#[trigger] out@[j]).0@ == step.env@[j].0@ && out@[j].1@
                == render(step.env@[j].1@, *event, parsed_json(event.payload@)->Some_0, Some(*ctx)),
        decreases step.env@.len() - i,
    {
        let value = match substitute_with_context(step.env[i].1.as_str(), event, Some(ctx)) {
            Ok(v) => v,
            Err(e) => {
                return Err(e);
            },
        };
        out.push((step.env[i].0.clone(), value));
        i = i + 1;
    }
    out.push((owned("GRANARY_WORKER_ID"), owned(worker_id)));
    out.push((owned("GRANARY_RUN_ID"), owned(run_id)));
    Ok(out)
}

/// The log line of a step that has exited.
pub fn step_footer(name: &str, exit_code: i32) -> (r: String)
    ensures
        r@ == step_footer_text(name@, exit_code as int),
{
    let mut s = owned("=== [step:");
    push_str(&mut s, name);
    push_str(&mut s, "] exit_code=");
    push_int(&mut s, exit_code as i64);
    push_str(&mut s, " ===\n\n");
    s
}

/// The error that stops a pipeline at a failed step.
pub open spec fn step_failure_message(name: Seq<char>, exit_code: int) -> Seq<char> {
    "Pipeline step '"@ + name + "' failed with exit code "@ + int_text(exit_code) + " (on_error=stop)"@
}

/// Records a finished step in the pipeline's context, and decides whether the
/// pipeline goes on: it stops with [`GranaryError::Conflict`] exactly when the
/// step exited with a non-zero code and stops on errors.
pub fn finish_step(
    ctx: &mut PipelineContext,
    step: &ResolvedStep,
    stdout: String,
    exit_code: i32,
) -> (r: Result<(), GranaryError>)
    ensures
        records_step(*old(ctx), *final(ctx), step.name@, StepOutput { stdout, exit_code }),
        r is Err <==> (exit_code != 0 && step.on_error == OnError::Stop),
        r matches Err(e) ==> (e matches GranaryError::Conflict(m) && m@ == step_failure_message(
            step.name@,
            exit_code as int,
        )),
{
    let ghost out = StepOutput { stdout, exit_code };
    ctx.add_step(step.name.clone(), StepOutput { stdout, exit_code });
    if exit_code != 0 {
        match step.on_error {
            OnError::Stop => {
                let mut m = owned("Pipeline step '");
                push_str(&mut m, step.name.as_str());
                push_str(&mut m, "' failed with exit code ");
                push_int(&mut m, exit_code as i64);
                push_str(&mut m, " (on_error=stop)");
                return Err(GranaryError::Conflict(m));
            },
            OnError::Continue => {},
        }
    }
    Ok(())
}

/// The command recorded for a pipeline run.
pub fn pipeline_command(step_count: usize) -> (r: String)
    ensures
        r@ == "pipeline("@ + dec(step_count as nat) + " steps)"@,
{
    let mut s = owned("pipeline(");
    push_nat(&mut s, step_count as u64);
    push_str(&mut s, " steps)");
    s
}

/// The names of the steps, in order.
pub fn step_names(steps: &[ResolvedStep]) -> (r: Vec<String>)
    ensures
        r@.len() == steps@.len(),
        forall|i: int| 0 <= i < steps@.len() ==> (#[trigger] r@[i])@ == steps@[i].name@,
{
    let mut out: Vec<String> = Vec::new();
    let mut i: usize = 0;
    while i < steps.len()
        invariant
            0 <= i <= steps@.len(),
            out@.len() == i,
            forall|j: int| 0 <= j < i ==> (#[trigger] out@[j])@ == steps@[j].name@,
        decreases steps@.len() - i,
    {
        out.push(steps[i].name.clone());
        i = i + 1;
    }
    out
}

/// The run to create for an event handled by a pipeline worker.
pub fn pipeline_run_request(
    worker: &Worker,
    event: &Event,
    steps: &[ResolvedStep],
    max_attempts: i32,
    log_path: String,
) -> (r: CreateRun)
    ensures
        r.worker_id@ == worker.id@,
        r.event_id == event.id,
        r.event_type@ == event.event_type@,
        r.entity_id@ == event.entity_id@,
        r.command@ == "pipeline("@ + dec(steps@.len() as nat) + " steps)"@,
        r.args@.len() == steps@.len(),
        forall|i: int| 0 <= i < steps@.len() ==> (#[trigger] r.args@[i])@ == steps@[i].name@,
        r.max_attempts == max_attempts,
        r.log_path == Some(log_path),
{
    CreateRun {
        worker_id: worker.id.clone(),
        event_id: event.id,
        event_type: event.event_type.clone(),
        entity_id: event.entity_id.clone(),
        command: pipeline_command(steps.len()),
        args: step_names(steps),
        max_attempts,
        log_path: Some(log_path),
    }
}

/// The run to create for an event handled by a simple worker: the worker's
/// command, with the templates of its arguments substituted. An empty list of
/// arguments needs no payload; otherwise an invalid payload gives
/// [`GranaryError::Json`].
pub fn simple_run_request(
    worker: &Worker,
    event: &Event,
    max_attempts: i32,
    log_path: String,
) -> (r: Result<CreateRun, GranaryError>)
    ensures
        strings_or_empty(worker.args@).len() > 0 && parsed_json(event.payload@) is None
            ==> r matches Err(GranaryError::Json(_)),
        r matches Ok(c) ==> {
            &&& c.worker_id@ == worker.id@
            &&& c.event_id == event.id
            &&& c.event_type@ == event.event_type@
            &&& c.entity_id@ == event.entity_id@
            &&& c.command@ == worker.command@
            &&& c.args@.len() == strings_or_empty(worker.args@).len()
            &&& (c.args@.len() > 0 ==> (parsed_json(event.payload@) matches Some(p) && forall|i: int|
                0 <= i < c.args@.len() ==> (#[trigger] c.args@[i])@ == render(
                    strings_or_empty(worker.args@)[i],
                    *event,
                    p,
                    None,
                )))
            &&& c.max_attempts == max_attempts
            &&& c.log_path == Some(log_path)
        },
        parsed_json(event.payload@) is Some || strings_or_empty(worker.args@).len() == 0 ==> r is Ok,
{
    let templates = worker.args_vec();
    let args = match substitute_all(templates.as_slice(), event) {
        Ok(a) => a,
        Err(e) => {
            return Err(e);
        },
    };
    proof {
        assert(views(templates@).len() == templates@.len());
        assert(views(args@).len() == args@.len());
        if args@.len() > 0 {
            assert forall|i: int| 0 <= i < args@.len() implies (#[trigger] args@[i])@ == render(
                strings_or_empty(worker.args@)[i],
                *event,
                parsed_json(event.payload@)->Some_0,
                None,
            ) by {
                assert(views(args@)[i] == args@[i]@);
                assert(views(templates@)[i] == templates@[i]@);
            }
        }
    }
    Ok(CreateRun {
        worker_id: worker.id.clone(),
        event_id: event.id,
        event_type: event.event_type.clone(),
        entity_id: event.entity_id.clone(),
        command: worker.command.clone(),
        args,
        max_attempts,
        log_path: Some(log_path),
    })
}

/// `2` to the power `n`.
pub open spec fn pow2(n: nat) -> nat
    decreases n,
{
    if n == 0 {
        1
    } else {
        2 * pow2((n - 1) as nat)
    }
}

/// The exponent of the backoff of an attempt (from 1): one less than the
/// attempt, at most 10.
pub open spec fn backoff_exponent(attempt: int) -> nat {
    if attempt - 1 < 10 {
        (attempt - 1) as nat
    } else {
        10
    }
}

/// The delay before retrying after `attempt`, without jitter:
/// `base * 2^(attempt - 1)`, the exponent capped at 10, saturating at
/// `u64::MAX`.
pub open spec fn backoff_base(attempt: int, base_delay_secs: u64) -> nat {
    let d: nat = base_delay_secs as nat * pow2(backoff_exponent(attempt));
    if d > u64::MAX {
        u64::MAX as nat
    } else {
        d
    }
}

/// The jitter added to a delay for a random draw: the draw modulo a quarter of
/// the delay, or nothing when that quarter is zero.
pub open spec fn backoff_jitter(delay: nat, random: u64) -> nat {
    let range = delay / 4;
    if range > 0 {
        (random as nat) % range
    } else {
        0
    }
}

/// The delay an attempt can be retried after without the sum overflowing.
pub open spec fn backoff_fits(attempt: int, base_delay_secs: u64) -> bool {
    attempt >= 1 && backoff_base(attempt, base_delay_secs) + backoff_base(attempt, base_delay_secs) / 4
        <= u64::MAX
}

/// What `Duration::from_secs` gives for a number of seconds.
pub uninterp spec fn duration_of_secs(secs: u64) -> Duration;

/// What `Duration::from_millis` gives for a number of milliseconds.
pub uninterp spec fn duration_of_millis(millis: u64) -> Duration;

/// `Duration::from_secs`: a duration of `secs` seconds; the result is the one
/// `duration_of_secs` names.
#[verifier::external_body]
fn duration_from_secs(secs: u64) -> (r: Duration)
    ensures
        r == duration_of_secs(secs),
{
    Duration::from_secs(secs)
}

/// `Duration::from_millis`: a duration of `millis` milliseconds; the result is
/// the one `duration_of_millis` names.
#[verifier::external_body]
pub(crate) fn duration_from_millis(millis: u64) -> (r: Duration)
    ensures
        r == duration_of_millis(millis),
{
    Duration::from_millis(millis)
}

/// `rand::random::<u64>()`: a random number. Nothing is claimed of its value.
#[verifier::external_body]
fn random_u64() -> u64 {
    rand::random::<u64>()
}

/// The backoff delay of `attempt` with the jitter that the random draw
/// `random` gives (see [`backoff_base`], [`backoff_jitter`]).
pub fn backoff_with_jitter(attempt: i32, base_delay_secs: u64, random: u64) -> (r: Duration)
    requires
        backoff_fits(attempt as int, base_delay_secs),
    ensures
        r == duration_of_secs(
            (backoff_base(attempt as int, base_delay_secs) + backoff_jitter(
                backoff_base(attempt as int, base_delay_secs),
                random,
            )) as u64,
        ),
{
    let exp: u32 = if attempt - 1 < 10 { (attempt - 1) as u32 } else { 10 };
    let mut p: u64 = 1;
    let mut k: u32 = 0;
    while k < exp
        invariant
            0 <= k <= exp <= 10,
            p == pow2(k as nat),
            p <= 1024,
        decreases exp - k,
    {
        proof {
            lemma_pow2_bound(k as nat + 1);
        }
        p = p * 2;
        k = k + 1;
    }
    let delay: u64 = match base_delay_secs.checked_mul(p) {
        Some(d) => d,
        None => u64::MAX,
    };
    let range = delay / 4;
    let jitter = if range > 0 { random % range } else { 0 };
    duration_from_secs(delay + jitter)
}

proof fn lemma_pow2_bound(n: nat)
    requires
        n <= 10,
    ensures
        pow2(n) <= 1024,
        pow2(n) >= 1,
{
    lemma_pow2_monotone(n, 10);
    lemma_pow2_monotone(0, n);
    reveal_with_fuel(pow2, 11);
    assert(pow2(10) == 1024);
}

proof fn lemma_pow2_monotone(a: nat, b: nat)
    requires
        a <= b,
    ensures
        pow2(a) <= pow2(b),
    decreases b,
{
    if a < b {
        lemma_pow2_monotone(a, (b - 1) as nat);
    }
}

/// The delay before retrying after `attempt`: exponential backoff from
/// `base_delay_secs` (`base * 2^(attempt - 1)`, the exponent capped at 10)
/// plus a random jitter of less than a quarter of it.
pub fn calculate_backoff(attempt: i32, base_delay_secs: u64) -> (r: Duration)
    requires
        backoff_fits(attempt as int, base_delay_secs),
    ensures
        exists|random: u64| r == duration_of_secs(
            (backoff_base(attempt as int, base_delay_secs) + backoff_jitter(
                backoff_base(attempt as int, base_delay_secs),
                random,
            )) as u64,
        ),
{
    let random = random_u64();
    backoff_with_jitter(attempt, base_delay_secs, random)
}

/// The delay of a retry lies between the backoff and the backoff plus a
/// quarter of it; from the eleventh attempt on it no longer grows.
pub proof fn law_backoff_window(attempt: int, base_delay_secs: u64, random: u64)
    requires
        attempt >= 1,
    ensures
        backoff_base(attempt, base_delay_secs) <= backoff_base(attempt, base_delay_secs) + backoff_jitter(
            backoff_base(attempt, base_delay_secs),
            random,
        ),
        backoff_jitter(backoff_base(attempt, base_delay_secs), random) <= backoff_base(attempt, base_delay_secs) / 4,
        attempt >= 11 ==> backoff_base(attempt, base_delay_secs) == backoff_base(11, base_delay_secs),
        backoff_base(attempt, base_delay_secs) <= base_delay_secs * 1024,
{
    lemma_pow2_bound(backoff_exponent(attempt));
    assert(base_delay_secs * pow2(backoff_exponent(attempt)) <= base_delay_secs * 1024) by (nonlinear_arith)
        requires
            pow2(backoff_exponent(attempt)) <= 1024,
    ;
}

/// Before the cap, each attempt doubles the backoff of the one before it
/// (saturating at `u64::MAX`).
pub proof fn law_backoff_doubles(attempt: int, base_delay_secs: u64)
    requires
        1 <= attempt < 11,
    ensures
        backoff_base(attempt + 1, base_delay_secs) == if 2 * backoff_base(attempt, base_delay_secs) > u64::MAX {
            u64::MAX as nat
        } else {
            2 * backoff_base(attempt, base_delay_secs)
        },
{
    let e = backoff_exponent(attempt);
    assert(backoff_exponent(attempt + 1) == e + 1);
    assert(pow2(e + 1) == 2 * pow2(e));
    assert(base_delay_secs * pow2(e + 1) == 2 * (base_delay_secs * pow2(e))) by (nonlinear_arith)
        requires
            pow2(e + 1) == 2 * pow2(e),
    ;
}

/// Settings of a worker runtime.
#[derive(Debug)]
pub struct WorkerRuntimeConfig {
    /// Base delay of the exponential backoff, in seconds.
    pub base_delay_secs: u64,
    /// Attempts allowed for a run.
    pub max_attempts: i32,
    /// Interval between event polls.
    pub poll_interval: Duration,
    /// Directory of the log files (by default the worker's directory under
    /// the logs directory).
    pub log_dir: Option<String>,
    /// Timestamp to start processing events from.
    pub since: Option<String>,
}

impl Clone for WorkerRuntimeConfig {
    fn clone(&self) -> (r: Self)
        ensures
            r == *self,
    {
        WorkerRuntimeConfig {
            base_delay_secs: self.base_delay_secs,
            max_attempts: self.max_attempts,
            poll_interval: self.poll_interval,
            log_dir: copy_opt(&self.log_dir),
            since: copy_opt(&self.since),
        }
    }
}

impl Default for WorkerRuntimeConfig {
    fn default() -> (r: Self)
        ensures
            r.base_delay_secs == DEFAULT_BASE_DELAY_SECS,
            r.max_attempts == DEFAULT_MAX_ATTEMPTS,
            r.poll_interval == duration_of_millis(DEFAULT_POLL_INTERVAL_MS),
            r.log_dir is None,
            r.since is None,
    {
        WorkerRuntimeConfig {
            base_delay_secs: DEFAULT_BASE_DELAY_SECS,
            max_attempts: DEFAULT_MAX_ATTEMPTS,
            poll_interval: duration_from_millis(DEFAULT_POLL_INTERVAL_MS),
            log_dir: None,
            since: None,
        }
    }
}

/// What happens to a run whose process has finished.
#[derive(Debug)]
pub enum Completion {
    /// The run succeeded: record this status.
    Succeeded(UpdateRunStatus),
    /// The run failed and is retried as `attempt` after `delay`.
    Retry { attempt: i32, delay: Duration },
    /// The run failed for good: record this status.
    Failed(UpdateRunStatus),
}

/// The run may be retried.
pub open spec fn retryable(run: Run) -> bool {
    run_status_of(run.status@) == RunStatus::Failed && run.attempt < run.max_attempts
}

/// Decides what becomes of a run that finished with `exit_code`: a zero exit
/// completes it; otherwise a run that may be retried is scheduled again with
/// backoff, and any other fails with `error`.
pub fn decide_completion(run: &Run, exit_code: i32, error: Option<String>, base_delay_secs: u64) -> (r: Completion)
    requires
        exit_code != 0 && retryable(*run) ==> backoff_fits(run.attempt as int, base_delay_secs),
    ensures
        exit_code == 0 ==> r == Completion::Succeeded(
            UpdateRunStatus { status: RunStatus::Completed, exit_code: Some(exit_code), error_message: None, pid: None },
        ),
        exit_code != 0 && retryable(*run) ==> (r matches Completion::Retry { attempt, delay } && attempt
            == run.attempt + 1 && exists|random: u64| delay == duration_of_secs(
            (backoff_base(run.attempt as int, base_delay_secs) + backoff_jitter(
                backoff_base(run.attempt as int, base_delay_secs),
                random,
            )) as u64,
        )),
        exit_code != 0 && !retryable(*run) ==> r == Completion::Failed(
            UpdateRunStatus { status: RunStatus::Failed, exit_code: Some(exit_code), error_message: error, pid: None },
        ),
{
    if exit_code == 0 {
        Completion::Succeeded(
            UpdateRunStatus { status: RunStatus::Completed, exit_code: Some(exit_code), error_message: None, pid: None },
        )
    } else if run.can_retry() {
        let delay = calculate_backoff(run.attempt, base_delay_secs);
        Completion::Retry { attempt: run.attempt + 1, delay }
    } else {
        Completion::Failed(
            UpdateRunStatus { status: RunStatus::Failed, exit_code: Some(exit_code), error_message: error, pid: None },
        )
    }
}

/// How long a stopping worker waits for its runs before it kills them, in
/// seconds.
pub const SHUTDOWN_TIMEOUT_SECS: u64 = 30;

/// What a stopping worker does next.
#[derive(Debug, Clone, Copy, PartialEq, Eq, Structural)]
pub enum ShutdownStep {
    /// No run is left: the worker stops.
    Finished,
    /// Runs are still going and there is time left: look again.
    Wait,
    /// Time is up: kill the runs left and mark them cancelled.
    KillRemaining,
}

/// The next step of a worker's shutdown, from how many runs are still going
/// and whether the shutdown deadline has passed.
pub fn shutdown_step(active_runs: usize, past_deadline: bool) -> (r: ShutdownStep)
    ensures
        active_runs == 0 ==> r == ShutdownStep::Finished,
        active_runs > 0 && past_deadline ==> r == ShutdownStep::KillRemaining,
        active_runs > 0 && !past_deadline ==> r == ShutdownStep::Wait,
{
    if active_runs == 0 {
        ShutdownStep::Finished
    } else if past_deadline {
        ShutdownStep::KillRemaining
    } else {
        ShutdownStep::Wait
    }
}

/// The status recorded for a run killed when its worker stopped.
pub fn shutdown_cancellation() -> (r: UpdateRunStatus)
    ensures
        r.status == RunStatus::Cancelled,
        r.exit_code is None,
        r.error_message matches Some(m) && m@ == "Killed during worker shutdown"@,
        r.pid is None,
{
    UpdateRunStatus {
        status: RunStatus::Cancelled,
        exit_code: None,
        error_message: Some(owned("Killed during worker shutdown")),
        pid: None,
    }
}

/// The positions, among the first `slots` pending retries, of the runs of
/// the worker `worker_id`: the runs of other workers use up slots too.
pub open spec fn retry_positions(pending: Seq<Run>, worker_id: Seq<char>, slots: nat) -> Seq<usize>
    decreases slots,
{
    if slots == 0 {
        Seq::empty()
    } else {
        let pre = retry_positions(pending, worker_id, (slots - 1) as nat);
        let k = (slots - 1) as int;
        if k < pending.len() && pending[k].worker_id@ == worker_id { pre.push(k as usize) } else { pre }
    }
}

/// Which pending retries a worker takes up now: as many as it has free run
/// slots (its concurrency less its active runs), in order, skipping (but
/// counting) the runs of other workers. Gives their positions in `pending`.
pub fn retries_to_start(pending: &Vec<Run>, worker_id: &str, concurrency: u32, active_runs: usize) -> (r: Vec<usize>)
    requires
        active_runs <= concurrency,
    ensures
        r@ == retry_positions(pending@, worker_id@, (concurrency - active_runs) as nat),
{
    let slots: usize = concurrency as usize - active_runs;
    let mut out: Vec<usize> = Vec::new();
    let mut k: usize = 0;
    while k < slots
        invariant
            k <= slots,
            slots == concurrency - active_runs,
            out@ == retry_positions(pending@, worker_id@, k as nat),
        decreases slots - k,
    {
        if k < pending.len() && text_eq(pending[k].worker_id.as_str(), worker_id) {
            out.push(k);
        }
        k = k + 1;
    }
    out
}

/// The error of a pipeline worker that has no steps.
pub fn missing_pipeline_steps(worker_id: &str) -> (r: GranaryError)
    ensures
        r matches GranaryError::Conflict(m) && m@ == "Worker "@ + worker_id@
            + " is marked as pipeline but has no pipeline_steps"@,
{
    let mut m = owned("Worker ");
    push_str(&mut m, worker_id);
    push_str(&mut m, " is marked as pipeline but has no pipeline_steps");
    GranaryError::Conflict(m)
}

/// The error of a pipeline run retried after its event is gone.
pub fn missing_retry_event(run_id: &str, event_id: i64) -> (r: GranaryError)
    ensures
        r matches GranaryError::Conflict(m) && m@ == "Cannot retry pipeline run "@ + run_id@
            + ": original event "@ + int_text(event_id as int) + " not found in workspace DB"@,
{
    let mut m = owned("Cannot retry pipeline run ");
    push_str(&mut m, run_id);
    push_str(&mut m, ": original event ");
    push_int(&mut m, event_id);
    push_str(&mut m, " not found in workspace DB");
    GranaryError::Conflict(m)
}

} // verus!
