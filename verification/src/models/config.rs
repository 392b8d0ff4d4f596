//! Configuration of actions and pipeline steps, as the global config file and
//! the action files describe them.
use vstd::prelude::*;
use crate::text::{dec, owned, push_nat};

verus! {

/// What a pipeline does when one of its steps exits with a non-zero code.
#[derive(Debug, Clone, Copy, PartialEq, Eq, Structural)]
pub enum OnError {
    /// Stop the pipeline and fail the run.
    Stop,
    /// Go on with the next step.
    Continue,
}

impl Default for OnError {
    fn default() -> (r: Self)
        ensures
            r == OnError::Stop,
    {
        OnError::Stop
    }
}

/// Environment variables, as name/value pairs.
pub type EnvVars = Vec<(String, String)>;

/// A reusable action: a command with its arguments and environment, or a
/// pipeline of steps.
#[derive(Debug, Clone)]
pub struct ActionConfig {
    pub command: Option<String>,
    pub args: Vec<String>,
    pub env: EnvVars,
    pub concurrency: Option<u32>,
    pub on: Option<String>,
    pub steps: Option<Vec<StepConfig>>,
}

impl ActionConfig {
    /// An action that runs `command` with no arguments.
    pub fn new(command: &str) -> (r: ActionConfig)
        ensures
            r.command matches Some(c) && c@ == command@,
            r.args@.len() == 0,
            r.env@.len() == 0,
            r.concurrency is None,
            r.on is None,
            r.steps is None,
    {
        ActionConfig {
            command: Some(owned(command)),
            args: Vec::new(),
            env: Vec::new(),
            concurrency: None,
            on: None,
            steps: None,
        }
    }
}

/// One step of a pipeline: a reference to an action, or an inline command,
/// with overrides.
#[derive(Debug, Clone)]
pub struct StepConfig {
    pub name: Option<String>,
    pub action: Option<String>,
    pub command: Option<String>,
    pub args: Option<Vec<String>>,
    pub env: Option<EnvVars>,
    pub cwd: Option<String>,
    pub on_error: Option<OnError>,
}

/// The name of the step at (zero-based) position `index`: its own name, or
/// `step_<index + 1>`.
pub open spec fn step_name(name: Option<String>, index: nat) -> Seq<char> {
    match name {
        Some(n) => n@,
        None => "step_"@ + dec(index + 1),
    }
}

impl StepConfig {
    /// The step's name, or `step_<index + 1>` when it has none.
    pub fn resolved_name(&self, index: usize) -> (r: String)
        requires
            index < u64::MAX,
        ensures
            r@ == step_name(self.name, index as nat),
    {
        match &self.name {
            Some(n) => owned(n.as_str()),
            None => {
                let mut s = owned("step_");
                push_nat(&mut s, (index as u64) + 1);
                s
            },
        }
    }
}

} // verus!
