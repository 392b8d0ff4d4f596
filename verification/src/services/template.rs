//! Template substitution for runner arguments.
//!
//! Placeholders `{path}` are replaced with values from an event:
//! - `{event.id}`, `{event.type}`, `{event.entity_type}`, `{event.entity_id}`,
//!   `{event.created_at}`: fields of the event row;
//! - `{task.field}`, `{project.field}`, `{session.field}`: lookups under the
//!   `task`, `project` or `session` member of the payload;
//! - `{field}`, `{a.b.0.c}`: lookups from the top of the payload.
//!
//! With a pipeline context, `{steps.<name>.stdout}`, `{steps.<name>.exit_code}`,
//! `{prev.stdout}` and `{prev.exit_code}` give the outputs of earlier steps, and
//! take priority. Unknown placeholders become empty text; a `{` without a
//! closing `}` takes the rest of the template as its path.
use vstd::prelude::*;
use crate::error::GranaryError;
use crate::json::{lookup_path, lookup_path_exec, member, member_exec, parse_json, parsed_json, JsonValue};
use crate::models::event::Event;
use crate::text::{
    chars_of, ends_with, int_text, int_to_text, owned, push_char, push_str, range_eq,
    starts_with, string_of_range, text_eq, views,
};

verus! {

/// Output captured from a completed pipeline step.
#[derive(Debug)]
pub struct StepOutput {
    pub stdout: String,
    pub exit_code: i32,
}

impl Clone for StepOutput {
    fn clone(&self) -> (r: Self)
        ensures
            r == *self,
    {
        StepOutput { stdout: self.stdout.clone(), exit_code: self.exit_code }
    }
}

/// The output recorded under `name` (the first entry with that name).
pub open spec fn output_of(entries: Seq<(String, StepOutput)>, name: Seq<char>) -> Option<StepOutput>
    decreases entries.len(),
{
    if entries.len() == 0 {
        None
    } else if entries[0].0@ == name {
        Some(entries[0].1)
    } else {
        output_of(entries.drop_first(), name)
    }
}

/// No name is recorded twice.
pub open spec fn names_unique(entries: Seq<(String, StepOutput)>) -> bool {
    forall|i: int, j: int| 0 <= i < j < entries.len() ==> entries[i].0@ != entries[j].0@
}

/// Outputs of the completed steps of a pipeline.
#[derive(Debug)]
pub struct PipelineContext {
    outputs: Vec<(String, StepOutput)>,
    last_step: Option<String>,
}

/// What a pipeline path resolves to, given the recorded outputs and the name
/// of the last step: `steps.<name>.stdout`, `steps.<name>.exit_code`,
/// `prev.stdout`, `prev.exit_code`; nothing for any other path.
pub open spec fn resolve_spec(
    entries: Seq<(String, StepOutput)>,
    last: Option<String>,
    path: Seq<char>,
) -> Option<Seq<char>> {
    if starts_with(path, "steps."@) {
        let rest = path.subrange(6, path.len() as int);
        if ends_with(rest, ".stdout"@) {
            match output_of(entries, rest.subrange(0, rest.len() - 7)) {
                Some(o) => Some(o.stdout@),
                None => None,
            }
        } else if ends_with(rest, ".exit_code"@) {
            match output_of(entries, rest.subrange(0, rest.len() - 10)) {
                Some(o) => Some(int_text(o.exit_code as int)),
                None => None,
            }
        } else {
            None
        }
    } else if starts_with(path, "prev."@) {
        let field = path.subrange(5, path.len() as int);
        match last {
            Some(l) => match output_of(entries, l@) {
                Some(o) => if field == "stdout"@ {
                    Some(o.stdout@)
                } else if field == "exit_code"@ {
                    Some(int_text(o.exit_code as int))
                } else {
                    None
                },
                None => None,
            },
            None => None,
        }
    } else {
        None
    }
}

/// `after` is `before` with the output of step `name` recorded: that step is
/// the last one and has `output`, and every other step keeps its output.
pub open spec fn records_step(
    before: PipelineContext,
    after: PipelineContext,
    name: Seq<char>,
    output: StepOutput,
) -> bool {
    &&& after.last_spec() matches Some(l) && l@ == name
    &&& output_of(after.outputs_spec(), name) == Some(output)
    &&& forall|other: Seq<char>| other != name ==> output_of(after.outputs_spec(), other)
        == output_of(before.outputs_spec(), other)
}

impl PipelineContext {
    #[verifier::type_invariant]
    spec fn wf(self) -> bool {
        names_unique(self.outputs@)
    }

    /// The outputs recorded so far, by step name.
    pub closed spec fn outputs_spec(self) -> Seq<(String, StepOutput)> {
        self.outputs@
    }

    /// The step recorded last.
    pub closed spec fn last_spec(self) -> Option<String> {
        self.last_step
    }

    /// What a pipeline path resolves to in this context.
    pub open spec fn resolves(self, path: Seq<char>) -> Option<Seq<char>> {
        resolve_spec(self.outputs_spec(), self.last_spec(), path)
    }

    /// An empty context.
    pub fn new() -> (r: PipelineContext)
        ensures
            r.outputs_spec().len() == 0,
            r.last_spec() is None,
    {
        PipelineContext { outputs: Vec::new(), last_step: None }
    }

    /// Records a step's output, replacing an earlier one of the same name, and
    /// makes it the last step.
    pub fn add_step(&mut self, name: String, output: StepOutput)
        ensures
            records_step(*old(self), *final(self), name@, output),
    {
        proof {
            use_type_invariant(&*self);
        }
        let mut outputs: Vec<(String, StepOutput)> = Vec::new();
        std::mem::swap(&mut outputs, &mut self.outputs);
        let ghost before = outputs@;
        let found = position_of(&outputs, name.as_str());
        let ghost name_view = name@;
        if let Some(i) = found {
            outputs.set(i, (name.clone(), output));
            proof {
                lemma_output_of_replace(before, i as int, name_view, output, outputs@);
            }
        } else {
            let ghost entry = (name, output);
            outputs.push((name.clone(), output));
            proof {
                assert(outputs@ == before.push(entry));
                lemma_output_of_push(before, entry);
            }
        }
        self.outputs = outputs;
        self.last_step = Some(name);
    }

    /// Resolves a pipeline path (see [`resolve_spec`]). Step names may hold
    /// `/`, `-` and `.`: the known suffixes are stripped from the right.
    pub fn resolve(&self, path: &str) -> (r: Option<String>)
        ensures
            r matches Some(s) ==> self.resolves(path@) == Some(s@),
            r is None ==> self.resolves(path@) is None,
    {
        let v = chars_of(path);
        let n = v.len();
        proof {
            reveal_strlit("steps.");
            reveal_strlit("prev.");
            reveal_strlit(".stdout");
            reveal_strlit(".exit_code");
        }
        if n >= 6 && range_eq(&v, 0, 6, "steps.") {
            let ghost rest = v@.subrange(6, n as int);
            proof {
                if rest.len() >= 7 {
                    assert(rest.subrange(rest.len() - 7, rest.len() as int) =~= v@.subrange(n - 7, n as int));
                }
                if rest.len() >= 10 {
                    assert(rest.subrange(rest.len() - 10, rest.len() as int) =~= v@.subrange(n - 10, n as int));
                }
            }
            if n >= 6 + 7 && range_eq(&v, n - 7, n, ".stdout") {
                let name = string_of_range(&v, 6, n - 7);
                assert(rest.subrange(0, rest.len() - 7) =~= name@);
                return match self.lookup(name.as_str()) {
                    Some(o) => Some(o.stdout.clone()),
                    None => None,
                };
            }
            if n >= 6 + 10 && range_eq(&v, n - 10, n, ".exit_code") {
                let name = string_of_range(&v, 6, n - 10);
                assert(rest.subrange(0, rest.len() - 10) =~= name@);
                return match self.lookup(name.as_str()) {
                    Some(o) => Some(int_to_text(o.exit_code as i64)),
                    None => None,
                };
            }
            None
        } else if n >= 5 && range_eq(&v, 0, 5, "prev.") {
            proof {
                if n >= 6 {
                    assert(v@.subrange(0, 6)[4] == v@.subrange(0, 5)[4]);
                    assert(v@.subrange(0, 6) != "steps."@);
                }
            }
            let last = match &self.last_step {
                Some(l) => l,
                None => {
                    return None;
                },
            };
            let o = match self.lookup(last.as_str()) {
                Some(o) => o,
                None => {
                    return None;
                },
            };
            if range_eq(&v, 5, n, "stdout") {
                Some(o.stdout.clone())
            } else if range_eq(&v, 5, n, "exit_code") {
                Some(int_to_text(o.exit_code as i64))
            } else {
                None
            }
        } else {
            None
        }
    }

    /// The output recorded under `name`, if any.
    fn lookup(&self, name: &str) -> (r: Option<&StepOutput>)
        ensures
            r == (match output_of(self.outputs_spec(), name@) {
                Some(o) => Some(&o),
                None => None::<&StepOutput>,
            }),
    {
        let mut i: usize = 0;
        assert(self.outputs@.subrange(0, self.outputs@.len() as int) =~= self.outputs@);
        while i < self.outputs.len()
            invariant
                0 <= i <= self.outputs.len(),
                output_of(self.outputs@, name@) == output_of(
                    self.outputs@.subrange(i as int, self.outputs@.len() as int),
                    name@,
                ),
            decreases self.outputs.len() - i,
        {
            let ghost rest = self.outputs@.subrange(i as int, self.outputs@.len() as int);
            assert(rest.drop_first() =~= self.outputs@.subrange(i as int + 1, self.outputs@.len() as int));
            if crate::text::text_eq(self.outputs[i].0.as_str(), name) {
                return Some(&self.outputs[i].1);
            }
            i = i + 1;
        }
        None
    }
}

impl Clone for PipelineContext {
    fn clone(&self) -> (r: Self)
        ensures
            r.outputs_spec() == self.outputs_spec(),
            r.last_spec() == self.last_spec(),
    {
        proof {
            use_type_invariant(self);
        }
        let mut outputs: Vec<(String, StepOutput)> = Vec::new();
        let mut i: usize = 0;
        while i < self.outputs.len()
            invariant
                0 <= i <= self.outputs.len(),
                names_unique(self.outputs@),
                outputs@ == self.outputs@.subrange(0, i as int),
            decreases self.outputs.len() - i,
        {
            let e = &self.outputs[i];
            outputs.push((e.0.clone(), e.1.clone()));
            assert(outputs@ =~= self.outputs@.subrange(0, i as int + 1));
            i = i + 1;
        }
        assert(outputs@ =~= self.outputs@);
        let last_step = match &self.last_step {
            Some(l) => Some(l.clone()),
            None => None,
        };
        PipelineContext { outputs, last_step }
    }
}

impl Default for PipelineContext {
    fn default() -> (r: Self)
        ensures
            r.outputs_spec().len() == 0,
            r.last_spec() is None,
    {
        PipelineContext::new()
    }
}

/// The view of an optional string.
pub open spec fn opt_view(o: Option<String>) -> Option<Seq<char>> {
    match o {
        Some(s) => Some(s@),
        None => None,
    }
}

/// The text a JSON value stands for in a substituted template: strings as they
/// are, numbers and booleans as printed, arrays and objects as compact JSON,
/// and nothing for `null`.
pub open spec fn value_text(v: JsonValue) -> Option<Seq<char>> {
    match v {
        JsonValue::Null => None,
        JsonValue::Bool(b) => Some(if b { "true"@ } else { "false"@ }),
        JsonValue::Number(n) => Some(n@),
        JsonValue::Str(s) => Some(s@),
        JsonValue::Array(_, t) => Some(t@),
        JsonValue::Object(_, t) => Some(t@),
    }
}

/// The member `key` of `v`, when `v` is an object that has one.
pub open spec fn get_member(v: JsonValue, key: Seq<char>) -> Option<JsonValue> {
    match v {
        JsonValue::Object(ms, _) => member(ms@, key),
        _ => None,
    }
}

/// The text of what the dotted `path` reaches below `v`.
pub open spec fn nested_text(v: Option<JsonValue>, path: Seq<char>) -> Option<Seq<char>> {
    match v {
        Some(x) => match lookup_path(x, path) {
            Some(y) => value_text(y),
            None => None,
        },
        None => None,
    }
}

/// What a placeholder path resolves to from an event and its parsed payload.
pub open spec fn event_path_text(payload: JsonValue, path: Seq<char>, event: Event) -> Option<Seq<char>> {
    if path == "event.id"@ {
        Some(int_text(event.id as int))
    } else if path == "event.type"@ {
        Some(event.event_type@)
    } else if path == "event.entity_type"@ {
        Some(event.entity_type@)
    } else if path == "event.entity_id"@ {
        Some(event.entity_id@)
    } else if path == "event.created_at"@ {
        Some(event.created_at@)
    } else if starts_with(path, "task."@) {
        nested_text(get_member(payload, "task"@), path.subrange(5, path.len() as int))
    } else if starts_with(path, "project."@) {
        nested_text(get_member(payload, "project"@), path.subrange(8, path.len() as int))
    } else if starts_with(path, "session."@) {
        nested_text(get_member(payload, "session"@), path.subrange(8, path.len() as int))
    } else {
        nested_text(Some(payload), path)
    }
}

/// The pipeline context behind an optional reference.
pub open spec fn ctx_of(pipeline: Option<&PipelineContext>) -> Option<PipelineContext> {
    match pipeline {
        Some(c) => Some(*c),
        None => None,
    }
}

/// What a placeholder is replaced with: the pipeline's value when there is
/// one, else the event's, else nothing.
pub open spec fn placeholder_text(
    path: Seq<char>,
    event: Event,
    payload: JsonValue,
    pipeline: Option<PipelineContext>,
) -> Seq<char> {
    let from_pipeline = match pipeline {
        Some(c) => c.resolves(path),
        None => None,
    };
    match from_pipeline {
        Some(t) => t,
        None => match event_path_text(payload, path, event) {
            Some(t) => t,
            None => Seq::empty(),
        },
    }
}

/// The index of the first `c` in `s`.
pub open spec fn char_index(s: Seq<char>, c: char) -> Option<nat>
    decreases s.len(),
{
    if s.len() == 0 {
        None
    } else if s[0] == c {
        Some(0)
    } else {
        match char_index(s.drop_first(), c) {
            Some(k) => Some(k + 1),
            None => None,
        }
    }
}

/// `char_index` finds the first occurrence, and only a missing character
/// gives nothing.
pub proof fn lemma_char_index(s: Seq<char>, c: char)
    ensures
        match char_index(s, c) {
            Some(k) => k < s.len() && s[k as int] == c && forall|j: int| 0 <= j < k ==> s[j] != c,
            None => forall|j: int| 0 <= j < s.len() ==> s[j] != c,
        },
    decreases s.len(),
{
    if s.len() > 0 {
        lemma_char_index(s.drop_first(), c);
        if s[0] != c {
            assert forall|j: int| 1 <= j < s.len() implies s[j] == s.drop_first()[j - 1] by {}
        }
    }
}

/// A template with its placeholders substituted: text outside braces is kept;
/// `{path}` is replaced by [`placeholder_text`]; a `{` with no closing `}`
/// takes the rest of the template as its path.
pub open spec fn render(
    t: Seq<char>,
    event: Event,
    payload: JsonValue,
    pipeline: Option<PipelineContext>,
) -> Seq<char>
    decreases t.len(),
{
    if t.len() == 0 {
        Seq::empty()
    } else if t[0] == '{' {
        let body = t.drop_first();
        match char_index(body, '}') {
            Some(k) => {
                proof {
                    lemma_char_index(body, '}');
                }
                placeholder_text(body.take(k as int), event, payload, pipeline) + render(
                    body.skip(k as int + 1),
                    event,
                    payload,
                    pipeline,
                )
            },
            None => placeholder_text(body, event, payload, pipeline),
        }
    } else {
        seq![t[0]] + render(t.drop_first(), event, payload, pipeline)
    }
}

/// The text of a JSON value (see [`value_text`]).
fn value_text_exec(v: &JsonValue) -> (r: Option<String>)
    ensures
        opt_view(r) == value_text(*v),
{
    match v {
        JsonValue::Null => None,
        JsonValue::Bool(b) => if *b {
            Some(owned("true"))
        } else {
            Some(owned("false"))
        },
        JsonValue::Number(n) => Some(owned(n.as_str())),
        JsonValue::Str(s) => Some(owned(s.as_str())),
        JsonValue::Array(_, t) => Some(owned(t.as_str())),
        JsonValue::Object(_, t) => Some(owned(t.as_str())),
    }
}

/// The member `key` of `v` (see [`get_member`]).
fn get_member_exec<'a>(v: &'a JsonValue, key: &str) -> (r: Option<&'a JsonValue>)
    ensures
        r == (match get_member(*v, key@) {
            Some(x) => Some(&x),
            None => None::<&JsonValue>,
        }),
{
    match v {
        JsonValue::Object(ms, _) => member_exec(ms, key),
        _ => None,
    }
}

/// The text at `path` below `v` (see [`nested_text`]).
fn nested_text_exec(v: Option<&JsonValue>, path: &str) -> (r: Option<String>)
    ensures
        opt_view(r) == nested_text(
            match v {
                Some(x) => Some(*x),
                None => None,
            },
            path@,
        ),
{
    match v {
        Some(x) => match lookup_path_exec(x, path) {
            Some(y) => value_text_exec(y),
            None => None,
        },
        None => None,
    }
}

/// What a placeholder path resolves to from an event (see [`event_path_text`]).
pub fn event_path_value(payload: &JsonValue, path: &str, event: &Event) -> (r: Option<String>)
    ensures
        opt_view(r) == event_path_text(*payload, path@, *event),
{
    if text_eq(path, "event.id") {
        return Some(int_to_text(event.id));
    }
    if text_eq(path, "event.type") {
        return Some(owned(event.event_type.as_str()));
    }
    if text_eq(path, "event.entity_type") {
        return Some(owned(event.entity_type.as_str()));
    }
    if text_eq(path, "event.entity_id") {
        return Some(owned(event.entity_id.as_str()));
    }
    if text_eq(path, "event.created_at") {
        return Some(owned(event.created_at.as_str()));
    }
    let v = chars_of(path);
    let n = v.len();
    proof {
        reveal_strlit("task.");
        reveal_strlit("project.");
        reveal_strlit("session.");
    }
    if n >= 5 && range_eq(&v, 0, 5, "task.") {
        let field = string_of_range(&v, 5, n);
        return nested_text_exec(get_member_exec(payload, "task"), field.as_str());
    }
    if n >= 8 && range_eq(&v, 0, 8, "project.") {
        let field = string_of_range(&v, 8, n);
        return nested_text_exec(get_member_exec(payload, "project"), field.as_str());
    }
    if n >= 8 && range_eq(&v, 0, 8, "session.") {
        let field = string_of_range(&v, 8, n);
        return nested_text_exec(get_member_exec(payload, "session"), field.as_str());
    }
    nested_text_exec(Some(payload), path)
}

/// What a placeholder is replaced with (see [`placeholder_text`]).
pub fn placeholder_value(
    path: &str,
    event: &Event,
    payload: &JsonValue,
    pipeline_ctx: Option<&PipelineContext>,
) -> (r: String)
    ensures
        r@ == placeholder_text(path@, *event, *payload, ctx_of(pipeline_ctx)),
{
    if let Some(ctx) = pipeline_ctx {
        if let Some(value) = ctx.resolve(path) {
            return value;
        }
    }
    match event_path_value(payload, path, event) {
        Some(value) => value,
        None => String::new(),
    }
}

/// The index of the first `c` in `v[from..]`.
fn char_index_from(v: &Vec<char>, from: usize, c: char) -> (r: Option<usize>)
    requires
        from <= v.len(),
    ensures
        match char_index(v@.subrange(from as int, v@.len() as int), c) {
            Some(k) => r == Some((from + k) as usize),
            None => r is None,
        },
{
    let ghost s = v@.subrange(from as int, v@.len() as int);
    proof {
        lemma_char_index(s, c);
    }
    let mut i: usize = from;
    while i < v.len()
        invariant
            from <= i <= v.len(),
            s == v@.subrange(from as int, v@.len() as int),
            forall|j: int| from <= j < i ==> v@[j] != c,
        decreases v.len() - i,
    {
        if v[i] == c {
            proof {
                assert(s[i - from] == c);
                assert forall|j: int| 0 <= j < i - from implies s[j] != c by {
                    assert(s[j] == v@[from + j]);
                }
                lemma_char_index(s, c);
                match char_index(s, c) {
                    Some(k) => {
                        if k < i - from {
                            assert(s[k as int] != c);
                        }
                        if k > i - from {
                            assert(s[i - from] != c);
                        }
                    },
                    None => {
                        assert(s[i - from] != c);
                    },
                }
            }
            return Some(i);
        }
        i = i + 1;
    }
    proof {
        assert forall|j: int| 0 <= j < s.len() implies s[j] != c by {
            assert(s[j] == v@[from + j]);
        }
    }
    None
}

/// Substitutes the placeholders of `template` with values from `event`, whose
/// payload has been parsed into `payload`, checking `pipeline_ctx` first
/// (see [`render`]).
pub fn substitute_with_payload(
    template: &str,
    event: &Event,
    payload: &JsonValue,
    pipeline_ctx: Option<&PipelineContext>,
) -> (r: String)
    ensures
        r@ == render(template@, *event, *payload, ctx_of(pipeline_ctx)),
{
    let v = chars_of(template);
    let n = v.len();
    let ghost ctx = ctx_of(pipeline_ctx);
    let mut out = String::new();
    let mut i: usize = 0;
    assert(v@.subrange(0, n as int) =~= v@);
    while i < n
        invariant
            v@ == template@,
            n == v.len(),
            ctx == ctx_of(pipeline_ctx),
            0 <= i <= n,
            render(template@, *event, *payload, ctx) == out@ + render(
                v@.subrange(i as int, n as int),
                *event,
                *payload,
                ctx,
            ),
        decreases n - i,
    {
        let ghost rest = v@.subrange(i as int, n as int);
        let ghost before = out@;
        assert(rest[0] == v@[i as int]);
        if v[i] == '{' {
            let ghost body = rest.drop_first();
            assert(body =~= v@.subrange(i as int + 1, n as int));
            proof {
                lemma_char_index(body, '}');
            }
            match char_index_from(&v, i + 1, '}') {
                Some(j) => {
                    let path = string_of_range(&v, i + 1, j);
                    let ghost k = (j - (i + 1)) as nat;
                    assert(body.take(k as int) =~= path@);
                    assert(body.skip(k as int + 1) =~= v@.subrange(j as int + 1, n as int));
                    let value = placeholder_value(path.as_str(), event, payload, pipeline_ctx);
                    push_str(&mut out, value.as_str());
                    assert(out@ + render(v@.subrange(j as int + 1, n as int), *event, *payload, ctx)
                        =~= before + (value@ + render(v@.subrange(j as int + 1, n as int), *event, *payload, ctx)));
                    i = j + 1;
                },
                None => {
                    let path = string_of_range(&v, i + 1, n);
                    assert(body =~= path@);
                    let value = placeholder_value(path.as_str(), event, payload, pipeline_ctx);
                    push_str(&mut out, value.as_str());
                    assert(v@.subrange(n as int, n as int).len() == 0);
                    assert(out@ + render(v@.subrange(n as int, n as int), *event, *payload, ctx) =~= out@);
                    i = n;
                },
            }
        } else {
            let c = v[i];
            push_char(&mut out, c);
            assert(rest.drop_first() =~= v@.subrange(i as int + 1, n as int));
            assert(out@ + render(v@.subrange(i as int + 1, n as int), *event, *payload, ctx)
                =~= before + (seq![c] + render(v@.subrange(i as int + 1, n as int), *event, *payload, ctx)));
            i = i + 1;
        }
    }
    assert(out@ + render(v@.subrange(n as int, n as int), *event, *payload, ctx) =~= out@);
    out
}

/// Substitutes the placeholders of `template` with values from `event`,
/// checking `pipeline_ctx` first. The event's payload is parsed as JSON; when
/// it is not valid JSON the result is [`GranaryError::Json`].
pub fn substitute_with_context(
    template: &str,
    event: &Event,
    pipeline_ctx: Option<&PipelineContext>,
) -> (r: Result<String, GranaryError>)
    ensures
        match parsed_json(event.payload@) {
            Some(p) => r matches Ok(s) && s@ == render(template@, *event, p, ctx_of(pipeline_ctx)),
            None => r matches Err(GranaryError::Json(_)),
        },
{
    match parse_json(event.payload.as_str()) {
        Ok(payload) => Ok(substitute_with_payload(template, event, &payload, pipeline_ctx)),
        Err(e) => Err(GranaryError::Json(e)),
    }
}

/// Substitutes the placeholders of `template` with values from `event` (no
/// pipeline context).
pub fn substitute(template: &str, event: &Event) -> (r: Result<String, GranaryError>)
    ensures
        match parsed_json(event.payload@) {
            Some(p) => r matches Ok(s) && s@ == render(template@, *event, p, None),
            None => r matches Err(GranaryError::Json(_)),
        },
{
    substitute_with_context(template, event, None)
}

/// Every template rendered.
pub open spec fn render_all(
    ts: Seq<String>,
    event: Event,
    payload: JsonValue,
    pipeline: Option<PipelineContext>,
) -> Seq<Seq<char>> {
    ts.map_values(|t: String| render(t@, event, payload, pipeline))
}

/// Substitutes the placeholders of each template, checking `pipeline_ctx`
/// first. An empty list gives an empty list; otherwise an invalid payload
/// gives [`GranaryError::Json`].
pub fn substitute_all_with_context(
    templates: &[String],
    event: &Event,
    pipeline_ctx: Option<&PipelineContext>,
) -> (r: Result<Vec<String>, GranaryError>)
    ensures
        templates@.len() == 0 ==> (r matches Ok(out) && out@.len() == 0),
        templates@.len() > 0 ==> (match parsed_json(event.payload@) {
            Some(p) => r matches Ok(out) && views(out@) == render_all(templates@, *event, p, ctx_of(pipeline_ctx)),
            None => r matches Err(GranaryError::Json(_)),
        }),
{
    let mut out: Vec<String> = Vec::new();
    let mut i: usize = 0;
    while i < templates.len()
        invariant
            0 <= i <= templates@.len(),
            out@.len() == i,
            i > 0 ==> parsed_json(event.payload@) is Some,
            forall|j: int| 0 <= j < i ==> (#[trigger] out@[j])@ == render(
                templates@[j]@,
                *event,
                parsed_json(event.payload@)->Some_0,
                ctx_of(pipeline_ctx),
            ),
        decreases templates@.len() - i,
    {
        match substitute_with_context(templates[i].as_str(), event, pipeline_ctx) {
            Ok(s) => {
                out.push(s);
            },
            Err(e) => {
                return Err(e);
            },
        }
        i = i + 1;
    }
    proof {
        if templates@.len() > 0 {
            assert(views(out@) =~= render_all(
                templates@,
                *event,
                parsed_json(event.payload@)->Some_0,
                ctx_of(pipeline_ctx),
            ));
        }
    }
    Ok(out)
}

/// Substitutes the placeholders of each template (no pipeline context).
pub fn substitute_all(templates: &[String], event: &Event) -> (r: Result<Vec<String>, GranaryError>)
    ensures
        templates@.len() == 0 ==> (r matches Ok(out) && out@.len() == 0),
        templates@.len() > 0 ==> (match parsed_json(event.payload@) {
            Some(p) => r matches Ok(out) && views(out@) == render_all(templates@, *event, p, None),
            None => r matches Err(GranaryError::Json(_)),
        }),
{
    substitute_all_with_context(templates, event, None)
}

/// The index of the entry named `name`, if there is one.
fn position_of(entries: &Vec<(String, StepOutput)>, name: &str) -> (r: Option<usize>)
    ensures
        match r {
            Some(i) => i < entries@.len() && entries@[i as int].0@ == name@,
            None => forall|j: int| 0 <= j < entries@.len() ==> entries@[j].0@ != name@,
        },
{
    let mut i: usize = 0;
    while i < entries.len()
        invariant
            0 <= i <= entries.len(),
            forall|j: int| 0 <= j < i ==> entries@[j].0@ != name@,
        decreases entries.len() - i,
    {
        if crate::text::text_eq(entries[i].0.as_str(), name) {
            return Some(i);
        }
        i = i + 1;
    }
    None
}

proof fn lemma_output_of_push(entries: Seq<(String, StepOutput)>, e: (String, StepOutput))
    requires
        names_unique(entries),
        forall|j: int| 0 <= j < entries.len() ==> entries[j].0@ != e.0@,
    ensures
        output_of(entries.push(e), e.0@) == Some(e.1),
        forall|other: Seq<char>| other != e.0@ ==> output_of(entries.push(e), other) == output_of(entries, other),
        names_unique(entries.push(e)),
{
    lemma_output_of_push_one(entries, e, e.0@);
    assert forall|other: Seq<char>| other != e.0@ implies output_of(entries.push(e), other) == output_of(entries, other) by {
        lemma_output_of_push_one(entries, e, other);
    }
}

proof fn lemma_output_of_push_one(entries: Seq<(String, StepOutput)>, e: (String, StepOutput), key: Seq<char>)
    requires
        key == e.0@ ==> forall|j: int| 0 <= j < entries.len() ==> entries[j].0@ != key,
    ensures
        output_of(entries.push(e), key) == if output_of(entries, key) is Some {
            output_of(entries, key)
        } else if e.0@ == key {
            Some(e.1)
        } else {
            None
        },
        key == e.0@ ==> output_of(entries, key) is None,
    decreases entries.len(),
{
    if entries.len() > 0 {
        assert(entries.push(e)[0] == entries[0]);
        assert(entries.push(e).drop_first() =~= entries.drop_first().push(e));
        lemma_output_of_push_one(entries.drop_first(), e, key);
    } else {
        assert(entries.push(e)[0] == e);
        assert(entries.push(e).drop_first().len() == 0);
        assert(output_of(entries.push(e).drop_first(), key) is None);
    }
}

proof fn lemma_output_of_replace(
    entries: Seq<(String, StepOutput)>,
    i: int,
    name: Seq<char>,
    out: StepOutput,
    after: Seq<(String, StepOutput)>,
)
    requires
        0 <= i < entries.len(),
        entries[i].0@ == name,
        after.len() == entries.len(),
        after[i].0@ == name,
        after[i].1 == out,
        forall|j: int| 0 <= j < entries.len() && j != i ==> after[j] == entries[j],
        names_unique(entries),
    ensures
        output_of(after, name) == Some(out),
        forall|other: Seq<char>| other != name ==> output_of(after, other) == output_of(entries, other),
        names_unique(after),
    decreases entries.len(),
{
    assert forall|other: Seq<char>| other != name implies output_of(after, other) == output_of(entries, other) by {
        lemma_output_of_same_except(entries, after, i, other);
    }
    lemma_output_of_at(after, i, name);
}

proof fn lemma_output_of_same_except(
    a: Seq<(String, StepOutput)>,
    b: Seq<(String, StepOutput)>,
    i: int,
    key: Seq<char>,
)
    requires
        a.len() == b.len(),
        0 <= i < a.len(),
        a[i].0@ != key,
        b[i].0@ != key,
        forall|j: int| 0 <= j < a.len() && j != i ==> b[j] == a[j],
    ensures
        output_of(b, key) == output_of(a, key),
    decreases a.len(),
{
    if a.len() > 0 && i > 0 {
        lemma_output_of_same_except(a.drop_first(), b.drop_first(), i - 1, key);
    } else if a.len() > 0 {
        assert(a.drop_first() =~= b.drop_first());
    }
}

proof fn lemma_output_of_at(a: Seq<(String, StepOutput)>, i: int, key: Seq<char>)
    requires
        0 <= i < a.len(),
        a[i].0@ == key,
        forall|j: int| 0 <= j < i ==> a[j].0@ != key,
    ensures
        output_of(a, key) == Some(a[i].1),
    decreases i,
{
    if i > 0 {
        lemma_output_of_at(a.drop_first(), i - 1, key);
    }
}

/// Once a step is recorded, `prev.stdout`, `prev.exit_code`,
/// `steps.<name>.stdout` and `steps.<name>.exit_code` give its output, whatever
/// characters its name holds; every other step's paths resolve as before.
pub proof fn law_recorded_step_resolves(
    before: PipelineContext,
    after: PipelineContext,
    name: Seq<char>,
    output: StepOutput,
)
    requires
        records_step(before, after, name, output),
    ensures
        after.resolves("prev.stdout"@) == Some(output.stdout@),
        after.resolves("prev.exit_code"@) == Some(int_text(output.exit_code as int)),
        after.resolves("steps."@ + name + ".stdout"@) == Some(output.stdout@),
        after.resolves("steps."@ + name + ".exit_code"@) == Some(int_text(output.exit_code as int)),
        forall|other: Seq<char>| other != name ==> (
            #[trigger] after.resolves("steps."@ + other + ".stdout"@)
        ) == before.resolves("steps."@ + other + ".stdout"@),
{
    reveal_strlit("prev.stdout");
    reveal_strlit("prev.exit_code");
    reveal_strlit("prev.");
    reveal_strlit("steps.");
    reveal_strlit(".stdout");
    reveal_strlit(".exit_code");
    reveal_strlit("stdout");
    reveal_strlit("exit_code");
    let p1 = "prev.stdout"@;
    assert(p1.subrange(0, 6) != "steps."@) by {
        assert(p1.subrange(0, 6)[0] != "steps."@[0]);
    }
    assert(p1.subrange(0, 5) =~= "prev."@);
    assert(p1.subrange(5, p1.len() as int) =~= "stdout"@);
    let p2 = "prev.exit_code"@;
    assert(p2.subrange(0, 6) != "steps."@) by {
        assert(p2.subrange(0, 6)[0] != "steps."@[0]);
    }
    assert(p2.subrange(0, 5) =~= "prev."@);
    assert(p2.subrange(5, p2.len() as int) =~= "exit_code"@);
    assert("exit_code"@ != "stdout"@);
    lemma_step_path(name, ".stdout"@);
    lemma_step_path(name, ".exit_code"@);
    let rest2 = name + ".exit_code"@;
    assert(rest2.subrange(rest2.len() - 7, rest2.len() as int) != ".stdout"@) by {
        assert(rest2.subrange(rest2.len() - 7, rest2.len() as int)[0] == rest2[rest2.len() - 7]);
        assert(rest2[rest2.len() - 7] == ".exit_code"@[3]);
    }
    assert forall|other: Seq<char>| other != name implies (#[trigger] after.resolves(
        "steps."@ + other + ".stdout"@,
    )) == before.resolves("steps."@ + other + ".stdout"@) by {
        lemma_step_path(other, ".stdout"@);
    }
}

/// Recording a step changes only the paths that name it: afterwards
/// `prev.stdout` and `steps.<name>.stdout` give its output,
/// `prev.exit_code` and `steps.<name>.exit_code` its exit code, and every
/// other path resolves as it did before (an earlier output under the same
/// name is replaced).
pub proof fn law_add_step_changes_only_its_paths(
    before: PipelineContext,
    after: PipelineContext,
    name: Seq<char>,
    output: StepOutput,
    path: Seq<char>,
)
    requires
        records_step(before, after, name, output),
    ensures
        after.resolves(path) == (if path == "prev.stdout"@ || path == "steps."@ + name + ".stdout"@ {
            Some(output.stdout@)
        } else if path == "prev.exit_code"@ || path == "steps."@ + name + ".exit_code"@ {
            Some(int_text(output.exit_code as int))
        } else {
            before.resolves(path)
        }),
{
    law_recorded_step_resolves(before, after, name, output);
    reveal_strlit("prev.stdout");
    reveal_strlit("prev.exit_code");
    reveal_strlit("prev.");
    reveal_strlit("steps.");
    reveal_strlit(".stdout");
    reveal_strlit(".exit_code");
    reveal_strlit("stdout");
    reveal_strlit("exit_code");
    let sp = "steps."@ + name + ".stdout"@;
    let se = "steps."@ + name + ".exit_code"@;
    assert(sp.len() != se.len());
    assert(se != "prev.stdout"@) by {
        assert(se[0] == 's');
        assert("prev.stdout"@[0] == 'p');
    }
    assert(sp != "prev.exit_code"@) by {
        assert(sp[0] == 's');
        assert("prev.exit_code"@[0] == 'p');
    }
    if path == "prev.stdout"@ || path == sp || path == "prev.exit_code"@ || path == se {
    } else {
        lemma_other_path_kept(before, after, name, output, path);
    }
}

/// What a path resolves to after the steps `steps` (name and output, in the
/// order they were recorded) were recorded into an empty context: the last
/// step whose name the path names gives its output (`prev.*` names the last
/// step); any other path resolves to nothing.
pub open spec fn steps_text(steps: Seq<(Seq<char>, StepOutput)>, path: Seq<char>) -> Option<Seq<char>>
    decreases steps.len(),
{
    if steps.len() == 0 {
        None
    } else {
        let n = steps.last().0;
        let o = steps.last().1;
        if path == "prev.stdout"@ || path == "steps."@ + n + ".stdout"@ {
            Some(o.stdout@)
        } else if path == "prev.exit_code"@ || path == "steps."@ + n + ".exit_code"@ {
            Some(int_text(o.exit_code as int))
        } else {
            steps_text(steps.drop_last(), path)
        }
    }
}

/// Each step's output stays available to the steps after it: in the context
/// `ctxs.last()` built from an empty one by recording `steps` in turn,
/// `steps.<n>.stdout` and `steps.<n>.exit_code` give the output of the last
/// step named `n`, `prev.*` that of the last step, and every other path
/// nothing.
pub proof fn law_steps_resolve_to_last(
    ctxs: Seq<PipelineContext>,
    steps: Seq<(Seq<char>, StepOutput)>,
    path: Seq<char>,
)
    requires
        ctxs.len() == steps.len() + 1,
        ctxs[0].outputs_spec().len() == 0,
        ctxs[0].last_spec() is None,
        forall|i: int| 0 <= i < steps.len() ==> records_step(#[trigger] ctxs[i], ctxs[i + 1], steps[i].0, steps[i].1),
    ensures
        ctxs.last().resolves(path) == steps_text(steps, path),
    decreases steps.len(),
{
    if steps.len() == 0 {
        assert(ctxs.last() == ctxs[0]);
    } else {
        let k = steps.len() - 1;
        let pre_c = ctxs.drop_last();
        let pre_s = steps.drop_last();
        assert forall|i: int| 0 <= i < pre_s.len() implies records_step(
            #[trigger] pre_c[i],
            pre_c[i + 1],
            pre_s[i].0,
            pre_s[i].1,
        ) by {
            assert(records_step(ctxs[i], ctxs[i + 1], steps[i].0, steps[i].1));
        }
        law_steps_resolve_to_last(pre_c, pre_s, path);
        assert(records_step(ctxs[k], ctxs[k + 1], steps[k].0, steps[k].1));
        law_add_step_changes_only_its_paths(ctxs[k], ctxs[k + 1], steps[k].0, steps[k].1, path);
        assert(pre_c.last() == ctxs[k]);
        assert(ctxs.last() == ctxs[k + 1]);
    }
}

/// A path other than the four that name a recorded step resolves as before.
proof fn lemma_other_path_kept(
    before: PipelineContext,
    after: PipelineContext,
    name: Seq<char>,
    output: StepOutput,
    path: Seq<char>,
)
    requires
        records_step(before, after, name, output),
        path != "prev.stdout"@,
        path != "prev.exit_code"@,
        path != "steps."@ + name + ".stdout"@,
        path != "steps."@ + name + ".exit_code"@,
    ensures
        after.resolves(path) == before.resolves(path),
{
    reveal_strlit("prev.stdout");
    reveal_strlit("prev.exit_code");
    reveal_strlit("prev.");
    reveal_strlit("steps.");
    reveal_strlit(".stdout");
    reveal_strlit(".exit_code");
    reveal_strlit("stdout");
    reveal_strlit("exit_code");
    if starts_with(path, "steps."@) {
        let rest = path.subrange(6, path.len() as int);
        assert(path =~= "steps."@ + rest) by {
            assert(path.subrange(0, 6) == "steps."@);
        }
        if ends_with(rest, ".stdout"@) {
            let key = rest.subrange(0, rest.len() - 7);
            assert(rest =~= key + ".stdout"@) by {
                assert(rest.subrange(rest.len() - 7, rest.len() as int) == ".stdout"@);
            }
            if key == name {
                assert(path =~= "steps."@ + name + ".stdout"@);
            }
        } else if ends_with(rest, ".exit_code"@) {
            let key = rest.subrange(0, rest.len() - 10);
            assert(rest =~= key + ".exit_code"@) by {
                assert(rest.subrange(rest.len() - 10, rest.len() as int) == ".exit_code"@);
            }
            if key == name {
                assert(path =~= "steps."@ + name + ".exit_code"@);
            }
        }
    } else if starts_with(path, "prev."@) {
        let field = path.subrange(5, path.len() as int);
        assert(path =~= "prev."@ + field) by {
            assert(path.subrange(0, 5) == "prev."@);
        }
        if field == "stdout"@ {
            assert(path =~= "prev.stdout"@);
        } else if field == "exit_code"@ {
            assert(path =~= "prev.exit_code"@);
        }
    }
}

/// The path `steps.<name><suffix>` starts with `steps.`, and what follows
/// is `name` then `suffix`.
proof fn lemma_step_path(name: Seq<char>, suffix: Seq<char>)
    ensures
        starts_with("steps."@ + name + suffix, "steps."@),
        ("steps."@ + name + suffix).subrange(6, ("steps."@ + name + suffix).len() as int) == name + suffix,
        ends_with(name + suffix, suffix),
        (name + suffix).subrange(0, (name + suffix).len() - suffix.len()) == name,
{
    reveal_strlit("steps.");
    let p = "steps."@ + name + suffix;
    assert(p.subrange(0, 6) =~= "steps."@);
    assert(p.subrange(6, p.len() as int) =~= name + suffix);
    assert((name + suffix).subrange((name + suffix).len() - suffix.len(), (name + suffix).len() as int) =~= suffix);
    assert((name + suffix).subrange(0, (name + suffix).len() - suffix.len()) =~= name);
}

/// A template with no `{` comes out of substitution unchanged.
pub proof fn law_plain_template_unchanged(
    t: Seq<char>,
    event: Event,
    payload: JsonValue,
    pipeline: Option<PipelineContext>,
)
    requires
        forall|i: int| 0 <= i < t.len() ==> t[i] != '{',
    ensures
        render(t, event, payload, pipeline) == t,
    decreases t.len(),
{
    if t.len() > 0 {
        law_plain_template_unchanged(t.drop_first(), event, payload, pipeline);
        assert(seq![t[0]] + t.drop_first() =~= t);
    }
}

/// A path that the pipeline resolves takes priority over the event's value.
pub proof fn law_pipeline_takes_priority(
    path: Seq<char>,
    event: Event,
    payload: JsonValue,
    ctx: PipelineContext,
)
    requires
        ctx.resolves(path) is Some,
    ensures
        placeholder_text(path, event, payload, Some(ctx)) == ctx.resolves(path)->Some_0,
{
}

/// Without a pipeline context, or with one that does not resolve the path, a
/// placeholder takes the event's value, or nothing.
pub proof fn law_event_value_otherwise(
    path: Seq<char>,
    event: Event,
    payload: JsonValue,
    pipeline: Option<PipelineContext>,
)
    requires
        pipeline matches Some(c) ==> c.resolves(path) is None,
    ensures
        placeholder_text(path, event, payload, pipeline) == match event_path_text(payload, path, event) {
            Some(t) => t,
            None => Seq::empty(),
        },
{
}

} // verus!
