//! The kinds of output a command can produce, and how a requested format
//! selects one.
use vstd::prelude::*;

verus! {

/// The kind of output a command prefers.
#[derive(Debug, Clone, Copy, PartialEq, Eq, Structural)]
pub enum OutputType {
    /// Text for people.
    Text,
    /// Text for language models.
    Prompt,
    /// JSON for programs.
    Json,
}

impl Default for OutputType {
    fn default() -> (r: Self)
        ensures
            r == OutputType::Text,
    {
        OutputType::Text
    }
}

/// The output formats a user can ask for.
#[derive(Debug, Clone, Copy, PartialEq, Eq, Structural)]
pub enum CliOutputFormat {
    Table,
    Md,
    Yaml,
    Json,
    Prompt,
}

/// The format that an output kind is shown in.
pub open spec fn format_of(t: OutputType) -> CliOutputFormat {
    match t {
        OutputType::Text => CliOutputFormat::Table,
        OutputType::Prompt => CliOutputFormat::Prompt,
        OutputType::Json => CliOutputFormat::Json,
    }
}

/// The output kind a format stands for: markdown is text, YAML is structured
/// like JSON.
pub open spec fn kind_of(f: CliOutputFormat) -> OutputType {
    match f {
        CliOutputFormat::Table => OutputType::Text,
        CliOutputFormat::Md => OutputType::Text,
        CliOutputFormat::Yaml => OutputType::Json,
        CliOutputFormat::Json => OutputType::Json,
        CliOutputFormat::Prompt => OutputType::Prompt,
    }
}

impl From<OutputType> for CliOutputFormat {
    fn from(t: OutputType) -> (r: Self) {
        match t {
            OutputType::Text => CliOutputFormat::Table,
            OutputType::Prompt => CliOutputFormat::Prompt,
            OutputType::Json => CliOutputFormat::Json,
        }
    }
}

impl vstd::std_specs::convert::FromSpecImpl<OutputType> for CliOutputFormat {
    open spec fn obeys_from_spec() -> bool {
        true
    }

    open spec fn from_spec(t: OutputType) -> CliOutputFormat {
        format_of(t)
    }
}

impl From<CliOutputFormat> for OutputType {
    fn from(f: CliOutputFormat) -> (r: Self) {
        match f {
            CliOutputFormat::Table => OutputType::Text,
            CliOutputFormat::Md => OutputType::Text,
            CliOutputFormat::Yaml => OutputType::Json,
            CliOutputFormat::Json => OutputType::Json,
            CliOutputFormat::Prompt => OutputType::Prompt,
        }
    }
}

impl vstd::std_specs::convert::FromSpecImpl<CliOutputFormat> for OutputType {
    open spec fn obeys_from_spec() -> bool {
        true
    }

    open spec fn from_spec(f: CliOutputFormat) -> OutputType {
        kind_of(f)
    }
}

/// What a command renders for a requested format: JSON and prompt formats
/// are honoured, every other format is text; without a request the
/// command's preferred kind decides.
pub open spec fn rendering(format: Option<CliOutputFormat>, preferred: OutputType) -> OutputType {
    let f = match format {
        Some(f) => f,
        None => format_of(preferred),
    };
    match f {
        CliOutputFormat::Json => OutputType::Json,
        CliOutputFormat::Prompt => OutputType::Prompt,
        _ => OutputType::Text,
    }
}

/// The kind of output to render for a requested format (see [`rendering`]).
pub fn select_rendering(format: Option<CliOutputFormat>, preferred: OutputType) -> (r: OutputType)
    ensures
        r == rendering(format, preferred),
{
    let f = match format {
        Some(f) => f,
        None => CliOutputFormat::from(preferred),
    };
    match f {
        CliOutputFormat::Json => OutputType::Json,
        CliOutputFormat::Prompt => OutputType::Prompt,
        _ => OutputType::Text,
    }
}

/// A command's output, which can be rendered in several ways. The commands
/// implement it.
pub trait Output: Sized {
    /// The kind of output the command prefers (text unless it says
    /// otherwise).
    fn output_type() -> (r: OutputType)
        default_ensures
            r == OutputType::Text,
    {
        OutputType::Text
    }

    /// The output as JSON.
    fn to_json(&self) -> String;

    /// The output for a language model.
    fn to_prompt(&self) -> String;

    /// The output for people.
    fn to_text(&self) -> String;

    /// The output in the requested format, or in the preferred one (see
    /// [`rendering`]): what `to_json`, `to_prompt` or `to_text` gives for
    /// the kind that `rendering` picks, with `output_type`'s answer as the
    /// preferred kind.
    fn format(&self, format: Option<CliOutputFormat>) -> (r: String)
        ensures
            exists|kind: OutputType| #[trigger] call_ensures(Self::output_type, (), kind) && match rendering(format, kind) {
                OutputType::Json => call_ensures(Self::to_json, (self,), r),
                OutputType::Prompt => call_ensures(Self::to_prompt, (self,), r),
                OutputType::Text => call_ensures(Self::to_text, (self,), r),
            },
    {
        let kind = Self::output_type();
        match select_rendering(format, kind) {
            OutputType::Json => self.to_json(),
            OutputType::Prompt => self.to_prompt(),
            OutputType::Text => self.to_text(),
        }
    }
}

/// Without a request, a command renders what it prefers; a request for JSON
/// or prompt output is honoured whatever the command prefers.
pub proof fn law_rendering_defaults(preferred: OutputType)
    ensures
        rendering(None, preferred) == preferred,
        rendering(Some(CliOutputFormat::Json), preferred) == OutputType::Json,
        rendering(Some(CliOutputFormat::Prompt), preferred) == OutputType::Prompt,
        rendering(Some(CliOutputFormat::Table), preferred) == OutputType::Text,
        rendering(Some(CliOutputFormat::Md), preferred) == OutputType::Text,
        rendering(Some(CliOutputFormat::Yaml), preferred) == OutputType::Text,
{
}

/// Converting a kind to a format and back gives the kind again.
pub proof fn law_kind_format_round_trip(t: OutputType)
    ensures
        kind_of(format_of(t)) == t,
{
}

} // verus!
