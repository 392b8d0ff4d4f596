//! Projects: long-lived efforts holding tasks and steering references.
use vstd::prelude::*;
use crate::text::{views, is_lower_ascii, lowercase, owned, text_eq, to_lowercase};
use crate::json::{strings_from_json, strings_or_empty};

verus! {

/// Lifecycle state of a project.
#[derive(Debug, Clone, Copy, PartialEq, Eq, Structural)]
pub enum ProjectStatus {
    Active,
    Archived,
}

impl ProjectStatus {
    /// The stored name.
    pub open spec fn name(self) -> Seq<char> {
        match self {
            ProjectStatus::Active => "active"@,
            ProjectStatus::Archived => "archived"@,
        }
    }

    /// The value a lower-cased name stands for.
    pub open spec fn from_name(s: Seq<char>) -> Option<ProjectStatus> {
        if s == "active"@ {
            Some(ProjectStatus::Active)
        } else if s == "archived"@ {
            Some(ProjectStatus::Archived)
        } else {
            None
        }
    }

    pub fn as_str(&self) -> (r: &'static str)
        ensures
            r@ == self.name(),
    {
        match self {
            ProjectStatus::Active => "active",
            ProjectStatus::Archived => "archived",
        }
    }

    /// Parses a name case-insensitively.
    pub fn parse_name(s: &str) -> (r: Result<ProjectStatus, ()>)
        ensures
            r == (match Self::from_name(lowercase(s@)) {
                Some(t) => Ok(t),
                None => Err::<ProjectStatus, ()>(()),
            }),
            is_lower_ascii(s@) ==> r == (match Self::from_name(s@) {
                Some(t) => Ok(t),
                None => Err::<ProjectStatus, ()>(()),
            }),
    {
        let l = to_lowercase(s);
        let l = l.as_str();
        if text_eq(l, "active") {
            Ok(ProjectStatus::Active)
        } else if text_eq(l, "archived") {
            Ok(ProjectStatus::Archived)
        } else {
            Err(())
        }
    }
}

impl Default for ProjectStatus {
    fn default() -> (r: Self)
        ensures
            r == ProjectStatus::Active,
    {
        ProjectStatus::Active
    }
}

impl std::str::FromStr for ProjectStatus {
    type Err = ();

    fn from_str(s: &str) -> Result<Self, Self::Err> {
        ProjectStatus::parse_name(s)
    }
}

/// Parsing the stored name of a `ProjectStatus` gives the value back, and the
/// stored names are lower-case ASCII, so parsing them ignores case.
pub proof fn law_project_status_round_trip(t: ProjectStatus)
    ensures
        ProjectStatus::from_name(t.name()) == Some(t),
        is_lower_ascii(t.name()),
{
    reveal_strlit("active");
    reveal_strlit("archived");
    assert("active"@.len() == 6 && "archived"@.len() == 8);
}

/// A project row.
#[derive(Debug, Clone)]
pub struct Project {
    pub id: String,
    pub slug: String,
    pub name: String,
    pub description: Option<String>,
    pub owner: Option<String>,
    pub status: String,
    /// Tags, as a JSON array
    pub tags: Option<String>,
    /// Default session policy, as JSON
    pub default_session_policy: Option<String>,
    /// Steering references, as a JSON array
    pub steering_refs: Option<String>,
    pub created_at: String,
    pub updated_at: String,
    pub version: i64,
    pub last_edited_by: Option<String>,
}

/// The strings of an optional JSON list, empty when absent or not a list of
/// strings.
pub open spec fn optional_strings(text: Option<String>) -> Seq<Seq<char>> {
    match text {
        Some(t) => strings_or_empty(t@),
        None => Seq::empty(),
    }
}

/// The strings of an optional JSON list (see [`optional_strings`]).
pub fn optional_strings_vec(text: &Option<String>) -> (r: Vec<String>)
    ensures
        views(r@) == optional_strings(*text),
{
    match text {
        Some(t) => strings_from_json(t.as_str()),
        None => {
            let e: Vec<String> = Vec::new();
            assert(views(e@) =~= Seq::<Seq<char>>::empty());
            e
        },
    }
}

impl Project {
    /// The project's status, `Active` when the stored name is not recognised.
    pub fn status_enum(&self) -> (r: ProjectStatus)
        ensures
            r == (match ProjectStatus::from_name(lowercase(self.status@)) {
                Some(t) => t,
                None => ProjectStatus::Active,
            }),
    {
        match ProjectStatus::parse_name(self.status.as_str()) {
            Ok(t) => t,
            Err(_) => ProjectStatus::Active,
        }
    }

    /// The tags, empty when absent or not a JSON list of strings.
    pub fn tags_vec(&self) -> (r: Vec<String>)
        ensures
            views(r@) == optional_strings(self.tags),
    {
        optional_strings_vec(&self.tags)
    }

    /// The steering references, empty when absent or not a JSON list of strings.
    pub fn steering_refs_vec(&self) -> (r: Vec<String>)
        ensures
            views(r@) == optional_strings(self.steering_refs),
    {
        optional_strings_vec(&self.steering_refs)
    }
}

/// Input for creating a project.
#[derive(Debug, Default)]
pub struct CreateProject {
    pub name: String,
    pub description: Option<String>,
    pub owner: Option<String>,
    pub tags: Vec<String>,
    pub default_session_policy: Option<String>,
    pub steering_refs: Vec<String>,
}

/// Input for updating a project.
#[derive(Debug, Default)]
pub struct UpdateProject {
    pub name: Option<String>,
    pub description: Option<String>,
    pub owner: Option<String>,
    pub status: Option<ProjectStatus>,
    pub tags: Option<Vec<String>>,
    pub default_session_policy: Option<String>,
    pub steering_refs: Option<Vec<String>>,
}

} // verus!
