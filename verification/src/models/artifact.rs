//! Artifacts: files, URLs, git refs and logs attached to projects, tasks and
//! comments.
use vstd::prelude::*;
use crate::text::{is_lower_ascii, lowercase, text_eq, to_lowercase};

verus! {

/// What an artifact points at.
#[derive(Debug, Clone, Copy, PartialEq, Eq, Structural)]
pub enum ArtifactType {
    File,
    Url,
    GitRef,
    Log,
}

impl ArtifactType {
    /// The stored name of the type.
    pub open spec fn name(self) -> Seq<char> {
        match self {
            ArtifactType::File => "file"@,
            ArtifactType::Url => "url"@,
            ArtifactType::GitRef => "git_ref"@,
            ArtifactType::Log => "log"@,
        }
    }

    /// The type a lower-cased name stands for (`git_ref` also as `git-ref`
    /// and `gitref`).
    pub open spec fn from_name(s: Seq<char>) -> Option<ArtifactType> {
        if s == "file"@ {
            Some(ArtifactType::File)
        } else if s == "url"@ {
            Some(ArtifactType::Url)
        } else if s == "git_ref"@ || s == "git-ref"@ || s == "gitref"@ {
            Some(ArtifactType::GitRef)
        } else if s == "log"@ {
            Some(ArtifactType::Log)
        } else {
            None
        }
    }

    pub fn as_str(&self) -> (r: &'static str)
        ensures
            r@ == self.name(),
    {
        match self {
            ArtifactType::File => "file",
            ArtifactType::Url => "url",
            ArtifactType::GitRef => "git_ref",
            ArtifactType::Log => "log",
        }
    }

    /// Parses a name case-insensitively.
    pub fn parse_name(s: &str) -> (r: Result<ArtifactType, ()>)
        ensures
            r == (match Self::from_name(lowercase(s@)) {
                Some(t) => Ok(t),
                None => Err::<ArtifactType, ()>(()),
            }),
            is_lower_ascii(s@) ==> r == (match Self::from_name(s@) {
                Some(t) => Ok(t),
                None => Err::<ArtifactType, ()>(()),
            }),
    {
        let l = to_lowercase(s);
        let l = l.as_str();
        if text_eq(l, "file") {
            Ok(ArtifactType::File)
        } else if text_eq(l, "url") {
            Ok(ArtifactType::Url)
        } else if text_eq(l, "git_ref") || text_eq(l, "git-ref") || text_eq(l, "gitref") {
            Ok(ArtifactType::GitRef)
        } else if text_eq(l, "log") {
            Ok(ArtifactType::Log)
        } else {
            Err(())
        }
    }
}

impl Default for ArtifactType {
    fn default() -> (r: Self)
        ensures
            r == ArtifactType::File,
    {
        ArtifactType::File
    }
}

impl std::str::FromStr for ArtifactType {
    type Err = ();

    fn from_str(s: &str) -> Result<Self, Self::Err> {
        ArtifactType::parse_name(s)
    }
}

/// The kind of entity an artifact belongs to.
#[derive(Debug, Clone, Copy, PartialEq, Eq, Structural)]
pub enum ArtifactParentType {
    Project,
    Task,
    Comment,
}

impl ArtifactParentType {
    /// The stored name of the parent type.
    pub open spec fn name(self) -> Seq<char> {
        match self {
            ArtifactParentType::Project => "project"@,
            ArtifactParentType::Task => "task"@,
            ArtifactParentType::Comment => "comment"@,
        }
    }

    /// The parent type a lower-cased name stands for.
    pub open spec fn from_name(s: Seq<char>) -> Option<ArtifactParentType> {
        if s == "project"@ {
            Some(ArtifactParentType::Project)
        } else if s == "task"@ {
            Some(ArtifactParentType::Task)
        } else if s == "comment"@ {
            Some(ArtifactParentType::Comment)
        } else {
            None
        }
    }

    pub fn as_str(&self) -> (r: &'static str)
        ensures
            r@ == self.name(),
    {
        match self {
            ArtifactParentType::Project => "project",
            ArtifactParentType::Task => "task",
            ArtifactParentType::Comment => "comment",
        }
    }

    /// Parses a name case-insensitively.
    pub fn parse_name(s: &str) -> (r: Result<ArtifactParentType, ()>)
        ensures
            r == (match Self::from_name(lowercase(s@)) {
                Some(t) => Ok(t),
                None => Err::<ArtifactParentType, ()>(()),
            }),
            is_lower_ascii(s@) ==> r == (match Self::from_name(s@) {
                Some(t) => Ok(t),
                None => Err::<ArtifactParentType, ()>(()),
            }),
    {
        let l = to_lowercase(s);
        let l = l.as_str();
        if text_eq(l, "project") {
            Ok(ArtifactParentType::Project)
        } else if text_eq(l, "task") {
            Ok(ArtifactParentType::Task)
        } else if text_eq(l, "comment") {
            Ok(ArtifactParentType::Comment)
        } else {
            Err(())
        }
    }
}

impl Default for ArtifactParentType {
    fn default() -> (r: Self)
        ensures
            r == ArtifactParentType::Task,
    {
        ArtifactParentType::Task
    }
}

impl std::str::FromStr for ArtifactParentType {
    type Err = ();

    fn from_str(s: &str) -> Result<Self, Self::Err> {
        ArtifactParentType::parse_name(s)
    }
}

/// An artifact row.
#[derive(Debug, Clone)]
pub struct Artifact {
    pub id: String,
    pub parent_type: String,
    pub parent_id: String,
    pub artifact_number: i64,
    pub artifact_type: String,
    pub path_or_url: String,
    pub description: Option<String>,
    /// JSON text
    pub meta: Option<String>,
    pub created_at: String,
}

impl Artifact {
    /// The artifact type, `File` when the stored name is not recognised.
    pub fn artifact_type_enum(&self) -> (r: ArtifactType)
        ensures
            r == (match ArtifactType::from_name(lowercase(self.artifact_type@)) {
                Some(t) => t,
                None => ArtifactType::File,
            }),
    {
        match ArtifactType::parse_name(self.artifact_type.as_str()) {
            Ok(t) => t,
            Err(_) => ArtifactType::File,
        }
    }

    /// The parent type, if the stored name is recognised.
    pub fn parent_type_enum(&self) -> (r: Option<ArtifactParentType>)
        ensures
            r == ArtifactParentType::from_name(lowercase(self.parent_type@)),
    {
        match ArtifactParentType::parse_name(self.parent_type.as_str()) {
            Ok(t) => Some(t),
            Err(_) => None,
        }
    }
}

/// Input for creating an artifact (its metadata as JSON text).
#[derive(Debug)]
pub struct CreateArtifact {
    pub parent_type: ArtifactParentType,
    pub parent_id: String,
    pub artifact_type: ArtifactType,
    pub path_or_url: String,
    pub description: Option<String>,
    pub meta: Option<String>,
}

/// Parsing the stored name of an artifact type gives the type back.
pub proof fn law_artifact_type_round_trip(t: ArtifactType)
    ensures
        ArtifactType::from_name(t.name()) == Some(t),
        is_lower_ascii(t.name()),
{
    reveal_strlit("file");
    reveal_strlit("url");
    reveal_strlit("git_ref");
    reveal_strlit("git-ref");
    reveal_strlit("gitref");
    reveal_strlit("log");
    assert("file"@.len() == 4 && "url"@.len() == 3 && "git_ref"@.len() == 7 && "log"@.len() == 3);
    assert("git-ref"@.len() == 7 && "gitref"@.len() == 6);
    assert("url"@[0] != "log"@[0]);
    assert("git_ref"@[3] != "git-ref"@[3]);
}

/// Parsing the stored name of a parent type gives the type back.
pub proof fn law_artifact_parent_type_round_trip(t: ArtifactParentType)
    ensures
        ArtifactParentType::from_name(t.name()) == Some(t),
        is_lower_ascii(t.name()),
{
    reveal_strlit("project");
    reveal_strlit("task");
    reveal_strlit("comment");
    assert("project"@.len() == 7 && "task"@.len() == 4 && "comment"@.len() == 7);
    assert("project"@[0] != "comment"@[0]);
}

} // verus!
