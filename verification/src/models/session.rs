//! Sessions: what is in context for an agent run.
use vstd::prelude::*;
use crate::json::{pair_views, parse_json, parsed_json, JsonValue};
use crate::text::{is_lower_ascii, lowercase, owned, text_eq, to_lowercase};

verus! {

/// What a session is for.
#[derive(Debug, Clone, Copy, PartialEq, Eq, Structural)]
pub enum SessionMode {
    Execute,
    Plan,
    Review,
}

impl SessionMode {
    /// The stored name.
    pub open spec fn name(self) -> Seq<char> {
        match self {
            SessionMode::Execute => "execute"@,
            SessionMode::Plan => "plan"@,
            SessionMode::Review => "review"@,
        }
    }

    /// The value a lower-cased name stands for.
    pub open spec fn from_name(s: Seq<char>) -> Option<SessionMode> {
        if s == "execute"@ {
            Some(SessionMode::Execute)
        } else if s == "plan"@ {
            Some(SessionMode::Plan)
        } else if s == "review"@ {
            Some(SessionMode::Review)
        } else {
            None
        }
    }

    pub fn as_str(&self) -> (r: &'static str)
        ensures
            r@ == self.name(),
    {
        match self {
            SessionMode::Execute => "execute",
            SessionMode::Plan => "plan",
            SessionMode::Review => "review",
        }
    }

    /// Parses a name case-insensitively.
    pub fn parse_name(s: &str) -> (r: Result<SessionMode, ()>)
        ensures
            r == (match Self::from_name(lowercase(s@)) {
                Some(t) => Ok(t),
                None => Err::<SessionMode, ()>(()),
            }),
            is_lower_ascii(s@) ==> r == (match Self::from_name(s@) {
                Some(t) => Ok(t),
                None => Err::<SessionMode, ()>(()),
            }),
    {
        let l = to_lowercase(s);
        let l = l.as_str();
        if text_eq(l, "execute") {
            Ok(SessionMode::Execute)
        } else if text_eq(l, "plan") {
            Ok(SessionMode::Plan)
        } else if text_eq(l, "review") {
            Ok(SessionMode::Review)
        } else {
            Err(())
        }
    }
}

impl Default for SessionMode {
    fn default() -> (r: Self)
        ensures
            r == SessionMode::Execute,
    {
        SessionMode::Execute
    }
}

impl std::str::FromStr for SessionMode {
    type Err = ();

    fn from_str(s: &str) -> Result<Self, Self::Err> {
        SessionMode::parse_name(s)
    }
}

/// Parsing the stored name of a `SessionMode` gives the value back, and the
/// stored names are lower-case ASCII, so parsing them ignores case.
pub proof fn law_session_mode_round_trip(t: SessionMode)
    ensures
        SessionMode::from_name(t.name()) == Some(t),
        is_lower_ascii(t.name()),
{
    reveal_strlit("execute");
    reveal_strlit("plan");
    reveal_strlit("review");
    assert("execute"@.len() == 7 && "plan"@.len() == 4 && "review"@.len() == 6);
}
/// Kind of item pinned into a session's scope.
#[derive(Debug, Clone, Copy, PartialEq, Eq, Structural)]
pub enum ScopeItemType {
    Project,
    Task,
    Comment,
    Artifact,
}

impl ScopeItemType {
    /// The stored name.
    pub open spec fn name(self) -> Seq<char> {
        match self {
            ScopeItemType::Project => "project"@,
            ScopeItemType::Task => "task"@,
            ScopeItemType::Comment => "comment"@,
            ScopeItemType::Artifact => "artifact"@,
        }
    }

    /// The value a lower-cased name stands for.
    pub open spec fn from_name(s: Seq<char>) -> Option<ScopeItemType> {
        if s == "project"@ {
            Some(ScopeItemType::Project)
        } else if s == "task"@ {
            Some(ScopeItemType::Task)
        } else if s == "comment"@ {
            Some(ScopeItemType::Comment)
        } else if s == "artifact"@ {
            Some(ScopeItemType::Artifact)
        } else {
            None
        }
    }

    pub fn as_str(&self) -> (r: &'static str)
        ensures
            r@ == self.name(),
    {
        match self {
            ScopeItemType::Project => "project",
            ScopeItemType::Task => "task",
            ScopeItemType::Comment => "comment",
            ScopeItemType::Artifact => "artifact",
        }
    }

    /// Parses a name case-insensitively.
    pub fn parse_name(s: &str) -> (r: Result<ScopeItemType, ()>)
        ensures
            r == (match Self::from_name(lowercase(s@)) {
                Some(t) => Ok(t),
                None => Err::<ScopeItemType, ()>(()),
            }),
            is_lower_ascii(s@) ==> r == (match Self::from_name(s@) {
                Some(t) => Ok(t),
                None => Err::<ScopeItemType, ()>(()),
            }),
    {
        let l = to_lowercase(s);
        let l = l.as_str();
        if text_eq(l, "project") {
            Ok(ScopeItemType::Project)
        } else if text_eq(l, "task") {
            Ok(ScopeItemType::Task)
        } else if text_eq(l, "comment") {
            Ok(ScopeItemType::Comment)
        } else if text_eq(l, "artifact") {
            Ok(ScopeItemType::Artifact)
        } else {
            Err(())
        }
    }
}

impl std::str::FromStr for ScopeItemType {
    type Err = ();

    fn from_str(s: &str) -> Result<Self, Self::Err> {
        ScopeItemType::parse_name(s)
    }
}

/// Parsing the stored name of a `ScopeItemType` gives the value back, and the
/// stored names are lower-case ASCII, so parsing them ignores case.
pub proof fn law_scope_item_type_round_trip(t: ScopeItemType)
    ensures
        ScopeItemType::from_name(t.name()) == Some(t),
        is_lower_ascii(t.name()),
{
    reveal_strlit("artifact");
    reveal_strlit("comment");
    reveal_strlit("project");
    reveal_strlit("task");
    assert("artifact"@.len() == 8 && "comment"@.len() == 7 && "project"@.len() == 7 && "task"@.len() == 4);
    assert("comment"@[0] != "project"@[0]);
}

/// A session row.
#[derive(Debug, Clone)]
pub struct Session {
    pub id: String,
    pub name: Option<String>,
    pub owner: Option<String>,
    pub mode: Option<String>,
    pub focus_task_id: Option<String>,
    /// Variables, as a JSON object
    pub variables: Option<String>,
    pub created_at: String,
    pub updated_at: String,
    pub closed_at: Option<String>,
    pub last_edited_by: Option<String>,
}

/// The members of a JSON object as name/value pairs, when every value is a
/// string; none otherwise.
pub open spec fn string_members(ms: Seq<(String, JsonValue)>) -> Option<Seq<(Seq<char>, Seq<char>)>>
    decreases ms.len(),
{
    if ms.len() == 0 {
        Some(Seq::empty())
    } else {
        match string_members(ms.drop_last()) {
            Some(p) => match ms.last().1 {
                JsonValue::Str(v) => Some(p.push((ms.last().0@, v@))),
                _ => None,
            },
            None => None,
        }
    }
}

/// A session's variables: the members of its JSON object of strings, and
/// none when there is no such object.
pub open spec fn session_variables(vars: Option<String>) -> Seq<(Seq<char>, Seq<char>)> {
    match vars {
        Some(t) => match parsed_json(t@) {
            Some(JsonValue::Object(ms, _)) => match string_members(ms@) {
                Some(p) => p,
                None => Seq::empty(),
            },
            _ => Seq::empty(),
        },
        None => Seq::empty(),
    }
}

fn string_pairs(ms: &Vec<(String, JsonValue)>) -> (r: Option<Vec<(String, String)>>)
    ensures
        match string_members(ms@) {
            Some(p) => r matches Some(v) && pair_views(v@) == p,
            None => r is None,
        },
{
    let mut out: Vec<(String, String)> = Vec::new();
    let mut i: usize = 0;
    while i < ms.len()
        invariant
            i <= ms.len(),
            string_members(ms@.take(i as int)) == Some(pair_views(out@)),
        decreases ms.len() - i,
    {
        assert(ms@.take(i as int + 1).drop_last() =~= ms@.take(i as int));
        match &ms[i].1 {
            JsonValue::Str(v) => {
                let ghost before = out@;
                out.push((ms[i].0.clone(), v.clone()));
                assert(pair_views(out@) =~= pair_views(before).push((ms@[i as int].0@, v@)));
            },
            _ => {
                proof {
                    lemma_string_members_stays_none(ms@, i as int + 1);
                }
                return None;
            },
        }
        i = i + 1;
    }
    assert(ms@.take(i as int) =~= ms@);
    Some(out)
}

proof fn lemma_string_members_stays_none(ms: Seq<(String, JsonValue)>, k: int)
    requires
        0 <= k <= ms.len(),
        string_members(ms.take(k)) is None,
    ensures
        string_members(ms) is None,
    decreases ms.len() - k,
{
    if k < ms.len() {
        assert(ms.take(k + 1).drop_last() =~= ms.take(k));
        lemma_string_members_stays_none(ms, k + 1);
    } else {
        assert(ms.take(k) =~= ms);
    }
}

impl Session {
    /// The session's mode, `Execute` when absent or not recognised.
    pub fn mode_enum(&self) -> (r: SessionMode)
        ensures
            r == (match self.mode {
                Some(m) => match SessionMode::from_name(lowercase(m@)) {
                    Some(t) => t,
                    None => SessionMode::Execute,
                },
                None => SessionMode::Execute,
            }),
    {
        match &self.mode {
            Some(m) => match SessionMode::parse_name(m.as_str()) {
                Ok(t) => t,
                Err(_) => SessionMode::Execute,
            },
            None => SessionMode::Execute,
        }
    }

    /// The session's variables (see [`session_variables`]).
    pub fn variables_map(&self) -> (r: Vec<(String, String)>)
        ensures
            pair_views(r@) == session_variables(self.variables),
    {
        let empty: Vec<(String, String)> = Vec::new();
        assert(pair_views(empty@) =~= Seq::<(Seq<char>, Seq<char>)>::empty());
        match &self.variables {
            Some(t) => match parse_json(t.as_str()) {
                Ok(JsonValue::Object(ms, _)) => match string_pairs(&ms) {
                    Some(v) => v,
                    None => empty,
                },
                _ => empty,
            },
            None => empty,
        }
    }

    /// The session has been closed.
    pub fn is_closed(&self) -> (r: bool)
        ensures
            r == self.closed_at is Some,
    {
        self.closed_at.is_some()
    }
}

/// An item pinned into a session's scope.
#[derive(Debug, Clone)]
pub struct SessionScope {
    pub session_id: String,
    pub item_type: String,
    pub item_id: String,
    pub pinned_at: String,
}

impl SessionScope {
    /// The item's type, if the stored name is recognised.
    pub fn item_type_enum(&self) -> (r: Option<ScopeItemType>)
        ensures
            r == ScopeItemType::from_name(lowercase(self.item_type@)),
    {
        match ScopeItemType::parse_name(self.item_type.as_str()) {
            Ok(t) => Some(t),
            Err(_) => None,
        }
    }
}

/// Input for creating a session.
#[derive(Debug, Default)]
pub struct CreateSession {
    pub name: Option<String>,
    pub owner: Option<String>,
    pub mode: SessionMode,
}

/// Input for updating a session (variables as key/value pairs).
#[derive(Debug, Default)]
pub struct UpdateSession {
    pub name: Option<String>,
    pub owner: Option<String>,
    pub mode: Option<SessionMode>,
    pub focus_task_id: Option<String>,
    pub variables: Option<Vec<(String, String)>>,
}

} // verus!
