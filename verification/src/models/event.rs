//! Events of the audit log, which workers subscribe to.
use vstd::prelude::*;
use crate::text::{is_lower_ascii, lowercase, owned, text_eq, to_lowercase};

verus! {

/// Event types of the audit log.
#[derive(Debug, Clone, PartialEq, Eq)]
pub enum EventType {
    ProjectCreated,
    ProjectUpdated,
    ProjectArchived,
    ProjectNext,
    TaskCreated,
    TaskUpdated,
    TaskStatusChanged,
    TaskStarted,
    TaskCompleted,
    TaskBlocked,
    TaskUnblocked,
    TaskClaimed,
    TaskReleased,
    TaskNext,
    DependencyAdded,
    DependencyRemoved,
    CommentCreated,
    CommentUpdated,
    SessionStarted,
    SessionUpdated,
    SessionClosed,
    SessionScopeAdded,
    SessionScopeRemoved,
    SessionFocusChanged,
    CheckpointCreated,
    CheckpointRestored,
    ArtifactAdded,
    ArtifactRemoved,
    /// Any other type, by its name.
    Custom(String),
}

impl EventType {
    /// The event type's name.
    pub open spec fn name(self) -> Seq<char> {
        match self {
            EventType::ProjectCreated => "project.created"@,
            EventType::ProjectUpdated => "project.updated"@,
            EventType::ProjectArchived => "project.archived"@,
            EventType::ProjectNext => "project.next"@,
            EventType::TaskCreated => "task.created"@,
            EventType::TaskUpdated => "task.updated"@,
            EventType::TaskStatusChanged => "task.status_changed"@,
            EventType::TaskStarted => "task.started"@,
            EventType::TaskCompleted => "task.completed"@,
            EventType::TaskBlocked => "task.blocked"@,
            EventType::TaskUnblocked => "task.unblocked"@,
            EventType::TaskClaimed => "task.claimed"@,
            EventType::TaskReleased => "task.released"@,
            EventType::TaskNext => "task.next"@,
            EventType::DependencyAdded => "dependency.added"@,
            EventType::DependencyRemoved => "dependency.removed"@,
            EventType::CommentCreated => "comment.created"@,
            EventType::CommentUpdated => "comment.updated"@,
            EventType::SessionStarted => "session.started"@,
            EventType::SessionUpdated => "session.updated"@,
            EventType::SessionClosed => "session.closed"@,
            EventType::SessionScopeAdded => "session.scope_added"@,
            EventType::SessionScopeRemoved => "session.scope_removed"@,
            EventType::SessionFocusChanged => "session.focus_changed"@,
            EventType::CheckpointCreated => "checkpoint.created"@,
            EventType::CheckpointRestored => "checkpoint.restored"@,
            EventType::ArtifactAdded => "artifact.added"@,
            EventType::ArtifactRemoved => "artifact.removed"@,
            EventType::Custom(s) => s@,
        }
    }

    /// The known event type a name stands for, if any.
    pub open spec fn known(s: Seq<char>) -> Option<EventType> {
        if s == "project.created"@ {
            Some(EventType::ProjectCreated)
        } else if s == "project.updated"@ {
            Some(EventType::ProjectUpdated)
        } else if s == "project.archived"@ {
            Some(EventType::ProjectArchived)
        } else if s == "project.next"@ {
            Some(EventType::ProjectNext)
        } else if s == "task.created"@ {
            Some(EventType::TaskCreated)
        } else if s == "task.updated"@ {
            Some(EventType::TaskUpdated)
        } else if s == "task.status_changed"@ {
            Some(EventType::TaskStatusChanged)
        } else if s == "task.started"@ {
            Some(EventType::TaskStarted)
        } else if s == "task.completed"@ {
            Some(EventType::TaskCompleted)
        } else if s == "task.blocked"@ {
            Some(EventType::TaskBlocked)
        } else if s == "task.unblocked"@ {
            Some(EventType::TaskUnblocked)
        } else if s == "task.claimed"@ {
            Some(EventType::TaskClaimed)
        } else if s == "task.released"@ {
            Some(EventType::TaskReleased)
        } else if s == "task.next"@ {
            Some(EventType::TaskNext)
        } else if s == "dependency.added"@ {
            Some(EventType::DependencyAdded)
        } else if s == "dependency.removed"@ {
            Some(EventType::DependencyRemoved)
        } else if s == "comment.created"@ {
            Some(EventType::CommentCreated)
        } else if s == "comment.updated"@ {
            Some(EventType::CommentUpdated)
        } else if s == "session.started"@ {
            Some(EventType::SessionStarted)
        } else if s == "session.updated"@ {
            Some(EventType::SessionUpdated)
        } else if s == "session.closed"@ {
            Some(EventType::SessionClosed)
        } else if s == "session.scope_added"@ {
            Some(EventType::SessionScopeAdded)
        } else if s == "session.scope_removed"@ {
            Some(EventType::SessionScopeRemoved)
        } else if s == "session.focus_changed"@ {
            Some(EventType::SessionFocusChanged)
        } else if s == "checkpoint.created"@ {
            Some(EventType::CheckpointCreated)
        } else if s == "checkpoint.restored"@ {
            Some(EventType::CheckpointRestored)
        } else if s == "artifact.added"@ {
            Some(EventType::ArtifactAdded)
        } else if s == "artifact.removed"@ {
            Some(EventType::ArtifactRemoved)
        } else {
            None
        }
    }

    /// The name of the event type.
    pub fn as_str(&self) -> (r: String)
        ensures
            r@ == self.name(),
    {
        match self {
            EventType::ProjectCreated => owned("project.created"),
            EventType::ProjectUpdated => owned("project.updated"),
            EventType::ProjectArchived => owned("project.archived"),
            EventType::ProjectNext => owned("project.next"),
            EventType::TaskCreated => owned("task.created"),
            EventType::TaskUpdated => owned("task.updated"),
            EventType::TaskStatusChanged => owned("task.status_changed"),
            EventType::TaskStarted => owned("task.started"),
            EventType::TaskCompleted => owned("task.completed"),
            EventType::TaskBlocked => owned("task.blocked"),
            EventType::TaskUnblocked => owned("task.unblocked"),
            EventType::TaskClaimed => owned("task.claimed"),
            EventType::TaskReleased => owned("task.released"),
            EventType::TaskNext => owned("task.next"),
            EventType::DependencyAdded => owned("dependency.added"),
            EventType::DependencyRemoved => owned("dependency.removed"),
            EventType::CommentCreated => owned("comment.created"),
            EventType::CommentUpdated => owned("comment.updated"),
            EventType::SessionStarted => owned("session.started"),
            EventType::SessionUpdated => owned("session.updated"),
            EventType::SessionClosed => owned("session.closed"),
            EventType::SessionScopeAdded => owned("session.scope_added"),
            EventType::SessionScopeRemoved => owned("session.scope_removed"),
            EventType::SessionFocusChanged => owned("session.focus_changed"),
            EventType::CheckpointCreated => owned("checkpoint.created"),
            EventType::CheckpointRestored => owned("checkpoint.restored"),
            EventType::ArtifactAdded => owned("artifact.added"),
            EventType::ArtifactRemoved => owned("artifact.removed"),
            EventType::Custom(s) => owned(s.as_str()),
        }
    }

    /// Parses an event type name (exact, never fails: unknown names become
    /// `Custom`).
    pub fn parse_name(s: &str) -> (r: EventType)
        ensures
            r.name() == s@,
            Self::known(s@) matches Some(t) ==> r == t,
            Self::known(s@) is None ==> r is Custom,
    {
        if text_eq(s, "project.created") {
            EventType::ProjectCreated
        } else if text_eq(s, "project.updated") {
            EventType::ProjectUpdated
        } else if text_eq(s, "project.archived") {
            EventType::ProjectArchived
        } else if text_eq(s, "project.next") {
            EventType::ProjectNext
        } else if text_eq(s, "task.created") {
            EventType::TaskCreated
        } else if text_eq(s, "task.updated") {
            EventType::TaskUpdated
        } else if text_eq(s, "task.status_changed") {
            EventType::TaskStatusChanged
        } else if text_eq(s, "task.started") {
            EventType::TaskStarted
        } else if text_eq(s, "task.completed") {
            EventType::TaskCompleted
        } else if text_eq(s, "task.blocked") {
            EventType::TaskBlocked
        } else if text_eq(s, "task.unblocked") {
            EventType::TaskUnblocked
        } else if text_eq(s, "task.claimed") {
            EventType::TaskClaimed
        } else if text_eq(s, "task.released") {
            EventType::TaskReleased
        } else if text_eq(s, "task.next") {
            EventType::TaskNext
        } else if text_eq(s, "dependency.added") {
            EventType::DependencyAdded
        } else if text_eq(s, "dependency.removed") {
            EventType::DependencyRemoved
        } else if text_eq(s, "comment.created") {
            EventType::CommentCreated
        } else if text_eq(s, "comment.updated") {
            EventType::CommentUpdated
        } else if text_eq(s, "session.started") {
            EventType::SessionStarted
        } else if text_eq(s, "session.updated") {
            EventType::SessionUpdated
        } else if text_eq(s, "session.closed") {
            EventType::SessionClosed
        } else if text_eq(s, "session.scope_added") {
            EventType::SessionScopeAdded
        } else if text_eq(s, "session.scope_removed") {
            EventType::SessionScopeRemoved
        } else if text_eq(s, "session.focus_changed") {
            EventType::SessionFocusChanged
        } else if text_eq(s, "checkpoint.created") {
            EventType::CheckpointCreated
        } else if text_eq(s, "checkpoint.restored") {
            EventType::CheckpointRestored
        } else if text_eq(s, "artifact.added") {
            EventType::ArtifactAdded
        } else if text_eq(s, "artifact.removed") {
            EventType::ArtifactRemoved
        } else {
            EventType::Custom(owned(s))
        }
    }
}

impl std::str::FromStr for EventType {
    type Err = std::convert::Infallible;

    fn from_str(s: &str) -> Result<Self, Self::Err> {
        Ok(EventType::parse_name(s))
    }
}

/// A known event type's name parses back to it; a custom name that is not a
/// known name parses back to a custom type with the same name.
pub proof fn law_event_type_round_trip(t: EventType)
    requires
        t matches EventType::Custom(s) ==> EventType::known(s@) is None,
    ensures
        t is Custom ==> EventType::known(t.name()) is None,
        !(t is Custom) ==> EventType::known(t.name()) == Some(t),
{
    reveal_strlit("artifact.added");
    reveal_strlit("artifact.removed");
    reveal_strlit("checkpoint.created");
    reveal_strlit("checkpoint.restored");
    reveal_strlit("comment.created");
    reveal_strlit("comment.updated");
    reveal_strlit("dependency.added");
    reveal_strlit("dependency.removed");
    reveal_strlit("project.archived");
    reveal_strlit("project.created");
    reveal_strlit("project.next");
    reveal_strlit("project.updated");
    reveal_strlit("session.closed");
    reveal_strlit("session.focus_changed");
    reveal_strlit("session.scope_added");
    reveal_strlit("session.scope_removed");
    reveal_strlit("session.started");
    reveal_strlit("session.updated");
    reveal_strlit("task.blocked");
    reveal_strlit("task.claimed");
    reveal_strlit("task.completed");
    reveal_strlit("task.created");
    reveal_strlit("task.next");
    reveal_strlit("task.released");
    reveal_strlit("task.started");
    reveal_strlit("task.status_changed");
    reveal_strlit("task.unblocked");
    reveal_strlit("task.updated");
    assert("artifact.added"@.len() == 14 && "artifact.removed"@.len() == 16 && "checkpoint.created"@.len() == 18 && "checkpoint.restored"@.len() == 19 && "comment.created"@.len() == 15 && "comment.updated"@.len() == 15 && "dependency.added"@.len() == 16 && "dependency.removed"@.len() == 18 && "project.archived"@.len() == 16 && "project.created"@.len() == 15 && "project.next"@.len() == 12 && "project.updated"@.len() == 15 && "session.closed"@.len() == 14 && "session.focus_changed"@.len() == 21 && "session.scope_added"@.len() == 19 && "session.scope_removed"@.len() == 21 && "session.started"@.len() == 15 && "session.updated"@.len() == 15 && "task.blocked"@.len() == 12 && "task.claimed"@.len() == 12 && "task.completed"@.len() == 14 && "task.created"@.len() == 12 && "task.next"@.len() == 9 && "task.released"@.len() == 13 && "task.started"@.len() == 12 && "task.status_changed"@.len() == 19 && "task.unblocked"@.len() == 14 && "task.updated"@.len() == 12);
    assert("artifact.added"@[0] != "session.closed"@[0]);
    assert("artifact.added"@[0] != "task.completed"@[0]);
    assert("artifact.added"@[0] != "task.unblocked"@[0]);
    assert("artifact.removed"@[0] != "dependency.added"@[0]);
    assert("artifact.removed"@[0] != "project.archived"@[0]);
    assert("checkpoint.created"@[0] != "dependency.removed"@[0]);
    assert("checkpoint.restored"@[0] != "session.scope_added"@[0]);
    assert("checkpoint.restored"@[0] != "task.status_changed"@[0]);
    assert("comment.created"@[8] != "comment.updated"@[8]);
    assert("comment.created"@[0] != "project.created"@[0]);
    assert("comment.created"@[0] != "project.updated"@[0]);
    assert("comment.created"@[0] != "session.started"@[0]);
    assert("comment.created"@[0] != "session.updated"@[0]);
    assert("comment.updated"@[0] != "project.created"@[0]);
    assert("comment.updated"@[0] != "project.updated"@[0]);
    assert("comment.updated"@[0] != "session.started"@[0]);
    assert("comment.updated"@[0] != "session.updated"@[0]);
    assert("dependency.added"@[0] != "project.archived"@[0]);
    assert("project.created"@[8] != "project.updated"@[8]);
    assert("project.created"@[0] != "session.started"@[0]);
    assert("project.created"@[0] != "session.updated"@[0]);
    assert("project.next"@[0] != "task.blocked"@[0]);
    assert("project.next"@[0] != "task.claimed"@[0]);
    assert("project.next"@[0] != "task.created"@[0]);
    assert("project.next"@[0] != "task.started"@[0]);
    assert("project.next"@[0] != "task.updated"@[0]);
    assert("project.updated"@[0] != "session.started"@[0]);
    assert("project.updated"@[0] != "session.updated"@[0]);
    assert("session.closed"@[0] != "task.completed"@[0]);
    assert("session.closed"@[0] != "task.unblocked"@[0]);
    assert("session.focus_changed"@[8] != "session.scope_removed"@[8]);
    assert("session.scope_added"@[0] != "task.status_changed"@[0]);
    assert("session.started"@[8] != "session.updated"@[8]);
    assert("task.blocked"@[5] != "task.claimed"@[5]);
    assert("task.blocked"@[5] != "task.created"@[5]);
    assert("task.blocked"@[5] != "task.started"@[5]);
    assert("task.blocked"@[5] != "task.updated"@[5]);
    assert("task.claimed"@[6] != "task.created"@[6]);
    assert("task.claimed"@[5] != "task.started"@[5]);
    assert("task.claimed"@[5] != "task.updated"@[5]);
    assert("task.completed"@[5] != "task.unblocked"@[5]);
    assert("task.created"@[5] != "task.started"@[5]);
    assert("task.created"@[5] != "task.updated"@[5]);
    assert("task.started"@[5] != "task.updated"@[5]);
}

/// Kind of entity an event is about.
#[derive(Debug, Clone, Copy, PartialEq, Eq, Structural)]
pub enum EntityType {
    Project,
    Task,
    Comment,
    Session,
    Checkpoint,
    Artifact,
}

impl EntityType {
    /// The stored name.
    pub open spec fn name(self) -> Seq<char> {
        match self {
            EntityType::Project => "project"@,
            EntityType::Task => "task"@,
            EntityType::Comment => "comment"@,
            EntityType::Session => "session"@,
            EntityType::Checkpoint => "checkpoint"@,
            EntityType::Artifact => "artifact"@,
        }
    }

    /// The value a lower-cased name stands for.
    pub open spec fn from_name(s: Seq<char>) -> Option<EntityType> {
        if s == "project"@ {
            Some(EntityType::Project)
        } else if s == "task"@ {
            Some(EntityType::Task)
        } else if s == "comment"@ {
            Some(EntityType::Comment)
        } else if s == "session"@ {
            Some(EntityType::Session)
        } else if s == "checkpoint"@ {
            Some(EntityType::Checkpoint)
        } else if s == "artifact"@ {
            Some(EntityType::Artifact)
        } else {
            None
        }
    }

    pub fn as_str(&self) -> (r: &'static str)
        ensures
            r@ == self.name(),
    {
        match self {
            EntityType::Project => "project",
            EntityType::Task => "task",
            EntityType::Comment => "comment",
            EntityType::Session => "session",
            EntityType::Checkpoint => "checkpoint",
            EntityType::Artifact => "artifact",
        }
    }

    /// Parses a name case-insensitively.
    pub fn parse_name(s: &str) -> (r: Result<EntityType, ()>)
        ensures
            r == (match Self::from_name(lowercase(s@)) {
                Some(t) => Ok(t),
                None => Err::<EntityType, ()>(()),
            }),
            is_lower_ascii(s@) ==> r == (match Self::from_name(s@) {
                Some(t) => Ok(t),
                None => Err::<EntityType, ()>(()),
            }),
    {
        let l = to_lowercase(s);
        let l = l.as_str();
        if text_eq(l, "project") {
            Ok(EntityType::Project)
        } else if text_eq(l, "task") {
            Ok(EntityType::Task)
        } else if text_eq(l, "comment") {
            Ok(EntityType::Comment)
        } else if text_eq(l, "session") {
            Ok(EntityType::Session)
        } else if text_eq(l, "checkpoint") {
            Ok(EntityType::Checkpoint)
        } else if text_eq(l, "artifact") {
            Ok(EntityType::Artifact)
        } else {
            Err(())
        }
    }
}

impl std::str::FromStr for EntityType {
    type Err = ();

    fn from_str(s: &str) -> Result<Self, Self::Err> {
        EntityType::parse_name(s)
    }
}

/// Parsing the stored name of a `EntityType` gives the value back, and the
/// stored names are lower-case ASCII, so parsing them ignores case.
pub proof fn law_entity_type_round_trip(t: EntityType)
    ensures
        EntityType::from_name(t.name()) == Some(t),
        is_lower_ascii(t.name()),
{
    reveal_strlit("artifact");
    reveal_strlit("checkpoint");
    reveal_strlit("comment");
    reveal_strlit("project");
    reveal_strlit("session");
    reveal_strlit("task");
    assert("artifact"@.len() == 8 && "checkpoint"@.len() == 10 && "comment"@.len() == 7 && "project"@.len() == 7 && "session"@.len() == 7 && "task"@.len() == 4);
    assert("comment"@[0] != "project"@[0]);
    assert("comment"@[0] != "session"@[0]);
    assert("project"@[0] != "session"@[0]);
}


/// An event row.
#[derive(Debug, Clone)]
pub struct Event {
    pub id: i64,
    pub event_type: String,
    pub entity_type: String,
    pub entity_id: String,
    pub actor: Option<String>,
    pub session_id: Option<String>,
    /// Payload, as JSON text
    pub payload: String,
    pub created_at: String,
}

impl Event {
    /// The event's type.
    pub fn event_type_enum(&self) -> (r: EventType)
        ensures
            r.name() == self.event_type@,
            EventType::known(self.event_type@) matches Some(t) ==> r == t,
            EventType::known(self.event_type@) is None ==> r is Custom,
    {
        EventType::parse_name(self.event_type.as_str())
    }

    /// The entity type, if the stored name is recognised.
    pub fn entity_type_enum(&self) -> (r: Option<EntityType>)
        ensures
            r == EntityType::from_name(lowercase(self.entity_type@)),
    {
        match EntityType::parse_name(self.entity_type.as_str()) {
            Ok(t) => Some(t),
            Err(_) => None,
        }
    }
}

/// Input for recording an event (payload as JSON text).
#[derive(Debug)]
pub struct CreateEvent {
    pub event_type: EventType,
    pub entity_type: EntityType,
    pub entity_id: String,
    pub actor: Option<String>,
    pub session_id: Option<String>,
    pub payload: String,
}

} // verus!
