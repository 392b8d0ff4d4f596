//! Projects: a new project, what an update writes, and when a project can be
//! archived.
use vstd::prelude::*;
use crate::error::GranaryError;
use crate::json::{string_list_json, strings_to_json};
use crate::models::project::{CreateProject, Project, ProjectStatus, UpdateProject};
use crate::text::{owned, push_str, text_eq, views};

verus! {

/// A list field as stored: none when empty, else its JSON text.
pub open spec fn stored_list(items: Seq<String>) -> Option<Seq<char>> {
    if items.len() == 0 { None } else { Some(string_list_json(views(items))) }
}

/// The view of an optional string.
pub open spec fn opt_chars(o: Option<String>) -> Option<Seq<char>> {
    match o {
        Some(s) => Some(s@),
        None => None,
    }
}

fn store_list(items: &Vec<String>) -> (r: Result<Option<String>, GranaryError>)
    ensures
        r matches Ok(x) ==> opt_chars(x) == stored_list(items@),
        r is Ok,
{
    if items.len() == 0 {
        return Ok(None);
    }
    match strings_to_json(items) {
        Ok(t) => Ok(Some(t)),
        Err(e) => Err(GranaryError::Json(e)),
    }
}

/// `p` is the new, active project with the id `id` and slug `slug`, made
/// from `input` at `now`; empty tag and steering lists are not stored.
pub open spec fn created_project(p: Project, id: String, slug: String, input: CreateProject, now: Seq<char>) -> bool {
    &&& p.id == id
    &&& p.slug == slug
    &&& p.name == input.name
    &&& p.description == input.description
    &&& p.owner == input.owner
    &&& p.status@ == ProjectStatus::Active.name()
    &&& opt_chars(p.tags) == stored_list(input.tags@)
    &&& p.default_session_policy == input.default_session_policy
    &&& opt_chars(p.steering_refs) == stored_list(input.steering_refs@)
    &&& p.created_at@ == now
    &&& p.updated_at@ == now
    &&& p.version == 1
    &&& p.last_edited_by is None
}

/// A new, active project with the id `id` and slug `slug`, created at
/// `now`. It always succeeds.
pub fn new_project(id: String, slug: String, input: CreateProject, now: &str) -> (r: Result<Project, GranaryError>)
    ensures
        r matches Ok(p) ==> created_project(p, id, slug, input, now@),
        r is Ok,
{
    let tags = store_list(&input.tags)?;
    let steering_refs = store_list(&input.steering_refs)?;
    Ok(Project {
        id,
        slug,
        name: input.name,
        description: input.description,
        owner: input.owner,
        status: owned(ProjectStatus::Active.as_str()),
        tags,
        default_session_policy: input.default_session_policy,
        steering_refs,
        created_at: owned(now),
        updated_at: owned(now),
        version: 1,
        last_edited_by: None,
    })
}

/// Creates a project now: [`new_project`] at the time the clock reads,
/// which becomes its creation and update time.
pub fn create_project(id: String, slug: String, input: CreateProject) -> (r: Result<Project, GranaryError>)
    ensures
        r matches Ok(p) ==> created_project(p, id, slug, input, p.created_at@),
        r is Ok,
{
    let now = crate::clock::now_rfc3339();
    new_project(id, slug, input, &now)
}

/// The new value of a list field held as JSON text.
pub open spec fn updated_list(new: Option<Vec<String>>, old: Option<String>) -> Option<Seq<char>> {
    match new {
        Some(v) => Some(string_list_json(views(v@))),
        None => opt_chars(old),
    }
}

fn list_field(new: Option<Vec<String>>, old: Option<String>) -> (r: Result<Option<String>, GranaryError>)
    ensures
        r matches Ok(x) ==> opt_chars(x) == updated_list(new, old),
        r is Ok,
{
    match new {
        Some(v) => match strings_to_json(&v) {
            Ok(t) => Ok(Some(t)),
            Err(e) => Err(GranaryError::Json(e)),
        },
        None => Ok(old),
    }
}

/// Applies the changes `u` to a project: each given field replaces the old
/// one; lists are written as JSON text. It always succeeds.
pub fn apply_project_update(project: Project, u: UpdateProject) -> (r: Result<Project, GranaryError>)
    ensures
        r matches Ok(x) ==> {
            &&& x.id == project.id
            &&& x.slug == project.slug
            &&& x.name == (match u.name {
                Some(n) => n,
                None => project.name,
            })
            &&& x.description == (match u.description {
                Some(d) => Some(d),
                None => project.description,
            })
            &&& x.owner == (match u.owner {
                Some(o) => Some(o),
                None => project.owner,
            })
            &&& (match u.status {
                Some(s) => x.status@ == s.name(),
                None => x.status == project.status,
            })
            &&& opt_chars(x.tags) == updated_list(u.tags, project.tags)
            &&& x.default_session_policy == (match u.default_session_policy {
                Some(p) => Some(p),
                None => project.default_session_policy,
            })
            &&& opt_chars(x.steering_refs) == updated_list(u.steering_refs, project.steering_refs)
            &&& x.created_at == project.created_at
            &&& x.updated_at == project.updated_at
            &&& x.version == project.version
            &&& x.last_edited_by == project.last_edited_by
        },
        r is Ok,
{
    let mut p = project;
    let tags = list_field(u.tags, p.tags.clone())?;
    let refs = list_field(u.steering_refs, p.steering_refs.clone())?;
    if let Some(n) = u.name {
        p.name = n;
    }
    if let Some(d) = u.description {
        p.description = Some(d);
    }
    if let Some(o) = u.owner {
        p.owner = Some(o);
    }
    if let Some(s) = u.status {
        p.status = owned(s.as_str());
    }
    p.tags = tags;
    if let Some(pol) = u.default_session_policy {
        p.default_session_policy = Some(pol);
    }
    p.steering_refs = refs;
    Ok(p)
}

/// Refuses to archive a project that is already archived, with
/// [`GranaryError::Conflict`].
pub fn check_can_archive(project: &Project) -> (r: Result<(), GranaryError>)
    ensures
        (project.status@ == ProjectStatus::Archived.name()) <==> r is Err,
        r matches Err(e) ==> (e matches GranaryError::Conflict(m) && m@ == "Project "@ + project.id@
            + " is already archived"@),
{
    if text_eq(project.status.as_str(), ProjectStatus::Archived.as_str()) {
        let mut m = owned("Project ");
        push_str(&mut m, project.id.as_str());
        push_str(&mut m, " is already archived");
        return Err(GranaryError::Conflict(m));
    }
    Ok(())
}

} // verus!
