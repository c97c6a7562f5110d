//! The operations on the store: create, fetch, replace, and the liveness
//! report. Each is one step; none leaves the store in a state between two.

use vstd::prelude::*;
use crate::ident::{fresh_token, is_random_uuid_text};
use crate::model::{fresh_project, CreateProject, Project, ProjectView};
use crate::store::{Records, Store};

verus! {

/// Why an operation did not go through.
#[derive(Debug, Clone, Copy, PartialEq, Eq, Structural)]
pub enum ServiceError {
    /// No project stands under the identifier that was named.
    NotFound,
}

impl ServiceError {
    /// The HTTP status that reports this error.
    pub fn status_code(&self) -> (code: u16)
        ensures
            code == 404,
    {
        match self {
            ServiceError::NotFound => 404,
        }
    }

    /// The text that reports this error to a client.
    pub fn message(&self) -> (text: String)
        ensures
            text@ == "Project not found"@,
    {
        match self {
            ServiceError::NotFound => "Project not found".to_string(),
        }
    }
}

/// What the liveness probe answers.
#[derive(Debug, PartialEq, Eq)]
pub struct Health {
    pub status: String,
    pub message: String,
}

/// The liveness report. It is always the same and reads no store.
pub fn health_check() -> (health: Health)
    ensures
        health.status@ == "ok"@,
        health.message@ == "LayoutLens API is running"@,
{
    Health { status: "ok".to_string(), message: "LayoutLens API is running".to_string() }
}

/// The store after a creation under `id` with `name`.
pub open spec fn created(records: Records, id: Seq<char>, name: Seq<char>) -> Records {
    records.insert(id, fresh_project(id, name))
}

/// What a fetch of `id` answers.
pub open spec fn fetched(records: Records, id: Seq<char>) -> Result<ProjectView, ServiceError> {
    if records.contains_key(id) {
        Ok(records[id])
    } else {
        Err(ServiceError::NotFound)
    }
}

/// The store after a replacement of `id` by `payload`: the whole record goes,
/// the identifier and the name inside it too, and only where one was there.
pub open spec fn replaced(records: Records, id: Seq<char>, payload: ProjectView) -> Records {
    if records.contains_key(id) {
        records.insert(id, payload)
    } else {
        records
    }
}

/// What a replacement of `id` by `payload` answers.
pub open spec fn replace_reply(records: Records, id: Seq<char>, payload: ProjectView) -> Result<
    ProjectView,
    ServiceError,
> {
    if records.contains_key(id) {
        Ok(payload)
    } else {
        Err(ServiceError::NotFound)
    }
}

/// An operation's answer, with the project taken by its view.
pub open spec fn reply_view(reply: Result<Project, ServiceError>) -> Result<
    ProjectView,
    ServiceError,
> {
    match reply {
        Ok(project) => Ok(project@),
        Err(error) => Err(error),
    }
}

/// Creates a project under the identifier `id`: files a record with the name
/// of `payload` and no walls, and returns a copy of it. A record that already
/// stood under `id` is gone afterwards.
pub fn create_project_with_id(store: &mut Store, id: String, payload: CreateProject) -> (project:
    Project)
    ensures
        project@ == fresh_project(id@, payload.name@),
        final(store)@ == created(old(store)@, id@, payload.name@),
{
    let project = Project { id: id.clone(), name: payload.name, walls: Vec::new() };
    let copy = project.clone();
    assert(project@.walls =~= Seq::empty());
    store.insert(id, project);
    copy
}

/// Creates a project under a newly drawn identifier and returns it.
///
/// The identifier is random. It is not looked up before use: a draw that
/// repeats an earlier one would replace that project.
pub fn create_project(store: &mut Store, payload: CreateProject) -> (project: Project)
    ensures
        is_random_uuid_text(project@.id),
        project@ == fresh_project(project@.id, payload.name@),
        final(store)@ == created(old(store)@, project@.id, payload.name@),
{
    let id = fresh_token();
    create_project_with_id(store, id, payload)
}

/// Returns a copy of the project under `id`, or `NotFound`.
pub fn get_project(store: &Store, id: &str) -> (reply: Result<Project, ServiceError>)
    ensures
        reply_view(reply) == fetched(store@, id@),
{
    match store.get(id) {
        Some(project) => Ok(project),
        None => Err(ServiceError::NotFound),
    }
}

/// Replaces the project under `id` by `updated`, whole, and returns what is
/// now stored; or answers `NotFound` and leaves the store as it was.
///
/// The test and the write happen under one exclusive borrow, so nothing can
/// come between them. The identifier inside `updated` is stored as given,
/// whether or not it is `id`.
pub fn update_project(store: &mut Store, id: String, updated: Project) -> (reply: Result<
    Project,
    ServiceError,
>)
    ensures
        reply_view(reply) == replace_reply(old(store)@, id@, updated@),
        final(store)@ == replaced(old(store)@, id@, updated@),
{
    if store.contains(id.as_str()) {
        let copy = updated.clone();
        store.insert(id, updated);
        Ok(copy)
    } else {
        Err(ServiceError::NotFound)
    }
}

} // verus!
