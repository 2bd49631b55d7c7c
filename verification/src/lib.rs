//! Keeps a pull request's build comment, and optionally the commit's build
//! status record, in step with the lifecycle of a continuous-integration
//! build.
//!
//! The crate decides; it performs no I/O.  A [`session::Session`] is driven
//! by its caller: each step names the one remote call to make next and is
//! handed that call's answer in the following step.

use vstd::prelude::*;

pub mod text;
pub mod bitbucket;
pub mod session;
pub mod laws;

verus! {

/// The person who opened a pull request.
#[derive(Debug, PartialEq, Eq)]
pub struct User {
    pub name: String,
    pub email: String,
}

impl Clone for User {
    fn clone(&self) -> (copy: Self)
        ensures
            copy == *self,
    {
        User { name: self.name.clone(), email: self.email.clone() }
    }
}

/// A pull request as the build side knows it.  `from_commit` is the head
/// commit of the source branch: comments are found again by it.
#[derive(Debug, PartialEq, Eq)]
pub struct PullRequest {
    pub id: i32,
    pub web_url: String,
    pub from_ref: String,
    pub from_commit: String,
    pub title: String,
    pub author: User,
}

impl Clone for PullRequest {
    fn clone(&self) -> (copy: Self)
        ensures
            copy == *self,
    {
        PullRequest {
            id: self.id,
            web_url: self.web_url.clone(),
            from_ref: self.from_ref.clone(),
            from_commit: self.from_commit.clone(),
            title: self.title.clone(),
            author: self.author.clone(),
        }
    }
}

/// Where a build stands in its life.
#[derive(Debug, Clone, Copy, PartialEq, Eq)]
pub enum BuildState {
    Queued,
    Running,
    Finished,
}

/// How a finished build ended.  It means nothing before the build has
/// finished.
#[derive(Debug, Clone, Copy, PartialEq, Eq)]
pub enum BuildStatus {
    Success,
    Failure,
}

/// One run of a build.  `build_id` names the build, `id` numbers the run.
#[derive(Debug, PartialEq, Eq)]
pub struct BuildDetails {
    pub id: i32,
    pub build_id: String,
    pub web_url: String,
    pub state: BuildState,
    pub status: BuildStatus,
    pub status_text: Option<String>,
}

impl Clone for BuildDetails {
    fn clone(&self) -> (copy: Self)
        ensures
            copy == *self,
    {
        let status_text = match &self.status_text {
            Some(text) => Some(text.clone()),
            None => None,
        };
        BuildDetails {
            id: self.id,
            build_id: self.build_id.clone(),
            web_url: self.web_url.clone(),
            state: self.state,
            status: self.status,
            status_text,
        }
    }
}

/// The free text of a build's status; the empty text where there is none.
pub open spec fn status_text_or_empty(status_text: Option<String>) -> Seq<char> {
    match status_text {
        Some(text) => text@,
        None => Seq::empty(),
    }
}

} // verus!
