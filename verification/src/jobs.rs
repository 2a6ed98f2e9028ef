//! The jobs of a build.

use crate::client::Client;
use crate::codec::{optional_member, required_member, FromJson};
use crate::error::{Error, ErrorView};
use crate::http::{Method, Request, Response};
use crate::json::{optional, required, Json};
use crate::model::{Owner, OwnerView};
use crate::response::spec_list;
use crate::state::State;
use crate::text::{decimal, push_decimal};
use crate::uri::uri_accepted;
use crate::views::inner_view;
use serde_json::Value;
use vstd::prelude::*;

verus! {

/// One job of a build.
#[derive(Debug, Clone)]
pub struct Job {
    pub id: usize,
    pub number: Option<String>,
    pub state: Option<State>,
    pub started_at: Option<String>,
    pub finished_at: Option<String>,
    pub queue: Option<String>,
    pub owner: Option<Owner>,
}

/// The mathematical content of a [`Job`].
pub struct JobView {
    pub id: usize,
    pub number: Option<Seq<char>>,
    pub state: Option<State>,
    pub started_at: Option<Seq<char>>,
    pub finished_at: Option<Seq<char>>,
    pub queue: Option<Seq<char>>,
    pub owner: Option<OwnerView>,
}

impl View for Job {
    type V = JobView;

    open spec fn view(&self) -> JobView {
        JobView {
            id: self.id,
            number: inner_view(self.number),
            state: self.state,
            started_at: inner_view(self.started_at),
            finished_at: inner_view(self.finished_at),
            queue: inner_view(self.queue),
            owner: inner_view(self.owner),
        }
    }
}

impl FromJson for Job {
    open spec fn decoded(json: Json) -> Option<JobView> {
        let id = required(json, "id"@, |j: Json| usize::decoded(j));
        let number = optional(json, "number"@, |j: Json| String::decoded(j));
        let state = optional(json, "state"@, |j: Json| State::decoded(j));
        let started_at = optional(json, "started_at"@, |j: Json| String::decoded(j));
        let finished_at = optional(json, "finished_at"@, |j: Json| String::decoded(j));
        let queue = optional(json, "queue"@, |j: Json| String::decoded(j));
        let owner = optional(json, "owner"@, |j: Json| Owner::decoded(j));
        if id is Some && number is Some && state is Some && started_at is Some && finished_at
            is Some && queue is Some && owner is Some {
            Some(
                JobView {
                    id: id->0,
                    number: number->0,
                    state: state->0,
                    started_at: started_at->0,
                    finished_at: finished_at->0,
                    queue: queue->0,
                    owner: owner->0,
                },
            )
        } else {
            None
        }
    }

    fn from_json(value: &Value) -> (r: Option<Job>) {
        let id = required_member::<usize>(value, "id")?;
        let number = optional_member::<String>(value, "number")?;
        let state = optional_member::<State>(value, "state")?;
        let started_at = optional_member::<String>(value, "started_at")?;
        let finished_at = optional_member::<String>(value, "finished_at")?;
        let queue = optional_member::<String>(value, "queue")?;
        let owner = optional_member::<Owner>(value, "owner")?;
        Some(Job { id, number, state, started_at, finished_at, queue, owner })
    }
}

/// The jobs of one build.
pub struct Jobs<'a> {
    travis: &'a Client,
    build_id: usize,
}

impl<'a> Jobs<'a> {
    pub(crate) fn new(travis: &'a Client, build_id: usize) -> (jobs: Jobs<'a>)
        ensures
            jobs.spec_travis() == *travis,
            jobs.spec_build_id() == build_id,
    {
        Jobs { travis, build_id }
    }

    /// Where the jobs of a build are listed.
    pub open spec fn list_uri(host: Seq<char>, build_id: usize) -> Seq<char> {
        host + "/build/"@ + decimal(build_id as nat) + "/jobs"@
    }

    /// The client that requests are made with.
    pub closed spec fn spec_travis(self) -> Client {
        *self.travis
    }

    /// The build whose jobs these are.
    pub closed spec fn spec_build_id(self) -> usize {
        self.build_id
    }

    /// The request that lists the jobs of the build.
    pub fn list(&self) -> (r: Result<Request, Error>)
        ensures
            ({
                let uri = Self::list_uri(self.spec_travis().spec_host(), self.spec_build_id());
                match r {
                    Ok(request) => uri_accepted(uri) && request@ == self.spec_travis().spec_request(
                        Method::Get,
                        None,
                        uri,
                    ),
                    Err(e) => !uri_accepted(uri) && e@ == ErrorView::Uri(uri),
                }
            }),
    {
        let mut uri = self.travis.host().clone();
        uri.append("/build/");
        push_decimal(&mut uri, self.build_id as u64);
        uri.append("/jobs");
        self.travis.get(uri)
    }

    /// Reads the response to [`Jobs::list`]: the jobs under `jobs`.
    pub fn read_list(response: Response) -> (r: Result<Vec<Job>, Error>)
        ensures
            match r {
                Ok(jobs) => spec_list::<Job>(response.status, response.body@, "jobs"@) == Ok::<
                    Seq<JobView>,
                    ErrorView,
                >(crate::views::views(jobs@)),
                Err(e) => spec_list::<Job>(response.status, response.body@, "jobs"@) == Err::<
                    Seq<JobView>,
                    ErrorView,
                >(e@),
            },
    {
        response.list::<Job>("jobs")
    }
}

} // verus!
