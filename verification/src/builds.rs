//! The builds of a repository.

use crate::client::Client;
use crate::codec::{decoded_list, list, optional_member, required_member, FromJson};
use crate::cursor::pointing;
use crate::error::{Error, ErrorView};
use crate::http::{Method, Request, Response};
use crate::jobs::{Job, JobView};
use crate::json::{member, optional, required, Json};
use crate::listing::Listing;
use crate::model::{Branch, BranchView, Owner, OwnerView};
use crate::query::{embed_key, embed_key_string, form_encoded, form_urlencode, pair_views};
use crate::response::spec_page;
use crate::state::State;
use crate::text::{join, joined, signed_decimal, signed_decimal_string, texts};
use crate::uri::uri_accepted;
use crate::views::{inner_view, views};
use serde_json::Value;
use vstd::prelude::*;

verus! {

/// One build of a repository.
#[derive(Debug, Clone)]
pub struct Build {
    pub id: usize,
    pub number: String,
    pub state: State,
    pub duration: Option<usize>,
    pub event_type: String,
    pub previous_state: Option<State>,
    pub pull_request_title: Option<String>,
    pub pull_request_number: Option<usize>,
    pub started_at: Option<String>,
    pub finished_at: Option<String>,
    pub branch: Branch,
    pub jobs: Vec<Job>,
    pub created_by: Owner,
}

/// The mathematical content of a [`Build`].
pub struct BuildView {
    pub id: usize,
    pub number: Seq<char>,
    pub state: State,
    pub duration: Option<usize>,
    pub event_type: Seq<char>,
    pub previous_state: Option<State>,
    pub pull_request_title: Option<Seq<char>>,
    pub pull_request_number: Option<usize>,
    pub started_at: Option<Seq<char>>,
    pub finished_at: Option<Seq<char>>,
    pub branch: BranchView,
    pub jobs: Seq<JobView>,
    pub created_by: OwnerView,
}

impl View for Build {
    type V = BuildView;

    open spec fn view(&self) -> BuildView {
        BuildView {
            id: self.id,
            number: self.number@,
            state: self.state,
            duration: self.duration,
            event_type: self.event_type@,
            previous_state: self.previous_state,
            pull_request_title: inner_view(self.pull_request_title),
            pull_request_number: self.pull_request_number,
            started_at: inner_view(self.started_at),
            finished_at: inner_view(self.finished_at),
            branch: self.branch@,
            jobs: views(self.jobs@),
            created_by: self.created_by@,
        }
    }
}

impl FromJson for Build {
    open spec fn decoded(json: Json) -> Option<BuildView> {
        let id = required(json, "id"@, |j: Json| usize::decoded(j));
        let number = required(json, "number"@, |j: Json| String::decoded(j));
        let state = required(json, "state"@, |j: Json| State::decoded(j));
        let duration = optional(json, "duration"@, |j: Json| usize::decoded(j));
        let event_type = required(json, "event_type"@, |j: Json| String::decoded(j));
        let previous_state = optional(json, "previous_state"@, |j: Json| State::decoded(j));
        let title = optional(json, "pull_request_title"@, |j: Json| String::decoded(j));
        let pull = optional(json, "pull_request_number"@, |j: Json| usize::decoded(j));
        let started_at = optional(json, "started_at"@, |j: Json| String::decoded(j));
        let finished_at = optional(json, "finished_at"@, |j: Json| String::decoded(j));
        let branch = required(json, "branch"@, |j: Json| Branch::decoded(j));
        let jobs = required(json, "jobs"@, |j: Json| decoded_list::<Job>(j));
        let created_by = required(json, "created_by"@, |j: Json| Owner::decoded(j));
        if id is Some && number is Some && state is Some && duration is Some && event_type
            is Some && previous_state is Some && title is Some && pull is Some && started_at
            is Some && finished_at is Some && branch is Some && jobs is Some && created_by
            is Some {
            Some(
                BuildView {
                    id: id->0,
                    number: number->0,
                    state: state->0,
                    duration: duration->0,
                    event_type: event_type->0,
                    previous_state: previous_state->0,
                    pull_request_title: title->0,
                    pull_request_number: pull->0,
                    started_at: started_at->0,
                    finished_at: finished_at->0,
                    branch: branch->0,
                    jobs: jobs->0,
                    created_by: created_by->0,
                },
            )
        } else {
            None
        }
    }

    fn from_json(value: &Value) -> (r: Option<Build>) {
        let id = required_member::<usize>(value, "id")?;
        let number = required_member::<String>(value, "number")?;
        let state = required_member::<State>(value, "state")?;
        let duration = optional_member::<usize>(value, "duration")?;
        let event_type = required_member::<String>(value, "event_type")?;
        let previous_state = optional_member::<State>(value, "previous_state")?;
        let pull_request_title = optional_member::<String>(value, "pull_request_title")?;
        let pull_request_number = optional_member::<usize>(value, "pull_request_number")?;
        let started_at = optional_member::<String>(value, "started_at")?;
        let finished_at = optional_member::<String>(value, "finished_at")?;
        let branch = required_member::<Branch>(value, "branch")?;
        let jobs = list::<Job>(member(value, "jobs")?)?;
        let created_by = required_member::<Owner>(value, "created_by")?;
        Some(
            Build {
                id,
                number,
                state,
                duration,
                event_type,
                previous_state,
                pull_request_title,
                pull_request_number,
                started_at,
                finished_at,
                branch,
                jobs,
                created_by,
            },
        )
    }
}

/// What to list, how many at a time and in which order.
#[derive(Debug, Clone)]
pub struct ListOptions {
    embed: Vec<String>,
    limit: i32,
    sort_by: String,
    created_by: Option<String>,
    event_type: Option<String>,
    previous_state: Option<State>,
    state: Option<State>,
}

/// The mathematical content of a [`ListOptions`].
pub struct ListOptionsView {
    pub embed: Seq<Seq<char>>,
    pub limit: i32,
    /// id, started_at, finished_at,
    /// append :desc to any attribute to reverse order.
    pub sort_by: Seq<char>,
    pub created_by: Option<Seq<char>>,
    pub event_type: Option<Seq<char>>,
    pub previous_state: Option<State>,
    pub state: Option<State>,
}

/// One pair of a query where `value` is there, none where it is not.
pub open spec fn optional_pair(name: Seq<char>, value: Option<Seq<char>>) -> Seq<
    (Seq<char>, Seq<char>),
> {
    match value {
        Some(v) => seq![(name, v)],
        None => Seq::empty(),
    }
}

/// The name of a state that may be absent.
pub open spec fn state_name(state: Option<State>) -> Option<Seq<char>> {
    match state {
        Some(s) => Some(s.name()),
        None => None,
    }
}

impl ListOptionsView {
    /// The options that hold until others are chosen: 25 at a time, ordered
    /// by start.
    pub open spec fn initial() -> ListOptionsView {
        ListOptionsView {
            embed: Seq::empty(),
            limit: 25,
            sort_by: "started_at"@,
            created_by: None,
            event_type: None,
            previous_state: None,
            state: None,
        }
    }

    /// The pairs of the query: what to embed, `limit` and `sort_by` always,
    /// and then each filter that is set.
    pub open spec fn params(self) -> Seq<(Seq<char>, Seq<char>)> {
        seq![
            (embed_key(), joined(self.embed, ","@)),
            ("limit"@, signed_decimal(self.limit as int)),
            ("sort_by"@, self.sort_by),
        ] + optional_pair("created_by"@, self.created_by) + optional_pair(
            "event_type"@,
            self.event_type,
        ) + optional_pair("previous_state"@, state_name(self.previous_state)) + optional_pair(
            "state"@,
            state_name(self.state),
        )
    }

    /// The query string.
    pub open spec fn query(self) -> Seq<char> {
        form_encoded(self.params())
    }
}

impl View for ListOptions {
    type V = ListOptionsView;

    closed spec fn view(&self) -> ListOptionsView {
        ListOptionsView {
            embed: texts(self.embed@),
            limit: self.limit,
            sort_by: self.sort_by@,
            created_by: inner_view(self.created_by),
            event_type: inner_view(self.event_type),
            previous_state: self.previous_state,
            state: self.state,
        }
    }
}

impl Default for ListOptions {
    fn default() -> (options: ListOptions)
        ensures
            options@ == ListOptionsView::initial(),
    {
        let embed: Vec<String> = Vec::new();
        assert(texts(embed@) =~= Seq::<Seq<char>>::empty());
        ListOptions {
            embed,
            limit: 25,
            sort_by: "started_at".to_owned(),
            created_by: None,
            event_type: None,
            previous_state: None,
            state: None,
        }
    }
}

fn pair(name: &str, value: String) -> (p: (String, String))
    ensures
        p.0@ == name@,
        p.1@ == value@,
{
    (name.to_owned(), value)
}

impl ListOptions {
    /// A builder that starts from the default options.
    pub fn builder() -> (b: ListOptionsBuilder)
        ensures
            b@ == ListOptionsView::initial(),
    {
        ListOptionsBuilder { options: ListOptions::default() }
    }

    /// The options as a query string.
    pub fn into_query_string(&self) -> (query: String)
        ensures
            query@ == self@.query(),
    {
        let mut params: Vec<(String, String)> = Vec::new();
        params.push((embed_key_string(), join(&self.embed, ",")));
        params.push(pair("limit", signed_decimal_string(self.limit)));
        params.push(pair("sort_by", self.sort_by.clone()));
        let ghost fixed = pair_views(params@);
        assert(fixed =~= seq![
            (embed_key(), joined(self@.embed, ","@)),
            ("limit"@, signed_decimal(self@.limit as int)),
            ("sort_by"@, self@.sort_by),
        ]);
        match &self.created_by {
            Some(created_by) => {
                params.push(pair("created_by", created_by.clone()));
            },
            None => {},
        }
        let ghost first = pair_views(params@);
        assert(first =~= fixed + optional_pair("created_by"@, self@.created_by));
        match &self.event_type {
            Some(event_type) => {
                params.push(pair("event_type", event_type.clone()));
            },
            None => {},
        }
        let ghost second = pair_views(params@);
        assert(second =~= first + optional_pair("event_type"@, self@.event_type));
        match &self.previous_state {
            Some(previous_state) => {
                params.push(pair("previous_state", previous_state.to_string()));
            },
            None => {},
        }
        let ghost third = pair_views(params@);
        assert(third =~= second + optional_pair(
            "previous_state"@,
            state_name(self@.previous_state),
        ));
        match &self.state {
            Some(state) => {
                params.push(pair("state", state.to_string()));
            },
            None => {},
        }
        assert(pair_views(params@) =~= third + optional_pair("state"@, state_name(self@.state)));
        form_urlencode(&params)
    }
}

/// Chooses the options of a listing one by one.
#[derive(Debug, Clone)]
pub struct ListOptionsBuilder {
    options: ListOptions,
}

impl View for ListOptionsBuilder {
    type V = ListOptionsView;

    closed spec fn view(&self) -> ListOptionsView {
        self.options@
    }
}

impl ListOptionsBuilder {
    /// What to embed in each build, such as `build.jobs`.
    pub fn embed(self, value: Vec<String>) -> (b: ListOptionsBuilder)
        ensures
            b@ == (ListOptionsView { embed: texts(value@), ..self@ }),
    {
        let mut options = self.options;
        options.embed = value;
        ListOptionsBuilder { options }
    }

    /// How many builds a page holds.
    pub fn limit(self, value: i32) -> (b: ListOptionsBuilder)
        ensures
            b@ == (ListOptionsView { limit: value, ..self@ }),
    {
        let mut options = self.options;
        options.limit = value;
        ListOptionsBuilder { options }
    }

    /// The attribute to order by: `id`, `started_at` or `finished_at`, with
    /// `:desc` behind it to reverse the order.
    pub fn sort_by(self, value: &str) -> (b: ListOptionsBuilder)
        ensures
            b@ == (ListOptionsView { sort_by: value@, ..self@ }),
    {
        let mut options = self.options;
        options.sort_by = value.to_owned();
        ListOptionsBuilder { options }
    }

    /// Only builds that this login created.
    pub fn created_by(self, value: &str) -> (b: ListOptionsBuilder)
        ensures
            b@ == (ListOptionsView { created_by: Some(value@), ..self@ }),
    {
        let mut options = self.options;
        options.created_by = Some(value.to_owned());
        ListOptionsBuilder { options }
    }

    /// Only builds that this kind of event set off.
    pub fn event_type(self, value: &str) -> (b: ListOptionsBuilder)
        ensures
            b@ == (ListOptionsView { event_type: Some(value@), ..self@ }),
    {
        let mut options = self.options;
        options.event_type = Some(value.to_owned());
        ListOptionsBuilder { options }
    }

    /// Only builds whose previous build ended in this state.
    pub fn previous_state(self, value: State) -> (b: ListOptionsBuilder)
        ensures
            b@ == (ListOptionsView { previous_state: Some(value), ..self@ }),
    {
        let mut options = self.options;
        options.previous_state = Some(value);
        ListOptionsBuilder { options }
    }

    /// Only builds in this state.
    pub fn state(self, value: State) -> (b: ListOptionsBuilder)
        ensures
            b@ == (ListOptionsView { state: Some(value), ..self@ }),
    {
        let mut options = self.options;
        options.state = Some(value);
        ListOptionsBuilder { options }
    }

    /// The options as chosen.
    pub fn build(self) -> (r: Result<ListOptions, String>)
        ensures
            r matches Ok(options) && options@ == self@,
    {
        Ok(self.options)
    }
}

/// The builds of one repository.
#[derive(Debug, Clone)]
pub struct Builds {
    travis: Client,
    slug: String,
}

impl Builds {
    pub(crate) fn new(travis: Client, slug: String) -> (builds: Builds)
        ensures
            builds.spec_travis() == travis,
            builds.spec_slug() == slug@,
    {
        Builds { travis, slug }
    }

    /// The client that requests are made with.
    pub closed spec fn spec_travis(self) -> Client {
        self.travis
    }

    /// The repository's slug, escaped to stand in a path.
    pub closed spec fn spec_slug(self) -> Seq<char> {
        self.slug@
    }

    /// The path of the first page of builds.
    pub open spec fn list_path(slug: Seq<char>, query: Seq<char>) -> Seq<char> {
        "/repo/"@ + slug + "/builds?"@ + query
    }

    fn path(&self, options: &ListOptions) -> (path: String)
        ensures
            path@ == Self::list_path(self.spec_slug(), options@.query()),
    {
        let mut path = "/repo/".to_owned();
        path.append(self.slug.as_str());
        path.append("/builds?");
        path.append(options.into_query_string().as_str());
        path
    }

    /// The request for the first page of builds.
    pub fn list(&self, options: &ListOptions) -> (r: Result<Request, Error>)
        ensures
            ({
                let uri = self.spec_travis().spec_host() + Self::list_path(
                    self.spec_slug(),
                    options@.query(),
                );
                match r {
                    Ok(request) => uri_accepted(uri) && request@ == self.spec_travis().spec_request(
                        Method::Get,
                        None,
                        uri,
                    ),
                    Err(e) => !uri_accepted(uri) && e@ == ErrorView::Uri(uri),
                }
            }),
    {
        let mut uri = self.travis.host().clone();
        uri.append(self.path(options).as_str());
        self.travis.get(uri)
    }

    /// Reads the response to [`Builds::list`]: the builds of the page.
    pub fn read_list(response: Response) -> (r: Result<Vec<Build>, Error>)
        ensures
            match spec_page::<Build>(response.status, response.body@, "builds"@) {
                Ok(page) => r matches Ok(builds) && views(builds@) == page.items,
                Err(failure) => r matches Err(e) && e@ == failure,
            },
    {
        match response.page::<Build>("builds") {
            Ok(page) => Ok(page.items),
            Err(e) => Err(e),
        }
    }

    /// All the builds, page after page. Nothing has been fetched yet: the
    /// first step of the listing hands out the request for the first page.
    pub fn iter(&self, options: &ListOptions) -> (listing: Listing<Build>)
        ensures
            listing.spec_travis().spec_host() == self.spec_travis().spec_host(),
            listing.spec_travis().spec_token() == self.spec_travis().spec_token(),
            listing.spec_key() == "builds"@,
            listing.spec_cursor() == pointing::<Build>(
                Self::list_path(self.spec_slug(), options@.query()),
            ),
    {
        Listing::new(self.travis.duplicate(), "builds", self.path(options))
    }
}

} // verus!
