//! The repositories of an owner.

use crate::client::Client;
use crate::codec::{optional_member, required_member, FromJson};
use crate::cursor::pointing;
use crate::error::{Error, ErrorView};
use crate::http::{Method, Request, Response};
use crate::json::{optional, required, Json};
use crate::listing::Listing;
use crate::model::{Branch, BranchView, Owner, OwnerView};
use crate::query::{embed_key, embed_key_string, form_encoded, form_urlencode, pair_views};
use crate::response::spec_page;
use crate::text::{join, joined, signed_decimal, signed_decimal_string, texts};
use crate::uri::uri_accepted;
use crate::views::{inner_view, views};
use serde_json::Value;
use vstd::prelude::*;

verus! {

/// Permissions associated with this repository
/// available to the authenticated user
#[derive(Debug, Clone, Copy, PartialEq, Eq, Structural)]
pub struct RepoPermissions {
    pub read: bool,
    pub admin: bool,
    pub activate: bool,
    pub deactivate: bool,
    pub star: bool,
    pub unstar: bool,
    pub create_cron: bool,
    pub create_env_var: bool,
    pub create_key_pair: bool,
    pub delete_key_pair: bool,
    pub create_request: bool,
}

impl View for RepoPermissions {
    type V = RepoPermissions;

    open spec fn view(&self) -> RepoPermissions {
        *self
    }
}

impl FromJson for RepoPermissions {
    open spec fn decoded(json: Json) -> Option<RepoPermissions> {
        let read = required(json, "read"@, |j: Json| bool::decoded(j));
        let admin = required(json, "admin"@, |j: Json| bool::decoded(j));
        let activate = required(json, "activate"@, |j: Json| bool::decoded(j));
        let deactivate = required(json, "deactivate"@, |j: Json| bool::decoded(j));
        let star = required(json, "star"@, |j: Json| bool::decoded(j));
        let unstar = required(json, "unstar"@, |j: Json| bool::decoded(j));
        let create_cron = required(json, "create_cron"@, |j: Json| bool::decoded(j));
        let create_env_var = required(json, "create_env_var"@, |j: Json| bool::decoded(j));
        let create_key_pair = required(json, "create_key_pair"@, |j: Json| bool::decoded(j));
        let delete_key_pair = required(json, "delete_key_pair"@, |j: Json| bool::decoded(j));
        let create_request = required(json, "create_request"@, |j: Json| bool::decoded(j));
        if read is Some && admin is Some && activate is Some && deactivate is Some && star
            is Some && unstar is Some && create_cron is Some && create_env_var is Some
            && create_key_pair is Some && delete_key_pair is Some && create_request is Some {
            Some(
                RepoPermissions {
                    read: read->0,
                    admin: admin->0,
                    activate: activate->0,
                    deactivate: deactivate->0,
                    star: star->0,
                    unstar: unstar->0,
                    create_cron: create_cron->0,
                    create_env_var: create_env_var->0,
                    create_key_pair: create_key_pair->0,
                    delete_key_pair: delete_key_pair->0,
                    create_request: create_request->0,
                },
            )
        } else {
            None
        }
    }

    fn from_json(value: &Value) -> (r: Option<RepoPermissions>) {
        let read = required_member::<bool>(value, "read")?;
        let admin = required_member::<bool>(value, "admin")?;
        let activate = required_member::<bool>(value, "activate")?;
        let deactivate = required_member::<bool>(value, "deactivate")?;
        let star = required_member::<bool>(value, "star")?;
        let unstar = required_member::<bool>(value, "unstar")?;
        let create_cron = required_member::<bool>(value, "create_cron")?;
        let create_env_var = required_member::<bool>(value, "create_env_var")?;
        let create_key_pair = required_member::<bool>(value, "create_key_pair")?;
        let delete_key_pair = required_member::<bool>(value, "delete_key_pair")?;
        let create_request = required_member::<bool>(value, "create_request")?;
        Some(
            RepoPermissions {
                read,
                admin,
                activate,
                deactivate,
                star,
                unstar,
                create_cron,
                create_env_var,
                create_key_pair,
                delete_key_pair,
                create_request,
            },
        )
    }
}

/// A travis repository
#[derive(Debug, Clone)]
pub struct Repository {
    pub id: usize,
    pub name: String,
    pub slug: String,
    pub description: Option<String>,
    pub github_language: Option<String>,
    pub active: bool,
    pub private: bool,
    pub owner: Owner,
    pub permissions: RepoPermissions,
    pub default_branch: Option<Branch>,
    pub starred: bool,
}

/// The mathematical content of a [`Repository`].
pub struct RepositoryView {
    pub id: usize,
    pub name: Seq<char>,
    pub slug: Seq<char>,
    pub description: Option<Seq<char>>,
    pub github_language: Option<Seq<char>>,
    pub active: bool,
    pub private: bool,
    pub owner: OwnerView,
    pub permissions: RepoPermissions,
    pub default_branch: Option<BranchView>,
    pub starred: bool,
}

impl View for Repository {
    type V = RepositoryView;

    open spec fn view(&self) -> RepositoryView {
        RepositoryView {
            id: self.id,
            name: self.name@,
            slug: self.slug@,
            description: inner_view(self.description),
            github_language: inner_view(self.github_language),
            active: self.active,
            private: self.private,
            owner: self.owner@,
            permissions: self.permissions,
            default_branch: inner_view(self.default_branch),
            starred: self.starred,
        }
    }
}

impl FromJson for Repository {
    open spec fn decoded(json: Json) -> Option<RepositoryView> {
        let id = required(json, "id"@, |j: Json| usize::decoded(j));
        let name = required(json, "name"@, |j: Json| String::decoded(j));
        let slug = required(json, "slug"@, |j: Json| String::decoded(j));
        let description = optional(json, "description"@, |j: Json| String::decoded(j));
        let language = optional(json, "github_language"@, |j: Json| String::decoded(j));
        let active = required(json, "active"@, |j: Json| bool::decoded(j));
        let private = required(json, "private"@, |j: Json| bool::decoded(j));
        let owner = required(json, "owner"@, |j: Json| Owner::decoded(j));
        let permissions = required(json, "@permissions"@, |j: Json| RepoPermissions::decoded(j));
        let default_branch = optional(json, "default_branch"@, |j: Json| Branch::decoded(j));
        let starred = required(json, "starred"@, |j: Json| bool::decoded(j));
        if id is Some && name is Some && slug is Some && description is Some && language
            is Some && active is Some && private is Some && owner is Some && permissions
            is Some && default_branch is Some && starred is Some {
            Some(
                RepositoryView {
                    id: id->0,
                    name: name->0,
                    slug: slug->0,
                    description: description->0,
                    github_language: language->0,
                    active: active->0,
                    private: private->0,
                    owner: owner->0,
                    permissions: permissions->0,
                    default_branch: default_branch->0,
                    starred: starred->0,
                },
            )
        } else {
            None
        }
    }

    fn from_json(value: &Value) -> (r: Option<Repository>) {
        let id = required_member::<usize>(value, "id")?;
        let name = required_member::<String>(value, "name")?;
        let slug = required_member::<String>(value, "slug")?;
        let description = optional_member::<String>(value, "description")?;
        let github_language = optional_member::<String>(value, "github_language")?;
        let active = required_member::<bool>(value, "active")?;
        let private = required_member::<bool>(value, "private")?;
        let owner = required_member::<Owner>(value, "owner")?;
        let permissions = required_member::<RepoPermissions>(value, "@permissions")?;
        let default_branch = optional_member::<Branch>(value, "default_branch")?;
        let starred = required_member::<bool>(value, "starred")?;
        Some(
            Repository {
                id,
                name,
                slug,
                description,
                github_language,
                active,
                private,
                owner,
                permissions,
                default_branch,
                starred,
            },
        )
    }
}

/// Repository list options
#[derive(Debug, Clone)]
pub struct ListOptions {
    embed: Vec<String>,
    limit: i32,
    sort_by: String,
    starred: Option<bool>,
    private: Option<bool>,
    active: Option<bool>,
}

/// The mathematical content of a [`ListOptions`].
pub struct ListOptionsView {
    pub embed: Seq<Seq<char>>,
    pub limit: i32,
    /// id, started_at, finished_at,
    /// append :desc to any attribute to reverse order.
    pub sort_by: Seq<char>,
    pub starred: Option<bool>,
    pub private: Option<bool>,
    pub active: Option<bool>,
}

/// A truth value as a query writes it.
pub open spec fn flag_name(b: bool) -> Seq<char> {
    if b {
        "true"@
    } else {
        "false"@
    }
}

/// One pair of a query where `value` is there, none where it is not.
pub open spec fn optional_flag(name: Seq<char>, value: Option<bool>) -> Seq<
    (Seq<char>, Seq<char>),
> {
    match value {
        Some(b) => seq![(name, flag_name(b))],
        None => Seq::empty(),
    }
}

impl ListOptionsView {
    /// The options that hold until others are chosen: 25 at a time, ordered
    /// by start.
    pub open spec fn initial() -> ListOptionsView {
        ListOptionsView {
            embed: Seq::empty(),
            limit: 25,
            sort_by: "started_at"@,
            starred: None,
            private: None,
            active: None,
        }
    }

    /// The pairs of the query: what to embed, `limit` and `sort_by` always,
    /// and then `active`, `starred` and `private` as far as they are set.
    pub open spec fn params(self) -> Seq<(Seq<char>, Seq<char>)> {
        seq![
            (embed_key(), joined(self.embed, ","@)),
            ("limit"@, signed_decimal(self.limit as int)),
            ("sort_by"@, self.sort_by),
        ] + optional_flag("active"@, self.active) + optional_flag("starred"@, self.starred)
            + optional_flag("private"@, self.private)
    }

    /// The query string.
    pub open spec fn query(self) -> Seq<char> {
        form_encoded(self.params())
    }
}

impl View for ListOptions {
    type V = ListOptionsView;

    closed spec fn view(&self) -> ListOptionsView {
        ListOptionsView {
            embed: texts(self.embed@),
            limit: self.limit,
            sort_by: self.sort_by@,
            starred: self.starred,
            private: self.private,
            active: self.active,
        }
    }
}

impl Default for ListOptions {
    fn default() -> (options: ListOptions)
        ensures
            options@ == ListOptionsView::initial(),
    {
        let embed: Vec<String> = Vec::new();
        assert(texts(embed@) =~= Seq::<Seq<char>>::empty());
        ListOptions {
            embed,
            limit: 25,
            sort_by: "started_at".to_owned(),
            starred: None,
            private: None,
            active: None,
        }
    }
}

fn pair(name: &str, value: String) -> (p: (String, String))
    ensures
        p.0@ == name@,
        p.1@ == value@,
{
    (name.to_owned(), value)
}

fn flag_string(b: bool) -> (s: String)
    ensures
        s@ == flag_name(b),
{
    if b {
        "true".to_owned()
    } else {
        "false".to_owned()
    }
}

impl ListOptions {
    /// A builder that starts from the default options.
    pub fn builder() -> (b: ListOptionsBuilder)
        ensures
            b@ == ListOptionsView::initial(),
    {
        ListOptionsBuilder { options: ListOptions::default() }
    }

    /// The options as a query string.
    pub fn into_query_string(&self) -> (query: String)
        ensures
            query@ == self@.query(),
    {
        let mut params: Vec<(String, String)> = Vec::new();
        params.push((embed_key_string(), join(&self.embed, ",")));
        params.push(pair("limit", signed_decimal_string(self.limit)));
        params.push(pair("sort_by", self.sort_by.clone()));
        let ghost fixed = pair_views(params@);
        assert(fixed =~= seq![
            (embed_key(), joined(self@.embed, ","@)),
            ("limit"@, signed_decimal(self@.limit as int)),
            ("sort_by"@, self@.sort_by),
        ]);
        match self.active {
            Some(active) => {
                params.push(pair("active", flag_string(active)));
            },
            None => {},
        }
        let ghost first = pair_views(params@);
        assert(first =~= fixed + optional_flag("active"@, self@.active));
        match self.starred {
            Some(starred) => {
                params.push(pair("starred", flag_string(starred)));
            },
            None => {},
        }
        let ghost second = pair_views(params@);
        assert(second =~= first + optional_flag("starred"@, self@.starred));
        match self.private {
            Some(private) => {
                params.push(pair("private", flag_string(private)));
            },
            None => {},
        }
        assert(pair_views(params@) =~= second + optional_flag("private"@, self@.private));
        form_urlencode(&params)
    }
}

/// Chooses the options of a listing one by one.
#[derive(Debug, Clone)]
pub struct ListOptionsBuilder {
    options: ListOptions,
}

impl View for ListOptionsBuilder {
    type V = ListOptionsView;

    closed spec fn view(&self) -> ListOptionsView {
        self.options@
    }
}

impl ListOptionsBuilder {
    /// What to embed in each repository.
    pub fn embed(self, value: Vec<String>) -> (b: ListOptionsBuilder)
        ensures
            b@ == (ListOptionsView { embed: texts(value@), ..self@ }),
    {
        let mut options = self.options;
        options.embed = value;
        ListOptionsBuilder { options }
    }

    /// How many repositories a page holds.
    pub fn limit(self, value: i32) -> (b: ListOptionsBuilder)
        ensures
            b@ == (ListOptionsView { limit: value, ..self@ }),
    {
        let mut options = self.options;
        options.limit = value;
        ListOptionsBuilder { options }
    }

    /// The attribute to order by, with `:desc` behind it to reverse the
    /// order.
    pub fn sort_by(self, value: &str) -> (b: ListOptionsBuilder)
        ensures
            b@ == (ListOptionsView { sort_by: value@, ..self@ }),
    {
        let mut options = self.options;
        options.sort_by = value.to_owned();
        ListOptionsBuilder { options }
    }

    /// Only repositories that are starred, or only those that are not.
    pub fn starred(self, value: bool) -> (b: ListOptionsBuilder)
        ensures
            b@ == (ListOptionsView { starred: Some(value), ..self@ }),
    {
        let mut options = self.options;
        options.starred = Some(value);
        ListOptionsBuilder { options }
    }

    /// Only repositories that are private, or only those that are not.
    pub fn private(self, value: bool) -> (b: ListOptionsBuilder)
        ensures
            b@ == (ListOptionsView { private: Some(value), ..self@ }),
    {
        let mut options = self.options;
        options.private = Some(value);
        ListOptionsBuilder { options }
    }

    /// Only repositories that are active, or only those that are not.
    pub fn active(self, value: bool) -> (b: ListOptionsBuilder)
        ensures
            b@ == (ListOptionsView { active: Some(value), ..self@ }),
    {
        let mut options = self.options;
        options.active = Some(value);
        ListOptionsBuilder { options }
    }

    /// The options as chosen.
    pub fn build(self) -> (r: Result<ListOptions, String>)
        ensures
            r matches Ok(options) && options@ == self@,
    {
        Ok(self.options)
    }
}

/// The repositories that the client can see.
#[derive(Debug, Clone)]
pub struct Repos {
    travis: Client,
}

impl Repos {
    pub(crate) fn new(travis: Client) -> (repos: Repos)
        ensures
            repos.spec_travis() == travis,
    {
        Repos { travis }
    }

    /// The client that requests are made with.
    pub closed spec fn spec_travis(self) -> Client {
        self.travis
    }

    /// The path of the first page of an owner's repositories.
    pub open spec fn list_path(owner: Seq<char>, query: Seq<char>) -> Seq<char> {
        "/owner/"@ + owner + "/repos?"@ + query
    }

    fn path(owner: &str, options: &ListOptions) -> (path: String)
        ensures
            path@ == Self::list_path(owner@, options@.query()),
    {
        let mut path = "/owner/".to_owned();
        path.append(owner);
        path.append("/repos?");
        path.append(options.into_query_string().as_str());
        path
    }

    /// The request for the first page of the repositories of an owner, a
    /// user or an organisation.
    pub fn list(&self, owner: &str, options: &ListOptions) -> (r: Result<Request, Error>)
        ensures
            ({
                let uri = self.spec_travis().spec_host() + Self::list_path(
                    owner@,
                    options@.query(),
                );
                match r {
                    Ok(request) => uri_accepted(uri) && request@ == self.spec_travis().spec_request(
                        Method::Get,
                        None,
                        uri,
                    ),
                    Err(e) => !uri_accepted(uri) && e@ == ErrorView::Uri(uri),
                }
            }),
    {
        let mut uri = self.travis.host().clone();
        uri.append(Self::path(owner, options).as_str());
        self.travis.get(uri)
    }

    /// Reads the response to [`Repos::list`]: the repositories of the page.
    pub fn read_list(response: Response) -> (r: Result<Vec<Repository>, Error>)
        ensures
            match spec_page::<Repository>(response.status, response.body@, "repositories"@) {
                Ok(page) => r matches Ok(repositories) && views(repositories@) == page.items,
                Err(failure) => r matches Err(e) && e@ == failure,
            },
    {
        match response.page::<Repository>("repositories") {
            Ok(page) => Ok(page.items),
            Err(e) => Err(e),
        }
    }

    /// All the repositories of an owner, page after page. Nothing has been
    /// fetched yet: the first step of the listing hands out the request for
    /// the first page.
    pub fn iter(&self, owner: &str, options: &ListOptions) -> (listing: Listing<Repository>)
        ensures
            listing.spec_travis().spec_host() == self.spec_travis().spec_host(),
            listing.spec_travis().spec_token() == self.spec_travis().spec_token(),
            listing.spec_key() == "repositories"@,
            listing.spec_cursor() == pointing::<Repository>(
                Self::list_path(owner@, options@.query()),
            ),
    {
        Listing::new(self.travis.duplicate(), "repositories", Self::path(owner, options))
    }
}

} // verus!
