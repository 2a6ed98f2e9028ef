//! The environment variables of a repository.

use crate::client::Client;
use crate::codec::{
    json_flag, optional_member, push_flag, push_quoted, required_member, FromJson, ToJson,
};
use crate::error::{Error, ErrorView};
use crate::http::{Method, Request, Response};
use crate::json::{json_quoted, optional, required, Json};
use crate::response::{spec_decode, spec_deleted, spec_list};
use crate::text::{join, joined, texts};
use crate::uri::uri_accepted;
use crate::views::{inner_view, views};
use serde_json::Value;
use vstd::prelude::*;

verus! {

/// A new environment variable.
#[derive(Debug, Clone)]
pub struct EnvVarCreate {
    pub name: String,
    pub value: String,
    pub public: bool,
}

impl ToJson for EnvVarCreate {
    open spec fn encoded(&self) -> Seq<char> {
        "{\"env_var.name\":"@ + json_quoted(self.name@) + ",\"env_var.value\":"@ + json_quoted(
            self.value@,
        ) + ",\"env_var.public\":"@ + json_flag(self.public) + "}"@
    }

    fn to_json(&self) -> (r: String) {
        let mut out = "{\"env_var.name\":".to_owned();
        push_quoted(&mut out, self.name.as_str());
        out.append(",\"env_var.value\":");
        push_quoted(&mut out, self.value.as_str());
        out.append(",\"env_var.public\":");
        push_flag(&mut out, self.public);
        out.append("}");
        out
    }
}

/// The changes to make to an environment variable. What is `None` stays as
/// it is.
#[derive(Debug, Clone)]
pub struct EnvVarPatch {
    pub name: Option<String>,
    pub value: Option<String>,
    pub public: Option<bool>,
}

/// A member of a JSON object with a string as its value, where there is one.
pub open spec fn text_member_of(name: Seq<char>, value: Option<Seq<char>>) -> Seq<Seq<char>> {
    match value {
        Some(v) => seq![name + json_quoted(v)],
        None => Seq::empty(),
    }
}

/// A member of a JSON object with a boolean as its value, where there is
/// one.
pub open spec fn flag_member_of(name: Seq<char>, value: Option<bool>) -> Seq<Seq<char>> {
    match value {
        Some(b) => seq![name + json_flag(b)],
        None => Seq::empty(),
    }
}

impl EnvVarPatch {
    /// The members of the JSON object: one for each change, in the order
    /// name, value, public.
    pub open spec fn members(self) -> Seq<Seq<char>> {
        text_member_of("\"env_var.name\":"@, inner_view(self.name)) + text_member_of(
            "\"env_var.value\":"@,
            inner_view(self.value),
        ) + flag_member_of("\"env_var.public\":"@, self.public)
    }
}

impl ToJson for EnvVarPatch {
    open spec fn encoded(&self) -> Seq<char> {
        "{"@ + joined(self.members(), ","@) + "}"@
    }

    fn to_json(&self) -> (r: String) {
        let mut members: Vec<String> = Vec::new();
        assert(texts(members@) =~= Seq::<Seq<char>>::empty());
        match &self.name {
            Some(name) => {
                let mut member = "\"env_var.name\":".to_owned();
                push_quoted(&mut member, name.as_str());
                members.push(member);
            },
            None => {},
        }
        let ghost first = texts(members@);
        assert(first =~= text_member_of("\"env_var.name\":"@, inner_view(self.name)));
        match &self.value {
            Some(value) => {
                let mut member = "\"env_var.value\":".to_owned();
                push_quoted(&mut member, value.as_str());
                members.push(member);
            },
            None => {},
        }
        let ghost second = texts(members@);
        assert(second =~= first + text_member_of("\"env_var.value\":"@, inner_view(self.value)));
        match self.public {
            Some(public) => {
                let mut member = "\"env_var.public\":".to_owned();
                push_flag(&mut member, public);
                members.push(member);
            },
            None => {},
        }
        assert(texts(members@) =~= second + flag_member_of("\"env_var.public\":"@, self.public));
        let mut out = "{".to_owned();
        out.append(join(&members, ",").as_str());
        out.append("}");
        out
    }
}

/// What the authenticated user may do with an environment variable.
#[derive(Debug, Clone, Copy, PartialEq, Eq, Structural)]
pub struct EnvVarPermissions {
    pub read: bool,
    pub write: bool,
}

impl View for EnvVarPermissions {
    type V = EnvVarPermissions;

    open spec fn view(&self) -> EnvVarPermissions {
        *self
    }
}

impl FromJson for EnvVarPermissions {
    open spec fn decoded(json: Json) -> Option<EnvVarPermissions> {
        match (
            required(json, "read"@, |j: Json| bool::decoded(j)),
            required(json, "write"@, |j: Json| bool::decoded(j)),
        ) {
            (Some(read), Some(write)) => Some(EnvVarPermissions { read, write }),
            _ => None,
        }
    }

    fn from_json(value: &Value) -> (r: Option<EnvVarPermissions>) {
        let read = required_member::<bool>(value, "read")?;
        let write = required_member::<bool>(value, "write")?;
        Some(EnvVarPermissions { read, write })
    }
}

/// An environment variable of a repository.
#[derive(Debug, Clone)]
pub struct EnvVar {
    pub id: String,
    pub name: Option<String>,
    pub public: Option<bool>,
    pub value: Option<String>,
    pub permissions: EnvVarPermissions,
}

/// The mathematical content of an [`EnvVar`].
pub struct EnvVarView {
    pub id: Seq<char>,
    pub name: Option<Seq<char>>,
    pub public: Option<bool>,
    pub value: Option<Seq<char>>,
    pub permissions: EnvVarPermissions,
}

impl View for EnvVar {
    type V = EnvVarView;

    open spec fn view(&self) -> EnvVarView {
        EnvVarView {
            id: self.id@,
            name: inner_view(self.name),
            public: self.public,
            value: inner_view(self.value),
            permissions: self.permissions,
        }
    }
}

impl FromJson for EnvVar {
    open spec fn decoded(json: Json) -> Option<EnvVarView> {
        let id = required(json, "id"@, |j: Json| String::decoded(j));
        let name = optional(json, "name"@, |j: Json| String::decoded(j));
        let public = optional(json, "public"@, |j: Json| bool::decoded(j));
        let value = optional(json, "value"@, |j: Json| String::decoded(j));
        let permissions = required(json, "@permissions"@, |j: Json| EnvVarPermissions::decoded(j));
        if id is Some && name is Some && public is Some && value is Some && permissions is Some {
            Some(
                EnvVarView {
                    id: id->0,
                    name: name->0,
                    public: public->0,
                    value: value->0,
                    permissions: permissions->0,
                },
            )
        } else {
            None
        }
    }

    fn from_json(value: &Value) -> (r: Option<EnvVar>) {
        let id = required_member::<String>(value, "id")?;
        let name = optional_member::<String>(value, "name")?;
        let public = optional_member::<bool>(value, "public")?;
        let text = optional_member::<String>(value, "value")?;
        let permissions = required_member::<EnvVarPermissions>(value, "@permissions")?;
        Some(EnvVar { id, name, public, value: text, permissions })
    }
}

/// The environment variables of one repository.
///
/// This is typically reached through the client, as
/// `travis.env("owner/repo")`.
pub struct Env<'a> {
    travis: &'a Client,
    slug: String,
}

impl<'a> Env<'a> {
    pub(crate) fn new(travis: &'a Client, slug: String) -> (env: Env<'a>)
        ensures
            env.spec_travis() == *travis,
            env.spec_slug() == slug@,
    {
        Env { travis, slug }
    }

    /// The client that requests are made with.
    pub closed spec fn spec_travis(self) -> Client {
        *self.travis
    }

    /// The repository's slug, escaped to stand in a path.
    pub closed spec fn spec_slug(self) -> Seq<char> {
        self.slug@
    }

    /// Where the variables of a repository are listed and created.
    pub open spec fn vars_uri(self) -> Seq<char> {
        self.spec_travis().spec_host() + "/repo/"@ + self.spec_slug() + "/env_vars"@
    }

    /// Where one variable of a repository is read, changed and deleted.
    pub open spec fn var_uri(self, var_id: Seq<char>) -> Seq<char> {
        self.spec_travis().spec_host() + "/repo/"@ + self.spec_slug() + "/env_var/"@ + var_id
    }

    /// What a request made of `method`, `body` and `uri` comes to: the
    /// request, or the refusal of an address that is no well-formed URI.
    pub open spec fn asks(
        self,
        method: Method,
        body: Option<Seq<u8>>,
        uri: Seq<char>,
        r: Result<Request, Error>,
    ) -> bool {
        match r {
            Ok(request) => uri_accepted(uri) && request@ == self.spec_travis().spec_request(
                method,
                body,
                uri,
            ),
            Err(e) => !uri_accepted(uri) && e@ == ErrorView::Uri(uri),
        }
    }

    fn vars_address(&self) -> (uri: String)
        ensures
            uri@ == self.vars_uri(),
    {
        let mut uri = self.travis.host().clone();
        uri.append("/repo/");
        uri.append(self.slug.as_str());
        uri.append("/env_vars");
        uri
    }

    fn var_address(&self, var_id: &str) -> (uri: String)
        ensures
            uri@ == self.var_uri(var_id@),
    {
        let mut uri = self.travis.host().clone();
        uri.append("/repo/");
        uri.append(self.slug.as_str());
        uri.append("/env_var/");
        uri.append(var_id);
        uri
    }

    /// The request that lists the variables.
    pub fn vars(&self) -> (r: Result<Request, Error>)
        ensures
            self.asks(Method::Get, None, self.vars_uri(), r),
    {
        self.travis.get(self.vars_address())
    }

    /// The request that reads one variable.
    pub fn get(&self, var_id: &str) -> (r: Result<Request, Error>)
        ensures
            self.asks(Method::Get, None, self.var_uri(var_id@), r),
    {
        self.travis.get(self.var_address(var_id))
    }

    /// The request that changes one variable.
    pub fn update(&self, var_id: &str, options: EnvVarPatch) -> (r: Result<Request, Error>)
        ensures
            self.asks(
                Method::Patch,
                Some(vstd::utf8::encode_utf8(options.encoded())),
                self.var_uri(var_id@),
                r,
            ),
    {
        self.travis.patch(self.var_address(var_id), &options)
    }

    /// The request that creates a variable.
    pub fn set(&self, options: EnvVarCreate) -> (r: Result<Request, Error>)
        ensures
            self.asks(
                Method::Post,
                Some(vstd::utf8::encode_utf8(options.encoded())),
                self.vars_uri(),
                r,
            ),
    {
        self.travis.post(self.vars_address(), &options)
    }

    /// The request that deletes one variable.
    pub fn delete(&self, var_id: &str) -> (r: Result<Request, Error>)
        ensures
            self.asks(Method::Delete, None, self.var_uri(var_id@), r),
    {
        self.travis.delete(self.var_address(var_id))
    }

    /// Reads the response to [`Env::vars`]: the variables under `env_vars`.
    pub fn read_vars(response: Response) -> (r: Result<Vec<EnvVar>, Error>)
        ensures
            match spec_list::<EnvVar>(response.status, response.body@, "env_vars"@) {
                Ok(vars) => r matches Ok(found) && views(found@) == vars,
                Err(failure) => r matches Err(e) && e@ == failure,
            },
    {
        response.list::<EnvVar>("env_vars")
    }

    /// Reads the response to [`Env::get`], [`Env::update`] or [`Env::set`]:
    /// the variable as it now is.
    pub fn read_var(response: Response) -> (r: Result<EnvVar, Error>)
        ensures
            match spec_decode::<EnvVar>(response.status, response.body@) {
                Ok(var) => r matches Ok(found) && found@ == var,
                Err(failure) => r matches Err(e) && e@ == failure,
            },
    {
        response.decode::<EnvVar>()
    }

    /// Reads the response to [`Env::delete`]. Any success counts, whatever
    /// its body holds.
    pub fn read_delete(response: Response) -> (r: Result<(), Error>)
        ensures
            match spec_deleted(response.status, response.body@) {
                Ok(_) => r is Ok,
                Err(failure) => r matches Err(e) && e@ == failure,
            },
    {
        response.deleted()
    }
}

} // verus!
