//! The client: a host, a credential, and the requests made in their name.

use crate::builds::Builds;
use crate::codec::{found_or_codec, push_quoted, read_text_member, text_member, ToJson};
use crate::env::Env;
use crate::error::{Error, ErrorView};
use crate::escape::{escape, escaped};
use crate::http::{
    body_view, first_value, is_success, spec_is_success, Header, Method, Request, RequestView,
    Response,
};
use crate::jobs::Jobs;
use crate::json::json_quoted;
use crate::repos::Repos;
use crate::response::{fault, spec_fault};
use crate::text::{decimal, from_utf8_lossy, lossy_text, push_decimal};
use crate::uri::{accepts, uri_accepted};
use vstd::prelude::*;
use vstd::string::StrSliceExecFns;

verus! {

/// The host of the service for open-source projects.
pub const OSS_HOST: &'static str = "https://api.travis-ci.org";

/// The host of the service for private projects.
pub const PRO_HOST: &'static str = "https://api.travis-ci.com";

/// What the client calls itself.
pub const USER_AGENT: &'static str = "Travis/0.1.1";

/// The version of the API that requests ask for.
pub const API_VERSION: &'static str = "3";

/// The content type that the credential exchange asks for.
pub const LEGACY_ACCEPT: &'static str = "application/vnd.travis-ci.2+json";

/// A credential to authenticate with.
#[derive(Clone, Debug)]
pub enum Credential {
    /// A Travis API token.
    Token(String),
    /// A Github API token. It is exchanged for a Travis token before any
    /// other request is made.
    Github(String),
}

/// The mathematical content of a [`Credential`].
pub enum CredentialView {
    Token(Seq<char>),
    Github(Seq<char>),
}

impl View for Credential {
    type V = CredentialView;

    open spec fn view(&self) -> CredentialView {
        match *self {
            Credential::Token(t) => CredentialView::Token(t@),
            Credential::Github(t) => CredentialView::Github(t@),
        }
    }
}

/// The mathematical content of an optional credential.
pub open spec fn credential_view(credential: Option<Credential>) -> Option<CredentialView> {
    match credential {
        Some(c) => Some(c@),
        None => None,
    }
}

/// The headers that every request carries, followed by the authorization
/// where there is a token.
pub open spec fn standard_headers(token: Option<Seq<char>>) -> Seq<(Seq<char>, Seq<char>)> {
    let base = seq![
        ("user-agent"@, USER_AGENT@),
        ("travis-api-version"@, API_VERSION@),
        ("content-type"@, "json"@),
    ];
    match token {
        Some(t) => base.push(("authorization"@, "token "@ + t)),
        None => base,
    }
}

/// The headers of the credential exchange: the standard ones without
/// authorization, and the legacy content type to accept.
pub open spec fn exchange_headers() -> Seq<(Seq<char>, Seq<char>)> {
    standard_headers(None).push(("accept"@, LEGACY_ACCEPT@))
}

/// Where a Github token is exchanged.
pub open spec fn exchange_uri(host: Seq<char>) -> Seq<char> {
    host + "/auth/github"@
}

/// The body of the credential exchange, as text.
pub open spec fn exchange_body(github_token: Seq<char>) -> Seq<char> {
    "{\"github_token\":"@ + json_quoted(github_token) + "}"@
}

/// The request that exchanges a Github token.
pub open spec fn exchange_request(host: Seq<char>, github_token: Seq<char>) -> RequestView {
    RequestView {
        method: Method::Post,
        uri: exchange_uri(host),
        headers: exchange_headers(),
        body: Some(vstd::utf8::encode_utf8(exchange_body(github_token))),
    }
}

/// What the answer to a credential exchange stands for: the Travis token,
/// or the failure. A success has to be a JSON object with a string under
/// `access_token`. A 403 is a fault whose message is the body as text; any
/// other failure is read as for every request.
pub open spec fn exchange_outcome(status: u16, body: Seq<u8>) -> Result<Seq<char>, ErrorView> {
    if spec_is_success(status) {
        match text_member(body, "access_token"@) {
            Some(token) => Ok(token),
            None => Err(ErrorView::Codec { raw: body }),
        }
    } else if status == 403 {
        Err(ErrorView::Fault { code: status, error: lossy_text(body) })
    } else {
        Err(spec_fault(status, body))
    }
}

/// Reads the answer to a credential exchange.
pub fn read_exchange(response: Response) -> (r: Result<String, Error>)
    ensures
        match r {
            Ok(token) => exchange_outcome(response.status, response.body@) == Ok::<
                Seq<char>,
                ErrorView,
            >(token@),
            Err(e) => exchange_outcome(response.status, response.body@) == Err::<
                Seq<char>,
                ErrorView,
            >(e@),
        },
{
    if is_success(response.status) {
        let token = read_text_member(response.body.as_slice(), "access_token");
        found_or_codec(response.body, token)
    } else if response.status == 403 {
        let message = from_utf8_lossy(response.body.as_slice());
        Err(Error::Fault { code: response.status, error: message })
    } else {
        Err(fault(response.status, response.body))
    }
}

fn header(name: &str, value: &str) -> (h: Header)
    ensures
        h@ == (name@, value@),
{
    Header { name: name.to_owned(), value: value.to_owned() }
}

fn base_headers() -> (headers: Vec<Header>)
    ensures
        headers@.map_values(|h: Header| h@) == standard_headers(None),
{
    let mut headers: Vec<Header> = Vec::new();
    headers.push(header("user-agent", USER_AGENT));
    headers.push(header("travis-api-version", API_VERSION));
    headers.push(header("content-type", "json"));
    assert(headers@.map_values(|h: Header| h@) =~= standard_headers(None));
    headers
}

/// Entry point for all operations on one host.
///
/// A client holds a Travis token or no credential at all: a Github token
/// never gets past the construction.
#[derive(Clone, Debug)]
pub struct Client {
    token: Option<String>,
    host: String,
}

/// A client under construction whose Github token has yet to be exchanged.
#[derive(Clone, Debug)]
pub struct Exchange {
    host: String,
    request: Request,
}

/// The outcome of the first step of constructing a client.
#[derive(Clone, Debug)]
pub enum Construction {
    /// The client is ready: there was no credential to exchange.
    Ready(Client),
    /// A request has to be sent first, and its response handed to
    /// [`Exchange::finish`].
    Exchange(Exchange),
}

impl Exchange {
    /// The host that the client is for.
    pub closed spec fn spec_host(self) -> Seq<char> {
        self.host@
    }

    /// The request to send.
    pub closed spec fn spec_request(self) -> RequestView {
        self.request@
    }

    /// The request to send.
    pub fn request(&self) -> (r: &Request)
        ensures
            r@ == self.spec_request(),
    {
        &self.request
    }

    /// Completes the construction with the response to [`Exchange::request`].
    /// The client holds the Travis token that the response carries; any
    /// failure of the exchange is the failure of the construction.
    pub fn finish(self, response: Response) -> (r: Result<Client, Error>)
        ensures
            match r {
                Ok(client) => exchange_outcome(response.status, response.body@) == Ok::<
                    Seq<char>,
                    ErrorView,
                >(client.spec_token()->0) && client.spec_token() is Some && client.spec_host()
                    == self.spec_host(),
                Err(e) => exchange_outcome(response.status, response.body@) == Err::<
                    Seq<char>,
                    ErrorView,
                >(e@),
            },
    {
        match read_exchange(response) {
            Ok(token) => Ok(Client { token: Some(token), host: self.host }),
            Err(e) => Err(e),
        }
    }
}

impl Client {
    /// The Travis token that requests are authorized with, if any.
    pub closed spec fn spec_token(self) -> Option<Seq<char>> {
        match self.token {
            Some(t) => Some(t@),
            None => None,
        }
    }

    /// The host that requests go to.
    pub closed spec fn spec_host(self) -> Seq<char> {
        self.host@
    }

    /// The Travis token that requests are authorized with, if any.
    pub fn token(&self) -> (t: Option<&String>)
        ensures
            match t {
                Some(s) => self.spec_token() == Some(s@),
                None => self.spec_token() is None,
            },
    {
        match &self.token {
            Some(t) => Some(t),
            None => None,
        }
    }

    /// The credential that requests are authorized with, if any.
    pub fn credential(&self) -> (c: Option<Credential>)
        ensures
            match c {
                Some(Credential::Token(t)) => self.spec_token() == Some(t@),
                Some(Credential::Github(_)) => false,
                None => self.spec_token() is None,
            },
    {
        match &self.token {
            Some(t) => Some(Credential::Token(t.clone())),
            None => None,
        }
    }

    /// The host that requests go to.
    pub fn host(&self) -> (h: &String)
        ensures
            h@ == self.spec_host(),
    {
        &self.host
    }

    /// A copy of this client.
    pub fn duplicate(&self) -> (c: Client)
        ensures
            c.spec_token() == self.spec_token(),
            c.spec_host() == self.spec_host(),
    {
        let token = match &self.token {
            Some(t) => Some(t.clone()),
            None => None,
        };
        Client { token, host: self.host.clone() }
    }

    /// Starts a client for the service for open-source projects.
    pub fn oss(credential: Option<Credential>) -> (r: Result<Construction, Error>)
        ensures
            constructs(OSS_HOST@, credential_view(credential), r),
    {
        Client::custom(OSS_HOST, credential)
    }

    /// Starts a client for the service for private projects.
    pub fn pro(credential: Option<Credential>) -> (r: Result<Construction, Error>)
        ensures
            constructs(PRO_HOST@, credential_view(credential), r),
    {
        Client::custom(PRO_HOST, credential)
    }

    /// Starts a client for a host of one's own. Without a credential, or
    /// with a Travis token, the client is ready. With a Github token the
    /// result holds the request that exchanges it, unless the host gives no
    /// well-formed address for it.
    pub fn custom(host: &str, credential: Option<Credential>) -> (r: Result<Construction, Error>)
        ensures
            constructs(host@, credential_view(credential), r),
    {
        match credential {
            Some(Credential::Github(gh)) => {
                let mut uri = host.to_owned();
                uri.append("/auth/github");
                if !accepts(uri.as_str()) {
                    return Err(Error::Uri(uri));
                }
                let mut text = "{\"github_token\":".to_owned();
                push_quoted(&mut text, gh.as_str());
                text.append("}");
                let mut headers = base_headers();
                headers.push(header("accept", LEGACY_ACCEPT));
                assert(headers@.map_values(|h: Header| h@) =~= exchange_headers());
                let request = Request {
                    method: Method::Post,
                    uri,
                    headers,
                    body: Some(text.as_str().as_bytes_vec()),
                };
                Ok(Construction::Exchange(Exchange { host: host.to_owned(), request }))
            },
            Some(Credential::Token(t)) => Ok(
                Construction::Ready(Client { token: Some(t), host: host.to_owned() }),
            ),
            None => Ok(Construction::Ready(Client { token: None, host: host.to_owned() })),
        }
    }

    /// The request with the given method, body and address, the standard
    /// headers, and the authorization where the client has a token. The
    /// address has to be a well-formed URI.
    pub fn raw_request(&self, method: Method, body: Option<Vec<u8>>, uri: String) -> (r: Result<
        Request,
        Error,
    >)
        ensures
            match r {
                Ok(request) => uri_accepted(uri@) && request@ == self.spec_request(
                    method,
                    body_view(body),
                    uri@,
                ),
                Err(e) => !uri_accepted(uri@) && e@ == ErrorView::Uri(uri@),
            },
    {
        if accepts(uri.as_str()) {
            Ok(self.request_for(method, body, uri))
        } else {
            Err(Error::Uri(uri))
        }
    }

    /// The request with the given method, body and address, the standard
    /// headers, and the authorization where the client has a token. The
    /// address is taken as it is.
    pub fn request_for(&self, method: Method, body: Option<Vec<u8>>, uri: String) -> (request:
        Request)
        ensures
            request@ == self.spec_request(method, body_view(body), uri@),
    {
        let mut headers = base_headers();
        match &self.token {
            Some(token) => {
                let mut value = "token ".to_owned();
                value.append(token.as_str());
                headers.push(header("authorization", value.as_str()));
                assert(headers@.map_values(|h: Header| h@) =~= standard_headers(Some(token@)));
            },
            None => {},
        }
        Request { method, uri, headers, body }
    }

    /// What [`Client::raw_request`] builds.
    pub open spec fn spec_request(self, method: Method, body: Option<Seq<u8>>, uri: Seq<char>) -> RequestView {
        RequestView { method, uri, headers: standard_headers(self.spec_token()), body }
    }

    /// A `GET` of `uri`.
    pub fn get(&self, uri: String) -> (r: Result<Request, Error>)
        ensures
            match r {
                Ok(request) => uri_accepted(uri@) && request@ == self.spec_request(
                    Method::Get,
                    None,
                    uri@,
                ),
                Err(e) => !uri_accepted(uri@) && e@ == ErrorView::Uri(uri@),
            },
    {
        self.raw_request(Method::Get, None, uri)
    }

    /// A `POST` of `body`, written as JSON, to `uri`.
    pub fn post<B: ToJson>(&self, uri: String, body: &B) -> (r: Result<Request, Error>)
        ensures
            match r {
                Ok(request) => uri_accepted(uri@) && request@ == self.spec_request(
                    Method::Post,
                    Some(vstd::utf8::encode_utf8(body.encoded())),
                    uri@,
                ),
                Err(e) => !uri_accepted(uri@) && e@ == ErrorView::Uri(uri@),
            },
    {
        let text = body.to_json();
        self.raw_request(Method::Post, Some(text.as_str().as_bytes_vec()), uri)
    }

    /// A `PATCH` of `uri` with `body`, written as JSON.
    pub fn patch<B: ToJson>(&self, uri: String, body: &B) -> (r: Result<Request, Error>)
        ensures
            match r {
                Ok(request) => uri_accepted(uri@) && request@ == self.spec_request(
                    Method::Patch,
                    Some(vstd::utf8::encode_utf8(body.encoded())),
                    uri@,
                ),
                Err(e) => !uri_accepted(uri@) && e@ == ErrorView::Uri(uri@),
            },
    {
        let text = body.to_json();
        self.raw_request(Method::Patch, Some(text.as_str().as_bytes_vec()), uri)
    }

    /// The repositories that this client can see.
    pub fn repos(&self) -> (repos: Repos)
        ensures
            repos.spec_travis().spec_host() == self.spec_host(),
            repos.spec_travis().spec_token() == self.spec_token(),
    {
        Repos::new(self.duplicate())
    }

    /// The environment variables of the repository with the given slug.
    pub fn env<'a>(&'a self, slug: &str) -> (env: Env<'a>)
        ensures
            env.spec_travis() == *self,
            env.spec_slug() == escaped(vstd::utf8::encode_utf8(slug@)),
    {
        Env::new(self, escape(slug))
    }

    /// The builds of the repository with the given slug.
    pub fn builds(&self, slug: &str) -> (builds: Builds)
        ensures
            builds.spec_travis().spec_host() == self.spec_host(),
            builds.spec_travis().spec_token() == self.spec_token(),
            builds.spec_slug() == escaped(vstd::utf8::encode_utf8(slug@)),
    {
        Builds::new(self.duplicate(), escape(slug))
    }

    /// The jobs of the build with the given id.
    pub fn jobs<'a>(&'a self, build_id: usize) -> (jobs: Jobs<'a>)
        ensures
            jobs.spec_travis() == *self,
            jobs.spec_build_id() == build_id,
    {
        Jobs::new(self, build_id)
    }

    /// Where the log of a job is read as plain text.
    pub open spec fn raw_log_uri(self, job_id: u64) -> Seq<char> {
        self.spec_host() + "/job/"@ + decimal(job_id as nat) + "/log.txt"@
    }

    /// The request for the log of a job as plain text. The body of a
    /// successful response is the log, to be taken as it comes.
    pub fn raw_log(&self, job_id: u64) -> (r: Result<Request, Error>)
        ensures
            match r {
                Ok(request) => uri_accepted(self.raw_log_uri(job_id)) && request@
                    == self.spec_request(Method::Get, None, self.raw_log_uri(job_id)),
                Err(e) => !uri_accepted(self.raw_log_uri(job_id)) && e@ == ErrorView::Uri(
                    self.raw_log_uri(job_id),
                ),
            },
    {
        let mut uri = self.host.clone();
        uri.append("/job/");
        push_decimal(&mut uri, job_id);
        uri.append("/log.txt");
        self.raw_request(Method::Get, None, uri)
    }

    /// A `DELETE` of `uri`.
    pub fn delete(&self, uri: String) -> (r: Result<Request, Error>)
        ensures
            match r {
                Ok(request) => uri_accepted(uri@) && request@ == self.spec_request(
                    Method::Delete,
                    None,
                    uri@,
                ),
                Err(e) => !uri_accepted(uri@) && e@ == ErrorView::Uri(uri@),
            },
    {
        self.raw_request(Method::Delete, None, uri)
    }
}

/// A request made with a token carries it in its `authorization` header,
/// behind the word `token`; a request made without one has no such header.
pub proof fn lemma_authorization(token: Option<Seq<char>>)
    ensures
        first_value(standard_headers(token), "authorization"@) == match token {
            Some(t) => Some("token "@ + t),
            None => None,
        },
{
    reveal_strlit("authorization");
    reveal_strlit("user-agent");
    reveal_strlit("travis-api-version");
    reveal_strlit("content-type");
    assert("authorization"@.len() == 13);
    assert("user-agent"@.len() == 10);
    assert("travis-api-version"@.len() == 18);
    assert("content-type"@.len() == 12);
    let headers = standard_headers(token);
    let one = headers.skip(1);
    let two = one.skip(1);
    let three = two.skip(1);
    assert(headers[0].0 == "user-agent"@);
    assert(one[0].0 == "travis-api-version"@);
    assert(two[0].0 == "content-type"@);
    assert(first_value(headers, "authorization"@) == first_value(one, "authorization"@));
    assert(first_value(one, "authorization"@) == first_value(two, "authorization"@));
    assert(first_value(two, "authorization"@) == first_value(three, "authorization"@));
    match token {
        Some(t) => {
            assert(three.len() == 1);
            assert(three[0] == ("authorization"@, "token "@ + t));
        },
        None => {
            assert(three.len() == 0);
        },
    }
}

/// After a successful credential exchange every request of the client
/// carries the token that the exchange gave: where the response held
/// `access_token`, the `authorization` header is `token ` and that value.
pub proof fn lemma_exchanged_token_is_sent(
    status: u16,
    body: Seq<u8>,
    client: Client,
    method: Method,
    payload: Option<Seq<u8>>,
    uri: Seq<char>,
)
    requires
        client.spec_token() is Some,
        exchange_outcome(status, body) == Ok::<Seq<char>, ErrorView>(client.spec_token()->0),
    ensures
        text_member(body, "access_token"@) is Some,
        first_value(client.spec_request(method, payload, uri).headers, "authorization"@) == Some(
            "token "@ + text_member(body, "access_token"@)->0,
        ),
{
    lemma_authorization(client.spec_token());
}

/// A forbidden credential exchange fails with a fault that carries the
/// status and the body as text, whatever the body holds.
pub proof fn lemma_forbidden_exchange(body: Seq<u8>)
    ensures
        exchange_outcome(403, body) == Err::<Seq<char>, ErrorView>(
            ErrorView::Fault { code: 403, error: lossy_text(body) },
        ),
{
}

/// What the first step of a construction gives for a host and a credential.
pub open spec fn constructs(
    host: Seq<char>,
    credential: Option<CredentialView>,
    r: Result<Construction, Error>,
) -> bool {
    match credential {
        Some(CredentialView::Github(gh)) => match r {
            Ok(Construction::Exchange(x)) => uri_accepted(exchange_uri(host)) && x.spec_host()
                == host && x.spec_request() == exchange_request(host, gh),
            Ok(Construction::Ready(_)) => false,
            Err(e) => !uri_accepted(exchange_uri(host)) && e@ == ErrorView::Uri(
                exchange_uri(host),
            ),
        },
        Some(CredentialView::Token(t)) => r matches Ok(Construction::Ready(c)) && c.spec_host()
            == host && c.spec_token() == Some(t),
        None => r matches Ok(Construction::Ready(c)) && c.spec_host() == host && c.spec_token()
            is None,
    }
}

} // verus!
