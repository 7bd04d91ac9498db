//! The registry's Trusted Publishing API: the requests a client sends, and how
//! the registry's answers are turned into a body or an error.
//!
//! The exchange itself (opening a connection, sending, reading the answer)
//! belongs to the caller: this module says exactly what to send and what an
//! answer means.

use vstd::prelude::*;
use crate::json::{
    crate_update_body, crate_update_payload, github_config_body, github_config_payload,
    gitlab_config_body, gitlab_config_payload, json_object, json_string, json_string_literal,
};
use crate::text::{decimal, decimal_text, join, join_text, trim_end_slashes, trim_end_slashes_text};

verus! {

/// A single GitHub Actions Trusted Publishing config as returned by the registry.
#[derive(Debug)]
pub struct GitHubConfig {
    pub id: u32,
    pub krate: String,
    pub repository_owner: String,
    pub repository_owner_id: Option<u32>,
    pub repository_name: String,
    pub workflow_filename: String,
    pub environment: Option<String>,
    pub created_at: Option<String>,
}

/// A single GitLab CI/CD Trusted Publishing config as returned by the registry.
#[derive(Debug)]
pub struct GitLabConfig {
    pub id: u32,
    pub krate: String,
    pub namespace: String,
    pub namespace_id: Option<String>,
    pub project: String,
    pub workflow_filepath: String,
    pub environment: Option<String>,
    pub created_at: Option<String>,
}

/// The HTTP method of a request.
#[derive(Clone, Copy, Debug, PartialEq, Eq, Structural)]
pub enum Method {
    Get,
    Post,
    Patch,
    Delete,
}

/// A request to the registry, complete but not yet sent.
#[derive(Debug)]
pub struct Request {
    pub method: Method,
    /// The full URL, without the query.
    pub url: String,
    /// One query parameter, name and value, when the request has one.
    pub query: Option<(String, String)>,
    /// Header names and values, in the order they are set.
    pub headers: Vec<(String, String)>,
    pub body: Option<String>,
}

/// What a request holds, as mathematical text.
pub struct RequestView {
    pub method: Method,
    pub url: Seq<char>,
    pub query: Option<(Seq<char>, Seq<char>)>,
    pub headers: Seq<(Seq<char>, Seq<char>)>,
    pub body: Option<Seq<char>>,
}

/// The view of an optional owned text.
pub open spec fn opt_string(o: Option<String>) -> Option<Seq<char>> {
    match o {
        Some(s) => Some(s@),
        None => None,
    }
}

/// The view of an optional pair of owned texts.
pub open spec fn opt_pair(o: Option<(String, String)>) -> Option<(Seq<char>, Seq<char>)> {
    match o {
        Some(p) => Some((p.0@, p.1@)),
        None => None,
    }
}

/// The view of a list of pairs of owned texts.
pub open spec fn pairs_view(s: Seq<(String, String)>) -> Seq<(Seq<char>, Seq<char>)> {
    s.map_values(|p: (String, String)| (p.0@, p.1@))
}

impl View for Request {
    type V = RequestView;

    open spec fn view(&self) -> RequestView {
        RequestView {
            method: self.method,
            url: self.url@,
            query: opt_pair(self.query),
            headers: pairs_view(self.headers@),
            body: opt_string(self.body),
        }
    }
}

/// Why talking to the registry failed.
#[derive(Debug)]
pub enum ApiError {
    /// No API token is configured, so no request can be authorized.
    MissingToken,
    /// The request could not be delivered or no answer came back.
    Unreachable,
    /// The answer's body is not UTF-8 text.
    InvalidBody,
    /// The registry answered with a status outside 200..=299.
    Rejected { status: u16, detail: String },
}

/// The message of an error, as it is shown to the user.
pub open spec fn error_message(e: ApiError) -> Seq<char> {
    match e {
        ApiError::MissingToken =>
            "no API token found; set `CARGO_REGISTRY_TOKEN` or run `cargo login` first"@,
        ApiError::Unreachable => "failed to reach the registry"@,
        ApiError::InvalidBody => "invalid (non-UTF8) response body from registry"@,
        ApiError::Rejected { status, detail } =>
            "the registry responded with an error (status "@ + decimal(status as nat) + "): "@
                + detail@,
    }
}

impl ApiError {
    /// The message shown to the user for this error.
    pub fn message(&self) -> (m: String)
        ensures
            m@ == error_message(*self),
    {
        match self {
            ApiError::MissingToken => String::from_str(
                "no API token found; set `CARGO_REGISTRY_TOKEN` or run `cargo login` first",
            ),
            ApiError::Unreachable => String::from_str("failed to reach the registry"),
            ApiError::InvalidBody => String::from_str(
                "invalid (non-UTF8) response body from registry",
            ),
            ApiError::Rejected { status, detail } => {
                let mut m = String::from_str("the registry responded with an error (status ");
                let code = decimal_text(*status as u32);
                m.append(code.as_str());
                m.append("): ");
                m.append(detail.as_str());
                m
            },
        }
    }
}

/// Whether a status is a success, 200 to 299.
pub open spec fn is_success_status(status: u16) -> bool {
    200 <= status <= 299
}

/// Whether a status is a success, as `StatusCode::is_success` decides it.
pub fn is_success(status: u16) -> (b: bool)
    ensures
        b == is_success_status(status),
{
    200 <= status && status <= 299
}

/// The view of the optional list of `detail` texts found in an error answer.
pub open spec fn opt_strings(o: Option<Vec<String>>) -> Option<Seq<Seq<char>>> {
    match o {
        Some(v) => Some(v@.map_values(|s: String| s@)),
        None => None,
    }
}

/// What an error answer is reported as: its `detail` texts joined by `, `
/// when the body is the registry's error list and that join is not empty,
/// else the whole body.
pub open spec fn error_detail(body: Seq<char>, details: Option<Seq<Seq<char>>>) -> Seq<char> {
    match details {
        Some(d) => if join(d, ", "@).len() > 0 {
            join(d, ", "@)
        } else {
            body
        },
        None => body,
    }
}

/// Reads an answer of the registry: a success gives its body; any other status
/// gives an error carrying the status and the registry's `detail` messages.
/// `details` is the list of `detail` texts when the body parses as the
/// registry's error list, and `None` when it does not.
pub fn response_body(status: u16, body: String, details: Option<Vec<String>>) -> (r: Result<
    String,
    ApiError,
>)
    ensures
        is_success_status(status) ==> (r matches Ok(b) && b@ == body@),
        !is_success_status(status) ==> (r matches Err(ApiError::Rejected { status: s, detail })
            && s == status && detail@ == error_detail(body@, opt_strings(details))),
{
    if is_success(status) {
        return Ok(body);
    }
    let detail = match details {
        Some(d) => {
            let joined = join_text(&d, ", ");
            if joined.unicode_len() > 0 {
                joined
            } else {
                body
            }
        },
        None => body,
    };
    Err(ApiError::Rejected { status, detail })
}

/// What a client holds: the registry host, and the API token if there is one.
pub struct ClientView {
    pub host: Seq<char>,
    pub token: Option<Seq<char>>,
}

/// How an answer is read: a status is a success exactly from 200 to 299;
/// an error answer reports the body when the registry's error list is absent
/// or yields nothing, and otherwise its details joined by `, `; its message
/// names the status in decimal and ends with that detail.
pub proof fn lemma_error_detail(
    status: u16,
    body: Seq<char>,
    first: Seq<char>,
    second: Seq<char>,
    detail: String,
)
    ensures
        is_success_status(status) <==> (200 <= status && status <= 299),
        error_detail(body, None) == body,
        error_detail(body, Some(Seq::empty())) == body,
        first.len() > 0 ==> error_detail(body, Some(seq![first])) == first,
        error_detail(body, Some(seq![first, second])) == first + ", "@ + second,
        error_message(ApiError::Rejected { status, detail }) == "the registry responded with an error (status "@
            + decimal(status as nat) + "): "@ + detail@,
{
    crate::text::lemma_join_parts(seq![first], ", "@, second);
    assert(seq![first].push(second) =~= seq![first, second]);
    reveal_strlit(", ");
}

/// The URL of an API path on a host: the host without trailing slashes, then
/// `/api/v1`, then the path.
pub open spec fn api_url(host: Seq<char>, path: Seq<char>) -> Seq<char> {
    trim_end_slashes(host) + "/api/v1"@ + path
}

/// The headers of a request: it accepts JSON, declares a JSON body when it has
/// one, and is authorized with the token, in that order.
pub open spec fn request_headers(token: Seq<char>, has_body: bool) -> Seq<(Seq<char>, Seq<char>)> {
    seq![("Accept"@, "application/json"@)] + (if has_body {
        seq![("Content-Type"@, "application/json"@)]
    } else {
        Seq::empty()
    }) + seq![("Authorization"@, token)]
}

/// The request a client sends for a method, path, query and body; none when
/// the client has no token.
pub open spec fn planned(
    client: ClientView,
    method: Method,
    path: Seq<char>,
    query: Option<(Seq<char>, Seq<char>)>,
    body: Option<Seq<char>>,
) -> Option<RequestView> {
    match client.token {
        None => None,
        Some(t) => Some(
            RequestView {
                method,
                url: api_url(client.host, path),
                query,
                headers: request_headers(t, body is Some),
                body,
            },
        ),
    }
}

/// `r` is the planned request, or the missing-token error when there is none.
pub open spec fn built(r: Result<Request, ApiError>, plan: Option<RequestView>) -> bool {
    match plan {
        None => r matches Err(ApiError::MissingToken),
        Some(v) => r matches Ok(req) && req@ == v,
    }
}

/// The path of a crate.
pub open spec fn crate_path(krate: Seq<char>) -> Seq<char> {
    "/crates/"@ + krate
}

/// The path of the GitHub configs.
pub open spec fn github_configs_path() -> Seq<char> {
    "/trusted_publishing/github_configs"@
}

/// The path of the GitLab configs.
pub open spec fn gitlab_configs_path() -> Seq<char> {
    "/trusted_publishing/gitlab_configs"@
}

/// The view of an optional text, quoted as a JSON string.
pub open spec fn opt_json(o: Option<&str>) -> Option<Seq<char>> {
    match o {
        Some(t) => Some(json_string_literal(t@)),
        None => None,
    }
}

/// Every API URL is the same whether or not the host ends in a slash, so a host
/// given as `https://crates.io/` reaches the same endpoints as
/// `https://crates.io`.
pub proof fn lemma_url_ignores_trailing_slash(host: Seq<char>, path: Seq<char>)
    ensures
        api_url(host + seq!['/'], path) == api_url(host, path),
{
    crate::text::lemma_trim_appended_slash(host);
}

/// Every request goes to the host without its trailing slashes, then
/// `/api/v1`, then the operation's path, whatever the method, query or body.
pub proof fn lemma_request_url(
    client: ClientView,
    method: Method,
    path: Seq<char>,
    query: Option<(Seq<char>, Seq<char>)>,
    body: Option<Seq<char>>,
)
    requires
        client.token is Some,
    ensures
        planned(client, method, path, query, body) matches Some(r) && r.url == trim_end_slashes(
            client.host,
        ) + "/api/v1"@ + path && r.method == method && r.query == query && r.body == body,
{
}

/// A client without a token plans no request at all: every operation fails
/// with the missing-token error before anything is sent.
pub proof fn lemma_no_token_no_request(
    client: ClientView,
    method: Method,
    path: Seq<char>,
    query: Option<(Seq<char>, Seq<char>)>,
    body: Option<Seq<char>>,
)
    requires
        client.token is None,
    ensures
        planned(client, method, path, query, body) is None,
{
}

/// Every planned request asks for JSON first and is authorized with the
/// client's token last, and it declares a JSON body exactly when it sends one.
pub proof fn lemma_request_headers(
    client: ClientView,
    method: Method,
    path: Seq<char>,
    query: Option<(Seq<char>, Seq<char>)>,
    body: Option<Seq<char>>,
)
    requires
        client.token is Some,
    ensures
        planned(client, method, path, query, body) matches Some(r) && r.headers[0] == (
        "Accept"@,
        "application/json"@,
        ) && r.headers.last() == ("Authorization"@, client.token->0) && (r.headers.contains(
            ("Content-Type"@, "application/json"@),
        ) <==> body is Some),
{
    let r = planned(client, method, path, query, body)->0;
    let h = r.headers;
    if body is Some {
        assert(h[1] == ("Content-Type"@, "application/json"@));
    } else {
        if h.contains(("Content-Type"@, "application/json"@)) {
            let i = choose|i: int| 0 <= i < h.len() && h[i] == ("Content-Type"@, "application/json"@);
            assert(h.len() == 2);
            assert("Content-Type"@ != "Accept"@) by {
                reveal_strlit("Content-Type");
                reveal_strlit("Accept");
                assert("Content-Type"@[0] != "Accept"@[0]);
            }
            assert("Content-Type"@ != "Authorization"@) by {
                reveal_strlit("Content-Type");
                reveal_strlit("Authorization");
                assert("Content-Type"@[0] != "Authorization"@[0]);
            }
        }
    }
}

/// The token is used only to authorize: two clients on the same host with
/// different tokens plan requests with the same method, URL, query, body and
/// headers but the last, which is `Authorization` with each one's token
/// verbatim.
pub proof fn lemma_token_only_authorizes(
    host: Seq<char>,
    t1: Seq<char>,
    t2: Seq<char>,
    method: Method,
    path: Seq<char>,
    query: Option<(Seq<char>, Seq<char>)>,
    body: Option<Seq<char>>,
)
    ensures
        ({
            let r1 = planned(ClientView { host, token: Some(t1) }, method, path, query, body);
            let r2 = planned(ClientView { host, token: Some(t2) }, method, path, query, body);
            &&& r1 is Some && r2 is Some
            &&& r1->0.method == r2->0.method && r1->0.url == r2->0.url
            &&& r1->0.query == r2->0.query && r1->0.body == r2->0.body
            &&& r1->0.headers.len() == r2->0.headers.len()
            &&& r1->0.headers.drop_last() == r2->0.headers.drop_last()
            &&& r1->0.headers.last() == ("Authorization"@, t1)
            &&& r2->0.headers.last() == ("Authorization"@, t2)
        }),
{
    let r1 = planned(ClientView { host, token: Some(t1) }, method, path, query, body)->0;
    let r2 = planned(ClientView { host, token: Some(t2) }, method, path, query, body)->0;
    assert(r1.headers.drop_last() =~= r2.headers.drop_last());
}

/// The calls the status listing makes.
#[derive(Clone, Copy, Debug, PartialEq, Eq, Structural)]
pub enum StatusCall {
    TrustpubOnly,
    GithubConfigs,
    GitlabConfigs,
}

/// The request a status call makes for a crate: each one reads, with `GET`.
pub open spec fn status_plan(client: ClientView, call: StatusCall, krate: Seq<char>) -> Option<
    RequestView,
> {
    match call {
        StatusCall::TrustpubOnly => planned(client, Method::Get, crate_path(krate), None, None),
        StatusCall::GithubConfigs => planned(
            client,
            Method::Get,
            github_configs_path(),
            Some(("crate"@, krate)),
            None,
        ),
        StatusCall::GitlabConfigs => planned(
            client,
            Method::Get,
            gitlab_configs_path(),
            Some(("crate"@, krate)),
            None,
        ),
    }
}

/// The status listing only reads: every request it makes is a `GET` without
/// a body, about the crate it was given.
pub proof fn lemma_status_only_reads(client: ClientView, call: StatusCall, krate: Seq<char>)
    requires
        client.token is Some,
    ensures
        status_plan(client, call, krate) matches Some(r) && r.method == Method::Get && r.body is None
            && (r.url == api_url(client.host, crate_path(krate)) || r.query == Some(
            ("crate"@, krate),
        )),
{
}

/// A Trusted Publishing provider.
#[derive(Clone, Copy, Debug, PartialEq, Eq, Structural)]
pub enum Publisher {
    Github,
    Gitlab,
}

/// The request that adds a config for a publisher: GitHub's endpoint and body
/// for GitHub, GitLab's for GitLab.
pub open spec fn add_plan(
    client: ClientView,
    publisher: Publisher,
    krate: Seq<char>,
    owner: Seq<char>,
    repo: Seq<char>,
    pipeline: Seq<char>,
    environment: Option<Seq<char>>,
) -> Option<RequestView> {
    match publisher {
        Publisher::Github => planned(
            client,
            Method::Post,
            github_configs_path(),
            None,
            Some(
                github_config_body(
                    json_string_literal(krate),
                    json_string_literal(owner),
                    json_string_literal(repo),
                    json_string_literal(pipeline),
                    environment,
                ),
            ),
        ),
        Publisher::Gitlab => planned(
            client,
            Method::Post,
            gitlab_configs_path(),
            None,
            Some(
                gitlab_config_body(
                    json_string_literal(krate),
                    json_string_literal(owner),
                    json_string_literal(repo),
                    json_string_literal(pipeline),
                    environment,
                ),
            ),
        ),
    }
}

/// The request that removes a config of a publisher by id.
pub open spec fn remove_plan(client: ClientView, publisher: Publisher, id: u32) -> Option<RequestView> {
    let base = match publisher {
        Publisher::Github => github_configs_path(),
        Publisher::Gitlab => gitlab_configs_path(),
    };
    planned(client, Method::Delete, base + "/"@ + decimal(id as nat), None, None)
}

/// The body of an add request is one object member, named after the
/// publisher, whose value is an object with the crate, the owner or
/// namespace, the repository or project, the workflow, and, exactly when an
/// environment is given, the environment last; each value quoted as a JSON
/// string. So a given environment is always sent, and the bodies with and
/// without one differ.
pub proof fn lemma_add_carries_environment(
    client: ClientView,
    publisher: Publisher,
    krate: Seq<char>,
    owner: Seq<char>,
    repo: Seq<char>,
    pipeline: Seq<char>,
    environment: Seq<char>,
)
    requires
        client.token is Some,
    ensures
        ({
            let with_env = add_plan(
                client,
                publisher,
                krate,
                owner,
                repo,
                pipeline,
                Some(json_string_literal(environment)),
            );
            let without = add_plan(client, publisher, krate, owner, repo, pipeline, None);
            let outer: Seq<char> = match publisher {
                Publisher::Github => "github_config"@,
                Publisher::Gitlab => "gitlab_config"@,
            };
            let fields: Seq<(Seq<char>, Seq<char>)> = match publisher {
                Publisher::Github => seq![
                    ("crate"@, json_string_literal(krate)),
                    ("repository_owner"@, json_string_literal(owner)),
                    ("repository_name"@, json_string_literal(repo)),
                    ("workflow_filename"@, json_string_literal(pipeline)),
                ],
                Publisher::Gitlab => seq![
                    ("crate"@, json_string_literal(krate)),
                    ("namespace"@, json_string_literal(owner)),
                    ("project"@, json_string_literal(repo)),
                    ("workflow_filepath"@, json_string_literal(pipeline)),
                ],
            };
            &&& with_env matches Some(r) && r.method == Method::Post && r.body == Some(
                json_object(
                    seq![(outer, json_object(fields.push(("environment"@, json_string_literal(environment)))))],
                ),
            )
            &&& without matches Some(r) && r.method == Method::Post && r.body == Some(
                json_object(seq![(outer, json_object(fields))]),
            )
            &&& with_env->0.body != without->0.body
        }),
{
    let fields: Seq<(Seq<char>, Seq<char>)> = match publisher {
        Publisher::Github => seq![
            ("crate"@, json_string_literal(krate)),
            ("repository_owner"@, json_string_literal(owner)),
            ("repository_name"@, json_string_literal(repo)),
            ("workflow_filename"@, json_string_literal(pipeline)),
        ],
        Publisher::Gitlab => seq![
            ("crate"@, json_string_literal(krate)),
            ("namespace"@, json_string_literal(owner)),
            ("project"@, json_string_literal(repo)),
            ("workflow_filepath"@, json_string_literal(pipeline)),
        ],
    };
    let env_member = ("environment"@, json_string_literal(environment));
    assert(fields + seq![env_member] =~= fields.push(env_member));
    assert(fields + Seq::<(Seq<char>, Seq<char>)>::empty() =~= fields);
    crate::json::lemma_object_member_lengths(fields, env_member);
}

/// Removing a config, of either publisher, is a `DELETE` without a body of
/// that publisher's config with the id in decimal at the end of the path.
pub proof fn lemma_remove_deletes(client: ClientView, publisher: Publisher, id: u32)
    requires
        client.token is Some,
    ensures
        remove_plan(client, publisher, id) matches Some(r) && r.method == Method::Delete && r.body
            is None && r.query is None && r.url == trim_end_slashes(client.host) + "/api/v1"@
            + (match publisher {
            Publisher::Github => "/trusted_publishing/github_configs/"@,
            Publisher::Gitlab => "/trusted_publishing/gitlab_configs/"@,
        }) + decimal(id as nat),
{
    reveal_strlit("/trusted_publishing/github_configs/");
    reveal_strlit("/trusted_publishing/github_configs");
    reveal_strlit("/trusted_publishing/gitlab_configs/");
    reveal_strlit("/trusted_publishing/gitlab_configs");
    reveal_strlit("/");
    let r = remove_plan(client, publisher, id)->0;
    match publisher {
        Publisher::Github => {
            assert(github_configs_path() + "/"@ =~= "/trusted_publishing/github_configs/"@);
        },
        Publisher::Gitlab => {
            assert(gitlab_configs_path() + "/"@ =~= "/trusted_publishing/gitlab_configs/"@);
        },
    }
    assert(r.url =~= trim_end_slashes(client.host) + "/api/v1"@ + (match publisher {
        Publisher::Github => "/trusted_publishing/github_configs/"@,
        Publisher::Gitlab => "/trusted_publishing/gitlab_configs/"@,
    }) + decimal(id as nat));
}

/// A client for a registry's Trusted Publishing API.
pub struct Client {
    host: String,
    token: Option<String>,
}

impl View for Client {
    type V = ClientView;

    closed spec fn view(&self) -> ClientView {
        ClientView { host: self.host@, token: opt_string(self.token) }
    }
}

impl Client {
    /// Creates a client against `host` (e.g. `https://crates.io`). `token` is the
    /// raw registry API token, sent verbatim in the `Authorization` header.
    pub fn new(host: String, token: Option<String>) -> (c: Client)
        ensures
            c@ == (ClientView { host: host@, token: opt_string(token) }),
    {
        Client { host, token }
    }

    /// The registry host.
    pub fn host(&self) -> (h: &str)
        ensures
            h@ == self@.host,
    {
        self.host.as_str()
    }

    /// The URL of an API path on this client's host.
    pub fn url(&self, path: &str) -> (u: String)
        ensures
            u@ == api_url(self@.host, path@),
    {
        let mut u = String::from_str(trim_end_slashes_text(self.host.as_str()));
        u.append("/api/v1");
        u.append(path);
        u
    }

    /// The API token, or the missing-token error when there is none.
    pub fn token(&self) -> (t: Result<&str, ApiError>)
        ensures
            match self@.token {
                Some(tok) => t matches Ok(s) && s@ == tok,
                None => t matches Err(ApiError::MissingToken),
            },
    {
        match &self.token {
            Some(t) => Ok(t.as_str()),
            None => Err(ApiError::MissingToken),
        }
    }

    /// Builds a request for a method, path, query and body.
    fn prepare(
        &self,
        method: Method,
        path: &str,
        query: Option<(String, String)>,
        body: Option<String>,
    ) -> (r: Result<Request, ApiError>)
        ensures
            built(r, planned(self@, method, path@, opt_pair(query), opt_string(body))),
    {
        let url = self.url(path);
        let token = match self.token() {
            Ok(t) => t,
            Err(e) => return Err(e),
        };
        let mut headers: Vec<(String, String)> = Vec::new();
        headers.push((String::from_str("Accept"), String::from_str("application/json")));
        if body.is_some() {
            headers.push((String::from_str("Content-Type"), String::from_str("application/json")));
        }
        headers.push((String::from_str("Authorization"), String::from_str(token)));
        let req = Request { method, url, query, headers, body };
        assert(pairs_view(req.headers@) =~= request_headers(token@, body is Some));
        Ok(req)
    }

    /// The request that reads whether the crate is restricted to Trusted
    /// Publishing only.
    pub fn trustpub_only(&self, krate: &str) -> (r: Result<Request, ApiError>)
        ensures
            built(r, planned(self@, Method::Get, crate_path(krate@), None, None)),
    {
        let mut path = String::from_str("/crates/");
        path.append(krate);
        self.prepare(Method::Get, path.as_str(), None, None)
    }

    /// The request that sets whether the crate is restricted to Trusted
    /// Publishing only.
    pub fn set_trustpub_only(&self, krate: &str, trustpub_only: bool) -> (r: Result<
        Request,
        ApiError,
    >)
        ensures
            built(
                r,
                planned(
                    self@,
                    Method::Patch,
                    crate_path(krate@),
                    None,
                    Some(crate_update_body(trustpub_only)),
                ),
            ),
    {
        let payload = crate_update_payload(trustpub_only);
        let mut path = String::from_str("/crates/");
        path.append(krate);
        self.prepare(Method::Patch, path.as_str(), None, Some(payload))
    }

    /// The request a status call makes for a crate.
    pub fn status_request(&self, call: StatusCall, krate: &str) -> (r: Result<Request, ApiError>)
        ensures
            built(r, status_plan(self@, call, krate@)),
    {
        match call {
            StatusCall::TrustpubOnly => self.trustpub_only(krate),
            StatusCall::GithubConfigs => self.list_github_configs(krate),
            StatusCall::GitlabConfigs => self.list_gitlab_configs(krate),
        }
    }

    /// The request that adds a config for a publisher: `owner` is the
    /// repository owner (GitHub) or namespace (GitLab), `repo` the repository
    /// name or project, `pipeline` the workflow filename or filepath.
    pub fn add_config(
        &self,
        publisher: Publisher,
        krate: &str,
        owner: &str,
        repo: &str,
        pipeline: &str,
        environment: Option<&str>,
    ) -> (r: Result<Request, ApiError>)
        ensures
            built(
                r,
                add_plan(self@, publisher, krate@, owner@, repo@, pipeline@, opt_json(environment)),
            ),
    {
        match publisher {
            Publisher::Github => self.add_github_config(krate, owner, repo, pipeline, environment),
            Publisher::Gitlab => self.add_gitlab_config(krate, owner, repo, pipeline, environment),
        }
    }

    /// The request that removes a publisher's config by id.
    pub fn remove_config(&self, publisher: Publisher, id: u32) -> (r: Result<Request, ApiError>)
        ensures
            built(r, remove_plan(self@, publisher, id)),
    {
        match publisher {
            Publisher::Github => self.remove_github_config(id),
            Publisher::Gitlab => self.remove_gitlab_config(id),
        }
    }

    // ----- GitHub -----

    /// The request that lists the crate's GitHub configs.
    pub fn list_github_configs(&self, krate: &str) -> (r: Result<Request, ApiError>)
        ensures
            built(
                r,
                planned(
                    self@,
                    Method::Get,
                    github_configs_path(),
                    Some(("crate"@, krate@)),
                    None,
                ),
            ),
    {
        let query = (String::from_str("crate"), String::from_str(krate));
        self.prepare(Method::Get, "/trusted_publishing/github_configs", Some(query), None)
    }

    /// The request that adds a GitHub config to the crate; `environment` is
    /// left out of the body when absent.
    pub fn add_github_config(
        &self,
        krate: &str,
        repository_owner: &str,
        repository_name: &str,
        workflow_filename: &str,
        environment: Option<&str>,
    ) -> (r: Result<Request, ApiError>)
        ensures
            built(
                r,
                planned(
                    self@,
                    Method::Post,
                    github_configs_path(),
                    None,
                    Some(
                        github_config_body(
                            json_string_literal(krate@),
                            json_string_literal(repository_owner@),
                            json_string_literal(repository_name@),
                            json_string_literal(workflow_filename@),
                            opt_json(environment),
                        ),
                    ),
                ),
            ),
    {
        let k = json_string(krate);
        let o = json_string(repository_owner);
        let n = json_string(repository_name);
        let w = json_string(workflow_filename);
        let payload = match environment {
            Some(e) => {
                let q = json_string(e);
                github_config_payload(k.as_str(), o.as_str(), n.as_str(), w.as_str(), Some(q.as_str()))
            },
            None => github_config_payload(k.as_str(), o.as_str(), n.as_str(), w.as_str(), None),
        };
        self.prepare(Method::Post, "/trusted_publishing/github_configs", None, Some(payload))
    }

    /// The request that removes the GitHub config with the given id.
    pub fn remove_github_config(&self, id: u32) -> (r: Result<Request, ApiError>)
        ensures
            built(
                r,
                planned(
                    self@,
                    Method::Delete,
                    github_configs_path() + "/"@ + decimal(id as nat),
                    None,
                    None,
                ),
            ),
    {
        let mut path = String::from_str("/trusted_publishing/github_configs/");
        let n = decimal_text(id);
        path.append(n.as_str());
        proof { reveal_strlit("/trusted_publishing/github_configs/"); reveal_strlit("/trusted_publishing/github_configs"); reveal_strlit("/"); }
        assert(path@ =~= github_configs_path() + "/"@ + decimal(id as nat));
        self.prepare(Method::Delete, path.as_str(), None, None)
    }

    // ----- GitLab -----

    /// The request that lists the crate's GitLab configs.
    pub fn list_gitlab_configs(&self, krate: &str) -> (r: Result<Request, ApiError>)
        ensures
            built(
                r,
                planned(
                    self@,
                    Method::Get,
                    gitlab_configs_path(),
                    Some(("crate"@, krate@)),
                    None,
                ),
            ),
    {
        let query = (String::from_str("crate"), String::from_str(krate));
        self.prepare(Method::Get, "/trusted_publishing/gitlab_configs", Some(query), None)
    }

    /// The request that adds a GitLab config to the crate; `environment` is
    /// left out of the body when absent.
    pub fn add_gitlab_config(
        &self,
        krate: &str,
        namespace: &str,
        project: &str,
        workflow_filepath: &str,
        environment: Option<&str>,
    ) -> (r: Result<Request, ApiError>)
        ensures
            built(
                r,
                planned(
                    self@,
                    Method::Post,
                    gitlab_configs_path(),
                    None,
                    Some(
                        gitlab_config_body(
                            json_string_literal(krate@),
                            json_string_literal(namespace@),
                            json_string_literal(project@),
                            json_string_literal(workflow_filepath@),
                            opt_json(environment),
                        ),
                    ),
                ),
            ),
    {
        let k = json_string(krate);
        let n = json_string(namespace);
        let p = json_string(project);
        let w = json_string(workflow_filepath);
        let payload = match environment {
            Some(e) => {
                let q = json_string(e);
                gitlab_config_payload(k.as_str(), n.as_str(), p.as_str(), w.as_str(), Some(q.as_str()))
            },
            None => gitlab_config_payload(k.as_str(), n.as_str(), p.as_str(), w.as_str(), None),
        };
        self.prepare(Method::Post, "/trusted_publishing/gitlab_configs", None, Some(payload))
    }

    /// The request that removes the GitLab config with the given id.
    pub fn remove_gitlab_config(&self, id: u32) -> (r: Result<Request, ApiError>)
        ensures
            built(
                r,
                planned(
                    self@,
                    Method::Delete,
                    gitlab_configs_path() + "/"@ + decimal(id as nat),
                    None,
                    None,
                ),
            ),
    {
        let mut path = String::from_str("/trusted_publishing/gitlab_configs/");
        let n = decimal_text(id);
        path.append(n.as_str());
        proof { reveal_strlit("/trusted_publishing/gitlab_configs/"); reveal_strlit("/trusted_publishing/gitlab_configs"); reveal_strlit("/"); }
        assert(path@ =~= gitlab_configs_path() + "/"@ + decimal(id as nat));
        self.prepare(Method::Delete, path.as_str(), None, None)
    }
}

} // verus!
