use vstd::prelude::*;
use vstd::string::*;

use crate::model::{Deploy, Service};
use crate::text::{decimal_string, decimal_text};

verus! {

/// serde_json's error type, carried without looking inside.
#[verifier::external_type_specification]
#[verifier::external_body]
pub struct ExJsonError(serde_json::Error);

/// The JSON string literal that serde_json writes for a piece of text.
pub uninterp spec fn json_string_text(s: Seq<char>) -> Seq<char>;

/// Relies on serde_json::to_string applied to a `str`: on success it returns
/// the JSON string literal for that text, quotes and escapes included.
#[verifier::external_body]
fn encode_json_string(s: &str) -> (r: Result<String, serde_json::Error>)
    ensures
        r matches Ok(t) ==> t@ == json_string_text(s@),
{
    serde_json::to_string(s)
}

/// The HTTP method of a request to the platform.
#[derive(Clone, Copy, Debug, PartialEq, Eq, Structural)]
pub enum Method {
    Get,
    Post,
}

/// A request to the platform's API, before the transport sends it.
#[derive(Clone, Debug)]
pub struct ApiRequest {
    pub method: Method,
    pub url: String,
    pub query: Vec<(String, String)>,
    /// A JSON body, when the request carries one.
    pub body: Option<String>,
}

/// A response whose HTTP status is not a success, kept verbatim.
#[derive(Clone, Debug, PartialEq, Eq)]
pub struct RequestError {
    pub status: u16,
    pub body: String,
}

/// Text that serde_json could not encode.
#[derive(Clone, Copy, Debug, PartialEq, Eq, Structural)]
pub struct EncodeError;

pub open spec fn services_url_text() -> Seq<char> {
    "https://api.render.com/v1/services"@
}

pub open spec fn deploys_url_text(service_id: Seq<char>) -> Seq<char> {
    "https://api.render.com/v1/services/"@ + service_id + "/deploys"@
}

pub open spec fn deploy_status_url_text(service_id: Seq<char>, deploy_id: Seq<char>) -> Seq<char> {
    deploys_url_text(service_id) + "/"@ + deploy_id
}

pub open spec fn dashboard_url_text(service_id: Seq<char>, deploy_id: Seq<char>) -> Seq<char> {
    "https://dashboard.render.com/web/"@ + service_id + "/deploys/"@ + deploy_id
}

/// The body that pins a deploy to a commit, given the commit's JSON string literal.
pub open spec fn commit_body_text(encoded_commit: Seq<char>) -> Seq<char> {
    "{\"commitId\":"@ + encoded_commit + "}"@
}

pub open spec fn is_success_status(status: u16) -> bool {
    200 <= status <= 299
}

/// The diagnostic shown for a response with a non-success status.
pub open spec fn request_error_text(status: u16, body: Seq<char>) -> Seq<char> {
    "Request Error: "@ + decimal_text(status as nat) + " "@ + body
}

pub open spec fn is_pair(p: (String, String), key: Seq<char>, value: Seq<char>) -> bool {
    p.0@ == key && p.1@ == value
}

/// The value of the authorization header for an API key.
pub fn authorization_value(api_key: &str) -> (r: String)
    ensures
        r@ == "Bearer "@ + api_key@,
{
    String::from_str("Bearer ").concat(api_key)
}

fn limit_one() -> (r: (String, String))
    ensures
        is_pair(r, "limit"@, "1"@),
{
    (String::from_str("limit"), String::from_str("1"))
}

/// The lookup of a service by its exact name, limited to one result.
pub fn lookup_service_request(name: &str) -> (r: ApiRequest)
    ensures
        r.method == Method::Get,
        r.url@ == services_url_text(),
        r.query@.len() == 2,
        is_pair(r.query@[0], "name"@, name@),
        is_pair(r.query@[1], "limit"@, "1"@),
        r.body.is_none(),
{
    let mut query: Vec<(String, String)> = Vec::new();
    query.push((String::from_str("name"), String::from_str(name)));
    query.push(limit_one());
    ApiRequest {
        method: Method::Get,
        url: String::from_str("https://api.render.com/v1/services"),
        query,
        body: None,
    }
}

fn deploys_url(service: &Service) -> (r: String)
    ensures
        r@ == deploys_url_text(service.id@),
{
    String::from_str("https://api.render.com/v1/services/").concat(service.id.as_str()).concat(
        "/deploys",
    )
}

/// The JSON body that pins a deploy to a commit, from the commit's JSON string literal.
pub fn commit_body(encoded_commit: &str) -> (r: String)
    ensures
        r@ == commit_body_text(encoded_commit@),
{
    String::from_str("{\"commitId\":").concat(encoded_commit).concat("}")
}

/// The request that starts a deploy of a service, pinned to `commit` when one is given.
pub fn trigger_deploy_request(service: &Service, commit: Option<&str>) -> (r: Result<
    ApiRequest,
    EncodeError,
>)
    ensures
        commit.is_none() ==> r.is_ok(),
        r matches Ok(req) ==> {
            &&& req.method == Method::Post
            &&& req.url@ == deploys_url_text(service.id@)
            &&& req.query@.len() == 0
            &&& match commit {
                None => req.body.is_none(),
                Some(c) => req.body matches Some(b) && b@ == commit_body_text(
                    json_string_text(c@),
                ),
            }
        },
{
    let body = match commit {
        None => None,
        Some(c) => match encode_json_string(c) {
            Ok(encoded) => Some(commit_body(encoded.as_str())),
            Err(_) => {
                return Err(EncodeError);
            },
        },
    };
    Ok(ApiRequest { method: Method::Post, url: deploys_url(service), query: Vec::new(), body })
}

/// The request for the most recent deploy of a service.
pub fn latest_deploy_request(service: &Service) -> (r: ApiRequest)
    ensures
        r.method == Method::Get,
        r.url@ == deploys_url_text(service.id@),
        r.query@.len() == 1,
        is_pair(r.query@[0], "limit"@, "1"@),
        r.body.is_none(),
{
    let mut query: Vec<(String, String)> = Vec::new();
    query.push(limit_one());
    ApiRequest { method: Method::Get, url: deploys_url(service), query, body: None }
}

/// The request for the current state of one deploy of a service.
pub fn get_deploy_request(service: &Service, deploy_id: &str) -> (r: ApiRequest)
    ensures
        r.method == Method::Get,
        r.url@ == deploy_status_url_text(service.id@, deploy_id@),
        r.query@.len() == 1,
        is_pair(r.query@[0], "limit"@, "1"@),
        r.body.is_none(),
{
    let mut query: Vec<(String, String)> = Vec::new();
    query.push(limit_one());
    let url = deploys_url(service).concat("/").concat(deploy_id);
    ApiRequest { method: Method::Get, url, query, body: None }
}

/// The dashboard page of a deploy.
pub fn deploy_url(service: &Service, deploy: &Deploy) -> (r: String)
    ensures
        r@ == dashboard_url_text(service.id@, deploy.id@),
{
    String::from_str("https://dashboard.render.com/web/").concat(service.id.as_str()).concat(
        "/deploys/",
    ).concat(deploy.id.as_str())
}

/// Accepts a response body when its HTTP status is a success; otherwise
/// keeps the status code and the body for the diagnostic.
pub fn check_response(status: u16, body: String) -> (r: Result<String, RequestError>)
    ensures
        is_success_status(status) ==> r == Ok::<String, RequestError>(body),
        !is_success_status(status) ==> r == Err::<String, RequestError>(
            RequestError { status, body },
        ),
{
    if 200 <= status && status <= 299 {
        Ok(body)
    } else {
        Err(RequestError { status, body })
    }
}

impl RequestError {
    /// The diagnostic for the failed request: its status code and body, verbatim.
    pub fn message(&self) -> (r: String)
        ensures
            r@ == request_error_text(self.status, self.body@),
    {
        String::from_str("Request Error: ").concat(decimal_string(self.status as u64).as_str()).concat(
            " ",
        ).concat(self.body.as_str())
    }
}

/// A response with a non-success status on any endpoint is refused, and its
/// diagnostic holds the literal status code and the body text.
pub proof fn lemma_failed_request_surfaces_status_and_body(status: u16, body: String)
    requires
        !is_success_status(status),
    ensures
        ({
            let m = request_error_text(status, body@);
            let code = decimal_text(status as nat);
            &&& m.subrange(15, 15 + code.len() as int) == code
            &&& m.subrange(m.len() - body@.len(), m.len() as int) == body@
        }),
{
    reveal_strlit("Request Error: ");
    reveal_strlit(" ");
    let m = request_error_text(status, body@);
    let code = decimal_text(status as nat);
    assert(m.subrange(15, 15 + code.len() as int) =~= code);
    assert(m.subrange(m.len() - body@.len(), m.len() as int) =~= body@);
}

} // verus!
