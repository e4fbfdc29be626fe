use render_deploy::api::{
    authorization_value, check_response, commit_body, deploy_url, get_deploy_request,
    latest_deploy_request, lookup_service_request, trigger_deploy_request, Method, RequestError,
};
use render_deploy::config::{parse_duration, ParseDurationError, DEFAULT_TIMEOUT_SECS};
use render_deploy::model::{CommitInfo, Deploy, Service};
use render_deploy::text::decimal_string;

fn service() -> Service {
    Service::from_fields(
        "srv-abc".to_string(),
        "web".to_string(),
        "main".to_string(),
        "https://dashboard.render.com/web/srv-abc".to_string(),
        "no",
        "https://github.com/example/app".to_string(),
        "u".to_string(),
        "c".to_string(),
    )
    .unwrap()
}

fn pairs(q: &[(String, String)]) -> Vec<(&str, &str)> {
    q.iter().map(|(k, v)| (k.as_str(), v.as_str())).collect()
}

#[test]
fn parse_duration_reads_seconds() {
    assert_eq!(parse_duration("600"), Ok(DEFAULT_TIMEOUT_SECS));
    assert_eq!(parse_duration("0"), Ok(0));
    assert_eq!(parse_duration("+42"), Ok(42));
    assert_eq!(parse_duration("18446744073709551615"), Ok(u64::MAX));
}

#[test]
fn parse_duration_errors() {
    assert_eq!(parse_duration(""), Err(ParseDurationError::Empty));
    assert_eq!(parse_duration("+"), Err(ParseDurationError::InvalidDigit));
    assert_eq!(parse_duration("-5"), Err(ParseDurationError::InvalidDigit));
    assert_eq!(parse_duration("12s"), Err(ParseDurationError::InvalidDigit));
    assert_eq!(parse_duration(" 12"), Err(ParseDurationError::InvalidDigit));
    assert_eq!(parse_duration("18446744073709551616"), Err(ParseDurationError::Overflow));
}

#[test]
fn decimal_spelling() {
    assert_eq!(decimal_string(0), "0");
    assert_eq!(decimal_string(404), "404");
    assert_eq!(decimal_string(u64::MAX), "18446744073709551615");
}

#[test]
fn bearer_header() {
    assert_eq!(authorization_value("rnd_key"), "Bearer rnd_key");
}

#[test]
fn lookup_request_filters_by_name() {
    let r = lookup_service_request("my-web");
    assert_eq!(r.method, Method::Get);
    assert_eq!(r.url, "https://api.render.com/v1/services");
    assert_eq!(pairs(&r.query), vec![("name", "my-web"), ("limit", "1")]);
    assert_eq!(r.body, None);
}

#[test]
fn trigger_request_without_commit() {
    let r = trigger_deploy_request(&service(), None).unwrap();
    assert_eq!(r.method, Method::Post);
    assert_eq!(r.url, "https://api.render.com/v1/services/srv-abc/deploys");
    assert!(r.query.is_empty());
    assert_eq!(r.body, None);
}

#[test]
fn trigger_request_with_commit() {
    let r = trigger_deploy_request(&service(), Some("b2be9cf\"x")).unwrap();
    assert_eq!(r.body, Some("{\"commitId\":\"b2be9cf\\\"x\"}".to_string()));
    let v: serde_json::Value = serde_json::from_str(r.body.as_deref().unwrap()).unwrap();
    assert_eq!(v["commitId"].as_str(), Some("b2be9cf\"x"));
    assert_eq!(commit_body("\"abc\""), "{\"commitId\":\"abc\"}");
}

#[test]
fn deploy_status_requests() {
    let s = service();
    let latest = latest_deploy_request(&s);
    assert_eq!(latest.url, "https://api.render.com/v1/services/srv-abc/deploys");
    assert_eq!(pairs(&latest.query), vec![("limit", "1")]);
    let one = get_deploy_request(&s, "dep-1");
    assert_eq!(one.method, Method::Get);
    assert_eq!(one.url, "https://api.render.com/v1/services/srv-abc/deploys/dep-1");
    assert_eq!(pairs(&one.query), vec![("limit", "1")]);
}

#[test]
fn dashboard_url_of_deploy() {
    let commit = CommitInfo { id: "c".to_string(), message: "m".to_string(), created_at: "t".to_string() };
    let d = Deploy::from_fields(
        "dep-cs67".to_string(),
        commit,
        "created",
        "t".to_string(),
        "t".to_string(),
        None,
    )
    .unwrap();
    assert_eq!(deploy_url(&service(), &d), "https://dashboard.render.com/web/srv-abc/deploys/dep-cs67");
}

#[test]
fn success_status_passes_body() {
    assert_eq!(check_response(200, "[]".to_string()), Ok("[]".to_string()));
    assert_eq!(check_response(201, "{}".to_string()), Ok("{}".to_string()));
    assert_eq!(check_response(299, "x".to_string()), Ok("x".to_string()));
}

#[test]
fn failed_status_surfaces_code_and_body() {
    let e = check_response(404, "service not found".to_string()).unwrap_err();
    assert_eq!(e, RequestError { status: 404, body: "service not found".to_string() });
    assert_eq!(e.message(), "Request Error: 404 service not found");
    let e = check_response(503, "".to_string()).unwrap_err();
    assert_eq!(e.message(), "Request Error: 503 ");
    assert!(check_response(199, "x".to_string()).is_err());
    assert!(check_response(300, "x".to_string()).is_err());
}
