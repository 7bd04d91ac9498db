//! Tests of the requests a client builds and of how answers are read.

use cargo_trustpub::api::{
    ApiError, Client, Method, Publisher, Request, StatusCall, is_success, response_body,
};
use cargo_trustpub::json::{
    crate_update_payload, github_config_payload, gitlab_config_payload, json_object_text,
    json_string,
};

const TOKEN: &str = "test-token";
const BASE: &str = "http://127.0.0.1:8080";

fn client() -> Client {
    Client::new(BASE.to_string(), Some(TOKEN.to_string()))
}

fn header<'a>(req: &'a Request, name: &str) -> Option<&'a str> {
    req.headers
        .iter()
        .find(|(k, _)| k.eq_ignore_ascii_case(name))
        .map(|(_, v)| v.as_str())
}

fn json(text: &str) -> serde_json::Value {
    serde_json::from_str(text).unwrap()
}

#[test]
fn lists_github_configs() {
    let req = client().list_github_configs("regex").unwrap();
    assert_eq!(req.method, Method::Get);
    assert_eq!(req.url, format!("{BASE}/api/v1/trusted_publishing/github_configs"));
    assert_eq!(req.query, Some(("crate".to_string(), "regex".to_string())));
    assert_eq!(header(&req, "authorization"), Some(TOKEN));
    assert_eq!(header(&req, "accept"), Some("application/json"));
    assert!(req.body.is_none());
}

#[test]
fn adds_github_config() {
    let req = client()
        .add_github_config("regex", "rust-lang", "regex", "ci.yml", Some("release"))
        .unwrap();
    assert_eq!(req.method, Method::Post);
    assert_eq!(req.url, format!("{BASE}/api/v1/trusted_publishing/github_configs"));
    assert_eq!(header(&req, "authorization"), Some(TOKEN));
    assert_eq!(header(&req, "content-type"), Some("application/json"));
    let body = req.body.unwrap();
    assert_eq!(
        json(&body),
        json(
            r#"{"github_config": {"crate": "regex", "repository_owner": "rust-lang",
                "repository_name": "regex", "workflow_filename": "ci.yml",
                "environment": "release"}}"#
        )
    );
}

#[test]
fn omits_environment_when_absent() {
    let req = client()
        .add_github_config("regex", "rust-lang", "regex", "ci.yml", None)
        .unwrap();
    assert_eq!(req.method, Method::Post);
    assert_eq!(req.url, format!("{BASE}/api/v1/trusted_publishing/github_configs"));
    let body = req.body.unwrap();
    assert_eq!(
        body,
        r#"{"github_config":{"crate":"regex","repository_owner":"rust-lang","repository_name":"regex","workflow_filename":"ci.yml"}}"#
    );
    assert!(!body.contains("environment"));
}

#[test]
fn removes_github_config() {
    let req = client().remove_github_config(42).unwrap();
    assert_eq!(req.method, Method::Delete);
    assert_eq!(req.url, format!("{BASE}/api/v1/trusted_publishing/github_configs/42"));
    assert_eq!(header(&req, "authorization"), Some(TOKEN));
    assert!(req.body.is_none());
}

#[test]
fn lists_gitlab_configs() {
    let req = client().list_gitlab_configs("regex").unwrap();
    assert_eq!(req.method, Method::Get);
    assert_eq!(req.url, format!("{BASE}/api/v1/trusted_publishing/gitlab_configs"));
    assert_eq!(req.query, Some(("crate".to_string(), "regex".to_string())));
    assert_eq!(header(&req, "authorization"), Some(TOKEN));
}

#[test]
fn adds_gitlab_config() {
    let req = client()
        .add_gitlab_config("regex", "my-group", "my-project", ".gitlab-ci.yml", None)
        .unwrap();
    assert_eq!(req.method, Method::Post);
    assert_eq!(req.url, format!("{BASE}/api/v1/trusted_publishing/gitlab_configs"));
    assert_eq!(
        json(&req.body.unwrap()),
        json(
            r#"{"gitlab_config": {"crate": "regex", "namespace": "my-group",
                "project": "my-project", "workflow_filepath": ".gitlab-ci.yml"}}"#
        )
    );
}

#[test]
fn reads_trustpub_only() {
    let req = client().trustpub_only("regex").unwrap();
    assert_eq!(req.method, Method::Get);
    assert_eq!(req.url, format!("{BASE}/api/v1/crates/regex"));
    assert!(req.query.is_none());
    assert!(req.body.is_none());
}

#[test]
fn sets_trustpub_only() {
    let req = client().set_trustpub_only("regex", true).unwrap();
    assert_eq!(req.method, Method::Patch);
    assert_eq!(req.url, format!("{BASE}/api/v1/crates/regex"));
    assert_eq!(header(&req, "authorization"), Some(TOKEN));
    assert_eq!(req.body.as_deref(), Some(r#"{"crate":{"trustpub_only":true}}"#));
}

#[test]
fn surfaces_api_error_detail() {
    let body = r#"{"errors":[{"detail":"must be an owner"}]}"#.to_string();
    let err = response_body(403, body, Some(vec!["must be an owner".to_string()])).unwrap_err();
    let err = err.message();
    assert!(err.contains("must be an owner"), "got: {err}");
    assert!(err.contains("403"), "got: {err}");
}

#[test]
fn missing_token_errors_before_request() {
    let client = Client::new(BASE.to_string(), None);
    let err = client.list_github_configs("regex").unwrap_err();
    assert!(matches!(err, ApiError::MissingToken));
    let err = err.message();
    assert!(err.contains("no API token"), "got: {err}");
}

#[test]
fn every_operation_needs_a_token() {
    let client = Client::new(BASE.to_string(), None);
    assert!(matches!(client.trustpub_only("a"), Err(ApiError::MissingToken)));
    assert!(matches!(client.set_trustpub_only("a", false), Err(ApiError::MissingToken)));
    assert!(matches!(client.remove_github_config(1), Err(ApiError::MissingToken)));
    assert!(matches!(client.list_gitlab_configs("a"), Err(ApiError::MissingToken)));
    assert!(matches!(
        client.add_gitlab_config("a", "b", "c", "d", Some("e")),
        Err(ApiError::MissingToken)
    ));
    assert!(matches!(client.remove_gitlab_config(2), Err(ApiError::MissingToken)));
}

#[test]
fn host_trailing_slashes_are_ignored() {
    let plain = Client::new("https://crates.io".to_string(), None);
    let slashed = Client::new("https://crates.io//".to_string(), None);
    assert_eq!(plain.url("/crates/x"), "https://crates.io/api/v1/crates/x");
    assert_eq!(slashed.url("/crates/x"), plain.url("/crates/x"));
    assert_eq!(slashed.host(), "https://crates.io//");
}

#[test]
fn token_is_sent_verbatim_and_last() {
    let client = Client::new(BASE.to_string(), Some(String::new()));
    assert_eq!(client.token().unwrap(), "");
    let req = client.set_trustpub_only("x", false).unwrap();
    let names: Vec<&str> = req.headers.iter().map(|(k, _)| k.as_str()).collect();
    assert_eq!(names, vec!["Accept", "Content-Type", "Authorization"]);
    assert_eq!(req.headers[2].1, "");
    assert_eq!(req.body.as_deref(), Some(r#"{"crate":{"trustpub_only":false}}"#));
}

#[test]
fn removes_gitlab_config_by_decimal_id() {
    let req = client().remove_gitlab_config(4294967295).unwrap();
    assert_eq!(req.method, Method::Delete);
    assert_eq!(req.url, format!("{BASE}/api/v1/trusted_publishing/gitlab_configs/4294967295"));
    let req = client().remove_gitlab_config(0).unwrap();
    assert!(req.url.ends_with("/gitlab_configs/0"));
}

#[test]
fn success_answers_pass_the_body() {
    for status in [200u16, 201, 204, 299] {
        assert!(is_success(status));
        let body = response_body(status, "payload".to_string(), None).unwrap();
        assert_eq!(body, "payload");
    }
    assert!(!is_success(199));
    assert!(!is_success(300));
}

#[test]
fn error_detail_falls_back_to_the_body() {
    match response_body(500, "oops".to_string(), None) {
        Err(ApiError::Rejected { status, detail }) => {
            assert_eq!(status, 500);
            assert_eq!(detail, "oops");
        }
        other => panic!("unexpected: {other:?}"),
    }
    match response_body(404, "{\"errors\":[]}".to_string(), Some(vec![])) {
        Err(ApiError::Rejected { detail, .. }) => assert_eq!(detail, "{\"errors\":[]}"),
        other => panic!("unexpected: {other:?}"),
    }
    let err = response_body(
        400,
        "x".to_string(),
        Some(vec!["first".to_string(), "second".to_string()]),
    )
    .unwrap_err();
    assert_eq!(
        err.message(),
        "the registry responded with an error (status 400): first, second"
    );
}

#[test]
fn error_messages() {
    assert_eq!(ApiError::Unreachable.message(), "failed to reach the registry");
    assert_eq!(
        ApiError::InvalidBody.message(),
        "invalid (non-UTF8) response body from registry"
    );
    assert_eq!(
        ApiError::MissingToken.message(),
        "no API token found; set `CARGO_REGISTRY_TOKEN` or run `cargo login` first"
    );
}

#[test]
fn json_strings_are_escaped() {
    assert_eq!(json_string("regex"), "\"regex\"");
    assert_eq!(json_string("a\"b\\c\nd"), "\"a\\\"b\\\\c\\nd\"");
    assert_eq!(json_string("\u{1}\u{1f}\u{8}\u{c}\r\t"), "\"\\u0001\\u001f\\b\\f\\r\\t\"");
    assert_eq!(json_string("é/\u{7f}"), "\"é/\u{7f}\"");
    let req = client()
        .add_github_config("q\"uote", "o", "n", "w", Some("e\u{1}"))
        .unwrap();
    let body = json(&req.body.unwrap());
    assert_eq!(body["github_config"]["crate"], "q\"uote");
    assert_eq!(body["github_config"]["environment"], "e\u{1}");
}

#[test]
fn payloads_are_framed_from_json_texts() {
    assert_eq!(crate_update_payload(false), r#"{"crate":{"trustpub_only":false}}"#);
    assert_eq!(
        github_config_payload("\"k\"", "\"o\"", "\"n\"", "\"w\"", Some("\"e\"")),
        r#"{"github_config":{"crate":"k","repository_owner":"o","repository_name":"n","workflow_filename":"w","environment":"e"}}"#
    );
    assert_eq!(
        gitlab_config_payload("\"k\"", "\"n\"", "\"p\"", "\"w\"", None),
        r#"{"gitlab_config":{"crate":"k","namespace":"n","project":"p","workflow_filepath":"w"}}"#
    );
    assert_eq!(json_object_text(&vec![]), "{}");
    assert_eq!(
        json_object_text(&vec![("a", "1".to_string()), ("b", "[]".to_string())]),
        r#"{"a":1,"b":[]}"#
    );
}

#[test]
fn status_requests_only_read() {
    let c = client();
    for (call, url, query) in [
        (StatusCall::TrustpubOnly, format!("{BASE}/api/v1/crates/regex"), None),
        (
            StatusCall::GithubConfigs,
            format!("{BASE}/api/v1/trusted_publishing/github_configs"),
            Some(("crate".to_string(), "regex".to_string())),
        ),
        (
            StatusCall::GitlabConfigs,
            format!("{BASE}/api/v1/trusted_publishing/gitlab_configs"),
            Some(("crate".to_string(), "regex".to_string())),
        ),
    ] {
        let req = c.status_request(call, "regex").unwrap();
        assert_eq!(req.method, Method::Get);
        assert_eq!(req.url, url);
        assert_eq!(req.query, query);
        assert!(req.body.is_none());
    }
}

#[test]
fn publisher_picks_the_endpoint() {
    let c = client();
    let gh = c.add_config(Publisher::Github, "regex", "o", "r", "ci.yml", None).unwrap();
    assert_eq!(gh.url, format!("{BASE}/api/v1/trusted_publishing/github_configs"));
    assert!(gh.body.unwrap().starts_with(r#"{"github_config":"#));
    let gl = c.add_config(Publisher::Gitlab, "regex", "g", "p", ".gitlab-ci.yml", Some("prod")).unwrap();
    assert_eq!(gl.url, format!("{BASE}/api/v1/trusted_publishing/gitlab_configs"));
    assert_eq!(
        gl.body.unwrap(),
        r#"{"gitlab_config":{"crate":"regex","namespace":"g","project":"p","workflow_filepath":".gitlab-ci.yml","environment":"prod"}}"#
    );
    let rm = c.remove_config(Publisher::Github, 42).unwrap();
    assert_eq!(rm.method, Method::Delete);
    assert_eq!(rm.url, format!("{BASE}/api/v1/trusted_publishing/github_configs/42"));
    let rm = c.remove_config(Publisher::Gitlab, 9).unwrap();
    assert_eq!(rm.url, format!("{BASE}/api/v1/trusted_publishing/gitlab_configs/9"));
}
