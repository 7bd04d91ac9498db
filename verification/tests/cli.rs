//! Tests of what the command line reports and of how the crate and the token
//! are resolved.

use cargo_trustpub::api::{ApiError, GitHubConfig, GitLabConfig, StatusCall, response_body};
use cargo_trustpub::report::{
    TaggedConfig, add_context_text, added_message_text, aggregate_configs, fmt_env,
    github_summary_text, gitlab_summary_text, registry_context_text, remove_context_text,
    removed_message_text, render_status, set_context_text, next_status_call, status_context_text,
    updated_message_text,
};
use cargo_trustpub::resolve::{
    CargoHome, ManifestError, cargo_home, choose_crate, credential_file_names, credentials_token,
    crate_from_lookup, crate_from_manifest, pick_token, token_from_env, token_from_lookup,
};
use cargo_trustpub::text::{decimal_text, join_text, trim_end_slashes_text};

const TOKEN: &str = "test-token";

fn github(id: u32, environment: Option<&str>) -> GitHubConfig {
    GitHubConfig {
        id,
        krate: "cargo-trustpub".to_string(),
        repository_owner: "yihau".to_string(),
        repository_owner_id: Some(5430905),
        repository_name: "cargo-trustpub".to_string(),
        workflow_filename: "ci.yml".to_string(),
        environment: environment.map(str::to_string),
        created_at: Some("2026-01-01T00:00:00Z".to_string()),
    }
}

fn gitlab(id: u32) -> GitLabConfig {
    GitLabConfig {
        id,
        krate: "cargo-trustpub".to_string(),
        namespace: "my-group".to_string(),
        namespace_id: None,
        project: "my-project".to_string(),
        workflow_filepath: ".gitlab-ci.yml".to_string(),
        environment: None,
        created_at: Some("2026-01-01T00:00:00Z".to_string()),
    }
}

#[test]
fn status_human_output() {
    let lines = render_status("cargo-trustpub", true, &vec![github(42, None)], &vec![gitlab(9)]);
    let out = lines.join("\n");
    assert!(out.contains("trustpub_only: enabled"));
    assert!(out.contains("42: github yihau/cargo-trustpub workflow=ci.yml"));
    assert!(out.contains("9: gitlab my-group/my-project workflow=.gitlab-ci.yml"));
    assert_eq!(
        lines,
        vec![
            "crate: cargo-trustpub",
            "trustpub_only: enabled",
            "configs:",
            "  42: github yihau/cargo-trustpub workflow=ci.yml",
            "  9: gitlab my-group/my-project workflow=.gitlab-ci.yml",
        ]
    );
}

#[test]
fn status_without_configs() {
    let lines = render_status("regex", false, &vec![], &vec![]);
    assert_eq!(lines, vec!["crate: regex", "trustpub_only: disabled", "configs: none"]);
}

#[test]
fn status_json_is_aggregated_and_tagged() {
    let all = aggregate_configs(vec![github(42, None)], vec![gitlab(9)]);
    assert_eq!(all.len(), 2);
    assert_eq!(all[0].publisher(), "github");
    assert_eq!(all[1].publisher(), "gitlab");
    match &all[0] {
        TaggedConfig::Github(c) => assert_eq!(c.repository_owner, "yihau"),
        other => panic!("unexpected: {other:?}"),
    }
    match &all[1] {
        TaggedConfig::Gitlab(c) => assert_eq!(c.namespace, "my-group"),
        other => panic!("unexpected: {other:?}"),
    }
}

#[test]
fn aggregation_keeps_each_order() {
    let all = aggregate_configs(
        vec![github(3, None), github(1, None)],
        vec![gitlab(7), gitlab(2)],
    );
    let ids: Vec<(u32, &str)> = all
        .iter()
        .map(|c| match c {
            TaggedConfig::Github(g) => (g.id, c.publisher()),
            TaggedConfig::Gitlab(g) => (g.id, c.publisher()),
        })
        .collect();
    assert_eq!(ids, vec![(3, "github"), (1, "github"), (7, "gitlab"), (2, "gitlab")]);
}

#[test]
fn status_token_from_env() {
    let saved = Some("[registry]\ntoken = \"saved\"\n".to_string());
    assert_eq!(
        pick_token(Some(TOKEN.to_string()), vec![saved.clone(), None]),
        Some(TOKEN.to_string())
    );
    assert_eq!(pick_token(Some(String::new()), vec![saved]), Some("saved".to_string()));
    assert_eq!(token_from_env(Some(TOKEN.to_string())), Some(TOKEN.to_string()));
    assert_eq!(token_from_env(Some(String::new())), None);
    assert_eq!(token_from_env(None), None);
}

#[test]
fn add_github_reports_added() {
    let summary = github_summary_text(&github(7, None));
    let message = added_message_text(7, &summary, "cargo-trustpub");
    assert!(message.contains("Added trusted publishing config 7"));
    assert_eq!(
        message,
        "Added trusted publishing config 7 (github yihau/cargo-trustpub workflow=ci.yml) for crate `cargo-trustpub`"
    );
}

#[test]
fn api_error_is_reported_and_nonzero_exit() {
    let err = response_body(
        403,
        r#"{"errors":[{"detail":"must be an owner"}]}"#.to_string(),
        Some(vec!["must be an owner".to_string()]),
    )
    .unwrap_err();
    let context = status_context_text(
        StatusCall::TrustpubOnly,
        "cargo-trustpub",
        "http://127.0.0.1:1",
    );
    let shown = format!("{context}: {}", err.message());
    assert!(shown.contains("must be an owner"));
    assert_eq!(
        shown,
        "failed to read Trusted Publishing status for crate `cargo-trustpub` on registry at http://127.0.0.1:1: the registry responded with an error (status 403): must be an owner"
    );
    assert!(matches!(err, ApiError::Rejected { status: 403, .. }));
}

#[test]
fn summaries_and_environment() {
    assert_eq!(fmt_env(Some("Release")), " environment=Release");
    assert_eq!(fmt_env(None), "");
    assert_eq!(
        github_summary_text(&github(1, Some("Release"))),
        "github yihau/cargo-trustpub workflow=ci.yml environment=Release"
    );
    assert_eq!(
        gitlab_summary_text(&gitlab(9)),
        "gitlab my-group/my-project workflow=.gitlab-ci.yml"
    );
}

#[test]
fn confirmation_messages() {
    assert_eq!(
        removed_message_text(42, "regex"),
        "Removed trusted publishing config 42 for crate `regex`"
    );
    assert_eq!(
        updated_message_text("regex", true),
        "Updated `trustpub_only` for crate `regex` to true"
    );
    assert_eq!(
        updated_message_text("regex", false),
        "Updated `trustpub_only` for crate `regex` to false"
    );
}

#[test]
fn failure_contexts() {
    assert_eq!(
        add_context_text("regex", "https://crates.io"),
        "failed to add trusted publishing config to crate `regex` on registry at https://crates.io"
    );
    assert_eq!(
        remove_context_text(5, "regex", "https://crates.io"),
        "failed to remove trusted publishing config 5 from crate `regex` on registry at https://crates.io"
    );
    assert_eq!(
        set_context_text("regex", "https://crates.io"),
        "failed to update `trustpub_only` for crate `regex` on registry at https://crates.io"
    );
}

#[test]
fn crate_name_from_manifest() {
    let name = crate_from_manifest("[package]\nname = \"cargo-trustpub\"\nversion = \"0.1.0\"\n");
    assert_eq!(name.unwrap(), "cargo-trustpub");
    assert!(matches!(
        crate_from_manifest("[workspace]\nmembers = []\n"),
        Err(ManifestError::MissingName)
    ));
    assert!(matches!(
        crate_from_manifest("[package]\nname = 3\n"),
        Err(ManifestError::MissingName)
    ));
    let err = crate_from_manifest("[package\nname = ").unwrap_err();
    assert!(matches!(err, ManifestError::Invalid(_)));
    assert!(err.message().starts_with("failed to parse `Cargo.toml`: "));
    assert_eq!(
        ManifestError::MissingName.message(),
        "could not find `package.name` in `Cargo.toml`; pass `--crate <CRATE>`"
    );
    assert_eq!(
        ManifestError::Unreadable.message(),
        "no `--crate` given and no `Cargo.toml` found in the current directory; pass `--crate <CRATE>`"
    );
}

#[test]
fn token_from_credentials_file() {
    assert_eq!(
        credentials_token("[registry]\ntoken = \"cio123\"\n"),
        Some("cio123".to_string())
    );
    assert_eq!(credentials_token("[registry]\n"), None);
    assert_eq!(credentials_token("not = = toml"), None);
    assert_eq!(credential_file_names(), vec!["credentials.toml", "credentials"]);
}

#[test]
fn text_helpers() {
    assert_eq!(decimal_text(0), "0");
    assert_eq!(decimal_text(10918), "10918");
    assert_eq!(decimal_text(u32::MAX), "4294967295");
    assert_eq!(trim_end_slashes_text("a//"), "a");
    assert_eq!(trim_end_slashes_text("///"), "");
    assert_eq!(trim_end_slashes_text("a/b"), "a/b");
    assert_eq!(
        join_text(&vec!["x".to_string(), String::new(), "y".to_string()], ", "),
        "x, , y"
    );
    assert_eq!(join_text(&vec![], ", "), "");
}

#[test]
fn token_resolution_order() {
    let first = Some("[registry]\ntoken = \"first\"\n".to_string());
    let second = Some("[registry]\ntoken = \"second\"\n".to_string());
    let broken = Some("[registry\n".to_string());
    assert_eq!(pick_token(None, vec![first.clone(), second.clone()]), Some("first".to_string()));
    assert_eq!(pick_token(None, vec![None, second.clone()]), Some("second".to_string()));
    assert_eq!(pick_token(None, vec![broken, second]), Some("second".to_string()));
    assert_eq!(pick_token(None, vec![Some(String::new()), None]), None);
    assert_eq!(pick_token(None, vec![]), None);
}

#[test]
fn cargo_home_choice() {
    match cargo_home(Some("/c"), Some("/h")) {
        Some(CargoHome::Given(p)) => assert_eq!(p, "/c"),
        other => panic!("unexpected: {other:?}"),
    }
    match cargo_home(None, Some("/h")) {
        Some(CargoHome::UnderHome(p)) => assert_eq!(p, "/h"),
        other => panic!("unexpected: {other:?}"),
    }
    assert!(cargo_home::<&str>(None, None).is_none());
}

#[test]
fn lookups_map_to_results() {
    assert_eq!(crate_from_lookup(Ok(Some("x".to_string()))).unwrap(), "x");
    assert!(matches!(crate_from_lookup(Ok(None)), Err(ManifestError::MissingName)));
    match crate_from_lookup(Err("bad".to_string())) {
        Err(ManifestError::Invalid(cause)) => assert_eq!(cause, "bad"),
        other => panic!("unexpected: {other:?}"),
    }
    assert_eq!(
        ManifestError::Invalid("bad".to_string()).message(),
        "failed to parse `Cargo.toml`: bad"
    );
    assert_eq!(token_from_lookup(Ok(Some("t".to_string()))), Some("t".to_string()));
    assert_eq!(token_from_lookup(Ok(None)), None);
    assert_eq!(token_from_lookup(Err("bad".to_string())), None);
}

#[test]
fn status_calls_in_order() {
    assert_eq!(next_status_call(None, true), Some(StatusCall::TrustpubOnly));
    assert_eq!(
        next_status_call(Some(StatusCall::TrustpubOnly), true),
        Some(StatusCall::GithubConfigs)
    );
    assert_eq!(
        next_status_call(Some(StatusCall::GithubConfigs), true),
        Some(StatusCall::GitlabConfigs)
    );
    assert_eq!(next_status_call(Some(StatusCall::GitlabConfigs), true), None);
    assert_eq!(next_status_call(Some(StatusCall::TrustpubOnly), false), None);
    assert_eq!(
        status_context_text(StatusCall::GitlabConfigs, "regex", "https://crates.io"),
        "failed to list GitLab trusted publishing configs for crate `regex` on registry at https://crates.io"
    );
    assert_eq!(
        status_context_text(StatusCall::GithubConfigs, "regex", "h"),
        registry_context_text("list GitHub trusted publishing configs", "regex", "h")
    );
}

#[test]
fn crate_named_explicitly_wins() {
    let manifest = Some("[package]\nname = \"from-manifest\"\n".to_string());
    assert_eq!(choose_crate(Some("given".to_string()), manifest.clone()).unwrap(), "given");
    assert_eq!(choose_crate(Some("given".to_string()), None).unwrap(), "given");
    assert_eq!(choose_crate(None, manifest).unwrap(), "from-manifest");
    assert!(matches!(choose_crate(None, None), Err(ManifestError::Unreadable)));
    assert!(matches!(
        choose_crate(None, Some("[package]\n".to_string())),
        Err(ManifestError::MissingName)
    ));
}

#[test]
fn tagged_config_id_and_summary() {
    let gh = TaggedConfig::Github(github(7, Some("Release")));
    assert_eq!(gh.id(), 7);
    assert_eq!(gh.summary(), "github yihau/cargo-trustpub workflow=ci.yml environment=Release");
    let gl = TaggedConfig::Gitlab(gitlab(11));
    assert_eq!(gl.id(), 11);
    assert_eq!(gl.summary(), "gitlab my-group/my-project workflow=.gitlab-ci.yml");
}
