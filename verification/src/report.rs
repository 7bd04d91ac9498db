//! What the command line reports: the status listing, the configs aggregated
//! for JSON output, the confirmation messages, and the context attached to a
//! failed registry call.

use vstd::prelude::*;
use crate::api::{GitHubConfig, GitLabConfig, StatusCall, opt_string};
use crate::json::opt_text;
use crate::text::{decimal, decimal_text};

verus! {

/// ` environment=<env>` when there is an environment, else nothing.
pub open spec fn env_suffix(environment: Option<Seq<char>>) -> Seq<char> {
    match environment {
        Some(e) => " environment="@ + e,
        None => Seq::empty(),
    }
}

/// The environment suffix of a config line.
pub fn fmt_env(environment: Option<&str>) -> (s: String)
    ensures
        s@ == env_suffix(opt_text(environment)),
{
    match environment {
        Some(env) => {
            let mut s = String::from_str(" environment=");
            s.append(env);
            s
        },
        None => String::new(),
    }
}

/// The environment suffix of an owned optional text.
fn fmt_env_owned(environment: &Option<String>) -> (s: String)
    ensures
        s@ == env_suffix(opt_string(*environment)),
{
    match environment {
        Some(env) => fmt_env(Some(env.as_str())),
        None => fmt_env(None),
    }
}

/// `github <owner>/<repo> workflow=<file>[ environment=<env>]`.
pub open spec fn github_summary(c: GitHubConfig) -> Seq<char> {
    "github "@ + c.repository_owner@ + "/"@ + c.repository_name@ + " workflow="@
        + c.workflow_filename@ + env_suffix(opt_string(c.environment))
}

/// `gitlab <namespace>/<project> workflow=<path>[ environment=<env>]`.
pub open spec fn gitlab_summary(c: GitLabConfig) -> Seq<char> {
    "gitlab "@ + c.namespace@ + "/"@ + c.project@ + " workflow="@ + c.workflow_filepath@
        + env_suffix(opt_string(c.environment))
}

/// The one-line summary of a GitHub config.
pub fn github_summary_text(c: &GitHubConfig) -> (s: String)
    ensures
        s@ == github_summary(*c),
{
    let mut s = String::from_str("github ");
    s.append(c.repository_owner.as_str());
    s.append("/");
    s.append(c.repository_name.as_str());
    s.append(" workflow=");
    s.append(c.workflow_filename.as_str());
    let env = fmt_env_owned(&c.environment);
    s.append(env.as_str());
    s
}

/// The one-line summary of a GitLab config.
pub fn gitlab_summary_text(c: &GitLabConfig) -> (s: String)
    ensures
        s@ == gitlab_summary(*c),
{
    let mut s = String::from_str("gitlab ");
    s.append(c.namespace.as_str());
    s.append("/");
    s.append(c.project.as_str());
    s.append(" workflow=");
    s.append(c.workflow_filepath.as_str());
    let env = fmt_env_owned(&c.environment);
    s.append(env.as_str());
    s
}

/// A config's line in the status listing: indented, its id, then its summary.
pub open spec fn config_line(id: u32, summary: Seq<char>) -> Seq<char> {
    "  "@ + decimal(id as nat) + ": "@ + summary
}

/// The lines of the GitHub configs.
pub open spec fn github_lines(configs: Seq<GitHubConfig>) -> Seq<Seq<char>> {
    configs.map_values(|c: GitHubConfig| config_line(c.id, github_summary(c)))
}

/// The lines of the GitLab configs.
pub open spec fn gitlab_lines(configs: Seq<GitLabConfig>) -> Seq<Seq<char>> {
    configs.map_values(|c: GitLabConfig| config_line(c.id, gitlab_summary(c)))
}

/// The human-readable status: the crate, whether Trusted Publishing is
/// required, then `configs: none`, or `configs:` and one line per config,
/// GitHub ones first.
pub open spec fn status_lines(
    krate: Seq<char>,
    trustpub_only: bool,
    github: Seq<GitHubConfig>,
    gitlab: Seq<GitLabConfig>,
) -> Seq<Seq<char>> {
    seq![
        "crate: "@ + krate,
        "trustpub_only: "@ + (if trustpub_only {
            "enabled"@
        } else {
            "disabled"@
        }),
    ] + if github.len() == 0 && gitlab.len() == 0 {
        seq!["configs: none"@]
    } else {
        seq!["configs:"@] + github_lines(github) + gitlab_lines(gitlab)
    }
}

/// The status listing has one line per config after its three header lines,
/// and reads `configs: none` exactly when there is no config at all.
pub proof fn lemma_status_shape(
    krate: Seq<char>,
    trustpub_only: bool,
    github: Seq<GitHubConfig>,
    gitlab: Seq<GitLabConfig>,
)
    ensures
        github.len() == 0 && gitlab.len() == 0 ==> status_lines(krate, trustpub_only, github, gitlab)
            == seq![
            "crate: "@ + krate,
            "trustpub_only: "@ + (if trustpub_only {
                "enabled"@
            } else {
                "disabled"@
            }),
            "configs: none"@,
        ],
        !(github.len() == 0 && gitlab.len() == 0) ==> status_lines(
            krate,
            trustpub_only,
            github,
            gitlab,
        ).len() == 3 + github.len() + gitlab.len() && status_lines(
            krate,
            trustpub_only,
            github,
            gitlab,
        )[2] == "configs:"@,
{
}

/// The status listing, line by line: the crate; `trustpub_only: enabled`
/// exactly when it is required and `disabled` otherwise, whatever the
/// configs; `configs: none` when there is no config, else `configs:` and,
/// for each GitHub config and then each GitLab config in order, its id and
/// summary on a line of its own.
pub proof fn lemma_status_lines(
    krate: Seq<char>,
    trustpub_only: bool,
    github: Seq<GitHubConfig>,
    gitlab: Seq<GitLabConfig>,
)
    ensures
        ({
            let lines = status_lines(krate, trustpub_only, github, gitlab);
            let none = github.len() == 0 && gitlab.len() == 0;
            &&& lines.len() == 3 + github.len() + gitlab.len()
            &&& lines[0] == "crate: "@ + krate
            &&& lines[1] == "trustpub_only: "@ + (if trustpub_only {
                "enabled"@
            } else {
                "disabled"@
            })
            &&& lines[2] == (if none {
                "configs: none"@
            } else {
                "configs:"@
            })
            &&& forall|i: int|
                0 <= i < github.len() ==> #[trigger] lines[3 + i] == "  "@ + decimal(
                    github[i].id as nat,
                ) + ": "@ + github_summary(github[i])
            &&& forall|j: int|
                0 <= j < gitlab.len() ==> #[trigger] lines[3 + github.len() + j] == "  "@ + decimal(
                    gitlab[j].id as nat,
                ) + ": "@ + gitlab_summary(gitlab[j])
        }),
{
    let lines = status_lines(krate, trustpub_only, github, gitlab);
    if !(github.len() == 0 && gitlab.len() == 0) {
        assert forall|i: int| 0 <= i < github.len() implies #[trigger] lines[3 + i] == "  "@
            + decimal(github[i].id as nat) + ": "@ + github_summary(github[i]) by {
            assert(lines[3 + i] == github_lines(github)[i]);
        }
        assert forall|j: int| 0 <= j < gitlab.len() implies #[trigger] lines[3 + github.len() + j]
            == "  "@ + decimal(gitlab[j].id as nat) + ": "@ + gitlab_summary(gitlab[j]) by {
            assert(lines[3 + github.len() + j] == gitlab_lines(gitlab)[j]);
        }
    }
}

/// A config's summary names its publisher, owner or namespace, repository or
/// project and workflow, and ends with ` environment=<env>` exactly when the
/// config has an environment, for GitHub and GitLab alike.
pub proof fn lemma_summary_shows_environment(gh: GitHubConfig, gl: GitLabConfig)
    ensures
        gh.environment matches Some(e) ==> github_summary(gh) == "github "@ + gh.repository_owner@
            + "/"@ + gh.repository_name@ + " workflow="@ + gh.workflow_filename@
            + " environment="@ + e@,
        gh.environment is None ==> github_summary(gh) == "github "@ + gh.repository_owner@ + "/"@
            + gh.repository_name@ + " workflow="@ + gh.workflow_filename@,
        gl.environment matches Some(e) ==> gitlab_summary(gl) == "gitlab "@ + gl.namespace@ + "/"@
            + gl.project@ + " workflow="@ + gl.workflow_filepath@ + " environment="@ + e@,
        gl.environment is None ==> gitlab_summary(gl) == "gitlab "@ + gl.namespace@ + "/"@
            + gl.project@ + " workflow="@ + gl.workflow_filepath@,
{
}

/// The views of a list of lines.
pub open spec fn lines_view(lines: Seq<String>) -> Seq<Seq<char>> {
    lines.map_values(|l: String| l@)
}

/// Renders the status listing, one text per line.
pub fn render_status(
    krate: &str,
    trustpub_only: bool,
    github: &Vec<GitHubConfig>,
    gitlab: &Vec<GitLabConfig>,
) -> (lines: Vec<String>)
    ensures
        lines_view(lines@) == status_lines(krate@, trustpub_only, github@, gitlab@),
{
    let mut lines: Vec<String> = Vec::new();
    let mut first = String::from_str("crate: ");
    first.append(krate);
    lines.push(first);
    let mut second = String::from_str("trustpub_only: ");
    if trustpub_only {
        second.append("enabled");
    } else {
        second.append("disabled");
    }
    lines.push(second);
    if github.len() == 0 && gitlab.len() == 0 {
        lines.push(String::from_str("configs: none"));
        assert(lines_view(lines@) =~= status_lines(krate@, trustpub_only, github@, gitlab@));
        return lines;
    }
    lines.push(String::from_str("configs:"));
    let ghost head = lines_view(lines@);
    let mut i: usize = 0;
    while i < github.len()
        invariant
            i <= github.len(),
            lines_view(lines@) == head + github_lines(github@.take(i as int)),
        decreases github.len() - i,
    {
        let c = &github[i];
        let mut line = String::from_str("  ");
        let id = decimal_text(c.id);
        line.append(id.as_str());
        line.append(": ");
        let summary = github_summary_text(c);
        line.append(summary.as_str());
        assert(line@ =~= config_line(c.id, github_summary(*c)));
        let ghost before = lines_view(lines@);
        lines.push(line);
        assert(lines_view(lines@) =~= before.push(config_line(c.id, github_summary(*c))));
        assert(github_lines(github@.take(i + 1)) =~= github_lines(github@.take(i as int)).push(
            config_line(c.id, github_summary(*c)),
        ));
        assert(lines_view(lines@) =~= head + github_lines(github@.take(i + 1)));
        i = i + 1;
    }
    assert(github@.take(github.len() as int) =~= github@);
    let ghost mid = lines_view(lines@);
    let mut j: usize = 0;
    while j < gitlab.len()
        invariant
            j <= gitlab.len(),
            lines_view(lines@) == mid + gitlab_lines(gitlab@.take(j as int)),
        decreases gitlab.len() - j,
    {
        let c = &gitlab[j];
        let mut line = String::from_str("  ");
        let id = decimal_text(c.id);
        line.append(id.as_str());
        line.append(": ");
        let summary = gitlab_summary_text(c);
        line.append(summary.as_str());
        assert(line@ =~= config_line(c.id, gitlab_summary(*c)));
        let ghost before = lines_view(lines@);
        lines.push(line);
        assert(lines_view(lines@) =~= before.push(config_line(c.id, gitlab_summary(*c))));
        assert(gitlab_lines(gitlab@.take(j + 1)) =~= gitlab_lines(gitlab@.take(j as int)).push(
            config_line(c.id, gitlab_summary(*c)),
        ));
        assert(lines_view(lines@) =~= mid + gitlab_lines(gitlab@.take(j + 1)));
        j = j + 1;
    }
    assert(gitlab@.take(gitlab.len() as int) =~= gitlab@);
    assert(lines_view(lines@) =~= status_lines(krate@, trustpub_only, github@, gitlab@));
    lines
}

/// `Added trusted publishing config <id> (<summary>) for crate `<krate>``.
pub open spec fn added_message(id: u32, summary: Seq<char>, krate: Seq<char>) -> Seq<char> {
    "Added trusted publishing config "@ + decimal(id as nat) + " ("@ + summary
        + ") for crate `"@ + krate + "`"@
}

/// The confirmation printed after a config was added.
pub fn added_message_text(id: u32, summary: &str, krate: &str) -> (m: String)
    ensures
        m@ == added_message(id, summary@, krate@),
{
    let mut m = String::from_str("Added trusted publishing config ");
    let n = decimal_text(id);
    m.append(n.as_str());
    m.append(" (");
    m.append(summary);
    m.append(") for crate `");
    m.append(krate);
    m.append("`");
    m
}

/// `Removed trusted publishing config <id> for crate `<krate>``.
pub open spec fn removed_message(id: u32, krate: Seq<char>) -> Seq<char> {
    "Removed trusted publishing config "@ + decimal(id as nat) + " for crate `"@ + krate + "`"@
}

/// The confirmation printed after a config was removed.
pub fn removed_message_text(id: u32, krate: &str) -> (m: String)
    ensures
        m@ == removed_message(id, krate@),
{
    let mut m = String::from_str("Removed trusted publishing config ");
    let n = decimal_text(id);
    m.append(n.as_str());
    m.append(" for crate `");
    m.append(krate);
    m.append("`");
    m
}

/// `true` or `false`, as `Display` writes a boolean.
pub open spec fn bool_word(b: bool) -> Seq<char> {
    if b {
        "true"@
    } else {
        "false"@
    }
}

/// `Updated `trustpub_only` for crate `<krate>` to <true|false>`.
pub open spec fn updated_message(krate: Seq<char>, trustpub_only: bool) -> Seq<char> {
    "Updated `trustpub_only` for crate `"@ + krate + "` to "@ + bool_word(trustpub_only)
}

/// The confirmation printed after `trustpub_only` was set.
pub fn updated_message_text(krate: &str, trustpub_only: bool) -> (m: String)
    ensures
        m@ == updated_message(krate@, trustpub_only),
{
    let mut m = String::from_str("Updated `trustpub_only` for crate `");
    m.append(krate);
    m.append("` to ");
    if trustpub_only {
        m.append("true");
    } else {
        m.append("false");
    }
    m
}

/// `failed to <what> for crate `<krate>` on registry at <host>`.
pub open spec fn registry_context(what: Seq<char>, krate: Seq<char>, host: Seq<char>) -> Seq<char> {
    "failed to "@ + what + " for crate `"@ + krate + "` on registry at "@ + host
}

/// What a status call does, as its failure context words it.
pub open spec fn status_call_what(call: StatusCall) -> Seq<char> {
    match call {
        StatusCall::TrustpubOnly => "read Trusted Publishing status"@,
        StatusCall::GithubConfigs => "list GitHub trusted publishing configs"@,
        StatusCall::GitlabConfigs => "list GitLab trusted publishing configs"@,
    }
}

/// The call the status listing makes after `previous` (or first, when there
/// was none yet) given whether `previous` succeeded: the `trustpub_only`
/// flag, then the GitHub configs, then the GitLab configs, and nothing after
/// the last one or after any failure.
pub open spec fn next_status(previous: Option<StatusCall>, succeeded: bool) -> Option<StatusCall> {
    match previous {
        None => Some(StatusCall::TrustpubOnly),
        Some(call) => if !succeeded {
            None
        } else {
            match call {
                StatusCall::TrustpubOnly => Some(StatusCall::GithubConfigs),
                StatusCall::GithubConfigs => Some(StatusCall::GitlabConfigs),
                StatusCall::GitlabConfigs => None,
            }
        },
    }
}

/// The next call of the status listing.
pub fn next_status_call(previous: Option<StatusCall>, succeeded: bool) -> (next: Option<StatusCall>)
    ensures
        next == next_status(previous, succeeded),
{
    match previous {
        None => Some(StatusCall::TrustpubOnly),
        Some(call) => if !succeeded {
            None
        } else {
            match call {
                StatusCall::TrustpubOnly => Some(StatusCall::GithubConfigs),
                StatusCall::GithubConfigs => Some(StatusCall::GitlabConfigs),
                StatusCall::GitlabConfigs => None,
            }
        },
    }
}

/// When every call succeeds, the status listing makes exactly three calls,
/// each once: the flag, the GitHub configs, the GitLab configs; a failure
/// ends it at once.
pub proof fn lemma_status_sequence()
    ensures
        next_status(None, true) == Some(StatusCall::TrustpubOnly),
        next_status(Some(StatusCall::TrustpubOnly), true) == Some(StatusCall::GithubConfigs),
        next_status(Some(StatusCall::GithubConfigs), true) == Some(StatusCall::GitlabConfigs),
        next_status(Some(StatusCall::GitlabConfigs), true) is None,
        forall|c: StatusCall| #[trigger] next_status(Some(c), false) is None,
{
}

/// The context of a failed status call.
pub fn status_context_text(call: StatusCall, krate: &str, host: &str) -> (m: String)
    ensures
        m@ == registry_context(status_call_what(call), krate@, host@),
{
    let what = match call {
        StatusCall::TrustpubOnly => "read Trusted Publishing status",
        StatusCall::GithubConfigs => "list GitHub trusted publishing configs",
        StatusCall::GitlabConfigs => "list GitLab trusted publishing configs",
    };
    registry_context_text(what, krate, host)
}

/// The context of a failed call made for the status listing.
pub fn registry_context_text(what: &str, krate: &str, host: &str) -> (m: String)
    ensures
        m@ == registry_context(what@, krate@, host@),
{
    let mut m = String::from_str("failed to ");
    m.append(what);
    m.append(" for crate `");
    m.append(krate);
    m.append("` on registry at ");
    m.append(host);
    m
}

/// `failed to add trusted publishing config to crate `<krate>` on registry at <host>`.
pub open spec fn add_context(krate: Seq<char>, host: Seq<char>) -> Seq<char> {
    "failed to add trusted publishing config to crate `"@ + krate + "` on registry at "@ + host
}

/// The context of a failed add.
pub fn add_context_text(krate: &str, host: &str) -> (m: String)
    ensures
        m@ == add_context(krate@, host@),
{
    let mut m = String::from_str("failed to add trusted publishing config to crate `");
    m.append(krate);
    m.append("` on registry at ");
    m.append(host);
    m
}

/// `failed to remove trusted publishing config <id> from crate `<krate>` on registry at <host>`.
pub open spec fn remove_context(id: u32, krate: Seq<char>, host: Seq<char>) -> Seq<char> {
    "failed to remove trusted publishing config "@ + decimal(id as nat) + " from crate `"@ + krate
        + "` on registry at "@ + host
}

/// The context of a failed removal.
pub fn remove_context_text(id: u32, krate: &str, host: &str) -> (m: String)
    ensures
        m@ == remove_context(id, krate@, host@),
{
    let mut m = String::from_str("failed to remove trusted publishing config ");
    let n = decimal_text(id);
    m.append(n.as_str());
    m.append(" from crate `");
    m.append(krate);
    m.append("` on registry at ");
    m.append(host);
    m
}

/// `failed to update `trustpub_only` for crate `<krate>` on registry at <host>`.
pub open spec fn set_context(krate: Seq<char>, host: Seq<char>) -> Seq<char> {
    "failed to update `trustpub_only` for crate `"@ + krate + "` on registry at "@ + host
}

/// The context of a failed update of `trustpub_only`.
pub fn set_context_text(krate: &str, host: &str) -> (m: String)
    ensures
        m@ == set_context(krate@, host@),
{
    let mut m = String::from_str("failed to update `trustpub_only` for crate `");
    m.append(krate);
    m.append("` on registry at ");
    m.append(host);
    m
}

/// A config of either publisher, tagged with the publisher it belongs to.
#[derive(Debug)]
pub enum TaggedConfig {
    Github(GitHubConfig),
    Gitlab(GitLabConfig),
}

/// The name of a config's publisher.
pub open spec fn publisher_name(c: TaggedConfig) -> Seq<char> {
    match c {
        TaggedConfig::Github(_) => "github"@,
        TaggedConfig::Gitlab(_) => "gitlab"@,
    }
}

impl TaggedConfig {
    /// The name of the publisher this config belongs to.
    pub fn publisher(&self) -> (p: &'static str)
        ensures
            p@ == publisher_name(*self),
    {
        match self {
            TaggedConfig::Github(_) => "github",
            TaggedConfig::Gitlab(_) => "gitlab",
        }
    }
}

impl TaggedConfig {
    /// The registry's id of this config.
    pub fn id(&self) -> (id: u32)
        ensures
            id == match *self {
                TaggedConfig::Github(c) => c.id,
                TaggedConfig::Gitlab(c) => c.id,
            },
    {
        match self {
            TaggedConfig::Github(c) => c.id,
            TaggedConfig::Gitlab(c) => c.id,
        }
    }

    /// The one-line summary of this config, as its publisher words it.
    pub fn summary(&self) -> (s: String)
        ensures
            s@ == match *self {
                TaggedConfig::Github(c) => github_summary(c),
                TaggedConfig::Gitlab(c) => gitlab_summary(c),
            },
    {
        match self {
            TaggedConfig::Github(c) => github_summary_text(c),
            TaggedConfig::Gitlab(c) => gitlab_summary_text(c),
        }
    }
}

/// All configs in one list: GitHub ones first, then GitLab ones, each in the
/// order given.
pub open spec fn aggregated(github: Seq<GitHubConfig>, gitlab: Seq<GitLabConfig>) -> Seq<TaggedConfig> {
    github.map_values(|c: GitHubConfig| TaggedConfig::Github(c)) + gitlab.map_values(
        |c: GitLabConfig| TaggedConfig::Gitlab(c),
    )
}

/// In the aggregated list every GitHub config comes first, tagged `github`,
/// and every GitLab config after them, tagged `gitlab`, each list in its order.
pub proof fn lemma_aggregated_tags(github: Seq<GitHubConfig>, gitlab: Seq<GitLabConfig>)
    ensures
        aggregated(github, gitlab).len() == github.len() + gitlab.len(),
        forall|i: int|
            0 <= i < github.len() ==> #[trigger] aggregated(github, gitlab)[i] == TaggedConfig::Github(
                github[i],
            ) && publisher_name(aggregated(github, gitlab)[i]) == "github"@,
        forall|i: int|
            0 <= i < gitlab.len() ==> #[trigger] aggregated(github, gitlab)[github.len() + i]
                == TaggedConfig::Gitlab(gitlab[i]) && publisher_name(
                aggregated(github, gitlab)[github.len() + i],
            ) == "gitlab"@,
{
}

/// Aggregates the configs of both publishers, each tagged with its publisher.
pub fn aggregate_configs(github: Vec<GitHubConfig>, gitlab: Vec<GitLabConfig>) -> (all: Vec<
    TaggedConfig,
>)
    ensures
        all@ == aggregated(github@, gitlab@),
{
    let mut all: Vec<TaggedConfig> = Vec::new();
    let mut rest = github;
    let ghost gh = rest@;
    while rest.len() > 0
        invariant
            all@ + rest@.map_values(|c: GitHubConfig| TaggedConfig::Github(c)) == gh.map_values(
                |c: GitHubConfig| TaggedConfig::Github(c),
            ),
        decreases rest.len(),
    {
        let ghost before_all = all@;
        let ghost before_rest = rest@;
        let c = rest.remove(0);
        all.push(TaggedConfig::Github(c));
        assert(before_rest.map_values(|c: GitHubConfig| TaggedConfig::Github(c)) =~= seq![
            TaggedConfig::Github(c),
        ] + rest@.map_values(|c: GitHubConfig| TaggedConfig::Github(c)));
        assert(all@ + rest@.map_values(|c: GitHubConfig| TaggedConfig::Github(c)) =~= before_all
            + before_rest.map_values(|c: GitHubConfig| TaggedConfig::Github(c)));
    }
    assert(all@ =~= gh.map_values(|c: GitHubConfig| TaggedConfig::Github(c)));
    let ghost head = all@;
    let mut rest2 = gitlab;
    let ghost gl = rest2@;
    while rest2.len() > 0
        invariant
            all@ + rest2@.map_values(|c: GitLabConfig| TaggedConfig::Gitlab(c)) == head
                + gl.map_values(|c: GitLabConfig| TaggedConfig::Gitlab(c)),
        decreases rest2.len(),
    {
        let ghost before_all = all@;
        let ghost before_rest = rest2@;
        let c = rest2.remove(0);
        all.push(TaggedConfig::Gitlab(c));
        assert(before_rest.map_values(|c: GitLabConfig| TaggedConfig::Gitlab(c)) =~= seq![
            TaggedConfig::Gitlab(c),
        ] + rest2@.map_values(|c: GitLabConfig| TaggedConfig::Gitlab(c)));
        assert(all@ + rest2@.map_values(|c: GitLabConfig| TaggedConfig::Gitlab(c)) =~= before_all
            + before_rest.map_values(|c: GitLabConfig| TaggedConfig::Gitlab(c)));
    }
    assert(all@ =~= head + gl.map_values(|c: GitLabConfig| TaggedConfig::Gitlab(c)));
    all
}

} // verus!
