//! The JSON bodies that the registry's API accepts, framed from members whose
//! values are already JSON text.

use vstd::prelude::*;
use crate::text::{join, join_text};

verus! {

/// A lowercase hexadecimal digit.
pub open spec fn hex_digit(d: nat) -> char {
    if d < 10 {
        (48 + d) as char
    } else {
        (87 + d) as char
    }
}

/// How serde_json writes one character inside a JSON string: `"` and `\`
/// behind a backslash; backspace, tab, line feed, form feed and carriage
/// return as `\b`, `\t`, `\n`, `\f`, `\r`; any other character below
/// 0x20 as `\u00` and two lowercase hex digits; every other character as it is.
pub open spec fn json_escape_char(c: char) -> Seq<char> {
    let n = c as nat;
    if c == '"' {
        seq!['\\', '"']
    } else if c == '\\' {
        seq!['\\', '\\']
    } else if n == 8 {
        seq!['\\', 'b']
    } else if n == 9 {
        seq!['\\', 't']
    } else if n == 10 {
        seq!['\\', 'n']
    } else if n == 12 {
        seq!['\\', 'f']
    } else if n == 13 {
        seq!['\\', 'r']
    } else if n < 32 {
        seq!['\\', 'u', '0', '0', hex_digit(n / 16), hex_digit(n % 16)]
    } else {
        seq![c]
    }
}

/// The characters of a text, each escaped as serde_json writes it.
pub open spec fn json_escaped(s: Seq<char>) -> Seq<char>
    decreases s.len(),
{
    if s.len() == 0 {
        Seq::empty()
    } else {
        json_escaped(s.drop_last()) + json_escape_char(s.last())
    }
}

/// The JSON string literal that serde_json writes for a text: a quote, the
/// escaped characters, a quote.
pub open spec fn json_string_literal(s: Seq<char>) -> Seq<char> {
    seq!['"'] + json_escaped(s) + seq!['"']
}

/// A text without quotes, backslashes or control characters is written
/// between quotes as it is.
pub proof fn lemma_plain_text_unescaped(s: Seq<char>)
    requires
        forall|i: int| 0 <= i < s.len() ==> #[trigger] s[i] != '"' && s[i] != '\\' && s[i] as nat >= 32,
    ensures
        json_escaped(s) == s,
        json_string_literal(s) == seq!['"'] + s + seq!['"'],
    decreases s.len(),
{
    if s.len() > 0 {
        lemma_plain_text_unescaped(s.drop_last());
        assert(s.drop_last() + seq![s.last()] =~= s);
    }
}

/// Calls `serde_json::to_string` on a `str`. The contract claims that the text
/// returned is `json_string_literal` of it: serde_json's `format_escaped_str`
/// writes a quote, each byte escaped by its escape table (only ASCII bytes
/// below 0x20, `"` and `\` are escaped), and a quote. serde_json documents
/// that serialization fails only when a `Serialize` impl fails or a map has
/// non-string keys, neither of which a `str` can do, so the error arm is never
/// taken.
#[verifier::external_body]
fn json_quote(s: &str) -> (q: String)
    ensures
        q@ == json_string_literal(s@),
{
    match serde_json::to_string(s) {
        Ok(q) => q,
        Err(_) => String::new(),
    }
}

/// The JSON text of a string, as serde_json writes it.
pub fn json_string(s: &str) -> (q: String)
    ensures
        q@ == json_string_literal(s@),
{
    json_quote(s)
}

/// One member of a JSON object: the key in quotes, a colon, the value's text.
pub open spec fn json_member(key: Seq<char>, value: Seq<char>) -> Seq<char> {
    seq!['"'] + key + seq!['"', ':'] + value
}

/// A compact JSON object with the given members in the given order, as
/// serde_json writes a struct: no whitespace, members separated by commas.
pub open spec fn json_object(members: Seq<(Seq<char>, Seq<char>)>) -> Seq<char> {
    seq!['{'] + join(members.map_values(|m: (Seq<char>, Seq<char>)| json_member(m.0, m.1)), seq![','])
        + seq!['}']
}

/// Adding a member to a non-empty object makes its text longer, so the same
/// object with and without that member, wrapped in a one-member object, gives
/// two different texts.
pub proof fn lemma_object_member_lengths(
    members: Seq<(Seq<char>, Seq<char>)>,
    extra: (Seq<char>, Seq<char>),
)
    requires
        members.len() > 0,
    ensures
        forall|key: Seq<char>|
            #[trigger] json_object(seq![(key, json_object(members.push(extra)))]) != json_object(
                seq![(key, json_object(members))],
            ),
{
    let f = |m: (Seq<char>, Seq<char>)| json_member(m.0, m.1);
    let parts = members.map_values(f);
    assert(members.push(extra).map_values(f) =~= parts.push(json_member(extra.0, extra.1)));
    assert(parts.push(json_member(extra.0, extra.1)).drop_last() =~= parts);
    let short = json_object(members);
    let long = json_object(members.push(extra));
    assert(long.len() > short.len());
    assert forall|key: Seq<char>|
        #[trigger] json_object(seq![(key, json_object(members.push(extra)))]) != json_object(
            seq![(key, json_object(members))],
        ) by {
        let a = seq![(key, long)];
        let b = seq![(key, short)];
        assert(a.map_values(f) =~= seq![json_member(key, long)]);
        assert(b.map_values(f) =~= seq![json_member(key, short)]);
        assert(json_object(a).len() != json_object(b).len());
    }
}

/// The JSON text of a boolean.
pub open spec fn json_bool(b: bool) -> Seq<char> {
    if b {
        seq!['t', 'r', 'u', 'e']
    } else {
        seq!['f', 'a', 'l', 's', 'e']
    }
}

/// The body that sets whether a crate accepts only Trusted Publishing.
pub open spec fn crate_update_body(trustpub_only: bool) -> Seq<char> {
    json_object(seq![("crate"@, json_object(seq![("trustpub_only"@, json_bool(trustpub_only))]))])
}

/// The optional `environment` member, present only when there is one.
pub open spec fn environment_members(environment: Option<Seq<char>>) -> Seq<(Seq<char>, Seq<char>)> {
    match environment {
        Some(e) => seq![("environment"@, e)],
        None => Seq::empty(),
    }
}

/// The body that adds a GitHub config, from the members' JSON texts.
pub open spec fn github_config_body(
    krate: Seq<char>,
    owner: Seq<char>,
    name: Seq<char>,
    workflow: Seq<char>,
    environment: Option<Seq<char>>,
) -> Seq<char> {
    json_object(
        seq![(
            "github_config"@,
            json_object(
                seq![
                    ("crate"@, krate),
                    ("repository_owner"@, owner),
                    ("repository_name"@, name),
                    ("workflow_filename"@, workflow),
                ] + environment_members(environment),
            ),
        )],
    )
}

/// The body that adds a GitLab config, from the members' JSON texts.
pub open spec fn gitlab_config_body(
    krate: Seq<char>,
    namespace: Seq<char>,
    project: Seq<char>,
    workflow: Seq<char>,
    environment: Option<Seq<char>>,
) -> Seq<char> {
    json_object(
        seq![(
            "gitlab_config"@,
            json_object(
                seq![
                    ("crate"@, krate),
                    ("namespace"@, namespace),
                    ("project"@, project),
                    ("workflow_filepath"@, workflow),
                ] + environment_members(environment),
            ),
        )],
    )
}

/// The views of a list of members.
pub open spec fn members_view(members: Seq<(&str, String)>) -> Seq<(Seq<char>, Seq<char>)> {
    members.map_values(|m: (&str, String)| (m.0@, m.1@))
}

/// Frames members into a compact JSON object.
pub fn json_object_text(members: &Vec<(&str, String)>) -> (s: String)
    ensures
        s@ == json_object(members_view(members@)),
{
    let ghost wanted = members_view(members@).map_values(
        |m: (Seq<char>, Seq<char>)| json_member(m.0, m.1),
    );
    let mut parts: Vec<String> = Vec::new();
    let mut i: usize = 0;
    while i < members.len()
        invariant
            i <= members.len(),
            wanted == members_view(members@).map_values(
                |m: (Seq<char>, Seq<char>)| json_member(m.0, m.1),
            ),
            parts@.len() == i,
            forall|j: int| 0 <= j < i ==> #[trigger] parts@[j]@ == wanted[j],
        decreases members.len() - i,
    {
        let mut part = String::new();
        proof { reveal_strlit("\""); reveal_strlit("\":"); }
        part.append("\"");
        part.append(members[i].0);
        part.append("\":");
        part.append(members[i].1.as_str());
        assert(part@ =~= wanted[i as int]);
        parts.push(part);
        i = i + 1;
    }
    assert(parts@.map_values(|p: String| p@) =~= wanted);
    let body = join_text(&parts, ",");
    let mut s = String::new();
    proof { reveal_strlit(","); reveal_strlit("{"); reveal_strlit("}"); }
    s.append("{");
    s.append(body.as_str());
    s.append("}");
    assert(","@ =~= seq![',']);
    assert(body@ == join(wanted, seq![',']));
    assert(wanted =~= members_view(members@).map_values(
        |m: (Seq<char>, Seq<char>)| json_member(m.0, m.1),
    ));
    assert(s@ =~= seq!['{'] + body@ + seq!['}']);
    s
}

/// The view of an optional text.
pub open spec fn opt_text(o: Option<&str>) -> Option<Seq<char>> {
    match o {
        Some(t) => Some(t@),
        None => None,
    }
}

/// The JSON text of a boolean, as serde_json writes it.
pub fn json_bool_text(b: bool) -> (s: String)
    ensures
        s@ == json_bool(b),
{
    if b {
        proof { reveal_strlit("true"); }
        String::from_str("true")
    } else {
        proof { reveal_strlit("false"); }
        String::from_str("false")
    }
}

/// The body of the request that sets `trustpub_only`.
pub fn crate_update_payload(trustpub_only: bool) -> (s: String)
    ensures
        s@ == crate_update_body(trustpub_only),
{
    let mut inner: Vec<(&str, String)> = Vec::new();
    inner.push(("trustpub_only", json_bool_text(trustpub_only)));
    let inner_text = json_object_text(&inner);
    let mut outer: Vec<(&str, String)> = Vec::new();
    outer.push(("crate", inner_text));
    let s = json_object_text(&outer);
    assert(members_view(inner@) =~= seq![("trustpub_only"@, json_bool(trustpub_only))]);
    assert(members_view(outer@) =~= seq![("crate"@, inner_text@)]);
    s
}

/// Pushes the `environment` member when there is one.
fn push_environment(members: &mut Vec<(&str, String)>, environment: Option<&str>)
    ensures
        members_view(final(members)@) == members_view(old(members)@) + environment_members(
            opt_text(environment),
        ),
{
    match environment {
        Some(e) => {
            members.push(("environment", String::from_str(e)));
            assert(members_view(members@) =~= members_view(old(members)@) + environment_members(
                opt_text(environment),
            ));
        },
        None => {
            assert(members_view(members@) =~= members_view(old(members)@) + environment_members(
                opt_text(environment),
            ));
        },
    }
}

/// The body of the request that adds a GitHub config; each argument is the
/// JSON text of the member's value, and `environment` is left out when absent.
pub fn github_config_payload(
    krate: &str,
    owner: &str,
    name: &str,
    workflow: &str,
    environment: Option<&str>,
) -> (s: String)
    ensures
        s@ == github_config_body(krate@, owner@, name@, workflow@, opt_text(environment)),
{
    let mut inner: Vec<(&str, String)> = Vec::new();
    inner.push(("crate", String::from_str(krate)));
    inner.push(("repository_owner", String::from_str(owner)));
    inner.push(("repository_name", String::from_str(name)));
    inner.push(("workflow_filename", String::from_str(workflow)));
    assert(members_view(inner@) =~= seq![
        ("crate"@, krate@),
        ("repository_owner"@, owner@),
        ("repository_name"@, name@),
        ("workflow_filename"@, workflow@),
    ]);
    push_environment(&mut inner, environment);
    let inner_text = json_object_text(&inner);
    let mut outer: Vec<(&str, String)> = Vec::new();
    outer.push(("github_config", inner_text));
    assert(members_view(outer@) =~= seq![("github_config"@, inner_text@)]);
    json_object_text(&outer)
}

/// The body of the request that adds a GitLab config; each argument is the
/// JSON text of the member's value, and `environment` is left out when absent.
pub fn gitlab_config_payload(
    krate: &str,
    namespace: &str,
    project: &str,
    workflow: &str,
    environment: Option<&str>,
) -> (s: String)
    ensures
        s@ == gitlab_config_body(krate@, namespace@, project@, workflow@, opt_text(environment)),
{
    let mut inner: Vec<(&str, String)> = Vec::new();
    inner.push(("crate", String::from_str(krate)));
    inner.push(("namespace", String::from_str(namespace)));
    inner.push(("project", String::from_str(project)));
    inner.push(("workflow_filepath", String::from_str(workflow)));
    assert(members_view(inner@) =~= seq![
        ("crate"@, krate@),
        ("namespace"@, namespace@),
        ("project"@, project@),
        ("workflow_filepath"@, workflow@),
    ]);
    push_environment(&mut inner, environment);
    let inner_text = json_object_text(&inner);
    let mut outer: Vec<(&str, String)> = Vec::new();
    outer.push(("gitlab_config", inner_text));
    assert(members_view(outer@) =~= seq![("gitlab_config"@, inner_text@)]);
    json_object_text(&outer)
}

} // verus!
