//! Which crate to operate on and which API token to send: the crate named on
//! the command line or in `Cargo.toml`, and the token from the environment or
//! from cargo's credentials file.

use vstd::prelude::*;
use crate::api::opt_string;

verus! {

/// What the `toml` crate reads from a document at `[section] key`: the
/// parser's message when the text is not a TOML table, `None` when the
/// section or the key is missing or the value is not a string, and the
/// string otherwise.
pub uninterp spec fn toml_string_at(text: Seq<char>, section: Seq<char>, key: Seq<char>) -> Result<
    Option<Seq<char>>,
    Seq<char>,
>;

/// The view of a lookup's result.
pub open spec fn lookup_view(r: Result<Option<String>, String>) -> Result<Option<Seq<char>>, Seq<char>> {
    match r {
        Ok(o) => Ok(opt_string(o)),
        Err(e) => Err(e@),
    }
}

/// Parses `text` as a `toml::Table` (its `FromStr`), then reads
/// `table.get(section)`, `Value::get(key)` and `Value::as_str` on what is
/// found. The contract claims that the result, with a parse error turned into
/// its `Display` text, is `toml_string_at` of the arguments; it says nothing
/// of what that is for any given text.
#[verifier::external_body]
fn toml_lookup(text: &str, section: &str, key: &str) -> (r: Result<Option<String>, String>)
    ensures
        lookup_view(r) == toml_string_at(text@, section@, key@),
{
    let table = match text.parse::<toml::Table>() {
        Ok(t) => t,
        Err(e) => return Err(e.to_string()),
    };
    let found = match table.get(section) {
        Some(s) => s.get(key),
        None => None,
    };
    Ok(found.and_then(toml::Value::as_str).map(String::from))
}

/// Why the crate's name could not be found.
#[derive(Debug)]
pub enum ManifestError {
    /// No crate was named and `Cargo.toml` could not be read.
    Unreadable,
    /// `Cargo.toml` is not valid TOML; the parser's message.
    Invalid(String),
    /// `Cargo.toml` has no string at `package.name`.
    MissingName,
}

/// The message shown for a manifest error.
pub open spec fn manifest_message(e: ManifestError) -> Seq<char> {
    match e {
        ManifestError::Unreadable =>
            "no `--crate` given and no `Cargo.toml` found in the current directory; pass `--crate <CRATE>`"@,
        ManifestError::Invalid(cause) => "failed to parse `Cargo.toml`: "@ + cause@,
        ManifestError::MissingName =>
            "could not find `package.name` in `Cargo.toml`; pass `--crate <CRATE>`"@,
    }
}

impl ManifestError {
    /// The message shown to the user for this error.
    pub fn message(&self) -> (m: String)
        ensures
            m@ == manifest_message(*self),
    {
        match self {
            ManifestError::Unreadable => String::from_str(
                "no `--crate` given and no `Cargo.toml` found in the current directory; pass `--crate <CRATE>`",
            ),
            ManifestError::Invalid(cause) => {
                let mut m = String::from_str("failed to parse `Cargo.toml`: ");
                m.append(cause.as_str());
                m
            },
            ManifestError::MissingName => String::from_str(
                "could not find `package.name` in `Cargo.toml`; pass `--crate <CRATE>`",
            ),
        }
    }
}

/// The crate name, or the error, that a lookup of `package.name` gives.
pub open spec fn crate_outcome(found: Result<Option<Seq<char>>, Seq<char>>, r: Result<
    String,
    ManifestError,
>) -> bool {
    match found {
        Err(cause) => r matches Err(ManifestError::Invalid(c)) && c@ == cause,
        Ok(None) => r matches Err(ManifestError::MissingName),
        Ok(Some(name)) => r matches Ok(n) && n@ == name,
    }
}

/// Turns the lookup of `package.name` in a `Cargo.toml` into the crate's name:
/// a parse failure is an invalid manifest, a missing string a missing name.
pub fn crate_from_lookup(found: Result<Option<String>, String>) -> (r: Result<String, ManifestError>)
    ensures
        crate_outcome(lookup_view(found), r),
{
    match found {
        Err(cause) => Err(ManifestError::Invalid(cause)),
        Ok(None) => Err(ManifestError::MissingName),
        Ok(Some(name)) => Ok(name),
    }
}

/// The crate to operate on: the one named with `--crate` when given, else the
/// package name in the text of `Cargo.toml`, which is `None` when the file
/// could not be read.
pub fn choose_crate(explicit: Option<String>, manifest: Option<String>) -> (r: Result<
    String,
    ManifestError,
>)
    ensures
        match explicit {
            Some(k) => r matches Ok(n) && n@ == k@,
            None => match manifest {
                None => r matches Err(ManifestError::Unreadable),
                Some(m) => crate_outcome(toml_string_at(m@, "package"@, "name"@), r),
            },
        },
{
    match explicit {
        Some(k) => Ok(k),
        None => match manifest {
            None => Err(ManifestError::Unreadable),
            Some(m) => crate_from_manifest(m.as_str()),
        },
    }
}

/// Reads the package name from the text of a `Cargo.toml`.
pub fn crate_from_manifest(manifest: &str) -> (r: Result<String, ManifestError>)
    ensures
        crate_outcome(toml_string_at(manifest@, "package"@, "name"@), r),
{
    crate_from_lookup(toml_lookup(manifest, "package", "name"))
}

/// The token that `CARGO_REGISTRY_TOKEN` gives: its value when it is set and
/// not empty, else none, so that the credentials file is consulted.
pub fn token_from_env(value: Option<String>) -> (t: Option<String>)
    ensures
        opt_string(t) == env_token(opt_string(value)),
{
    match value {
        Some(v) => if v.unicode_len() > 0 {
            Some(v)
        } else {
            None
        },
        None => None,
    }
}

/// The token a lookup of `[registry] token` gives: the string when there is
/// one, none when the text did not parse or has no such string.
pub open spec fn lookup_token(found: Result<Option<Seq<char>>, Seq<char>>) -> Option<Seq<char>> {
    match found {
        Ok(t) => t,
        Err(_) => None,
    }
}

/// Turns the lookup of `[registry] token` in a credentials file into a token.
pub fn token_from_lookup(found: Result<Option<String>, String>) -> (t: Option<String>)
    ensures
        opt_string(t) == lookup_token(lookup_view(found)),
{
    match found {
        Ok(t) => t,
        Err(_) => None,
    }
}

/// The token saved by `cargo login` in the text of a credentials file: the
/// string at `[registry] token`, or none when the text is not TOML or has no
/// such string.
pub fn credentials_token(contents: &str) -> (t: Option<String>)
    ensures
        opt_string(t) == lookup_token(toml_string_at(contents@, "registry"@, "token"@)),
{
    token_from_lookup(toml_lookup(contents, "registry", "token"))
}

/// The credentials files under cargo's home, in the order they are tried:
/// the current name first, then the legacy one.
pub fn credential_file_names() -> (names: Vec<&'static str>)
    ensures
        names@.map_values(|n: &str| n@) == seq!["credentials.toml"@, "credentials"@],
{
    let mut names: Vec<&'static str> = Vec::new();
    names.push("credentials.toml");
    names.push("credentials");
    assert(names@.map_values(|n: &str| n@) =~= seq!["credentials.toml"@, "credentials"@]);
    names
}

/// The token that `CARGO_REGISTRY_TOKEN` gives: its value when it is set and
/// not empty.
pub open spec fn env_token(value: Option<Seq<char>>) -> Option<Seq<char>> {
    match value {
        Some(v) => if v.len() > 0 {
            Some(v)
        } else {
            None
        },
        None => None,
    }
}

/// The token found in the credentials files read so far, in order: the first
/// file that could be read and holds a token gives it.
pub open spec fn files_token(files: Seq<Option<Seq<char>>>) -> Option<Seq<char>>
    decreases files.len(),
{
    if files.len() == 0 {
        None
    } else {
        match files[0] {
            Some(contents) => match lookup_token(toml_string_at(contents, "registry"@, "token"@)) {
                Some(t) => Some(t),
                None => files_token(files.drop_first()),
            },
            None => files_token(files.drop_first()),
        }
    }
}

/// The API token: the environment's when it is set and not empty, else the
/// one in the first credentials file that holds one, else none.
pub open spec fn resolved_token(env: Option<Seq<char>>, files: Seq<Option<Seq<char>>>) -> Option<
    Seq<char>,
> {
    match env_token(env) {
        Some(t) => Some(t),
        None => files_token(files),
    }
}

/// How the token is resolved when `CARGO_REGISTRY_TOKEN` gives none: the
/// credentials files are tried in order; a file that cannot be read, does not
/// parse, or parses without a string at `[registry] token` is passed over and
/// never hides a later file's token; the first file with such a string gives
/// it; with no file left there is no token. A set, non-empty environment
/// value wins over every file.
pub proof fn lemma_token_resolution(env: Option<Seq<char>>, files: Seq<Option<Seq<char>>>)
    ensures
        env is Some && env->0.len() > 0 ==> resolved_token(env, files) == env,
        !(env is Some && env->0.len() > 0) ==> resolved_token(env, files) == resolved_token(
            None,
            files,
        ),
        files.len() == 0 ==> resolved_token(None, files) is None,
        files.len() > 0 && files[0] is None ==> resolved_token(None, files) == resolved_token(
            None,
            files.drop_first(),
        ),
        files.len() > 0 && files[0] is Some ==> match toml_string_at(
            files[0]->0,
            "registry"@,
            "token"@,
        ) {
            Ok(Some(t)) => resolved_token(None, files) == Some(t),
            Ok(None) => resolved_token(None, files) == resolved_token(None, files.drop_first()),
            Err(_) => resolved_token(None, files) == resolved_token(None, files.drop_first()),
        },
{
}

/// The contents of the credentials files, `None` for one that could not be read.
pub open spec fn files_view(files: Seq<Option<String>>) -> Seq<Option<Seq<char>>> {
    files.map_values(|f: Option<String>| opt_string(f))
}

/// Resolves the API token from the value of `CARGO_REGISTRY_TOKEN` and the
/// contents of the credentials files, given in the order of
/// `credential_file_names`.
pub fn pick_token(env: Option<String>, files: Vec<Option<String>>) -> (t: Option<String>)
    ensures
        opt_string(t) == resolved_token(opt_string(env), files_view(files@)),
{
    let ghost env_view = opt_string(env);
    let from_env = token_from_env(env);
    if from_env.is_some() {
        return from_env;
    }
    let ghost all = files_view(files@);
    assert(all.skip(0) =~= all);
    let mut i: usize = 0;
    while i < files.len()
        invariant
            i <= files.len(),
            all == files_view(files@),
            env_token(env_view) is None,
            env_view == opt_string(env),
            files_token(all) == files_token(all.skip(i as int)),
        decreases files.len() - i,
    {
        assert(all.skip(i as int).drop_first() =~= all.skip(i + 1));
        assert(all.skip(i as int)[0] == opt_string(files@[i as int]));
        match &files[i] {
            Some(contents) => {
                let found = credentials_token(contents.as_str());
                if found.is_some() {
                    assert(all.skip(i as int)[0] == Some(contents@));
                    assert(files_token(all.skip(i as int)) == opt_string(found));
                    assert(env_view == opt_string(env));
                    assert(resolved_token(env_view, all) == opt_string(found));
                    return found;
                }
            },
            None => {},
        }
        i = i + 1;
    }
    assert(all.skip(files.len() as int).len() == 0);
    None
}

/// Where cargo's home is: the directory `CARGO_HOME` names, or the `.cargo`
/// directory under `HOME`.
#[derive(Debug)]
pub enum CargoHome<P> {
    Given(P),
    UnderHome(P),
}

/// Chooses cargo's home from the values of `CARGO_HOME` and `HOME`:
/// `CARGO_HOME` when it is set, else `.cargo` under `HOME` when that is set.
pub fn cargo_home<P>(explicit: Option<P>, home: Option<P>) -> (r: Option<CargoHome<P>>)
    ensures
        match explicit {
            Some(c) => r == Some(CargoHome::Given(c)),
            None => match home {
                Some(h) => r == Some(CargoHome::UnderHome(h)),
                None => r is None,
            },
        },
{
    match explicit {
        Some(c) => Some(CargoHome::Given(c)),
        None => match home {
            Some(h) => Some(CargoHome::UnderHome(h)),
            None => None,
        },
    }
}

} // verus!
