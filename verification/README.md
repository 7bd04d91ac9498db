# cargo-trustpub

Manage Trusted Publishing configuration for a crate on a registry (crates.io by
default): show whether Trusted Publishing is required and which GitHub and
GitLab configs exist, add or remove a config, and require Trusted Publishing
for new versions.

## Layout

- `src/` is the verified library.
  - `api.rs`: the requests sent to the registry's API (method, URL, query,
    headers, JSON body), and how an answer becomes a body or an error.
  - `json.rs`: the JSON bodies the API accepts, framed from JSON string texts.
  - `report.rs`: the status listing, the configs aggregated for JSON output,
    the confirmation messages and the context of a failed call.
  - `resolve.rs`: the crate name read from `Cargo.toml` and the API token from
    `CARGO_REGISTRY_TOKEN` or cargo's credentials file.
  - `text.rs`: decimal rendering, trimming trailing slashes, joining.
- `app/` is the `cargo trustpub` command: argument parsing, file and
  environment reads, the HTTP exchange, JSON decoding and printing.
- `tests/` exercise the library on concrete values.
