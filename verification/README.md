# repro

Reproducible container image builder and OCI tarball analyzer, as a Verus-verified library
with a thin command-line program around it.

The builder drives Docker Buildx or Podman + BuildKit with `SOURCE_DATE_EPOCH` and
`rewrite-timestamp=true`; the analyzer walks the manifests of an OCI image tarball from
`index.json` and verifies the image digest.

## Layout

- `src/` — the verified library
  - `builder/config.rs` — the rules that turn parameters, environment variables and host
    paths (`HostFacts`) into a `BuildConfig`
  - `builder/strategy.rs` — the Docker and Podman command lines of a configuration
  - `builder/mod.rs` — `Builder`: the command plan and its execution through a runner
  - `builder/resolver.rs`, `builder/runner.rs` — runtime lookup and command execution interfaces
  - `builder/cmdline.rs`, `builder/parsers.rs` — argument vectors; integer, shell-word and
    date-time parsing (`std`, `shell_words`, `chrono`)
  - `oci.rs` — reading tarballs, finding files, digests, the depth-first manifest walk,
    digest verification, content summaries
  - `display.rs` — the lines of the analysis report
  - `testutil.rs` — synthetic OCI tarballs
  - `archive.rs`, `hashing.rs`, `paths.rs`, `text.rs` — `tar`, `flate2`, `sha2`, `hex`,
    `std::path` and string helpers
- `tests/` — tests of the library
- `app/` — the `repro` program: argument parsing (`clap`), environment and file system,
  child processes, JSON decoding of manifests (`serde_json`), logging (`tracing`)
