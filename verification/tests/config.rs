use repro::builder::config::{
    configure, resolve_buildkit_args, resolve_buildkit_image, resolve_buildx_args,
    resolve_config, resolve_rootless, resolve_runtime, resolve_sde, resolve_use_cache,
};
use repro::builder::{BuildParams, ConfigError, HostFacts, MockResolver, ResolvedRuntime};

fn host() -> HostFacts {
    HostFacts {
        env_runtime: None,
        env_datetime: None,
        env_source_date_epoch: None,
        env_cache: None,
        env_rootless: None,
        context: Ok("/work".into()),
        file: Ok(String::new()),
        output: None,
        current_dir: Some("/work".into()),
    }
}

// --- resolve_sde ---

#[test]
fn resolve_sde_from_epoch() {
    assert_eq!(resolve_sde(Some(1700000000), None, None, None).unwrap(), 1700000000);
}

#[test]
fn resolve_sde_from_rfc3339() {
    assert_eq!(
        resolve_sde(None, Some("2024-01-15T12:00:00Z"), None, None).unwrap(),
        1705320000
    );
}

#[test]
fn resolve_sde_from_iso_datetime() {
    assert_eq!(
        resolve_sde(None, Some("2024-01-15T12:00:00"), None, None).unwrap(),
        1705320000
    );
}

#[test]
fn resolve_sde_from_date_only() {
    assert_eq!(resolve_sde(None, Some("2024-01-15"), None, None).unwrap(), 1705276800);
}

#[test]
fn resolve_sde_both_set_is_error() {
    let result = resolve_sde(Some(100), Some("2024-01-15"), None, None);
    assert!(result.is_err());
    assert!(result.unwrap_err().message().contains("not both"));
}

#[test]
fn resolve_sde_neither_set_is_error() {
    assert!(resolve_sde(None, None, None, None).is_err());
}

#[test]
fn resolve_sde_invalid_datetime_is_error() {
    assert!(resolve_sde(None, Some("not-a-date"), None, None).is_err());
}

#[test]
fn resolve_sde_rfc3339_with_offset() {
    assert_eq!(
        resolve_sde(None, Some("2024-01-15T13:00:00+01:00"), None, None).unwrap(),
        1705320000
    );
}

#[test]
fn resolve_sde_from_environment() {
    assert_eq!(resolve_sde(None, None, Some("1234"), None).unwrap(), 1234);
    assert_eq!(resolve_sde(None, None, None, Some("1970-01-02")).unwrap(), 86400);
    // The flag wins over the variable of the same kind.
    assert_eq!(resolve_sde(Some(7), None, Some("1234"), None).unwrap(), 7);
    // A time flag wins over the variable of the other kind too.
    assert_eq!(resolve_sde(Some(7), None, None, Some("2024-01-15")).unwrap(), 7);
    assert_eq!(resolve_sde(None, Some("1970-01-02"), Some("1234"), None).unwrap(), 86400);
    // Both variables, with no flag, conflict.
    assert!(matches!(
        resolve_sde(None, None, Some("1"), Some("2024-01-15")),
        Err(ConfigError::EpochAndDatetime)
    ));
    // A variable that is not an integer counts as unset.
    assert!(matches!(
        resolve_sde(None, None, Some("12x"), None),
        Err(ConfigError::NoEpochOrDatetime)
    ));
}

#[test]
fn resolve_sde_error_messages() {
    assert_eq!(
        resolve_sde(None, Some("not-a-date"), None, None).unwrap_err().message(),
        "parsing datetime: not-a-date: input contains invalid characters"
    );
    assert_eq!(
        resolve_sde(None, None, None, None).unwrap_err().message(),
        "you must pass either --source-date-epoch or --datetime"
    );
}

// --- resolve_runtime ---

#[test]
fn resolve_runtime_with_mock_resolver() {
    let resolver = MockResolver::new("/usr/bin/docker".into());
    let r = resolve_runtime(Some("docker"), None, &resolver).unwrap();
    assert_eq!(r.name, "docker");
    assert_eq!(r.path, "/usr/bin/docker");
}

#[test]
fn resolve_runtime_fallback_order() {
    let resolver = MockResolver::new("/usr/bin/docker".into());
    let r = resolve_runtime(None, None, &resolver).unwrap();
    assert_eq!(r.name, "docker");
}

#[test]
fn resolve_runtime_from_environment() {
    let resolver = MockResolver::new("/usr/bin/podman".into());
    let r = resolve_runtime(None, Some("podman"), &resolver).unwrap();
    assert_eq!(r.name, "podman");
    let e = resolve_runtime(None, Some("rkt"), &resolver).unwrap_err();
    assert!(matches!(e, ConfigError::UnsupportedRuntimeEnv));
    assert_eq!(e.message(), "only 'docker' or 'podman' runtimes are supported");
    // The flag wins over the variable, even an invalid one.
    let r = resolve_runtime(Some("docker"), Some("rkt"), &resolver).unwrap();
    assert_eq!(r.name, "docker");
}

// --- resolve_use_cache ---

#[test]
fn resolve_use_cache_defaults_true() {
    assert!(resolve_use_cache(false, None));
}

#[test]
fn resolve_use_cache_no_cache_flag() {
    assert!(!resolve_use_cache(true, None));
}

#[test]
fn resolve_use_cache_from_environment() {
    assert!(!resolve_use_cache(false, Some("0")));
    assert!(resolve_use_cache(false, Some("1")));
    assert!(resolve_use_cache(false, Some("-3")));
    assert!(resolve_use_cache(false, Some("yes")));
    assert!(resolve_use_cache(false, Some(" 0")));
    assert!(!resolve_use_cache(true, Some("1")));
}

// --- resolve_rootless ---

#[test]
fn resolve_rootless_podman_ok() {
    assert!(resolve_rootless("podman", true, None).unwrap());
}

#[test]
fn resolve_rootless_docker_is_error() {
    assert!(resolve_rootless("docker", true, None).is_err());
}

#[test]
fn resolve_rootless_false_always_ok() {
    assert!(!resolve_rootless("docker", false, None).unwrap());
    assert!(!resolve_rootless("podman", false, None).unwrap());
}

#[test]
fn resolve_rootless_from_environment() {
    assert!(resolve_rootless("podman", false, Some("1")).unwrap());
    assert!(!resolve_rootless("podman", false, Some("0")).unwrap());
    let e = resolve_rootless("docker", false, Some("2")).unwrap_err();
    assert_eq!(e.message(), "rootless mode is only supported with Podman runtime");
}

// --- resolve_buildkit_image ---

#[test]
fn resolve_buildkit_image_default() {
    let img = resolve_buildkit_image(None, false, "docker");
    assert!(img.contains("moby/buildkit"));
    assert!(!img.starts_with("docker.io/"));
}

#[test]
fn resolve_buildkit_image_rootless_default() {
    let img = resolve_buildkit_image(None, true, "podman");
    assert!(img.contains("rootless"));
    assert!(img.starts_with("docker.io/"));
}

#[test]
fn resolve_buildkit_image_podman_adds_prefix() {
    let img = resolve_buildkit_image(Some("moby/buildkit:latest"), false, "podman");
    assert!(img.starts_with("docker.io/"));
}

#[test]
fn resolve_buildkit_image_custom_already_prefixed() {
    let img = resolve_buildkit_image(Some("docker.io/moby/buildkit:latest"), false, "podman");
    assert_eq!(img, "docker.io/moby/buildkit:latest");
}

#[test]
fn resolve_buildkit_image_exact_defaults() {
    assert_eq!(
        resolve_buildkit_image(None, false, "docker"),
        "moby/buildkit:v0.19.0@sha256:14aa1b4dd92ea0a4cd03a54d0c6079046ea98cd0c0ae6176bdd7036ba370cbbe"
    );
    assert_eq!(
        resolve_buildkit_image(None, false, "podman"),
        "docker.io/moby/buildkit:v0.19.0@sha256:14aa1b4dd92ea0a4cd03a54d0c6079046ea98cd0c0ae6176bdd7036ba370cbbe"
    );
    let once = resolve_buildkit_image(Some("moby/buildkit:latest"), true, "podman");
    assert_eq!(resolve_buildkit_image(Some(&once), true, "podman"), once);
}

// --- resolve_buildkit_args / resolve_buildx_args ---

#[test]
fn resolve_buildkit_args_empty() {
    assert!(resolve_buildkit_args(None, "podman").unwrap().is_empty());
    assert!(
        resolve_buildkit_args(Some(""), "podman")
            .unwrap()
            .is_empty()
    );
}

#[test]
fn resolve_buildkit_args_docker_is_error() {
    assert!(resolve_buildkit_args(Some("--foo"), "docker").is_err());
}

#[test]
fn resolve_buildkit_args_podman_splits() {
    let args = resolve_buildkit_args(Some("--foo --bar baz"), "podman").unwrap();
    assert_eq!(args, vec!["--foo", "--bar", "baz"]);
}

#[test]
fn resolve_buildx_args_empty() {
    assert!(resolve_buildx_args(None, "docker").unwrap().is_empty());
}

#[test]
fn resolve_buildx_args_podman_is_error() {
    assert!(resolve_buildx_args(Some("--foo"), "podman").is_err());
}

#[test]
fn resolve_buildx_args_docker_splits() {
    let args = resolve_buildx_args(Some("--foo bar"), "docker").unwrap();
    assert_eq!(args, vec!["--foo", "bar"]);
}

#[test]
fn resolve_extra_args_quoting() {
    let args = resolve_buildx_args(Some("--label 'a b' \"c d\""), "docker").unwrap();
    assert_eq!(args, vec!["--label", "a b", "c d"]);
    let e = resolve_buildx_args(Some("--label 'open"), "docker").unwrap_err();
    assert_eq!(e.message(), "parsing buildx args");
    let e = resolve_buildkit_args(Some("'open"), "podman").unwrap_err();
    assert_eq!(e.message(), "parsing buildkit args");
    let e = resolve_buildkit_args(Some("--x"), "docker").unwrap_err();
    assert_eq!(e.message(), "cannot specify BuildKit arguments with the Docker runtime");
    let e = resolve_buildx_args(Some("--x"), "podman").unwrap_err();
    assert_eq!(e.message(), "cannot specify Docker Buildx arguments with the Podman runtime");
}

// --- resolve_config / configure ---

#[test]
fn configure_fills_every_field() {
    let params = BuildParams {
        runtime: Some("podman".into()),
        rootless: true,
        source_date_epoch: None,
        datetime: Some("2024-01-15".into()),
        file: Some("Dockerfile".into()),
        output: Some("out.tar".into()),
        tag: Some("t:1".into()),
        build_args: vec!["A=1".into()],
        annotations: vec!["k=v".into()],
        platform: Some("linux/amd64".into()),
        buildkit_args: Some("--debug".into()),
        ..BuildParams::default()
    };
    let facts = HostFacts {
        file: Ok("/work/Dockerfile".into()),
        output: Some("/work/out.tar".into()),
        ..host()
    };
    let rt = ResolvedRuntime { name: "podman".into(), path: "/usr/bin/podman".into() };
    let c = configure(params, &facts, rt).unwrap();
    assert_eq!(c.runtime, "podman");
    assert_eq!(c.runtime_path, "/usr/bin/podman");
    assert!(c.rootless);
    assert!(c.buildkit_image.starts_with("docker.io/moby/buildkit:v0.19.0-rootless@"));
    assert_eq!(c.source_date_epoch, 1705276800);
    assert!(c.use_cache);
    assert_eq!(c.file.as_deref(), Some("/work/Dockerfile"));
    assert_eq!(c.output, "/work/out.tar");
    assert_eq!(c.tag.as_deref(), Some("t:1"));
    assert_eq!(c.build_args, vec!["A=1"]);
    assert_eq!(c.annotations, vec!["k=v"]);
    assert_eq!(c.platform.as_deref(), Some("linux/amd64"));
    assert_eq!(c.buildkit_args, vec!["--debug"]);
    assert!(c.buildx_args.is_empty());
}

#[test]
fn configure_path_errors() {
    let rt = || ResolvedRuntime { name: "docker".into(), path: "/usr/bin/docker".into() };
    let facts = HostFacts { context: Err("No such file or directory".into()), ..host() };
    let params = BuildParams { context: "missing".into(), ..BuildParams::default() };
    let e = configure(params, &facts, rt()).unwrap_err();
    assert_eq!(e.message(), "resolving context path: missing: No such file or directory");

    let facts = HostFacts { file: Err("No such file or directory".into()), ..host() };
    let params = BuildParams { file: Some("nofile".into()), ..BuildParams::default() };
    let e = configure(params, &facts, rt()).unwrap_err();
    assert_eq!(e.message(), "resolving file: nofile: No such file or directory");

    // An output that does not resolve is kept as given.
    let params = BuildParams { output: Some("rel/out.tar".into()), ..BuildParams::default() };
    let c = configure(params, &host(), rt()).unwrap();
    assert_eq!(c.output, "rel/out.tar");
}

#[test]
fn configure_checks_rules_in_order() {
    let rt = ResolvedRuntime { name: "docker".into(), path: "/usr/bin/docker".into() };
    // Rootless with Docker is reported before the conflicting epoch and the bad context.
    let params = BuildParams {
        rootless: true,
        datetime: Some("2024-01-15".into()),
        ..BuildParams::default()
    };
    let facts = HostFacts { context: Err("gone".into()), ..host() };
    let e = configure(params, &facts, rt).unwrap_err();
    assert!(matches!(e, ConfigError::RootlessNeedsPodman));
}

#[test]
fn resolve_config_uses_resolver_and_environment() {
    let resolver = MockResolver::new("/bin/podman".into());
    let facts = HostFacts { env_runtime: Some("podman".into()), env_cache: Some("0".into()), ..host() };
    let c = resolve_config(BuildParams::default(), &facts, &resolver).unwrap();
    assert_eq!(c.runtime, "podman");
    assert_eq!(c.runtime_path, "/bin/podman");
    assert!(!c.use_cache);
    assert!(c.buildkit_image.starts_with("docker.io/"));
    assert_eq!(c.source_date_epoch, 0);
}

#[test]
fn no_runtime_error_keeps_the_resolver_cause() {
    let e = ConfigError::NoRuntime(repro::builder::ResolveError { message: "podman not found on PATH".into() });
    assert_eq!(
        e.message(),
        "no container runtime (docker or podman) detected on your system: podman not found on PATH"
    );
}
