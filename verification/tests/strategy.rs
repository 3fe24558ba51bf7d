use repro::builder::{BuildConfig, DockerStrategy, PodmanStrategy, RuntimeStrategy};

fn test_config(runtime: &str) -> BuildConfig {
    BuildConfig {
        context: "/tmp/ctx".into(),
        runtime: runtime.into(),
        runtime_path: format!("/usr/bin/{runtime}"),
        rootless: false,
        buildkit_image: "moby/buildkit:latest".into(),
        source_date_epoch: 1700000000,
        use_cache: true,
        file: None,
        output: "/tmp/image.tar".into(),
        tag: Some("myapp:v1".into()),
        build_args: vec!["CI=true".into()],
        annotations: vec!["org.test=true".into()],
        platform: None,
        buildkit_args: vec![],
        buildx_args: vec![],
    }
}

#[test]
fn docker_strategy_produces_two_commands() {
    let cmds = DockerStrategy.build_commands(&test_config("docker"));
    assert_eq!(cmds.len(), 2);
    assert!(cmds[0].allow_failure);
    assert!(!cmds[1].allow_failure);
    assert!(cmds[0].args.contains(&"create".into()));
    assert!(cmds[1].args.contains(&"build".into()));
    assert!(
        cmds[1]
            .args
            .contains(&"SOURCE_DATE_EPOCH=1700000000".into())
    );
    assert!(cmds[1].args.contains(&"CI=true".into()));
    assert!(cmds[1].args.iter().any(|a| a.contains("myapp:v1")));
}

#[test]
fn podman_strategy_produces_one_command() {
    let config = test_config("podman");
    let cmds = PodmanStrategy.build_commands(&config);
    assert_eq!(cmds.len(), 1);
    assert!(!cmds[0].allow_failure);
    assert!(cmds[0].args.contains(&"run".into()));
    assert!(
        cmds[0]
            .args
            .iter()
            .any(|a| a.contains("build-arg:SOURCE_DATE_EPOCH=1700000000"))
    );
    assert!(cmds[0].args.iter().any(|a| a.contains("name=myapp:v1")));
}

// Exact command lines.

#[test]
fn docker_commands_exact() {
    let cmds = DockerStrategy.build_commands(&test_config("docker"));
    let name = format!(
        "repro-build-{}",
        repro::hashing::sha256_hex("moby/buildkit:latest".as_bytes())
    );
    assert_eq!(
        cmds[0].args,
        vec![
            "/usr/bin/docker",
            "buildx",
            "create",
            "--name",
            name.as_str(),
            "--driver-opt",
            "image=moby/buildkit:latest",
        ]
    );
    assert_eq!(
        cmds[1].args,
        vec![
            "/usr/bin/docker",
            "buildx",
            "--builder",
            name.as_str(),
            "build",
            "--build-arg",
            "SOURCE_DATE_EPOCH=1700000000",
            "--build-arg",
            "CI=true",
            "--annotation",
            "org.test=true",
            "--provenance",
            "false",
            "--output",
            "type=docker,dest=/tmp/image.tar,rewrite-timestamp=true",
            "-t",
            "myapp:v1",
            "/tmp/ctx",
        ]
    );
}

#[test]
fn docker_builder_name_is_sha256_of_image() {
    let cmds = DockerStrategy.build_commands(&test_config("docker"));
    // SHA-256 of "moby/buildkit:latest" in lowercase hex, 64 characters.
    let name = &cmds[0].args[4];
    assert!(name.starts_with("repro-build-"));
    let id = &name["repro-build-".len()..];
    assert_eq!(id.len(), 64);
    assert!(id.chars().all(|c| c.is_ascii_hexdigit() && !c.is_ascii_uppercase()));
}

#[test]
fn docker_all_options() {
    let mut c = test_config("docker");
    c.use_cache = false;
    c.file = Some("/tmp/ctx/Dockerfile".into());
    c.platform = Some("linux/arm64".into());
    c.buildx_args = vec!["--load".into()];
    c.source_date_epoch = -5;
    let cmds = DockerStrategy.build_commands(&c);
    let a = &cmds[1].args;
    let tail: Vec<&str> = a[a.len() - 12..].iter().map(|s| s.as_str()).collect();
    assert_eq!(
        tail,
        vec![
            "--output",
            "type=docker,dest=/tmp/image.tar,rewrite-timestamp=true",
            "--no-cache",
            "--pull",
            "-t",
            "myapp:v1",
            "-f",
            "/tmp/ctx/Dockerfile",
            "--platform",
            "linux/arm64",
            "--load",
            "/tmp/ctx",
        ]
    );
    assert!(a.contains(&"SOURCE_DATE_EPOCH=-5".into()));
}

#[test]
fn podman_command_exact() {
    let cmds = PodmanStrategy.build_commands(&test_config("podman"));
    assert_eq!(
        cmds[0].args,
        vec![
            "/usr/bin/podman",
            "run",
            "-it",
            "--rm",
            "-v",
            "buildkit_cache:/tmp/cache",
            "-v",
            "/tmp:/tmp/image",
            "-v",
            "/tmp/ctx:/tmp/work",
            "--entrypoint",
            "buildctl-daemonless.sh",
            "--privileged",
            "moby/buildkit:latest",
            "build",
            "--frontend",
            "dockerfile.v0",
            "--local",
            "context=/tmp/work",
            "--opt",
            "build-arg:SOURCE_DATE_EPOCH=1700000000",
            "--opt",
            "build-arg:CI=true",
            "--output",
            "type=docker,dest=/tmp/image/image.tar,rewrite-timestamp=true,name=myapp:v1,annotation.org.test=true",
            "--export-cache",
            "type=local,mode=max,dest=/tmp/cache",
            "--import-cache",
            "type=local,src=/tmp/cache",
            "--local",
            "dockerfile=/tmp/work",
        ]
    );
}

#[test]
fn podman_rootless_file_platform() {
    let mut c = test_config("podman");
    c.rootless = true;
    c.use_cache = false;
    c.tag = None;
    c.annotations = vec![];
    c.file = Some("/src/Dockerfile".into());
    c.platform = Some("linux/amd64".into());
    c.buildkit_args = vec!["--debug".into()];
    c.output = "image.tar".into();
    let cmds = PodmanStrategy.build_commands(&c);
    let a = &cmds[0].args;
    assert!(a.contains(&"keep-id:uid=1000,gid=1000".into()));
    assert!(a.contains(&"BUILDKITD_FLAGS=--oci-worker-no-process-sandbox".into()));
    assert!(!a.contains(&"--privileged".into()));
    assert!(a.contains(&"/src/Dockerfile:/tmp/Dockerfile".into()));
    assert!(a.contains(&"dockerfile=/tmp".into()));
    // A bare file name has an empty parent directory.
    assert!(a.contains(&":/tmp/image".into()));
    assert!(a.contains(&"type=docker,dest=/tmp/image/image.tar,rewrite-timestamp=true".into()));
    assert!(!a.contains(&"--export-cache".into()));
    let n = a.len();
    assert_eq!(&a[n - 3..], &["--opt".to_string(), "platform=linux/amd64".into(), "--debug".into()]);
}
