//! Contract tests for Builder integration (composition of its interfaces).

use repro::builder::{
    BuildError, BuildParams, Builder, CommandRunner, HostFacts, IdempotentRunner, MockResolver,
    MockRunner, RunError,
};

fn host(context: &str) -> HostFacts {
    HostFacts {
        env_runtime: None,
        env_datetime: None,
        env_source_date_epoch: None,
        env_cache: None,
        env_rootless: None,
        context: Ok(context.into()),
        file: Ok(String::new()),
        output: None,
        current_dir: Some("/work".into()),
    }
}

fn docker_params() -> BuildParams {
    BuildParams {
        context: "/tmp".into(),
        runtime: Some("docker".into()),
        source_date_epoch: Some(1700000000),
        ..Default::default()
    }
}

fn podman_params() -> BuildParams {
    BuildParams {
        context: "/tmp".into(),
        runtime: Some("podman".into()),
        source_date_epoch: Some(1700000000),
        ..Default::default()
    }
}

#[test]
fn c4_1_builder_docker_invokes_runner() {
    let resolver = MockResolver::new("/usr/bin/docker".into());
    let runner = MockRunner::new();
    let builder = Builder::with_deps(docker_params(), &host("/tmp"), &resolver, runner).unwrap();
    builder.build().unwrap();
    let cmds = builder.runner.commands();
    assert!(
        cmds.len() >= 2,
        "Docker builder should invoke at least 2 commands (create + build)"
    );
}

#[test]
fn c4_1_builder_podman_invokes_runner() {
    let resolver = MockResolver::new("/usr/bin/podman".into());
    let runner = MockRunner::new();
    let builder = Builder::with_deps(podman_params(), &host("/tmp"), &resolver, runner).unwrap();
    builder.build().unwrap();
    let cmds = builder.runner.commands();
    assert!(
        !cmds.is_empty(),
        "Podman builder should invoke at least 1 command"
    );
}

#[test]
fn c4_2_docker_create_before_build() {
    let resolver = MockResolver::new("/usr/bin/docker".into());
    let runner = MockRunner::new();
    let builder = Builder::with_deps(docker_params(), &host("/tmp"), &resolver, runner).unwrap();
    builder.build().unwrap();
    let cmds = builder.runner.commands();
    assert!(
        cmds[0].contains(&"create".to_string()),
        "first command should be create"
    );
    assert!(
        cmds[1].contains(&"build".to_string()),
        "second command should be build"
    );
}

#[test]
fn c4_3_runner_error_propagates() {
    struct FailRunner;
    impl CommandRunner for FailRunner {
        fn run(&self, _cmd: &[String]) -> Result<(), RunError> {
            Err(RunError { message: "simulated failure".into() })
        }
    }
    impl IdempotentRunner for FailRunner {
        fn run_no_check(&self, _cmd: &[String]) {}
    }

    let resolver = MockResolver::new("/usr/bin/podman".into());
    let builder = Builder::with_deps(podman_params(), &host("/tmp"), &resolver, FailRunner).unwrap();
    let result = builder.build();
    assert!(result.is_err());
    assert!(
        result
            .unwrap_err()
            .message()
            .contains("simulated failure")
    );
}

#[test]
fn c4_4_invalid_runtime_errors() {
    let resolver = MockResolver::new("/usr/bin/invalid".into());
    let runner = MockRunner::new();
    let params = BuildParams {
        context: "/tmp".into(),
        runtime: Some("invalid".into()),
        source_date_epoch: Some(0),
        ..Default::default()
    };
    let builder = Builder::with_deps(params, &host("/tmp"), &resolver, runner).unwrap();
    let result = builder.build();
    assert!(result.is_err());
}

// Beyond the contract list.

#[test]
fn invalid_runtime_error_names_it() {
    let resolver = MockResolver::new("/usr/bin/invalid".into());
    let params = BuildParams {
        runtime: Some("invalid".into()),
        ..Default::default()
    };
    let builder = Builder::with_deps(params, &host("/tmp"), &resolver, MockRunner::new()).unwrap();
    match builder.build() {
        Err(e @ BuildError::UnsupportedRuntime(_)) => {
            assert_eq!(e.message(), "unsupported runtime: invalid")
        }
        _ => panic!("expected an unsupported runtime error"),
    }
    assert!(builder.runner.commands().is_empty());
    assert!(builder.command_plan().is_err());
}

#[test]
fn build_runs_exactly_the_plan() {
    let resolver = MockResolver::new("/usr/bin/docker".into());
    let builder = Builder::with_deps(docker_params(), &host("/tmp"), &resolver, MockRunner::new()).unwrap();
    builder.build().unwrap();
    let plan: Vec<Vec<String>> = match builder.command_plan() {
        Ok(p) => p.into_iter().map(|c| c.args).collect(),
        Err(_) => panic!("docker has a plan"),
    };
    assert_eq!(builder.runner.commands(), plan);
}

#[test]
fn failing_setup_command_is_tolerated() {
    struct SetupFails;
    impl CommandRunner for SetupFails {
        fn run(&self, _cmd: &[String]) -> Result<(), RunError> {
            Ok(())
        }
    }
    impl IdempotentRunner for SetupFails {
        fn run_no_check(&self, _cmd: &[String]) {}
    }
    let resolver = MockResolver::new("/usr/bin/docker".into());
    let builder = Builder::with_deps(docker_params(), &host("/tmp"), &resolver, SetupFails).unwrap();
    assert!(builder.build().is_ok());
}
