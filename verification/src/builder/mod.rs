//! Reproducible container image builds: configuration, runtime commands, and their execution.
//!
//! - Interfaces: `CommandRunner`, `IdempotentRunner`, `RuntimeResolver`, `RuntimeStrategy`
//! - Adapters here: `DryRunner`, `MockRunner`, `WhichResolver`, `MockResolver` (the
//!   process-running adapter lives with the program, which does the I/O)
//! - Domain: `BuildConfig`, `BuildParams`, `HostFacts`, `resolve_config`
//! - Strategies: `DockerStrategy`, `PodmanStrategy`

pub mod cmdline;
pub mod config;
pub mod parsers;
pub mod resolver;
pub mod runner;
pub mod strategy;

pub use config::{BuildConfig, BuildParams, ConfigError, HostFacts};
pub use resolver::{MockResolver, ResolveError, ResolvedRuntime, RuntimeResolver, WhichResolver};
pub use runner::{CommandRunner, DryRunner, IdempotentRunner, MockRunner, RunError};
pub use strategy::{CommandSpec, DockerStrategy, PodmanStrategy, RuntimeStrategy};

use vstd::prelude::*;

use crate::builder::config::{is_docker, is_podman, resolution_outcome, resolve_config, resolver_outcome};
use crate::builder::strategy::{
    docker_build_args, docker_builder_name, docker_create_args, podman_buildctl_args,
    file_name_or_empty, podman_container_args, podman_output, sde_assignment, tag_suffix,
};
use crate::text::{has_part, has_part_concat, has_part_whole, str_eq};
use crate::builder::cmdline::{
    arg_has, arg_has_at, arg_has_concat, concat, joined_with_prefix, pairs_pass_values,
    prefixed_pairs_pass_values,
};

verus! {

/// Why a build did not complete.
#[derive(Debug)]
pub enum BuildError {
    /// The configured runtime is neither `docker` nor `podman`.
    UnsupportedRuntime(String),
    /// A command whose failure is not tolerated failed.
    Command(RunError),
}

impl BuildError {
    /// The error's message.
    pub fn message(&self) -> (r: String)
        ensures
            match self {
                BuildError::UnsupportedRuntime(n) => r@ == "unsupported runtime: "@ + n@,
                BuildError::Command(e) => r@ == e.message@,
            },
    {
        match self {
            BuildError::UnsupportedRuntime(n) => concat("unsupported runtime: ", n.as_str()),
            BuildError::Command(e) => e.message.clone(),
        }
    }
}

/// The commands a configuration runs, each with whether its failure is tolerated:
/// for Docker, `buildx create` (tolerated) then `buildx build`; for Podman, one
/// `podman run`; for any other runtime, none (`None`).
pub open spec fn planned_commands(c: BuildConfig) -> Option<Seq<(Seq<Seq<char>>, bool)>> {
    if is_docker(c.runtime@) {
        let name = docker_builder_name(c.buildkit_image@);
        Some(seq![(docker_create_args(c, name), true), (docker_build_args(c, name), false)])
    } else if is_podman(c.runtime@) {
        Some(seq![(podman_container_args(c) + podman_buildctl_args(c), false)])
    } else {
        None
    }
}

/// A command list seen as (arguments, failure tolerated) pairs.
pub open spec fn command_specs(v: Seq<CommandSpec>) -> Seq<(Seq<Seq<char>>, bool)> {
    v.map_values(|s: CommandSpec| (s.args.deep_view(), s.allow_failure))
}

/// The planned command `i` was handed to the runner without stopping the build: a
/// command whose failure is tolerated through `run_no_check`; any other through `run`,
/// which may answer it with success.
pub open spec fn command_handed<R: CommandRunner + IdempotentRunner>(b: &Builder<R>, i: int) -> bool {
    let p = planned_commands(b.config)->0;
    if p[i].1 {
        exists|a: &[String], u: ()| a.deep_view() == p[i].0 && #[trigger] call_ensures(R::run_no_check, (&b.runner, a), u)
    } else {
        exists|a: &[String], out: Result<(), RunError>|
            a.deep_view() == p[i].0 && out is Ok && #[trigger] call_ensures(R::run, (&b.runner, a), out)
    }
}

/// The first `k` planned commands were each handed to the runner without stopping the build.
pub open spec fn commands_succeeded<R: CommandRunner + IdempotentRunner>(b: &Builder<R>, k: int) -> bool {
    forall|i: int| 0 <= i < k ==> #[trigger] command_handed(b, i)
}

/// The build failed on a command: every planned command before it was handed to the runner
/// without stopping the build, and it is one whose failure is not tolerated, which the
/// runner may answer with this error.
pub open spec fn command_failed<R: CommandRunner + IdempotentRunner>(b: &Builder<R>, e: RunError) -> bool {
    exists|j: int, a: &[String]|
        0 <= j < planned_commands(b.config)->0.len() && !(#[trigger] planned_commands(b.config)->0[j]).1
            && commands_succeeded(b, j) && a.deep_view() == planned_commands(b.config)->0[j].0
            && #[trigger] call_ensures(R::run, (&b.runner, a), Err::<(), RunError>(e))
}

/// Orchestrates a reproducible build with injected dependencies.
pub struct Builder<R: CommandRunner> {
    pub config: BuildConfig,
    pub runner: R,
}

impl<R: CommandRunner + IdempotentRunner> Builder<R> {
    /// A builder with a custom runner and resolver, configured from the parameters and
    /// what the host says about them.
    pub fn with_deps<Q: RuntimeResolver>(params: BuildParams, facts: &HostFacts, resolver: &Q, runner: R) -> (r: Result<Self, ConfigError>)
        ensures
            match r {
                Ok(b) => b.runner == runner && resolution_outcome(params, *facts, Ok(b.config))
                    && resolver_outcome(params, *facts, resolver, Ok(b.config)),
                Err(e) => resolution_outcome(params, *facts, Err(e)) && resolver_outcome(params, *facts, resolver, Err(e)),
            },
    {
        match resolve_config(params, facts, resolver) {
            Ok(config) => Ok(Builder { config, runner }),
            Err(e) => Err(e),
        }
    }

    /// The commands the build runs, in order, by the configured runtime's strategy.
    pub fn command_plan(&self) -> (r: Result<Vec<CommandSpec>, BuildError>)
        ensures
            match planned_commands(self.config) {
                Some(p) => (r matches Ok(v) && command_specs(v@) == p),
                None => (r matches Err(BuildError::UnsupportedRuntime(n)) && n@ == self.config.runtime@),
            },
    {
        if str_eq(self.config.runtime.as_str(), "docker") {
            let v = DockerStrategy.build_commands(&self.config);
            assert(command_specs(v@) =~= planned_commands(self.config)->0);
            Ok(v)
        } else if str_eq(self.config.runtime.as_str(), "podman") {
            let v = PodmanStrategy.build_commands(&self.config);
            assert(command_specs(v@) =~= planned_commands(self.config)->0);
            Ok(v)
        } else {
            Err(BuildError::UnsupportedRuntime(self.config.runtime.clone()))
        }
    }

    /// Executes the reproducible build: runs the planned commands in order, those whose
    /// failure is tolerated through `run_no_check`, the others through `run`, stopping at the
    /// first `run` that fails and returning its error. Success means every planned command
    /// was handed to the runner so, each `run` answered with success; a command error is the
    /// answer of `run` to a command, every command before it having been handed over so.
    pub fn build(&self) -> (r: Result<(), BuildError>)
        ensures
            planned_commands(self.config) is None ==> (r matches Err(BuildError::UnsupportedRuntime(n))
                && n@ == self.config.runtime@),
            r is Ok ==> planned_commands(self.config) is Some,
            r matches Err(BuildError::UnsupportedRuntime(_)) ==> planned_commands(self.config) is None,
            r matches Err(BuildError::Command(e)) ==> command_failed(self, e),
            r is Ok ==> commands_succeeded(self, planned_commands(self.config)->0.len() as int),
    {
        let commands = self.command_plan()?;
        let mut i: usize = 0;
        while i < commands.len()
            invariant
                i <= commands.len(),
                planned_commands(self.config) == Some(command_specs(commands@)),
                commands_succeeded(self, i as int),
            decreases commands.len() - i,
        {
            let spec = &commands[i];
            if spec.allow_failure {
                let args = spec.args.as_slice();
                let u = self.runner.run_no_check(args);
                proof {
                    let p = planned_commands(self.config)->0;
                    assert(p[i as int] == (spec.args.deep_view(), spec.allow_failure));
                    assert(args.deep_view() =~= spec.args.deep_view());
                    assert(call_ensures(R::run_no_check, (&self.runner, args), u));
                    assert(command_handed(self, i as int));
                }
            } else {
                let args = spec.args.as_slice();
                let res = self.runner.run(args);
                assert(call_ensures(R::run, (&self.runner, args), res));
                match res {
                    Ok(()) => {
                        proof {
                            let p = planned_commands(self.config)->0;
                            assert(p[i as int] == (spec.args.deep_view(), spec.allow_failure));
                            assert(args.deep_view() =~= spec.args.deep_view());
                            assert(res is Ok);
                            assert(command_handed(self, i as int));
                        }
                    },
                    Err(e) => {
                        proof {
                            let p = planned_commands(self.config)->0;
                            assert(p[i as int] == (spec.args.deep_view(), spec.allow_failure));
                            assert(args.deep_view() =~= spec.args.deep_view());
                            assert(call_ensures(R::run, (&self.runner, args), Err::<(), RunError>(e)));
                            assert(0 <= i < p.len() && !p[i as int].1 && args.deep_view() == p[i as int].0);
                        }
                        return Err(BuildError::Command(e));
                    },
                }
            }
            i = i + 1;
        }
        Ok(())
    }
}

impl<R: CommandRunner + IdempotentRunner + Default> Builder<R> {
    /// A builder that looks runtimes up on `PATH` and runs commands with the runner's
    /// default value (`R::default()`; for the program, its process runner).
    pub fn new(params: BuildParams, facts: &HostFacts) -> (r: Result<Self, ConfigError>)
        ensures
            match r {
                Ok(b) => call_ensures(R::default, (), b.runner) && resolution_outcome(params, *facts, Ok(b.config))
                    && resolver_outcome(params, *facts, &WhichResolver, Ok(b.config)),
                Err(e) => resolution_outcome(params, *facts, Err(e))
                    && resolver_outcome(params, *facts, &WhichResolver, Err(e)),
            },
    {
        let runner = R::default();
        assert(call_ensures(R::default, (), runner));
        Builder::with_deps(params, facts, &WhichResolver, runner)
    }
}

impl Builder<DryRunner> {
    /// A builder that runs nothing (a dry run), configured with runtimes found on `PATH`.
    pub fn dry(params: BuildParams, facts: &HostFacts) -> (r: Result<Builder<DryRunner>, ConfigError>)
        ensures
            match r {
                Ok(b) => resolution_outcome(params, *facts, Ok(b.config))
                    && resolver_outcome(params, *facts, &WhichResolver, Ok(b.config)),
                Err(e) => resolution_outcome(params, *facts, Err(e))
                    && resolver_outcome(params, *facts, &WhichResolver, Err(e)),
            },
    {
        Builder::with_deps(params, facts, &WhichResolver, DryRunner)
    }
}

/// A dry run never fails on a command: the dry runner answers no command with an error,
/// so a build with it never ends in `BuildError::Command`.
pub proof fn dry_builds_never_fail_on_a_command(b: &Builder<DryRunner>, e: RunError)
    ensures
        !command_failed(b, e),
{
}

/// A recording runner answers no command with an error either, so a build with it never
/// ends in `BuildError::Command`.
pub proof fn recorded_builds_never_fail_on_a_command(b: &Builder<MockRunner>, e: RunError)
    ensures
        !command_failed(b, e),
{
}

/// Every command a build runs names its program: none is empty.
pub proof fn planned_commands_are_nonempty(c: BuildConfig)
    ensures
        planned_commands(c) matches Some(p) ==> forall|i: int| 0 <= i < p.len() ==> (#[trigger] p[i]).0.len() > 0,
{
}

/// For Docker the builder is created first (its failure tolerated), then the image is
/// built with it (its failure not tolerated).
pub proof fn docker_creates_builder_first(c: BuildConfig)
    requires
        is_docker(c.runtime@),
    ensures
        ({
            let p = planned_commands(c)->0;
            &&& p.len() == 2
            &&& p[0].1 && arg_has(p[0].0, "create"@)
            &&& !p[1].1 && arg_has(p[1].0, "build"@)
        }),
{
    let name = docker_builder_name(c.buildkit_image@);
    has_part_whole("create"@);
    has_part_whole("build"@);
    arg_has_at(docker_create_args(c, name), 2, "create"@);
    broadcast use arg_has_concat;
    let head = seq![
        c.runtime_path@,
        "buildx"@,
        "--builder"@,
        name,
        "build"@,
        "--build-arg"@,
        sde_assignment(c.source_date_epoch),
    ];
    arg_has_at(head, 4, "build"@);
}

/// The output options as the builds write them (Docker, then Podman) end with or contain
/// `rewrite-timestamp=true`.
proof fn output_rewrites_timestamps(c: BuildConfig)
    ensures
        has_part("type=docker,dest="@ + c.output@ + ",rewrite-timestamp=true"@, "rewrite-timestamp=true"@),
        has_part(podman_output(c), "rewrite-timestamp=true"@),
{
    let r = "rewrite-timestamp=true"@;
    let cr = ",rewrite-timestamp=true"@;
    assert(cr =~= ","@ + r) by {
        reveal_strlit(",rewrite-timestamp=true");
        reveal_strlit("rewrite-timestamp=true");
        reveal_strlit(",");
    }
    has_part_whole(r);
    has_part_concat(","@, r, r);
    has_part_concat("type=docker,dest="@ + c.output@, cr, r);
    let p = "type=docker,dest=/tmp/image/"@ + file_name_or_empty(c.output@);
    has_part_concat(p, cr, r);
    has_part_concat(p + cr, tag_suffix(c.tag.deep_view()), r);
    has_part_concat(p + cr + tag_suffix(c.tag.deep_view()), joined_with_prefix(",annotation."@, c.annotations.deep_view()), r);
}

/// Every build passes `SOURCE_DATE_EPOCH=<epoch>` and asks for the timestamps in the image
/// to be rewritten to it (`rewrite-timestamp=true`): the command that builds the image
/// carries both.
pub proof fn builds_pin_timestamps(c: BuildConfig)
    requires
        planned_commands(c) is Some,
    ensures
        arg_has(planned_commands(c)->0.last().0, sde_assignment(c.source_date_epoch)),
        arg_has(planned_commands(c)->0.last().0, "rewrite-timestamp=true"@),
{
    broadcast use arg_has_concat, has_part_concat;
    output_rewrites_timestamps(c);
    has_part_whole(sde_assignment(c.source_date_epoch));
    if is_docker(c.runtime@) {
        let name = docker_builder_name(c.buildkit_image@);
        let head = seq![
            c.runtime_path@,
            "buildx"@,
            "--builder"@,
            name,
            "build"@,
            "--build-arg"@,
            sde_assignment(c.source_date_epoch),
        ];
        arg_has_at(head, 6, sde_assignment(c.source_date_epoch));
        let out = seq![
            "--provenance"@,
            "false"@,
            "--output"@,
            "type=docker,dest="@ + c.output@ + ",rewrite-timestamp=true"@,
        ];
        arg_has_at(out, 3, "rewrite-timestamp=true"@);
    } else {
        let head = seq![
            "build"@,
            "--frontend"@,
            "dockerfile.v0"@,
            "--local"@,
            "context=/tmp/work"@,
            "--opt"@,
            "build-arg:"@ + sde_assignment(c.source_date_epoch),
        ];
        arg_has_at(head, 6, sde_assignment(c.source_date_epoch));
        arg_has_at(seq!["--output"@, podman_output(c)], 1, "rewrite-timestamp=true"@);
    }
}

/// A tag, when set, reaches the command that builds the image.
pub proof fn builds_pass_tag(c: BuildConfig)
    requires
        planned_commands(c) is Some,
        c.tag is Some,
    ensures
        arg_has(planned_commands(c)->0.last().0, c.tag->0@),
{
    broadcast use arg_has_concat, has_part_concat;
    let t = c.tag->0@;
    has_part_whole(t);
    if is_docker(c.runtime@) {
        arg_has_at(seq!["-t"@, t], 1, t);
    } else {
        assert(has_part(tag_suffix(c.tag.deep_view()), t));
        arg_has_at(seq!["--output"@, podman_output(c)], 1, t);
    }
}

/// Every build argument and every annotation reaches the command that builds the image.
pub proof fn builds_pass_args_and_annotations(c: BuildConfig)
    requires
        planned_commands(c) is Some,
    ensures
        forall|k: int| 0 <= k < c.build_args@.len() ==> arg_has(planned_commands(c)->0.last().0, #[trigger] c.build_args@[k]@),
        forall|k: int| 0 <= k < c.annotations@.len() ==> arg_has(planned_commands(c)->0.last().0, #[trigger] c.annotations@[k]@),
{
    broadcast use arg_has_concat, has_part_concat;
    assert forall|k: int| 0 <= k < c.build_args@.len() implies arg_has(planned_commands(c)->0.last().0, #[trigger] c.build_args@[k]@) by {
        assert(c.build_args.deep_view()[k] == c.build_args@[k]@);
        if is_docker(c.runtime@) {
            pairs_pass_values("--build-arg"@, c.build_args.deep_view(), k);
        } else {
            prefixed_pairs_pass_values("--opt"@, "build-arg:"@, c.build_args.deep_view(), k);
        }
    }
    assert forall|k: int| 0 <= k < c.annotations@.len() implies arg_has(planned_commands(c)->0.last().0, #[trigger] c.annotations@[k]@) by {
        assert(c.annotations.deep_view()[k] == c.annotations@[k]@);
        if is_docker(c.runtime@) {
            pairs_pass_values("--annotation"@, c.annotations.deep_view(), k);
        } else {
            joined_contains_values(",annotation."@, c.annotations.deep_view(), k);
            arg_has_at(seq!["--output"@, podman_output(c)], 1, c.annotations@[k]@);
        }
    }
}

/// Each value occurs in the values joined with a prefix.
proof fn joined_contains_values(prefix: Seq<char>, values: Seq<Seq<char>>, k: int)
    requires
        0 <= k < values.len(),
    ensures
        has_part(joined_with_prefix(prefix, values), values[k]),
    decreases values.len(),
{
    broadcast use has_part_concat;
    has_part_whole(values[k]);
    if k < values.len() - 1 {
        joined_contains_values(prefix, values.drop_last(), k);
        assert(values.drop_last()[k] == values[k]);
    }
}

/// With the cache off, a Docker build pulls fresh images and uses no cache.
pub proof fn docker_no_cache_pulls(c: BuildConfig)
    requires
        is_docker(c.runtime@),
        !c.use_cache,
    ensures
        arg_has(planned_commands(c)->0[1].0, "--no-cache"@),
        arg_has(planned_commands(c)->0[1].0, "--pull"@),
{
    broadcast use arg_has_concat;
    has_part_whole("--no-cache"@);
    has_part_whole("--pull"@);
    arg_has_at(seq!["--no-cache"@, "--pull"@], 0, "--no-cache"@);
    arg_has_at(seq!["--no-cache"@, "--pull"@], 1, "--pull"@);
}

} // verus!
