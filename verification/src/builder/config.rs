//! Build configuration types and the rules that resolve parameters into a configuration.

use vstd::prelude::*;

verus! {

/// Resolved build configuration (plain data). Paths are held as text.
#[derive(Debug)]
pub struct BuildConfig {
    pub context: String,
    pub runtime: String,
    pub runtime_path: String,
    pub rootless: bool,
    pub buildkit_image: String,
    pub source_date_epoch: i64,
    pub use_cache: bool,
    pub file: Option<String>,
    pub output: String,
    pub tag: Option<String>,
    pub build_args: Vec<String>,
    pub annotations: Vec<String>,
    pub platform: Option<String>,
    pub buildkit_args: Vec<String>,
    pub buildx_args: Vec<String>,
}

} // verus!

use super::parsers::{
    i32_value, i64_value, naive_date_outcome, naive_datetime_seconds, parse_i32, parse_i64,
    parse_naive_date, parse_naive_datetime, parse_rfc3339, rfc3339_seconds, shell_split,
    shell_words_of,
};
use super::resolver::{
    looked_up, resolution_of, MockResolver, ResolveError, ResolvedRuntime, RuntimeResolver,
    WhichResolver,
};
use super::cmdline::{concat, concat3};
use crate::paths::{path_join, path_join_of};
use crate::text::{has_prefix, starts_with, str_eq};

verus! {

/// The default BuildKit image (pinned by digest).
pub const DEFAULT_BUILDKIT_IMAGE: &'static str = "moby/buildkit:v0.19.0@sha256:14aa1b4dd92ea0a4cd03a54d0c6079046ea98cd0c0ae6176bdd7036ba370cbbe";

/// The default rootless BuildKit image (pinned by digest).
pub const DEFAULT_BUILDKIT_IMAGE_ROOTLESS: &'static str = "moby/buildkit:v0.19.0-rootless@sha256:e901cffdad753892a7c3afb8b9972549fca02c73888cf340c91ed801fdd96d71";

/// Input parameters before resolution.
pub struct BuildParams {
    pub context: String,
    pub runtime: Option<String>,
    pub source_date_epoch: Option<i64>,
    pub datetime: Option<String>,
    pub buildkit_image: Option<String>,
    pub no_cache: bool,
    pub rootless: bool,
    pub file: Option<String>,
    pub output: Option<String>,
    pub tag: Option<String>,
    pub build_args: Vec<String>,
    pub annotations: Vec<String>,
    pub platform: Option<String>,
    pub buildkit_args: Option<String>,
    pub buildx_args: Option<String>,
}

impl Default for BuildParams {
    /// Context `.`, epoch 0, everything else unset.
    fn default() -> (r: Self)
        ensures
            r.context@ == "."@,
            r.runtime is None,
            r.source_date_epoch == Some(0i64),
            r.datetime is None,
            r.buildkit_image is None,
            !r.no_cache,
            !r.rootless,
            r.file is None,
            r.output is None,
            r.tag is None,
            r.build_args@.len() == 0,
            r.annotations@.len() == 0,
            r.platform is None,
            r.buildkit_args is None,
            r.buildx_args is None,
    {
        BuildParams {
            context: String::from_str("."),
            runtime: None,
            source_date_epoch: Some(0),
            datetime: None,
            buildkit_image: None,
            no_cache: false,
            rootless: false,
            file: None,
            output: None,
            tag: None,
            build_args: Vec::new(),
            annotations: Vec::new(),
            platform: None,
            buildkit_args: None,
            buildx_args: None,
        }
    }
}

/// What the host says when a build is configured: the `REPRO_*` environment variables
/// (absent when unset or not Unicode) and the canonical forms of the paths in the parameters.
pub struct HostFacts {
    /// `REPRO_RUNTIME`
    pub env_runtime: Option<String>,
    /// `REPRO_DATETIME`
    pub env_datetime: Option<String>,
    /// `REPRO_SOURCE_DATE_EPOCH`
    pub env_source_date_epoch: Option<String>,
    /// `REPRO_CACHE`
    pub env_cache: Option<String>,
    /// `REPRO_ROOTLESS`
    pub env_rootless: Option<String>,
    /// The canonical build context, or why it does not resolve.
    pub context: Result<String, String>,
    /// The canonical Dockerfile path, or why it does not resolve (consulted when a file is given).
    pub file: Result<String, String>,
    /// The canonical output path, when it resolves (consulted when an output is given).
    pub output: Option<String>,
    /// The working directory, when it can be read.
    pub current_dir: Option<String>,
}

/// Why a configuration could not be resolved.
#[derive(Debug)]
pub enum ConfigError {
    /// The requested runtime could not be resolved.
    Runtime(ResolveError),
    /// `REPRO_RUNTIME` names neither `docker` nor `podman`.
    UnsupportedRuntimeEnv,
    /// Neither `docker` nor `podman` could be resolved.
    NoRuntime(ResolveError),
    /// Rootless mode was asked for with a runtime other than Podman.
    RootlessNeedsPodman,
    /// Both an epoch and a date-time were given.
    EpochAndDatetime,
    /// Neither an epoch nor a date-time was given.
    NoEpochOrDatetime,
    /// The date-time is in none of the accepted forms.
    InvalidDatetime(String, String),
    /// BuildKit arguments were given with a runtime other than Podman.
    BuildkitArgsNeedPodman,
    /// Buildx arguments were given with a runtime other than Docker.
    BuildxArgsNeedDocker,
    /// The BuildKit arguments leave a quote open.
    BuildkitArgsUnparsable,
    /// The Buildx arguments leave a quote open.
    BuildxArgsUnparsable,
    /// The build context does not resolve (the path, and why).
    Context(String, String),
    /// The Dockerfile does not resolve (the path, and why).
    File(String, String),
}

/// A configuration error, with its texts as character sequences.
pub ghost enum ConfigFailure {
    Runtime(Seq<char>),
    UnsupportedRuntimeEnv,
    NoRuntime(Seq<char>),
    RootlessNeedsPodman,
    EpochAndDatetime,
    NoEpochOrDatetime,
    InvalidDatetime(Seq<char>, Seq<char>),
    BuildkitArgsNeedPodman,
    BuildxArgsNeedDocker,
    BuildkitArgsUnparsable,
    BuildxArgsUnparsable,
    Context(Seq<char>, Seq<char>),
    File(Seq<char>, Seq<char>),
}

impl View for ConfigError {
    type V = ConfigFailure;

    open spec fn view(&self) -> ConfigFailure {
        match self {
            ConfigError::Runtime(e) => ConfigFailure::Runtime(e.message@),
            ConfigError::UnsupportedRuntimeEnv => ConfigFailure::UnsupportedRuntimeEnv,
            ConfigError::NoRuntime(e) => ConfigFailure::NoRuntime(e.message@),
            ConfigError::RootlessNeedsPodman => ConfigFailure::RootlessNeedsPodman,
            ConfigError::EpochAndDatetime => ConfigFailure::EpochAndDatetime,
            ConfigError::NoEpochOrDatetime => ConfigFailure::NoEpochOrDatetime,
            ConfigError::InvalidDatetime(d, cause) => ConfigFailure::InvalidDatetime(d@, cause@),
            ConfigError::BuildkitArgsNeedPodman => ConfigFailure::BuildkitArgsNeedPodman,
            ConfigError::BuildxArgsNeedDocker => ConfigFailure::BuildxArgsNeedDocker,
            ConfigError::BuildkitArgsUnparsable => ConfigFailure::BuildkitArgsUnparsable,
            ConfigError::BuildxArgsUnparsable => ConfigFailure::BuildxArgsUnparsable,
            ConfigError::Context(p, e) => ConfigFailure::Context(p@, e@),
            ConfigError::File(p, e) => ConfigFailure::File(p@, e@),
        }
    }
}

/// The message of a configuration error.
pub open spec fn failure_message(f: ConfigFailure) -> Seq<char> {
    match f {
        ConfigFailure::Runtime(m) => m,
        ConfigFailure::UnsupportedRuntimeEnv => "only 'docker' or 'podman' runtimes are supported"@,
        ConfigFailure::NoRuntime(m) => "no container runtime (docker or podman) detected on your system: "@ + m,
        ConfigFailure::RootlessNeedsPodman => "rootless mode is only supported with Podman runtime"@,
        ConfigFailure::EpochAndDatetime => "pass either --source-date-epoch or --datetime, not both"@,
        ConfigFailure::NoEpochOrDatetime => "you must pass either --source-date-epoch or --datetime"@,
        ConfigFailure::InvalidDatetime(d, cause) => "parsing datetime: "@ + d + ": "@ + cause,
        ConfigFailure::BuildkitArgsNeedPodman => "cannot specify BuildKit arguments with the Docker runtime"@,
        ConfigFailure::BuildxArgsNeedDocker => "cannot specify Docker Buildx arguments with the Podman runtime"@,
        ConfigFailure::BuildkitArgsUnparsable => "parsing buildkit args"@,
        ConfigFailure::BuildxArgsUnparsable => "parsing buildx args"@,
        ConfigFailure::Context(p, cause) => "resolving context path: "@ + p + ": "@ + cause,
        ConfigFailure::File(p, cause) => "resolving file: "@ + p + ": "@ + cause,
    }
}

impl ConfigError {
    /// The error's message.
    pub fn message(&self) -> (r: String)
        ensures
            r@ == failure_message(self@),
    {
        match self {
            ConfigError::Runtime(e) => e.message.clone(),
            ConfigError::UnsupportedRuntimeEnv => String::from_str("only 'docker' or 'podman' runtimes are supported"),
            ConfigError::NoRuntime(e) => concat("no container runtime (docker or podman) detected on your system: ", e.message.as_str()),
            ConfigError::RootlessNeedsPodman => String::from_str("rootless mode is only supported with Podman runtime"),
            ConfigError::EpochAndDatetime => String::from_str("pass either --source-date-epoch or --datetime, not both"),
            ConfigError::NoEpochOrDatetime => String::from_str("you must pass either --source-date-epoch or --datetime"),
            ConfigError::InvalidDatetime(d, cause) => {
                let mut m = concat3("parsing datetime: ", d.as_str(), ": ");
                m.append(cause.as_str());
                m
            },
            ConfigError::BuildkitArgsNeedPodman => String::from_str("cannot specify BuildKit arguments with the Docker runtime"),
            ConfigError::BuildxArgsNeedDocker => String::from_str("cannot specify Docker Buildx arguments with the Podman runtime"),
            ConfigError::BuildkitArgsUnparsable => String::from_str("parsing buildkit args"),
            ConfigError::BuildxArgsUnparsable => String::from_str("parsing buildx args"),
            ConfigError::Context(p, cause) => {
                let mut m = concat3("resolving context path: ", p.as_str(), ": ");
                m.append(cause.as_str());
                m
            },
            ConfigError::File(p, cause) => {
                let mut m = concat3("resolving file: ", p.as_str(), ": ");
                m.append(cause.as_str());
                m
            },
        }
    }
}

/// `true` for the text `"docker"`.
pub open spec fn is_docker(s: Seq<char>) -> bool {
    s == "docker"@
}

/// `true` for the text `"podman"`.
pub open spec fn is_podman(s: Seq<char>) -> bool {
    s == "podman"@
}

/// A boolean environment variable: a nonzero `i32` is true, zero is false, and
/// anything else (unset, not a number) gives the default.
pub open spec fn env_flag(v: Option<Seq<char>>, default: bool) -> bool {
    match v {
        Some(s) => match i32_value(s) {
            Some(n) => n != 0,
            None => default,
        },
        None => default,
    }
}

fn env_flag_value(v: Option<&str>, default: bool) -> (r: bool)
    ensures
        r == env_flag(v.deep_view(), default),
{
    match v {
        Some(s) => match parse_i32(s) {
            Some(n) => n != 0,
            None => default,
        },
        None => default,
    }
}

/// Whether the build cache is used.
pub open spec fn use_cache_rule(no_cache: bool, env_cache: Option<Seq<char>>) -> bool {
    !no_cache && env_flag(env_cache, true)
}

/// Whether to use the build cache: not with `--no-cache`, otherwise as `REPRO_CACHE`
/// says (a nonzero integer, or unset or not a number: yes; zero: no).
pub fn resolve_use_cache(no_cache: bool, env_cache: Option<&str>) -> (r: bool)
    ensures
        r == use_cache_rule(no_cache, env_cache.deep_view()),
{
    if no_cache {
        return false;
    }
    env_flag_value(env_cache, true)
}

/// Rootless mode is asked for by the flag or by `REPRO_ROOTLESS`; it needs Podman.
pub open spec fn rootless_outcome(runtime: Seq<char>, rootless: bool, env_rootless: Option<Seq<char>>) -> Result<bool, ConfigFailure> {
    let want = rootless || env_flag(env_rootless, false);
    if want && !is_podman(runtime) {
        Err(ConfigFailure::RootlessNeedsPodman)
    } else {
        Ok(want)
    }
}

/// Rootless mode: asked for by the flag or by `REPRO_ROOTLESS`, and only with Podman.
pub fn resolve_rootless(runtime: &str, rootless: bool, env_rootless: Option<&str>) -> (r: Result<bool, ConfigError>)
    ensures
        match rootless_outcome(runtime@, rootless, env_rootless.deep_view()) {
            Ok(b) => r == Ok::<bool, ConfigError>(b),
            Err(f) => (r matches Err(e) && e@ == f),
        },
{
    let want = rootless || env_flag_value(env_rootless, false);
    if !str_eq(runtime, "podman") && want {
        return Err(ConfigError::RootlessNeedsPodman);
    }
    Ok(want)
}

/// The Unix time a date-time denotes: RFC 3339, else `YYYY-MM-DDTHH:MM:SS` in UTC, else
/// `YYYY-MM-DD` at midnight UTC; when none fits, the last attempt's error text.
pub open spec fn datetime_seconds(d: Seq<char>) -> Result<int, Seq<char>> {
    match rfc3339_seconds(d) {
        Some(t) => Ok(t),
        None => match naive_datetime_seconds(d, "%Y-%m-%dT%H:%M:%S"@) {
            Some(t) => Ok(t),
            None => naive_date_outcome(d, "%Y-%m-%d"@),
        },
    }
}

/// Whether an epoch or a date-time is given on the command line; flags take precedence
/// over the environment, so the variables are then not read.
pub open spec fn time_flag_given(sde: Option<i64>, datetime: Option<Seq<char>>) -> bool {
    sde is Some || datetime is Some
}

/// The epoch given: by flag when a time flag is given, else by `REPRO_SOURCE_DATE_EPOCH`
/// (when it parses as `i64`).
pub open spec fn epoch_given(sde: Option<i64>, datetime: Option<Seq<char>>, env_sde: Option<Seq<char>>) -> Option<int> {
    if time_flag_given(sde, datetime) {
        match sde {
            Some(s) => Some(s as int),
            None => None,
        }
    } else {
        match env_sde {
            Some(e) => i64_value(e),
            None => None,
        }
    }
}

/// The date-time given: by flag when a time flag is given, else by `REPRO_DATETIME`.
pub open spec fn datetime_given(sde: Option<i64>, datetime: Option<Seq<char>>, env_datetime: Option<Seq<char>>) -> Option<Seq<char>> {
    if time_flag_given(sde, datetime) {
        datetime
    } else {
        env_datetime
    }
}

/// Exactly one of an epoch and a date-time must be given; a date-time is converted.
pub open spec fn sde_outcome(
    sde: Option<i64>,
    datetime: Option<Seq<char>>,
    env_sde: Option<Seq<char>>,
    env_datetime: Option<Seq<char>>,
) -> Result<int, ConfigFailure> {
    match (epoch_given(sde, datetime, env_sde), datetime_given(sde, datetime, env_datetime)) {
        (Some(v), None) => Ok(v),
        (None, Some(d)) => match datetime_seconds(d) {
            Ok(t) => Ok(t),
            Err(cause) => Err(ConfigFailure::InvalidDatetime(d, cause)),
        },
        (Some(_), Some(_)) => Err(ConfigFailure::EpochAndDatetime),
        (None, None) => Err(ConfigFailure::NoEpochOrDatetime),
    }
}

fn datetime_value(d: &str) -> (r: Result<i64, String>)
    ensures
        r matches Ok(t) ==> datetime_seconds(d@) == Ok::<int, Seq<char>>(t as int),
        r matches Err(m) ==> datetime_seconds(d@) == Err::<int, Seq<char>>(m@),
{
    match parse_rfc3339(d) {
        Some(t) => Ok(t),
        None => match parse_naive_datetime(d, "%Y-%m-%dT%H:%M:%S") {
            Some(t) => Ok(t),
            None => parse_naive_date(d, "%Y-%m-%d"),
        },
    }
}

/// The `SOURCE_DATE_EPOCH`: exactly one of an epoch and a date-time must be given, by
/// flags when any time flag is given, else by the environment variables; a date-time is
/// converted.
pub fn resolve_sde(
    sde: Option<i64>,
    datetime: Option<&str>,
    env_sde: Option<&str>,
    env_datetime: Option<&str>,
) -> (r: Result<i64, ConfigError>)
    ensures
        match sde_outcome(sde, datetime.deep_view(), env_sde.deep_view(), env_datetime.deep_view()) {
            Ok(v) => (r matches Ok(x) && x as int == v),
            Err(f) => (r matches Err(e) && e@ == f),
        },
{
    let flags = sde.is_some() || datetime.is_some();
    let epoch = if flags {
        sde
    } else {
        match env_sde {
            Some(e) => parse_i64(e),
            None => None,
        }
    };
    let dt = if flags {
        datetime
    } else {
        env_datetime
    };
    match (epoch, dt) {
        (Some(s), None) => Ok(s),
        (None, Some(d)) => match datetime_value(d) {
            Ok(t) => Ok(t),
            Err(cause) => Err(ConfigError::InvalidDatetime(String::from_str(d), cause)),
        },
        (Some(_), Some(_)) => Err(ConfigError::EpochAndDatetime),
        (None, None) => Err(ConfigError::NoEpochOrDatetime),
    }
}

/// The BuildKit image: the one given, or the (rootless) default; with Podman or in
/// rootless mode it is qualified with `docker.io/` unless it already is.
pub open spec fn buildkit_image_rule(image: Option<Seq<char>>, rootless: bool, runtime: Seq<char>) -> Seq<char> {
    let img = match image {
        Some(i) => i,
        None => if rootless {
            DEFAULT_BUILDKIT_IMAGE_ROOTLESS@
        } else {
            DEFAULT_BUILDKIT_IMAGE@
        },
    };
    if (rootless || is_podman(runtime)) && !starts_with(img, "docker.io/"@) {
        "docker.io/"@ + img
    } else {
        img
    }
}

/// The BuildKit image to run, qualified for Podman and rootless mode.
pub fn resolve_buildkit_image(image: Option<&str>, rootless: bool, runtime: &str) -> (r: String)
    ensures
        r@ == buildkit_image_rule(image.deep_view(), rootless, runtime@),
{
    let img = match image {
        Some(i) => i,
        None => if rootless {
            DEFAULT_BUILDKIT_IMAGE_ROOTLESS
        } else {
            DEFAULT_BUILDKIT_IMAGE
        },
    };
    if (rootless || str_eq(runtime, "podman")) && !has_prefix(img, "docker.io/") {
        concat("docker.io/", img)
    } else {
        String::from_str(img)
    }
}

/// Extra runtime arguments: none when absent or empty; otherwise only with the runtime
/// they are for (`allowed`), split into shell words.
pub open spec fn extra_args_outcome(
    args: Option<Seq<char>>,
    allowed: bool,
    wrong_runtime: ConfigFailure,
    unparsable: ConfigFailure,
) -> Result<Seq<Seq<char>>, ConfigFailure> {
    match args {
        None => Ok(seq![]),
        Some(a) => if a.len() == 0 {
            Ok(seq![])
        } else if !allowed {
            Err(wrong_runtime)
        } else {
            match shell_words_of(a) {
                Some(w) => Ok(w),
                None => Err(unparsable),
            }
        },
    }
}

/// What the extra BuildKit arguments resolve to.
pub open spec fn buildkit_args_outcome(args: Option<Seq<char>>, runtime: Seq<char>) -> Result<Seq<Seq<char>>, ConfigFailure> {
    extra_args_outcome(args, is_podman(runtime), ConfigFailure::BuildkitArgsNeedPodman, ConfigFailure::BuildkitArgsUnparsable)
}

/// What the extra Buildx arguments resolve to.
pub open spec fn buildx_args_outcome(args: Option<Seq<char>>, runtime: Seq<char>) -> Result<Seq<Seq<char>>, ConfigFailure> {
    extra_args_outcome(args, is_docker(runtime), ConfigFailure::BuildxArgsNeedDocker, ConfigFailure::BuildxArgsUnparsable)
}

/// Extra BuildKit arguments: none when absent or empty; otherwise only with Podman, split
/// into shell words.
pub fn resolve_buildkit_args(args: Option<&str>, runtime: &str) -> (r: Result<Vec<String>, ConfigError>)
    ensures
        match buildkit_args_outcome(args.deep_view(), runtime@) {
            Ok(w) => (r matches Ok(v) && v.deep_view() == w),
            Err(f) => (r matches Err(e) && e@ == f),
        },
{
    match args {
        None => {
            let v: Vec<String> = Vec::new();
            assert(v.deep_view() =~= seq![]);
            Ok(v)
        },
        Some(a) => {
            if a.is_empty() {
                let v: Vec<String> = Vec::new();
                assert(v.deep_view() =~= seq![]);
                return Ok(v);
            }
            if !str_eq(runtime, "podman") {
                return Err(ConfigError::BuildkitArgsNeedPodman);
            }
            match shell_split(a) {
                Some(w) => Ok(w),
                None => Err(ConfigError::BuildkitArgsUnparsable),
            }
        },
    }
}

/// Extra Buildx arguments: none when absent or empty; otherwise only with Docker, split
/// into shell words.
pub fn resolve_buildx_args(args: Option<&str>, runtime: &str) -> (r: Result<Vec<String>, ConfigError>)
    ensures
        match buildx_args_outcome(args.deep_view(), runtime@) {
            Ok(w) => (r matches Ok(v) && v.deep_view() == w),
            Err(f) => (r matches Err(e) && e@ == f),
        },
{
    match args {
        None => {
            let v: Vec<String> = Vec::new();
            assert(v.deep_view() =~= seq![]);
            Ok(v)
        },
        Some(a) => {
            if a.is_empty() {
                let v: Vec<String> = Vec::new();
                assert(v.deep_view() =~= seq![]);
                return Ok(v);
            }
            if !str_eq(runtime, "docker") {
                return Err(ConfigError::BuildxArgsNeedDocker);
            }
            match shell_split(a) {
                Some(w) => Ok(w),
                None => Err(ConfigError::BuildxArgsUnparsable),
            }
        },
    }
}

/// The resolver may answer the runtime name with an error.
pub open spec fn refused<Q: RuntimeResolver>(resolver: &Q, name: Seq<char>) -> bool {
    exists|n: &str, e: ResolveError|
        n@ == name && #[trigger] call_ensures(Q::resolve, (resolver, n), Err::<ResolvedRuntime, ResolveError>(e))
}

/// The resolver was asked for the name and may give this answer (a possible outcome of
/// its `resolve` for that name).
pub open spec fn answered<Q: RuntimeResolver>(resolver: &Q, name: Seq<char>, out: Result<ResolvedRuntime, ResolveError>) -> bool {
    exists|n: &str| n@ == name && #[trigger] call_ensures(Q::resolve, (resolver, n), out)
}

/// What resolving one chosen runtime name gives: the resolver's answer for it, unchanged
/// (its error as `ConfigError::Runtime`).
pub open spec fn resolved_as<Q: RuntimeResolver>(resolver: &Q, name: Seq<char>, r: Result<ResolvedRuntime, ConfigError>) -> bool {
    &&& r matches Ok(rt) ==> rt.name@ == name && answered(resolver, name, Ok(rt))
    &&& r is Err ==> (r matches Err(ConfigError::Runtime(e)) && answered(resolver, name, Err(e)))
}

/// Resolves the runtime: the one asked for; else `REPRO_RUNTIME`, which must be `docker` or
/// `podman`; else `docker`, falling back to `podman`. The resolver's answer for the chosen
/// name is returned unchanged; it decides whether a name resolves.
pub fn resolve_runtime<Q: RuntimeResolver>(
    runtime: Option<&str>,
    env_runtime: Option<&str>,
    resolver: &Q,
) -> (r: Result<ResolvedRuntime, ConfigError>)
    ensures
        match runtime.deep_view() {
            Some(n) => resolved_as(resolver, n, r),
            None => match env_runtime.deep_view() {
                Some(e) => if !is_docker(e) && !is_podman(e) {
                    (r matches Err(ConfigError::UnsupportedRuntimeEnv))
                } else {
                    resolved_as(resolver, e, r)
                },
                None => (r matches Ok(rt) ==> (is_docker(rt.name@) && answered(resolver, "docker"@, Ok(rt))) || (
                is_podman(rt.name@) && refused(resolver, "docker"@) && answered(resolver, "podman"@, Ok(rt))))
                    && (r is Err ==> (r matches Err(ConfigError::NoRuntime(e)) && refused(resolver, "docker"@)
                    && answered(resolver, "podman"@, Err(e)))),
            },
        },
{
    if let Some(n) = runtime {
        let res = resolver.resolve(n);
        assert(call_ensures(Q::resolve, (resolver, n), res));
        return match res {
            Ok(rt) => Ok(rt),
            Err(e) => Err(ConfigError::Runtime(e)),
        };
    }
    if let Some(n) = env_runtime {
        if !str_eq(n, "docker") && !str_eq(n, "podman") {
            return Err(ConfigError::UnsupportedRuntimeEnv);
        }
        let res = resolver.resolve(n);
        assert(call_ensures(Q::resolve, (resolver, n), res));
        return match res {
            Ok(rt) => Ok(rt),
            Err(e) => Err(ConfigError::Runtime(e)),
        };
    }
    let docker = "docker";
    let podman = "podman";
    let first = resolver.resolve(docker);
    assert(call_ensures(Q::resolve, (resolver, docker), first));
    match first {
        Ok(rt) => Ok(rt),
        Err(de) => {
            assert(call_ensures(Q::resolve, (resolver, docker), Err::<ResolvedRuntime, ResolveError>(de)));
            let second = resolver.resolve(podman);
            assert(call_ensures(Q::resolve, (resolver, podman), second));
            match second {
                Ok(rt) => Ok(rt),
                Err(e) => Err(ConfigError::NoRuntime(e)),
            }
        },
    }
}

/// Whether the rootless setting the parameters and the host give.
pub open spec fn rootless_wanted(params: BuildParams, facts: HostFacts) -> bool {
    params.rootless || env_flag(facts.env_rootless.deep_view(), false)
}

/// The first rule a configuration breaks, checked in order: rootless mode, the epoch,
/// the BuildKit arguments, the Buildx arguments, the context path, the Dockerfile path.
pub open spec fn config_failure(params: BuildParams, facts: HostFacts, runtime: Seq<char>) -> Option<ConfigFailure> {
    let sde = sde_outcome(
        params.source_date_epoch,
        params.datetime.deep_view(),
        facts.env_source_date_epoch.deep_view(),
        facts.env_datetime.deep_view(),
    );
    let buildkit = buildkit_args_outcome(params.buildkit_args.deep_view(), runtime);
    let buildx = buildx_args_outcome(params.buildx_args.deep_view(), runtime);
    if rootless_outcome(runtime, params.rootless, facts.env_rootless.deep_view()) is Err {
        Some(ConfigFailure::RootlessNeedsPodman)
    } else if sde is Err {
        Some(sde->Err_0)
    } else if buildkit is Err {
        Some(buildkit->Err_0)
    } else if buildx is Err {
        Some(buildx->Err_0)
    } else if facts.context is Err {
        Some(ConfigFailure::Context(params.context@, facts.context->Err_0@))
    } else if params.file is Some && facts.file is Err {
        Some(ConfigFailure::File(params.file->0@, facts.file->Err_0@))
    } else {
        None
    }
}

/// The output path: the given one in canonical form when it resolves, else as given;
/// without one, `image.tar` in the working directory (or in `.`).
pub open spec fn output_rule(params: BuildParams, facts: HostFacts) -> Seq<char> {
    match params.output {
        Some(o) => match facts.output {
            Some(c) => c@,
            None => o@,
        },
        None => path_join_of(
            match facts.current_dir {
                Some(d) => d@,
                None => "."@,
            },
            "image.tar"@,
        ),
    }
}

/// The configuration a resolved runtime, the parameters and the host facts give, when no
/// rule is broken (see `config_failure`).
pub open spec fn configured(c: BuildConfig, params: BuildParams, facts: HostFacts, runtime: ResolvedRuntime) -> bool {
    let rootless = rootless_wanted(params, facts);
    &&& c.runtime@ == runtime.name@
    &&& c.runtime_path@ == runtime.path@
    &&& c.rootless == rootless
    &&& c.buildkit_image@ == buildkit_image_rule(params.buildkit_image.deep_view(), rootless, runtime.name@)
    &&& c.source_date_epoch as int == sde_outcome(
        params.source_date_epoch,
        params.datetime.deep_view(),
        facts.env_source_date_epoch.deep_view(),
        facts.env_datetime.deep_view(),
    )->Ok_0
    &&& c.use_cache == use_cache_rule(params.no_cache, facts.env_cache.deep_view())
    &&& c.buildkit_args.deep_view() == buildkit_args_outcome(params.buildkit_args.deep_view(), runtime.name@)->Ok_0
    &&& c.buildx_args.deep_view() == buildx_args_outcome(params.buildx_args.deep_view(), runtime.name@)->Ok_0
    &&& c.context@ == facts.context->Ok_0@
    &&& c.file.deep_view() == (match params.file {
        Some(_) => Some(facts.file->Ok_0@),
        None => None,
    })
    &&& c.output@ == output_rule(params, facts)
    &&& c.tag.deep_view() == params.tag.deep_view()
    &&& c.build_args.deep_view() == params.build_args.deep_view()
    &&& c.annotations.deep_view() == params.annotations.deep_view()
    &&& c.platform.deep_view() == params.platform.deep_view()
}

/// Builds the configuration for a resolved runtime: checks the rules in order and, when
/// none is broken, fills every field.
pub fn configure(params: BuildParams, facts: &HostFacts, runtime: ResolvedRuntime) -> (r: Result<BuildConfig, ConfigError>)
    ensures
        match config_failure(params, *facts, runtime.name@) {
            Some(f) => (r matches Err(e) && e@ == f),
            None => (r matches Ok(c) && configured(c, params, *facts, runtime)),
        },
{
    let rootless = resolve_rootless(
        runtime.name.as_str(),
        params.rootless,
        match &facts.env_rootless {
            Some(v) => Some(v.as_str()),
            None => None,
        },
    )?;
    let buildkit_image = resolve_buildkit_image(
        match &params.buildkit_image {
            Some(v) => Some(v.as_str()),
            None => None,
        },
        rootless,
        runtime.name.as_str(),
    );
    let source_date_epoch = resolve_sde(
        params.source_date_epoch,
        match &params.datetime {
            Some(v) => Some(v.as_str()),
            None => None,
        },
        match &facts.env_source_date_epoch {
            Some(v) => Some(v.as_str()),
            None => None,
        },
        match &facts.env_datetime {
            Some(v) => Some(v.as_str()),
            None => None,
        },
    )?;
    let use_cache = resolve_use_cache(
        params.no_cache,
        match &facts.env_cache {
            Some(v) => Some(v.as_str()),
            None => None,
        },
    );
    let buildkit_args = resolve_buildkit_args(
        match &params.buildkit_args {
            Some(v) => Some(v.as_str()),
            None => None,
        },
        runtime.name.as_str(),
    )?;
    let buildx_args = resolve_buildx_args(
        match &params.buildx_args {
            Some(v) => Some(v.as_str()),
            None => None,
        },
        runtime.name.as_str(),
    )?;
    let context = match &facts.context {
        Ok(c) => c.clone(),
        Err(e) => {
            return Err(ConfigError::Context(params.context.clone(), e.clone()));
        },
    };
    let file = match &params.file {
        Some(f) => match &facts.file {
            Ok(c) => Some(c.clone()),
            Err(e) => {
                return Err(ConfigError::File(f.clone(), e.clone()));
            },
        },
        None => None,
    };
    let output = match &params.output {
        Some(o) => match &facts.output {
            Some(c) => c.clone(),
            None => o.clone(),
        },
        None => match &facts.current_dir {
            Some(d) => path_join(d.as_str(), "image.tar"),
            None => path_join(".", "image.tar"),
        },
    };
    let config = BuildConfig {
        context,
        runtime: runtime.name,
        runtime_path: runtime.path,
        rootless,
        buildkit_image,
        source_date_epoch,
        use_cache,
        file,
        output,
        tag: params.tag,
        build_args: params.build_args,
        annotations: params.annotations,
        platform: params.platform,
        buildkit_args,
        buildx_args,
    };
    Ok(config)
}

/// The runtime the parameters or `REPRO_RUNTIME` ask for (`None`: Docker or Podman,
/// whichever resolves first).
pub open spec fn requested_runtime(params: BuildParams, facts: HostFacts) -> Option<Seq<char>> {
    match params.runtime.deep_view() {
        Some(n) => Some(n),
        None => facts.env_runtime.deep_view(),
    }
}

/// Whether a runtime of this name may be the one resolved for the parameters.
pub open spec fn runtime_candidate(params: BuildParams, facts: HostFacts, name: Seq<char>) -> bool {
    match requested_runtime(params, facts) {
        Some(n) => name == n,
        None => is_docker(name) || is_podman(name),
    }
}

/// The errors that finding the runtime may give: the resolver's error for a runtime asked
/// for, the refusal of a `REPRO_RUNTIME` that names neither Docker nor Podman, or the
/// resolver's error when neither could be detected.
pub open spec fn resolution_failure(params: BuildParams, facts: HostFacts, f: ConfigFailure) -> bool {
    match params.runtime.deep_view() {
        Some(_) => f is Runtime,
        None => match facts.env_runtime.deep_view() {
            Some(e) => if !is_docker(e) && !is_podman(e) {
                f is UnsupportedRuntimeEnv
            } else {
                f is Runtime
            },
            None => f is NoRuntime,
        },
    }
}

/// What resolving a configuration may give. The resolver decides whether (and to what
/// path) a runtime resolves; all else follows: a configuration is that of `configure` for
/// a candidate runtime that breaks no rule, and an error is a resolution error or the
/// first rule that a candidate runtime breaks. `REPRO_RUNTIME` naming neither Docker nor
/// Podman is refused (when no runtime is given).
pub open spec fn resolution_outcome(params: BuildParams, facts: HostFacts, r: Result<BuildConfig, ConfigError>) -> bool {
    &&& r matches Ok(c) ==> runtime_candidate(params, facts, c.runtime@)
        && config_failure(params, facts, c.runtime@) is None
        && configured(c, params, facts, ResolvedRuntime { name: c.runtime, path: c.runtime_path })
    &&& r matches Err(e) ==> resolution_failure(params, facts, e@) || exists|n: Seq<char>|
        runtime_candidate(params, facts, n) && config_failure(params, facts, n) == Some(e@)
    &&& (params.runtime is None && (facts.env_runtime.deep_view() matches Some(e) && !is_docker(e)
        && !is_podman(e))) ==> (r matches Err(ConfigError::UnsupportedRuntimeEnv))
}

/// How a configuration follows from the resolver's answers: a configuration's runtime and
/// path are what the resolver answered for its name; `Runtime(e)` is the resolver's answer
/// for the runtime asked for; `NoRuntime(e)` comes, when none is asked for, after the
/// resolver may refuse Docker and answered Podman with `e`; the error of a rule is that of
/// a candidate runtime the resolver answered; and, when none is asked for, Podman is
/// chosen only when the resolver may refuse Docker.
pub open spec fn resolver_outcome<Q: RuntimeResolver>(
    params: BuildParams,
    facts: HostFacts,
    resolver: &Q,
    r: Result<BuildConfig, ConfigError>,
) -> bool {
    &&& r matches Ok(c) ==> exists|rt: ResolvedRuntime|
        #[trigger] answered(resolver, c.runtime@, Ok(rt)) && rt.name@ == c.runtime@ && rt.path@ == c.runtime_path@
    &&& r matches Err(ConfigError::Runtime(e)) ==> (requested_runtime(params, facts) matches Some(n) && answered(
        resolver,
        n,
        Err(e),
    ))
    &&& r matches Err(ConfigError::NoRuntime(e)) ==> requested_runtime(params, facts) is None && refused(resolver, "docker"@)
        && answered(resolver, "podman"@, Err(e))
    &&& r matches Err(e) ==> (e is Runtime || e is NoRuntime || e is UnsupportedRuntimeEnv || exists|rt: ResolvedRuntime|
        runtime_candidate(params, facts, rt.name@) && #[trigger] answered(resolver, rt.name@, Ok(rt))
            && config_failure(params, facts, rt.name@) == Some(e@))
    &&& (requested_runtime(params, facts) is None && (r matches Ok(c) && is_podman(c.runtime@))) ==> refused(resolver, "docker"@)
}

/// Resolves parameters into a configuration: the runtime first (through the resolver),
/// then the rules of `configure` on the resolver's answer.
pub fn resolve_config<Q: RuntimeResolver>(params: BuildParams, facts: &HostFacts, resolver: &Q) -> (r: Result<BuildConfig, ConfigError>)
    ensures
        resolution_outcome(params, *facts, r),
        resolver_outcome(params, *facts, resolver, r),
{
    let found = resolve_runtime(
        match &params.runtime {
            Some(v) => Some(v.as_str()),
            None => None,
        },
        match &facts.env_runtime {
            Some(v) => Some(v.as_str()),
            None => None,
        },
        resolver,
    );
    let resolved = match found {
        Ok(rt) => rt,
        Err(e) => {
            return Err(e);
        },
    };
    let ghost rt0 = resolved;
    let ghost name = resolved.name@;
    assert(answered(resolver, name, Ok(rt0)));
    assert(requested_runtime(params, *facts) is None ==> is_docker(name) || (is_podman(name) && refused(
        resolver,
        "docker"@,
    )));
    let r = configure(params, facts, resolved);
    proof {
        reveal_strlit("docker");
        reveal_strlit("podman");
        assert("docker"@[0] != "podman"@[0]);
    }
    if let Err(e) = &r {
        assert(runtime_candidate(params, *facts, name) && config_failure(params, *facts, name) == Some(e@));
        assert(!(e@ is NoRuntime) && !(e@ is Runtime) && !(e@ is UnsupportedRuntimeEnv));
        assert(runtime_candidate(params, *facts, rt0.name@) && answered(resolver, rt0.name@, Ok(rt0))
            && config_failure(params, *facts, rt0.name@) == Some(e@));
    }
    if let Ok(c) = &r {
        assert(answered(resolver, c.runtime@, Ok(rt0)) && rt0.name@ == c.runtime@ && rt0.path@ == c.runtime_path@);
    }
    r
}

/// A resolver that answers every name never refuses Docker: detection with it picks Docker.
pub proof fn mock_detection_picks_docker(resolver: &MockResolver)
    ensures
        !refused(resolver, "docker"@),
{
}

/// With the `PATH` resolver (as `Builder::new` and `Builder::dry` use), a runtime it
/// answers with lies at the path that the lookup of its name found.
pub proof fn path_resolver_answers_with_the_lookup(name: Seq<char>, rt: ResolvedRuntime)
    requires
        answered(&WhichResolver, name, Ok::<ResolvedRuntime, ResolveError>(rt)),
    ensures
        rt.name@ == name,
        exists|found: Result<String, ()>| #[trigger] looked_up(name, found) && (found matches Ok(p) && p@ == rt.path@),
{
    let n = choose|n: &str| n@ == name && #[trigger] call_ensures(
        WhichResolver::resolve,
        (&WhichResolver, n),
        Ok::<ResolvedRuntime, ResolveError>(rt),
    );
    let found = choose|found: Result<String, ()>| #[trigger] looked_up(n@, found) && resolution_of(n@, found, Ok::<ResolvedRuntime, ResolveError>(rt));
    assert(looked_up(name, found));
}

/// `--no-cache` always disables the build cache, whatever `REPRO_CACHE` says.
pub proof fn no_cache_flag_disables_cache(env_cache: Option<Seq<char>>)
    ensures
        !use_cache_rule(true, env_cache),
{
}

/// Without the flag and without `REPRO_ROOTLESS`, rootless resolution never fails and
/// gives `false`, whatever the runtime.
pub proof fn rootless_off_never_fails(runtime: Seq<char>)
    ensures
        rootless_outcome(runtime, false, None) == Ok::<bool, ConfigFailure>(false),
{
}

/// Rootless mode with a runtime other than Podman is always refused, whatever the
/// environment says.
pub proof fn rootless_needs_podman(runtime: Seq<char>, env_rootless: Option<Seq<char>>)
    requires
        !is_podman(runtime),
    ensures
        rootless_outcome(runtime, true, env_rootless) == Err::<bool, ConfigFailure>(ConfigFailure::RootlessNeedsPodman),
{
}

/// Giving both an epoch and a date-time (both by flag, or both by environment) is refused.
pub proof fn epoch_and_datetime_conflict(
    sde: Option<i64>,
    datetime: Option<Seq<char>>,
    env_sde: Option<Seq<char>>,
    env_datetime: Option<Seq<char>>,
)
    requires
        epoch_given(sde, datetime, env_sde) is Some,
        datetime_given(sde, datetime, env_datetime) is Some,
    ensures
        sde_outcome(sde, datetime, env_sde, env_datetime) == Err::<int, ConfigFailure>(ConfigFailure::EpochAndDatetime),
{
}

/// A time flag wins over both time variables: with an epoch flag alone the epoch is used
/// as it is, and with a date-time flag alone the date-time is converted, whatever
/// `REPRO_SOURCE_DATE_EPOCH` and `REPRO_DATETIME` say.
pub proof fn time_flags_take_precedence(
    epoch: i64,
    d: Seq<char>,
    env_sde: Option<Seq<char>>,
    env_datetime: Option<Seq<char>>,
)
    ensures
        sde_outcome(Some(epoch), None, env_sde, env_datetime) == Ok::<int, ConfigFailure>(epoch as int),
        sde_outcome(None, Some(d), env_sde, env_datetime) == sde_outcome(None, Some(d), None, None),
{
}

/// A set `--rootless` or `--no-cache` decides whatever the environment says.
pub proof fn flags_take_precedence(
    runtime: Seq<char>,
    env_a: Option<Seq<char>>,
    env_b: Option<Seq<char>>,
)
    ensures
        rootless_outcome(runtime, true, env_a) == rootless_outcome(runtime, true, env_b),
        use_cache_rule(true, env_a) == use_cache_rule(true, env_b),
{
}

/// A runtime flag wins over `REPRO_RUNTIME`: it is the runtime asked for, and an invalid
/// variable is then no error.
pub proof fn runtime_flag_wins(params: BuildParams, facts: HostFacts)
    requires
        params.runtime is Some,
    ensures
        requested_runtime(params, facts) == params.runtime.deep_view(),
        !resolution_failure(params, facts, ConfigFailure::UnsupportedRuntimeEnv),
{
}

/// With Podman or in rootless mode, the BuildKit image is always qualified with `docker.io/`.
pub proof fn podman_image_is_qualified(image: Option<Seq<char>>, rootless: bool, runtime: Seq<char>)
    requires
        rootless || is_podman(runtime),
    ensures
        starts_with(buildkit_image_rule(image, rootless, runtime), "docker.io/"@),
{
    let img = match image {
        Some(i) => i,
        None => if rootless {
            DEFAULT_BUILDKIT_IMAGE_ROOTLESS@
        } else {
            DEFAULT_BUILDKIT_IMAGE@
        },
    };
    if !starts_with(img, "docker.io/"@) {
        assert(("docker.io/"@ + img).subrange(0, "docker.io/"@.len() as int) =~= "docker.io/"@);
    }
}

/// With Docker and without rootless mode, the image is used as given (or the default).
pub proof fn docker_image_is_unchanged(image: Seq<char>, runtime: Seq<char>)
    requires
        !is_podman(runtime),
    ensures
        buildkit_image_rule(Some(image), false, runtime) == image,
{
}

/// Resolving an already resolved image changes nothing.
pub proof fn image_resolution_is_idempotent(image: Option<Seq<char>>, rootless: bool, runtime: Seq<char>)
    ensures
        buildkit_image_rule(Some(buildkit_image_rule(image, rootless, runtime)), rootless, runtime)
            == buildkit_image_rule(image, rootless, runtime),
{
    if rootless || is_podman(runtime) {
        podman_image_is_qualified(image, rootless, runtime);
    }
}

/// Extra BuildKit arguments are refused with any runtime but Podman, and extra Buildx
/// arguments with any runtime but Docker (when they are not empty).
pub proof fn extra_args_follow_their_runtime(args: Seq<char>, runtime: Seq<char>)
    requires
        args.len() > 0,
    ensures
        !is_podman(runtime) ==> buildkit_args_outcome(Some(args), runtime) == Err::<Seq<Seq<char>>, ConfigFailure>(ConfigFailure::BuildkitArgsNeedPodman),
        !is_docker(runtime) ==> buildx_args_outcome(Some(args), runtime) == Err::<Seq<Seq<char>>, ConfigFailure>(ConfigFailure::BuildxArgsNeedDocker),
{
}

/// A given BuildKit image is always the one used: it is taken as it is, and only
/// qualified with `docker.io/` (with Podman or in rootless mode, when it does not start
/// with it already). The defaults stand only for an image that is not given.
pub proof fn given_image_is_kept(image: Seq<char>, rootless: bool, runtime: Seq<char>)
    ensures
        buildkit_image_rule(Some(image), rootless, runtime) == (if (rootless || is_podman(runtime))
            && !starts_with(image, "docker.io/"@) {
            "docker.io/"@ + image
        } else {
            image
        }),
        buildkit_image_rule(None, rootless, runtime) == buildkit_image_rule(
            Some(
                if rootless {
                    DEFAULT_BUILDKIT_IMAGE_ROOTLESS@
                } else {
                    DEFAULT_BUILDKIT_IMAGE@
                },
            ),
            rootless,
            runtime,
        ),
{
}

/// Without an output given, a configuration writes `image.tar` in the working directory
/// (in `.` when that cannot be read), whatever the build context is; with one given, it
/// writes to its canonical form, or to it as given when that does not resolve.
pub proof fn output_defaults_to_working_directory(
    c: BuildConfig,
    params: BuildParams,
    facts: HostFacts,
    runtime: ResolvedRuntime,
)
    requires
        configured(c, params, facts, runtime),
    ensures
        params.output is None ==> c.output@ == path_join_of(
            match facts.current_dir {
                Some(d) => d@,
                None => "."@,
            },
            "image.tar"@,
        ),
        params.output is Some ==> c.output@ == (match facts.output {
            Some(o) => o@,
            None => params.output->0@,
        }),
{
}

/// The output of a configuration does not depend on the build context: host facts that
/// differ only in the canonical context give the same output path.
pub proof fn output_ignores_context(
    c1: BuildConfig,
    c2: BuildConfig,
    params1: BuildParams,
    params2: BuildParams,
    facts1: HostFacts,
    facts2: HostFacts,
    runtime: ResolvedRuntime,
)
    requires
        configured(c1, params1, facts1, runtime),
        configured(c2, params2, facts2, runtime),
        params1.output.deep_view() == params2.output.deep_view(),
        facts1.current_dir.deep_view() == facts2.current_dir.deep_view(),
        facts1.output.deep_view() == facts2.output.deep_view(),
    ensures
        c1.output@ == c2.output@,
{
    output_defaults_to_working_directory(c1, params1, facts1, runtime);
    output_defaults_to_working_directory(c2, params2, facts2, runtime);
    if params1.output is Some {
        assert(params1.output->0@ == params2.output->0@);
        if facts1.output is Some {
            assert(facts1.output->0@ == facts2.output->0@);
        }
    } else if facts1.current_dir is Some {
        assert(facts1.current_dir->0@ == facts2.current_dir->0@);
    }
}

} // verus!
