//! Runtime-specific command construction strategies.

use vstd::prelude::*;
use vstd::utf8::encode_utf8;

use super::cmdline::{
    append_args, concat, concat3, joined_with_prefix, pairs_are_flag_value_pairs, prefixed_pairs_are_flag_value_pairs, join_with_prefix, prefixed_pairs, push_prefixed_pairs, extend_args, optional_pair, pairs, push_arg, push_optional_pair, push_pairs, push_str,
    push_two,
};
use super::config::BuildConfig;
use crate::hashing::{sha256_hex, sha256_hex_of};
use crate::paths::{path_file_name, path_file_name_of, path_parent, path_parent_of};
use crate::text::{decimal_string, decimal_text};

verus! {

/// A command to execute, with whether its failure is tolerated.
pub struct CommandSpec {
    pub args: Vec<String>,
    pub allow_failure: bool,
}

/// Runtime-specific command construction.
pub trait RuntimeStrategy {
    fn build_commands(&self, config: &BuildConfig) -> Vec<CommandSpec>;
}

/// `SOURCE_DATE_EPOCH=<epoch>`.
pub open spec fn sde_assignment(epoch: i64) -> Seq<char> {
    "SOURCE_DATE_EPOCH="@ + decimal_text(epoch as int)
}

/// The BuildKit builder name Docker uses: derived from the SHA-256 of the image reference.
pub open spec fn docker_builder_name(image: Seq<char>) -> Seq<char> {
    "repro-build-"@ + sha256_hex_of(encode_utf8(image))
}

/// `docker buildx create` for the builder `name`.
pub open spec fn docker_create_args(c: BuildConfig, name: Seq<char>) -> Seq<Seq<char>> {
    seq![
        c.runtime_path@,
        "buildx"@,
        "create"@,
        "--name"@,
        name,
        "--driver-opt"@,
        "image="@ + c.buildkit_image@,
    ]
}

/// `docker buildx build` with the builder `name`.
pub open spec fn docker_build_args(c: BuildConfig, name: Seq<char>) -> Seq<Seq<char>> {
    seq![
        c.runtime_path@,
        "buildx"@,
        "--builder"@,
        name,
        "build"@,
        "--build-arg"@,
        sde_assignment(c.source_date_epoch),
    ] + pairs("--build-arg"@, c.build_args.deep_view()) + pairs(
        "--annotation"@,
        c.annotations.deep_view(),
    ) + seq![
        "--provenance"@,
        "false"@,
        "--output"@,
        "type=docker,dest="@ + c.output@ + ",rewrite-timestamp=true"@,
    ] + (if c.use_cache {
        seq![]
    } else {
        seq!["--no-cache"@, "--pull"@]
    }) + optional_pair("-t"@, c.tag.deep_view()) + optional_pair("-f"@, c.file.deep_view())
        + optional_pair("--platform"@, c.platform.deep_view()) + c.buildx_args.deep_view() + seq![
        c.context@,
    ]
}

/// Docker Buildx command construction.
pub struct DockerStrategy;

impl DockerStrategy {
    /// A deterministic builder name derived from the BuildKit image reference.
    fn builder_name(buildkit_image: &str) -> (r: String)
        ensures
            r@ == docker_builder_name(buildkit_image@),
    {
        let id = sha256_hex(buildkit_image.as_bytes());
        super::cmdline::concat("repro-build-", id.as_str())
    }

    /// The `docker buildx create` command.
    fn create_cmd(c: &BuildConfig, builder_name: &str) -> (r: Vec<String>)
        ensures
            r.deep_view() == docker_create_args(*c, builder_name@),
    {
        let mut cmd: Vec<String> = Vec::new();
        push_str(&mut cmd, c.runtime_path.as_str());
        push_str(&mut cmd, "buildx");
        push_str(&mut cmd, "create");
        push_str(&mut cmd, "--name");
        push_str(&mut cmd, builder_name);
        push_str(&mut cmd, "--driver-opt");
        push_arg(&mut cmd, concat("image=", c.buildkit_image.as_str()));
        assert(cmd.deep_view() =~= docker_create_args(*c, builder_name@));
        cmd
    }

    /// The fixed head of `docker buildx build`.
    fn build_head(c: &BuildConfig, builder_name: String) -> (r: Vec<String>)
        ensures
            r.deep_view() == seq![
                c.runtime_path@,
                "buildx"@,
                "--builder"@,
                builder_name@,
                "build"@,
                "--build-arg"@,
                sde_assignment(c.source_date_epoch),
            ],
    {
        let ghost name = builder_name@;
        let mut cmd: Vec<String> = Vec::new();
        push_str(&mut cmd, c.runtime_path.as_str());
        push_str(&mut cmd, "buildx");
        push_str(&mut cmd, "--builder");
        push_arg(&mut cmd, builder_name);
        push_str(&mut cmd, "build");
        push_str(&mut cmd, "--build-arg");
        let epoch = decimal_string(c.source_date_epoch as i128);
        push_arg(&mut cmd, concat("SOURCE_DATE_EPOCH=", epoch.as_str()));
        assert(cmd.deep_view() =~= seq![
            c.runtime_path@,
            "buildx"@,
            "--builder"@,
            name,
            "build"@,
            "--build-arg"@,
            sde_assignment(c.source_date_epoch),
        ]);
        cmd
    }

    /// The `docker buildx build` command.
    fn build_cmd(c: &BuildConfig, builder_name: String) -> (r: Vec<String>)
        ensures
            r.deep_view() == docker_build_args(*c, builder_name@),
    {
        let ghost name = builder_name@;
        let mut cmd = Self::build_head(c, builder_name);
        push_pairs(&mut cmd, "--build-arg", &c.build_args);
        push_pairs(&mut cmd, "--annotation", &c.annotations);
        let ghost mid = cmd.deep_view();
        push_two(&mut cmd, "--provenance", "false");
        push_two(&mut cmd, "--output", concat3("type=docker,dest=", c.output.as_str(), ",rewrite-timestamp=true").as_str());
        proof {
            assert(cmd.deep_view() =~= mid + seq![
                "--provenance"@,
                "false"@,
                "--output"@,
                "type=docker,dest="@ + c.output@ + ",rewrite-timestamp=true"@,
            ]);
        }
        if !c.use_cache {
            push_two(&mut cmd, "--no-cache", "--pull");
        } else {
            assert(cmd.deep_view() =~= cmd.deep_view() + seq![]);
        }
        push_optional_pair(&mut cmd, "-t", &c.tag);
        push_optional_pair(&mut cmd, "-f", &c.file);
        push_optional_pair(&mut cmd, "--platform", &c.platform);
        extend_args(&mut cmd, &c.buildx_args);
        let ghost before_context = cmd.deep_view();
        push_str(&mut cmd, c.context.as_str());
        assert(cmd.deep_view() =~= before_context + seq![c.context@]);
        cmd
    }
}

impl RuntimeStrategy for DockerStrategy {
    /// `buildx create` (its failure tolerated: the builder may exist), then `buildx build`.
    fn build_commands(&self, c: &BuildConfig) -> (r: Vec<CommandSpec>)
        ensures
            r.len() == 2,
            r[0].allow_failure,
            r[0].args.deep_view() == docker_create_args(*c, docker_builder_name(c.buildkit_image@)),
            !r[1].allow_failure,
            r[1].args.deep_view() == docker_build_args(*c, docker_builder_name(c.buildkit_image@)),
    {
        let name = Self::builder_name(c.buildkit_image.as_str());
        let create = Self::create_cmd(c, name.as_str());
        let build = Self::build_cmd(c, name);
        let mut cmds: Vec<CommandSpec> = Vec::new();
        cmds.push(CommandSpec { args: create, allow_failure: true });
        cmds.push(CommandSpec { args: build, allow_failure: false });
        cmds
    }
}

/// The parent directory of the output path, or `.` when it has none.
pub open spec fn parent_or_dot(p: Seq<char>) -> Seq<char> {
    match path_parent_of(p) {
        Some(q) => q,
        None => "."@,
    }
}

/// The file name of the output path, or nothing when it has none.
pub open spec fn file_name_or_empty(p: Seq<char>) -> Seq<char> {
    match path_file_name_of(p) {
        Some(n) => n,
        None => seq![],
    }
}

/// The flags that make BuildKit run without root inside the container.
pub open spec fn rootless_flags() -> Seq<Seq<char>> {
    seq![
        "--userns"@,
        "keep-id:uid=1000,gid=1000"@,
        "--security-opt"@,
        "seccomp=unconfined"@,
        "--security-opt"@,
        "apparmor=unconfined"@,
        "-e"@,
        "BUILDKITD_FLAGS=--oci-worker-no-process-sandbox"@,
    ]
}

/// `podman run` up to and including the BuildKit image: volumes, entrypoint, privileges.
pub open spec fn podman_container_args(c: BuildConfig) -> Seq<Seq<char>> {
    seq![
        c.runtime_path@,
        "run"@,
        "-it"@,
        "--rm"@,
        "-v"@,
        "buildkit_cache:/tmp/cache"@,
        "-v"@,
        parent_or_dot(c.output@) + ":/tmp/image"@,
        "-v"@,
        c.context@ + ":/tmp/work"@,
        "--entrypoint"@,
        "buildctl-daemonless.sh"@,
    ] + (if c.rootless {
        rootless_flags()
    } else {
        seq!["--privileged"@]
    }) + (match c.file.deep_view() {
        Some(f) => seq!["-v"@, f + ":/tmp/Dockerfile"@],
        None => seq![],
    }) + seq![c.buildkit_image@]
}

/// Where `buildctl` finds the Dockerfile: the mounted file, or the build context.
pub open spec fn podman_dockerfile_args(c: BuildConfig) -> Seq<Seq<char>> {
    if c.file is Some {
        seq!["--local"@, "dockerfile=/tmp"@]
    } else {
        seq!["--local"@, "dockerfile=/tmp/work"@]
    }
}

/// `,name=<tag>` when a tag is set.
pub open spec fn tag_suffix(tag: Option<Seq<char>>) -> Seq<char> {
    match tag {
        Some(t) => ",name="@ + t,
        None => seq![],
    }
}

/// The `--output` value of `buildctl build`.
pub open spec fn podman_output(c: BuildConfig) -> Seq<char> {
    "type=docker,dest=/tmp/image/"@ + file_name_or_empty(c.output@) + ",rewrite-timestamp=true"@
        + tag_suffix(c.tag.deep_view()) + joined_with_prefix(",annotation."@, c.annotations.deep_view())
}

/// The cache export and import flags.
pub open spec fn cache_flags() -> Seq<Seq<char>> {
    seq![
        "--export-cache"@,
        "type=local,mode=max,dest=/tmp/cache"@,
        "--import-cache"@,
        "type=local,src=/tmp/cache"@,
    ]
}

/// `--opt platform=<p>` when a platform is set.
pub open spec fn platform_opt(platform: Option<Seq<char>>) -> Seq<Seq<char>> {
    match platform {
        Some(p) => seq!["--opt"@, "platform="@ + p],
        None => seq![],
    }
}

/// `buildctl build` arguments with the given Dockerfile arguments: frontend, build args,
/// output, cache, the Dockerfile arguments, platform, extras.
pub open spec fn buildctl_args_with(c: BuildConfig, dockerfile: Seq<Seq<char>>) -> Seq<Seq<char>> {
    seq![
        "build"@,
        "--frontend"@,
        "dockerfile.v0"@,
        "--local"@,
        "context=/tmp/work"@,
        "--opt"@,
        "build-arg:"@ + sde_assignment(c.source_date_epoch),
    ] + prefixed_pairs("--opt"@, "build-arg:"@, c.build_args.deep_view()) + seq![
        "--output"@,
        podman_output(c),
    ] + (if c.use_cache {
        cache_flags()
    } else {
        seq![]
    }) + dockerfile + platform_opt(c.platform.deep_view())
        + c.buildkit_args.deep_view()
}

/// `buildctl build` arguments of a configuration, its Dockerfile found as
/// `podman_dockerfile_args` says.
pub open spec fn podman_buildctl_args(c: BuildConfig) -> Seq<Seq<char>> {
    buildctl_args_with(c, podman_dockerfile_args(c))
}

/// Podman + BuildKit command construction.
pub struct PodmanStrategy;

impl PodmanStrategy {
    /// The fixed head of `podman run`: volumes and entrypoint.
    fn container_head(c: &BuildConfig) -> (r: Vec<String>)
        ensures
            r.deep_view() == seq![
                c.runtime_path@,
                "run"@,
                "-it"@,
                "--rm"@,
                "-v"@,
                "buildkit_cache:/tmp/cache"@,
                "-v"@,
                parent_or_dot(c.output@) + ":/tmp/image"@,
                "-v"@,
                c.context@ + ":/tmp/work"@,
                "--entrypoint"@,
                "buildctl-daemonless.sh"@,
            ],
    {
        let mut cmd: Vec<String> = Vec::new();
        push_str(&mut cmd, c.runtime_path.as_str());
        push_str(&mut cmd, "run");
        push_str(&mut cmd, "-it");
        push_str(&mut cmd, "--rm");
        push_str(&mut cmd, "-v");
        push_str(&mut cmd, "buildkit_cache:/tmp/cache");
        push_str(&mut cmd, "-v");
        let parent = match path_parent(c.output.as_str()) {
            Some(p) => p,
            None => String::from_str("."),
        };
        push_arg(&mut cmd, concat(parent.as_str(), ":/tmp/image"));
        push_str(&mut cmd, "-v");
        push_arg(&mut cmd, concat(c.context.as_str(), ":/tmp/work"));
        push_str(&mut cmd, "--entrypoint");
        push_str(&mut cmd, "buildctl-daemonless.sh");
        assert(cmd.deep_view() =~= seq![
            c.runtime_path@,
            "run"@,
            "-it"@,
            "--rm"@,
            "-v"@,
            "buildkit_cache:/tmp/cache"@,
            "-v"@,
            parent_or_dot(c.output@) + ":/tmp/image"@,
            "-v"@,
            c.context@ + ":/tmp/work"@,
            "--entrypoint"@,
            "buildctl-daemonless.sh"@,
        ]);
        cmd
    }

    /// The `podman run` arguments (volumes, security, entrypoint, image), and the
    /// `buildctl` arguments that say where the Dockerfile is.
    fn container_args(c: &BuildConfig) -> (r: (Vec<String>, Vec<String>))
        ensures
            r.0.deep_view() == podman_container_args(*c),
            r.1.deep_view() == podman_dockerfile_args(*c),
    {
        let mut cmd = Self::container_head(c);
        let ghost head = cmd.deep_view();
        if c.rootless {
            push_two(&mut cmd, "--userns", "keep-id:uid=1000,gid=1000");
            push_two(&mut cmd, "--security-opt", "seccomp=unconfined");
            push_two(&mut cmd, "--security-opt", "apparmor=unconfined");
            push_two(&mut cmd, "-e", "BUILDKITD_FLAGS=--oci-worker-no-process-sandbox");
            assert(cmd.deep_view() =~= head + rootless_flags());
        } else {
            push_str(&mut cmd, "--privileged");
            assert(cmd.deep_view() =~= head + seq!["--privileged"@]);
        }
        let ghost with_privileges = cmd.deep_view();
        let mut dockerfile_args: Vec<String> = Vec::new();
        match &c.file {
            Some(file) => {
                push_two(&mut cmd, "-v", concat(file.as_str(), ":/tmp/Dockerfile").as_str());
                push_two(&mut dockerfile_args, "--local", "dockerfile=/tmp");
            },
            None => {
                assert(cmd.deep_view() =~= with_privileges + seq![]);
                push_two(&mut dockerfile_args, "--local", "dockerfile=/tmp/work");
            },
        }
        let ghost with_file = cmd.deep_view();
        push_str(&mut cmd, c.buildkit_image.as_str());
        assert(cmd.deep_view() =~= with_file + seq![c.buildkit_image@]);
        assert(dockerfile_args.deep_view() =~= podman_dockerfile_args(*c));
        (cmd, dockerfile_args)
    }

    /// The `--output` value: destination file, timestamp rewriting, tag and annotations.
    fn output_arg(c: &BuildConfig) -> (r: String)
        ensures
            r@ == podman_output(*c),
    {
        let name = match path_file_name(c.output.as_str()) {
            Some(n) => n,
            None => String::new(),
        };
        let mut out = concat3("type=docker,dest=/tmp/image/", name.as_str(), ",rewrite-timestamp=true");
        match &c.tag {
            Some(t) => {
                out.append(",name=");
                out.append(t.as_str());
            },
            None => {},
        }
        let annotations = join_with_prefix(",annotation.", &c.annotations);
        out.append(annotations.as_str());
        assert(out@ =~= podman_output(*c));
        out
    }

    /// The `buildctl build` arguments (frontend, build args, output, cache, the given
    /// Dockerfile arguments, platform, extras).
    fn buildctl_args(c: &BuildConfig, dockerfile_args: Vec<String>) -> (r: Vec<String>)
        ensures
            r.deep_view() == buildctl_args_with(*c, dockerfile_args.deep_view()),
    {
        let mut cmd: Vec<String> = Vec::new();
        push_str(&mut cmd, "build");
        push_str(&mut cmd, "--frontend");
        push_str(&mut cmd, "dockerfile.v0");
        push_str(&mut cmd, "--local");
        push_str(&mut cmd, "context=/tmp/work");
        push_str(&mut cmd, "--opt");
        let epoch = decimal_string(c.source_date_epoch as i128);
        push_arg(&mut cmd, concat3("build-arg:", "SOURCE_DATE_EPOCH=", epoch.as_str()));
        assert("build-arg:"@ + "SOURCE_DATE_EPOCH="@ + decimal_text(c.source_date_epoch as int)
            =~= "build-arg:"@ + sde_assignment(c.source_date_epoch));
        assert(cmd.deep_view() =~= seq![
            "build"@,
            "--frontend"@,
            "dockerfile.v0"@,
            "--local"@,
            "context=/tmp/work"@,
            "--opt"@,
            "build-arg:"@ + sde_assignment(c.source_date_epoch),
        ]);
        push_prefixed_pairs(&mut cmd, "--opt", "build-arg:", &c.build_args);
        let out = Self::output_arg(c);
        push_two(&mut cmd, "--output", out.as_str());
        let ghost before_cache = cmd.deep_view();
        if c.use_cache {
            push_two(&mut cmd, "--export-cache", "type=local,mode=max,dest=/tmp/cache");
            push_two(&mut cmd, "--import-cache", "type=local,src=/tmp/cache");
            assert(cmd.deep_view() =~= before_cache + cache_flags());
        } else {
            assert(cmd.deep_view() =~= before_cache + seq![]);
        }
        append_args(&mut cmd, dockerfile_args);
        let ghost before_platform = cmd.deep_view();
        match &c.platform {
            Some(p) => {
                push_two(&mut cmd, "--opt", concat("platform=", p.as_str()).as_str());
            },
            None => {
                assert(cmd.deep_view() =~= before_platform + seq![]);
            },
        }
        assert(cmd.deep_view() =~= before_platform + platform_opt(c.platform.deep_view()));
        extend_args(&mut cmd, &c.buildkit_args);
        cmd
    }
}

impl RuntimeStrategy for PodmanStrategy {
    /// A single `podman run ... buildctl build ...` command, whose failure is not tolerated.
    fn build_commands(&self, c: &BuildConfig) -> (r: Vec<CommandSpec>)
        ensures
            r.len() == 1,
            !r[0].allow_failure,
            r[0].args.deep_view() == podman_container_args(*c) + podman_buildctl_args(*c),
    {
        let (mut cmd, dockerfile_args) = Self::container_args(c);
        let tail = Self::buildctl_args(c, dockerfile_args);
        append_args(&mut cmd, tail);
        let mut cmds: Vec<CommandSpec> = Vec::new();
        cmds.push(CommandSpec { args: cmd, allow_failure: false });
        cmds
    }
}

/// Whether an argument is one of `buildctl`'s cache flags.
pub open spec fn is_cache_flag(a: Seq<char>) -> bool {
    a == "--export-cache"@ || a == "--import-cache"@
}

/// Whether no argument of a list is a cache flag.
pub open spec fn no_cache_flag(args: Seq<Seq<char>>) -> bool {
    forall|i: int| 0 <= i < args.len() ==> !is_cache_flag(#[trigger] args[i])
}

proof fn no_cache_flag_concat(a: Seq<Seq<char>>, b: Seq<Seq<char>>)
    requires
        no_cache_flag(a),
        no_cache_flag(b),
    ensures
        no_cache_flag(a + b),
{
    assert forall|i: int| 0 <= i < (a + b).len() implies !is_cache_flag(#[trigger] (a + b)[i]) by {
        if i < a.len() {
            assert((a + b)[i] == a[i]);
        } else {
            assert((a + b)[i] == b[i - a.len()]);
        }
    }
}

/// An argument that starts otherwise than with `-` is no cache flag.
proof fn no_dash_is_no_cache_flag(a: Seq<char>)
    requires
        a.len() > 0,
        a[0] != '-',
    ensures
        !is_cache_flag(a),
{
    reveal_strlit("--export-cache");
    reveal_strlit("--import-cache");
}

/// An argument of another length than the cache flags is none of them.
proof fn other_length_is_no_cache_flag(a: Seq<char>)
    requires
        a.len() != 14,
    ensures
        !is_cache_flag(a),
{
    reveal_strlit("--export-cache");
    reveal_strlit("--import-cache");
}

proof fn prefixed_first(prefix: Seq<char>, rest: Seq<char>)
    requires
        prefix.len() > 0,
    ensures
        (prefix + rest).len() > 0,
        (prefix + rest)[0] == prefix[0],
{
}

/// The fixed arguments of `buildctl build` before the cache flags hold none of them.
proof fn buildctl_fixed_parts_have_no_cache_flag(c: BuildConfig, dockerfile: Seq<Seq<char>>)
    requires
        dockerfile == podman_dockerfile_args(c),
    ensures
        no_cache_flag(
            seq![
                "build"@,
                "--frontend"@,
                "dockerfile.v0"@,
                "--local"@,
                "context=/tmp/work"@,
                "--opt"@,
                "build-arg:"@ + sde_assignment(c.source_date_epoch),
            ],
        ),
        no_cache_flag(prefixed_pairs("--opt"@, "build-arg:"@, c.build_args.deep_view())),
        no_cache_flag(seq!["--output"@, podman_output(c)]),
        no_cache_flag(dockerfile),
        no_cache_flag(platform_opt(c.platform.deep_view())),
{
    reveal_strlit("build");
    reveal_strlit("--frontend");
    reveal_strlit("dockerfile.v0");
    reveal_strlit("--local");
    reveal_strlit("context=/tmp/work");
    reveal_strlit("--opt");
    reveal_strlit("build-arg:");
    reveal_strlit("--output");
    reveal_strlit("type=docker,dest=/tmp/image/");
    reveal_strlit("dockerfile=/tmp");
    reveal_strlit("dockerfile=/tmp/work");
    reveal_strlit("platform=");
    other_length_is_no_cache_flag("build"@);
    other_length_is_no_cache_flag("--frontend"@);
    other_length_is_no_cache_flag("dockerfile.v0"@);
    other_length_is_no_cache_flag("--local"@);
    other_length_is_no_cache_flag("context=/tmp/work"@);
    other_length_is_no_cache_flag("--opt"@);
    other_length_is_no_cache_flag("--output"@);
    other_length_is_no_cache_flag("dockerfile=/tmp"@);
    other_length_is_no_cache_flag("dockerfile=/tmp/work"@);
    let sde = "build-arg:"@ + sde_assignment(c.source_date_epoch);
    prefixed_first("build-arg:"@, sde_assignment(c.source_date_epoch));
    no_dash_is_no_cache_flag(sde);
    let head = seq![
        "build"@,
        "--frontend"@,
        "dockerfile.v0"@,
        "--local"@,
        "context=/tmp/work"@,
        "--opt"@,
        sde,
    ];
    assert forall|i: int| 0 <= i < head.len() implies !is_cache_flag(#[trigger] head[i]) by {
    }
    let vs = c.build_args.deep_view();
    let pp = prefixed_pairs("--opt"@, "build-arg:"@, vs);
    prefixed_pairs_are_flag_value_pairs("--opt"@, "build-arg:"@, vs);
    assert forall|i: int| 0 <= i < pp.len() implies !is_cache_flag(#[trigger] pp[i]) by {
        if i % 2 != 0 {
            prefixed_first("build-arg:"@, vs[i / 2]);
            no_dash_is_no_cache_flag(pp[i]);
        }
    }
    let out = podman_output(c);
    let name = file_name_or_empty(c.output@);
    let a = "type=docker,dest=/tmp/image/"@;
    prefixed_first(a, name);
    prefixed_first(a + name, ",rewrite-timestamp=true"@);
    prefixed_first(a + name + ",rewrite-timestamp=true"@, tag_suffix(c.tag.deep_view()));
    prefixed_first(
        a + name + ",rewrite-timestamp=true"@ + tag_suffix(c.tag.deep_view()),
        joined_with_prefix(",annotation."@, c.annotations.deep_view()),
    );
    no_dash_is_no_cache_flag(out);
    let o = seq!["--output"@, out];
    assert forall|i: int| 0 <= i < o.len() implies !is_cache_flag(#[trigger] o[i]) by {
    }
    assert forall|i: int| 0 <= i < dockerfile.len() implies !is_cache_flag(#[trigger] dockerfile[i]) by {
    }
    let po = platform_opt(c.platform.deep_view());
    if let Some(p) = c.platform.deep_view() {
        prefixed_first("platform="@, p);
        no_dash_is_no_cache_flag("platform="@ + p);
    }
    assert forall|i: int| 0 <= i < po.len() implies !is_cache_flag(#[trigger] po[i]) by {
    }
}

/// `buildctl` gets the cache flags exactly when the cache is on: with it off, no argument
/// of the `buildctl build` command is `--export-cache` or `--import-cache` (as long as the
/// extra BuildKit arguments hold neither); with it on, each comes with its local cache.
pub proof fn cache_flags_only_with_cache(c: BuildConfig)
    requires
        no_cache_flag(c.buildkit_args.deep_view()),
    ensures
        !c.use_cache ==> no_cache_flag(podman_buildctl_args(c)),
        c.use_cache ==> (exists|i: int|
            0 <= i && i + 1 < podman_buildctl_args(c).len() && #[trigger] podman_buildctl_args(c)[i]
                == "--export-cache"@ && podman_buildctl_args(c)[i + 1]
                == "type=local,mode=max,dest=/tmp/cache"@),
        c.use_cache ==> (exists|i: int|
            0 <= i && i + 1 < podman_buildctl_args(c).len() && #[trigger] podman_buildctl_args(c)[i]
                == "--import-cache"@ && podman_buildctl_args(c)[i + 1] == "type=local,src=/tmp/cache"@),
{
    let df = podman_dockerfile_args(c);
    buildctl_fixed_parts_have_no_cache_flag(c, df);
    let head = seq![
        "build"@,
        "--frontend"@,
        "dockerfile.v0"@,
        "--local"@,
        "context=/tmp/work"@,
        "--opt"@,
        "build-arg:"@ + sde_assignment(c.source_date_epoch),
    ];
    let pp = prefixed_pairs("--opt"@, "build-arg:"@, c.build_args.deep_view());
    let o = seq!["--output"@, podman_output(c)];
    let po = platform_opt(c.platform.deep_view());
    let extras = c.buildkit_args.deep_view();
    let before = head + pp + o;
    no_cache_flag_concat(head, pp);
    no_cache_flag_concat(head + pp, o);
    let args = podman_buildctl_args(c);
    if c.use_cache {
        let k = before.len() as int;
        assert(args =~= before + cache_flags() + df + po + extras);
        assert(args[k] == "--export-cache"@);
        assert(args[k + 1] == "type=local,mode=max,dest=/tmp/cache"@);
        assert(args[k + 2] == "--import-cache"@);
        assert(args[k + 3] == "type=local,src=/tmp/cache"@);
    } else {
        assert(args =~= before + df + po + extras);
        no_cache_flag_concat(before, df);
        no_cache_flag_concat(before + df, po);
        no_cache_flag_concat(before + df + po, extras);
    }
}

/// Turning the cache off takes exactly the four cache arguments out of the `buildctl build`
/// command, right after the output, and leaves every other argument where it was.
pub proof fn cache_off_drops_only_cache_flags(c: BuildConfig)
    ensures
        ({
            let on = podman_buildctl_args((BuildConfig { use_cache: true, ..c }));
            let off = podman_buildctl_args((BuildConfig { use_cache: false, ..c }));
            let k = 9 + 2 * c.build_args.len();
            &&& on.len() == off.len() + 4
            &&& on.subrange(k, k + 4) == cache_flags()
            &&& on.take(k) == off.take(k)
            &&& on.skip(k + 4) == off.skip(k)
        }),
{
    let con = BuildConfig { use_cache: true, ..c };
    let coff = BuildConfig { use_cache: false, ..c };
    let head = seq![
        "build"@,
        "--frontend"@,
        "dockerfile.v0"@,
        "--local"@,
        "context=/tmp/work"@,
        "--opt"@,
        "build-arg:"@ + sde_assignment(c.source_date_epoch),
    ];
    let vs = c.build_args.deep_view();
    prefixed_pairs_are_flag_value_pairs("--opt"@, "build-arg:"@, vs);
    let pp = prefixed_pairs("--opt"@, "build-arg:"@, vs);
    assert(podman_output(con) == podman_output(c));
    assert(podman_output(coff) == podman_output(c));
    assert(podman_dockerfile_args(con) == podman_dockerfile_args(c));
    assert(podman_dockerfile_args(coff) == podman_dockerfile_args(c));
    let before = head + pp + seq!["--output"@, podman_output(c)];
    let after = podman_dockerfile_args(c) + platform_opt(c.platform.deep_view()) + c.buildkit_args.deep_view();
    let on = podman_buildctl_args(con);
    let off = podman_buildctl_args(coff);
    assert(on =~= before + cache_flags() + after);
    assert(off =~= before + after);
    let k = 9 + 2 * c.build_args.len();
    assert(before.len() == k);
    assert(on.subrange(k, k + 4) =~= cache_flags());
    assert(on.take(k) =~= before);
    assert(off.take(k) =~= before);
    assert(on.skip(k + 4) =~= after);
    assert(off.skip(k) =~= after);
}

/// `docker buildx build` passes each build argument, and then each annotation, as a flag
/// pair of its own: `--build-arg` right before the `k`-th build argument, and `--annotation`
/// right before the `k`-th annotation, after the `SOURCE_DATE_EPOCH` build argument.
pub proof fn docker_passes_each_build_arg(c: BuildConfig, name: Seq<char>, k: int)
    ensures
        0 <= k < c.build_args.len() ==> docker_build_args(c, name)[7 + 2 * k] == "--build-arg"@
            && docker_build_args(c, name)[8 + 2 * k] == c.build_args.deep_view()[k],
        0 <= k < c.annotations.len() ==> docker_build_args(c, name)[7 + 2 * c.build_args.len() + 2 * k]
            == "--annotation"@ && docker_build_args(c, name)[8 + 2 * c.build_args.len() + 2 * k]
            == c.annotations.deep_view()[k],
{
    let ba = c.build_args.deep_view();
    let an = c.annotations.deep_view();
    pairs_are_flag_value_pairs("--build-arg"@, ba);
    pairs_are_flag_value_pairs("--annotation"@, an);
    let head = seq![
        c.runtime_path@,
        "buildx"@,
        "--builder"@,
        name,
        "build"@,
        "--build-arg"@,
        sde_assignment(c.source_date_epoch),
    ];
    let p1 = pairs("--build-arg"@, ba);
    let p2 = pairs("--annotation"@, an);
    let rest = docker_build_args(c, name).skip(7 + p1.len() as int + p2.len() as int);
    assert(docker_build_args(c, name) =~= head + p1 + p2 + rest);
    if 0 <= k < c.build_args.len() {
        assert(p1[2 * k] == "--build-arg"@);
        assert(p1[2 * k + 1] == ba[k]);
    }
    if 0 <= k < c.annotations.len() {
        assert(p2[2 * k] == "--annotation"@);
        assert(p2[2 * k + 1] == an[k]);
    }
}

} // verus!
