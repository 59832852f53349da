//! The build of a kernel image: a nested build of a kernel-source crate for the
//! accelerator's target, whose image is then hard-linked into the host build's
//! output directory. This module decides what to print, what to run and what
//! to do with the files; the caller reads the environment, runs the command
//! and touches the file system.
use vstd::prelude::*;
use vstd::std_specs::iter::IteratorSpec;
use vstd::string::*;

use crate::text::push_char;

verus! {

/// The compilation target of kernel code.
pub const NVPTX_TARGET: &'static str = "nvptx64-nvidia-cuda";

/// What starts every warning line of a build script.
pub const WARNING_PREFIX: &'static str = "cargo::warning=";

/// `s` with every `from` replaced by `with`.
pub open spec fn replace_char(s: Seq<char>, from: char, with: Seq<char>) -> Seq<char>
    decreases s.len(),
{
    if s.len() == 0 {
        Seq::empty()
    } else {
        replace_char(s.drop_last(), from, with) + if s.last() == from {
            with
        } else {
            seq![s.last()]
        }
    }
}

/// Appends `s` to `out` with every `from` replaced by `with`.
pub fn push_replaced(out: &mut String, s: &str, from: char, with: &str)
    ensures
        final(out)@ == old(out)@ + replace_char(s@, from, with@),
{
    broadcast use vstd::string::axiom_spec_iter, vstd::string::next_postcondition;

    let mut it = s.chars();
    let ghost mut done: Seq<char> = Seq::empty();
    let ghost start = out@;
    loop
        invariant
            done + it.remaining() == s@,
            start == old(out)@,
            out@ == start + replace_char(done, from, with@),
            it.decrease() is Some,
        ensures
            start == old(out)@,
            out@ == start + replace_char(s@, from, with@),
        decreases it.decrease()->0,
    {
        match it.next() {
            Some(c) => {
                if c == from {
                    out.append(with);
                } else {
                    push_char(out, c);
                }
                proof {
                    assert(done.push(c).drop_last() =~= done);
                    done = done.push(c);
                }
            },
            None => {
                proof {
                    assert(done =~= s@);
                }
                break ;
            },
        }
    }
}

/// A warning of the build script: every line of `msg` carries the prefix.
pub open spec fn warning_spec(msg: Seq<char>) -> Seq<char> {
    WARNING_PREFIX@ + replace_char(msg, '\n', "\ncargo::warning="@)
}

/// Formats `msg` as a warning of the build script.
pub fn warning(msg: &str) -> (r: String)
    ensures
        r@ == warning_spec(msg@),
{
    let mut s = String::from_str(WARNING_PREFIX);
    push_replaced(&mut s, msg, '\n', "\ncargo::warning=");
    s
}

/// The characters of each string.
pub open spec fn strings_view(v: Seq<String>) -> Seq<Seq<char>> {
    v.map_values(|s: String| s@)
}

fn push_line(v: &mut Vec<String>, s: String)
    ensures
        strings_view(final(v)@) == strings_view(old(v)@).push(s@),
{
    let ghost before = v@;
    v.push(s);
    assert(strings_view(v@) =~= strings_view(before).push(s@));
}

/// The characters of an optional string.
pub open spec fn opt_view(o: Option<String>) -> Option<Seq<char>> {
    match o {
        Some(s) => Some(s@),
        None => None,
    }
}

/// The first of two optional strings that is set.
pub open spec fn first_set(a: Option<String>, b: Option<String>) -> Option<Seq<char>> {
    if a is Some {
        opt_view(a)
    } else {
        opt_view(b)
    }
}

fn first_of<'x>(a: &'x Option<String>, b: &'x Option<String>) -> (r: Option<&'x String>)
    ensures
        match r {
            Some(s) => first_set(*a, *b) == Some(s@),
            None => first_set(*a, *b) is None,
        },
{
    match a {
        Some(s) => Some(s),
        None => match b {
            Some(s) => Some(s),
            None => None,
        },
    }
}

fn pick<'x>(a: &'x Option<String>, b: &'x Option<String>, fallback: &'x str) -> (r: &'x str)
    ensures
        r@ == match first_set(*a, *b) {
            Some(s) => s,
            None => fallback@,
        },
{
    match first_of(a, b) {
        Some(s) => s.as_str(),
        None => fallback,
    }
}

/// The kernel-source crate to build, and how.
pub struct GpuCode<'a, 'b, 'c, 'd> {
    /// Package name of the kernel-source crate; its image is `<name>.ptx`.
    pub gpu_crate_name: &'a str,
    /// Directory of the kernel-source crate.
    pub gpu_crate_dir: &'b str,
    /// Build profile of the nested build. It must differ from the outer
    /// build's (`debug`, `release`), or both builds contend for one directory.
    pub profile_name: &'c str,
    /// Target directory of the nested build when the environment names none.
    pub fallback_target_dir: &'d str,
    /// Whether to remove the nested target directory after a successful build.
    pub clean: bool,
}

impl<'a, 'b, 'c, 'd> GpuCode<'a, 'b, 'c, 'd> {
    /// Builds the crate `gpu_crate_name` in `gpu_crate_dir` with profile
    /// `cuda` into `target`, keeping the nested output.
    pub fn new(gpu_crate_name: &'a str, gpu_crate_dir: &'b str) -> (r: Self)
        ensures
            r.gpu_crate_name == gpu_crate_name,
            r.gpu_crate_dir == gpu_crate_dir,
            r.profile_name@ == "cuda"@,
            r.fallback_target_dir@ == "target"@,
            !r.clean,
    {
        GpuCode {
            gpu_crate_name,
            gpu_crate_dir,
            profile_name: "cuda",
            fallback_target_dir: "target",
            clean: false,
        }
    }

    /// Sets the profile of the nested build.
    pub fn profile(self, profile_name: &'c str) -> (r: Self)
        ensures
            r == (GpuCode { profile_name, ..self }),
    {
        GpuCode { profile_name, ..self }
    }

    /// Sets the target directory used when the environment names none.
    pub fn target(self, fallback_target_dir: &'d str) -> (r: Self)
        ensures
            r == (GpuCode { fallback_target_dir, ..self }),
    {
        GpuCode { fallback_target_dir, ..self }
    }

    /// Removes the whole nested target directory after a successful build:
    /// point it somewhere that holds nothing else.
    pub fn clean(self) -> (r: Self)
        ensures
            r == (GpuCode { clean: true, ..self }),
    {
        GpuCode { clean: true, ..self }
    }
}

/// What the build reads from its environment.
pub struct BuildEnv {
    /// `CUDA_PATH`.
    pub cuda_path: Option<String>,
    /// `CUDA_HOME`.
    pub cuda_home: Option<String>,
    /// `CARGO`: the build tool to run.
    pub cargo: Option<String>,
    /// `CARGO_TARGET_DIR`.
    pub cargo_target_dir: Option<String>,
    /// `CARGO_BUILD_TARGET_DIR`.
    pub cargo_build_target_dir: Option<String>,
    /// `RUSTFLAGS`, which the nested build does not get.
    pub rustflags: Option<String>,
    /// `CARGO_ENCODED_RUSTFLAGS`, which the nested build does not get.
    pub encoded_rustflags: Option<String>,
    /// `OUT_DIR`: where the host build expects the image.
    pub out_dir: String,
}

/// The warning when no toolkit path is set.
pub const NO_TOOLKIT_WARNING: &'static str = "Neither environment CUDA_PATH nor CUDA_HOME exists, feature `cudart` might failed to compile. Please specific one of $CUDA_PATH or $CUDA_HOME";

/// What the warning on an ignored `RUSTFLAGS` adds after the flags.
pub const RUSTFLAGS_ADVICE: &'static str = " for compiling GPU code.\n  In case you really need such flags, set them for `cfg(target_arch=\"nvptx64\")` in `.cargo/config.toml` where GPU code could touch.";

/// The lines that make the outer build run again when the kernel sources,
/// the build script or the toolkit path change.
pub open spec fn rerun_lines(dir: Seq<char>) -> Seq<Seq<char>> {
    seq![
        "cargo::rerun-if-changed="@ + dir + "/src"@,
        "cargo::rerun-if-changed=build.rs"@,
        "cargo::rerun-if-env-changed=CUDA_PATH"@,
    ]
}

/// The lines on the toolkit: where to search for its libraries, or a warning
/// that no path is set.
pub open spec fn toolkit_lines(cuda: Option<Seq<char>>) -> Seq<Seq<char>> {
    match cuda {
        Some(p) => seq![
            warning_spec(
                "try searching with cudart since CUDA_PATH or CUDA_HOME are not all None.\nprint rustc-link-search="@
                    + p + "/lib"@,
            ),
            "cargo:rustc-link-search="@ + p + "/lib"@,
        ],
        None => seq![warning_spec(NO_TOOLKIT_WARNING@)],
    }
}

/// Warnings for host compiler flags that the nested build will not get.
pub open spec fn flag_lines(encoded: Option<Seq<char>>, plain: Option<Seq<char>>) -> Seq<Seq<char>> {
    let e = match encoded {
        Some(f) => seq![
            warning_spec(
                "omit CARGO_ENCODED_RUSTFLAGS="@ + replace_char(f, '\x1f', " "@)
                    + " for compiling GPU code."@,
            ),
        ],
        None => Seq::empty(),
    };
    let r = match plain {
        Some(f) => seq![warning_spec("omit RUSTFLAGS="@ + f + RUSTFLAGS_ADVICE@)],
        None => Seq::empty(),
    };
    e + r
}

/// The command of the nested build, as shown to the user.
pub open spec fn command_text(
    program: Seq<char>,
    profile: Seq<char>,
    dir: Seq<char>,
    target: Seq<char>,
) -> Seq<char> {
    "executing\x1b[1;32m \""@ + program + "\" build --color always --profile "@ + profile
        + " --manifest-path \""@ + dir + "/Cargo.toml\" --target nvptx64-nvidia-cuda --target-dir \""@
        + target + "\" \x1b[m"@
}

/// The arguments of the nested build: the given profile, the crate's manifest,
/// the kernel target and the target directory.
pub open spec fn build_args(profile: Seq<char>, dir: Seq<char>, target: Seq<char>) -> Seq<Seq<char>> {
    seq![
        "build"@,
        "--color"@,
        "always"@,
        "--profile"@,
        profile,
        "--manifest-path"@,
        dir + "/Cargo.toml"@,
        "--target"@,
        NVPTX_TARGET@,
        "--target-dir"@,
        target,
    ]
}

/// Where the nested build leaves the image of crate `name`.
pub open spec fn artifact_path(target: Seq<char>, profile: Seq<char>, name: Seq<char>) -> Seq<char> {
    target + "/"@ + NVPTX_TARGET@ + "/"@ + profile + "/"@ + name + ".ptx"@
}

/// Where the host build expects the image of crate `name`.
pub open spec fn published_path(out: Seq<char>, name: Seq<char>) -> Seq<char> {
    out + "/"@ + name + ".ptx"@
}

/// Everything a build does before and around the nested build.
pub struct BuildPlan {
    /// Lines to print before the nested build, in order.
    pub directives: Vec<String>,
    /// The build tool to run.
    pub program: String,
    /// Its arguments.
    pub args: Vec<String>,
    /// Variables to remove from its environment.
    pub env_remove: Vec<String>,
    /// The command, as shown to the user.
    pub command: String,
    /// The nested build's target directory.
    pub target_dir: String,
    /// The image the nested build produces.
    pub artifact: String,
    /// Where the image is published.
    pub published: String,
    /// Whether to remove the target directory afterwards.
    pub clean: bool,
}

impl<'a, 'b, 'c, 'd> GpuCode<'a, 'b, 'c, 'd> {
    /// Plans the build in the environment `env`: the nested build runs the
    /// tool in `CARGO` (else `cargo`) on this crate for the kernel target,
    /// into `CARGO_TARGET_DIR`, else `CARGO_BUILD_TARGET_DIR`, else the
    /// fallback directory, without the host's compiler flags; its image is
    /// published as `<OUT_DIR>/<name>.ptx`.
    pub fn plan(&self, env: &BuildEnv) -> (r: BuildPlan)
        ensures
            ({
                let dir = self.gpu_crate_dir@;
                let profile = self.profile_name@;
                let program = match opt_view(env.cargo) {
                    Some(c) => c,
                    None => "cargo"@,
                };
                let target = match first_set(env.cargo_target_dir, env.cargo_build_target_dir) {
                    Some(t) => t,
                    None => self.fallback_target_dir@,
                };
                let command = command_text(program, profile, dir, target);
                &&& r.program@ == program
                &&& r.target_dir@ == target
                &&& r.command@ == command
                &&& strings_view(r.args@) == build_args(profile, dir, target)
                &&& strings_view(r.env_remove@) == seq!["RUSTFLAGS"@, "CARGO_ENCODED_RUSTFLAGS"@]
                &&& strings_view(r.directives@) == rerun_lines(dir) + toolkit_lines(
                    first_set(env.cuda_path, env.cuda_home),
                ) + flag_lines(opt_view(env.encoded_rustflags), opt_view(env.rustflags)) + seq![
                    warning_spec(command),
                ]
                &&& r.artifact@ == artifact_path(target, profile, self.gpu_crate_name@)
                &&& r.published@ == published_path(env.out_dir@, self.gpu_crate_name@)
                &&& r.clean == self.clean
            }),
    {
        let dir = self.gpu_crate_dir;
        let profile = self.profile_name;
        let unset: Option<String> = None;
        let program = pick(&env.cargo, &unset, "cargo");
        let target = pick(&env.cargo_target_dir, &env.cargo_build_target_dir, self.fallback_target_dir);

        let mut directives: Vec<String> = Vec::new();
        let mut line = String::from_str("cargo::rerun-if-changed=");
        line.append(dir);
        line.append("/src");
        push_line(&mut directives, line);
        push_line(&mut directives, String::from_str("cargo::rerun-if-changed=build.rs"));
        push_line(&mut directives, String::from_str("cargo::rerun-if-env-changed=CUDA_PATH"));
        let ghost rerun = strings_view(directives@);
        assert(rerun =~= rerun_lines(dir@));

        match first_of(&env.cuda_path, &env.cuda_home) {
            Some(p) => {
                let mut msg = String::from_str(
                    "try searching with cudart since CUDA_PATH or CUDA_HOME are not all None.\nprint rustc-link-search=",
                );
                msg.append(p.as_str());
                msg.append("/lib");
                push_line(&mut directives, warning(msg.as_str()));
                let mut link = String::from_str("cargo:rustc-link-search=");
                link.append(p.as_str());
                link.append("/lib");
                push_line(&mut directives, link);
            },
            None => {
                push_line(&mut directives, warning(NO_TOOLKIT_WARNING));
            },
        }
        let ghost toolkit = strings_view(directives@);
        assert(toolkit =~= rerun + toolkit_lines(first_set(env.cuda_path, env.cuda_home)));

        if let Some(f) = &env.encoded_rustflags {
            let mut msg = String::from_str("omit CARGO_ENCODED_RUSTFLAGS=");
            push_replaced(&mut msg, f.as_str(), '\x1f', " ");
            msg.append(" for compiling GPU code.");
            push_line(&mut directives, warning(msg.as_str()));
        }
        if let Some(f) = &env.rustflags {
            let mut msg = String::from_str("omit RUSTFLAGS=");
            msg.append(f.as_str());
            msg.append(RUSTFLAGS_ADVICE);
            push_line(&mut directives, warning(msg.as_str()));
        }
        let ghost flags = strings_view(directives@);
        assert(flags =~= toolkit + flag_lines(opt_view(env.encoded_rustflags), opt_view(env.rustflags)));

        let mut command = String::from_str("executing\x1b[1;32m \"");
        command.append(program);
        command.append("\" build --color always --profile ");
        command.append(profile);
        command.append(" --manifest-path \"");
        command.append(dir);
        command.append("/Cargo.toml\" --target nvptx64-nvidia-cuda --target-dir \"");
        command.append(target);
        command.append("\" \x1b[m");
        push_line(&mut directives, warning(command.as_str()));
        assert(strings_view(directives@) =~= flags + seq![warning_spec(command@)]);

        let mut args: Vec<String> = Vec::new();
        push_line(&mut args, String::from_str("build"));
        push_line(&mut args, String::from_str("--color"));
        push_line(&mut args, String::from_str("always"));
        push_line(&mut args, String::from_str("--profile"));
        push_line(&mut args, String::from_str(profile));
        push_line(&mut args, String::from_str("--manifest-path"));
        let mut manifest = String::from_str(dir);
        manifest.append("/Cargo.toml");
        push_line(&mut args, manifest);
        push_line(&mut args, String::from_str("--target"));
        push_line(&mut args, String::from_str(NVPTX_TARGET));
        push_line(&mut args, String::from_str("--target-dir"));
        push_line(&mut args, String::from_str(target));
        assert(strings_view(args@) =~= build_args(profile@, dir@, target@));

        let mut env_remove: Vec<String> = Vec::new();
        push_line(&mut env_remove, String::from_str("RUSTFLAGS"));
        push_line(&mut env_remove, String::from_str("CARGO_ENCODED_RUSTFLAGS"));
        assert(strings_view(env_remove@) =~= seq!["RUSTFLAGS"@, "CARGO_ENCODED_RUSTFLAGS"@]);

        let mut artifact = String::from_str(target);
        artifact.append("/");
        artifact.append(NVPTX_TARGET);
        artifact.append("/");
        artifact.append(profile);
        artifact.append("/");
        artifact.append(self.gpu_crate_name);
        artifact.append(".ptx");

        let mut published = String::from_str(env.out_dir.as_str());
        published.append("/");
        published.append(self.gpu_crate_name);
        published.append(".ptx");

        BuildPlan {
            directives,
            program: String::from_str(program),
            args,
            env_remove,
            command,
            target_dir: String::from_str(target),
            artifact,
            published,
            clean: self.clean,
        }
    }
}

/// A file-system step after the nested build, or a warning to print.
pub enum BuildAction {
    /// Print this line.
    Warn(String),
    /// Remove this file if it exists.
    RemoveIfExists(String),
    /// Hard-link `to` to the file at `from`.
    HardLink { from: String, to: String },
    /// Remove this directory and everything under it; a failure is only
    /// warned of.
    RemoveDirAll(String),
}

/// What a build action holds.
pub enum BuildActionView {
    Warn(Seq<char>),
    RemoveIfExists(Seq<char>),
    HardLink { from: Seq<char>, to: Seq<char> },
    RemoveDirAll(Seq<char>),
}

impl View for BuildAction {
    type V = BuildActionView;

    open spec fn view(&self) -> BuildActionView {
        match self {
            BuildAction::Warn(s) => BuildActionView::Warn(s@),
            BuildAction::RemoveIfExists(s) => BuildActionView::RemoveIfExists(s@),
            BuildAction::HardLink { from, to } => BuildActionView::HardLink { from: from@, to: to@ },
            BuildAction::RemoveDirAll(s) => BuildActionView::RemoveDirAll(s@),
        }
    }
}

/// What each action holds.
pub open spec fn actions_view(v: Seq<BuildAction>) -> Seq<BuildActionView> {
    v.map_values(|a: BuildAction| a@)
}

/// The steps after a successful nested build: its error output as a warning,
/// if any; the removal of a stale image where the image is published; the
/// hard link that publishes it; and, when asked, the removal of the nested
/// target directory.
pub open spec fn success_actions(
    artifact: Seq<char>,
    published: Seq<char>,
    target: Seq<char>,
    clean: bool,
    stderr: Seq<char>,
) -> Seq<BuildActionView> {
    let warn = if stderr.len() > 0 {
        seq![BuildActionView::Warn(warning_spec(stderr))]
    } else {
        Seq::empty()
    };
    let link = seq![
        BuildActionView::RemoveIfExists(published),
        BuildActionView::Warn(warning_spec("linking "@ + artifact + " to "@ + published)),
        BuildActionView::HardLink { from: artifact, to: published },
    ];
    let tidy = if clean {
        seq![BuildActionView::RemoveDirAll(target)]
    } else {
        Seq::empty()
    };
    warn + link + tidy
}

/// The message of a failed nested build: its standard output and error, as
/// they came.
pub open spec fn failure_message(stdout: Seq<char>, stderr: Seq<char>) -> Seq<char> {
    "compile failed:\nstdout:\n"@ + stdout + "\nstderr:\n"@ + stderr
}

fn push_action(v: &mut Vec<BuildAction>, a: BuildAction)
    ensures
        actions_view(final(v)@) == actions_view(old(v)@).push(a@),
{
    let ghost before = v@;
    v.push(a);
    assert(actions_view(v@) =~= actions_view(before).push(a@));
}

impl BuildPlan {
    /// What follows the nested build: on failure the message to abort the
    /// build with, on success the steps that publish the image.
    pub fn after_build(&self, succeeded: bool, stdout: &str, stderr: &str) -> (r: Result<Vec<BuildAction>, String>)
        ensures
            !succeeded ==> (r matches Err(m) && m@ == failure_message(stdout@, stderr@)),
            succeeded ==> (r matches Ok(a) && actions_view(a@) == success_actions(
                self.artifact@,
                self.published@,
                self.target_dir@,
                self.clean,
                stderr@,
            )),
    {
        if !succeeded {
            let mut m = String::from_str("compile failed:\nstdout:\n");
            m.append(stdout);
            m.append("\nstderr:\n");
            m.append(stderr);
            return Err(m);
        }
        let mut actions: Vec<BuildAction> = Vec::new();
        if !stderr.is_empty() {
            push_action(&mut actions, BuildAction::Warn(warning(stderr)));
        }
        let ghost warn = actions_view(actions@);
        push_action(&mut actions, BuildAction::RemoveIfExists(self.published.clone()));
        let mut msg = String::from_str("linking ");
        msg.append(self.artifact.as_str());
        msg.append(" to ");
        msg.append(self.published.as_str());
        push_action(&mut actions, BuildAction::Warn(warning(msg.as_str())));
        push_action(
            &mut actions,
            BuildAction::HardLink { from: self.artifact.clone(), to: self.published.clone() },
        );
        let ghost link = actions_view(actions@);
        if self.clean {
            push_action(&mut actions, BuildAction::RemoveDirAll(self.target_dir.clone()));
        }
        assert(actions_view(actions@) =~= success_actions(
            self.artifact@,
            self.published@,
            self.target_dir@,
            self.clean,
            stderr@,
        ));
        Ok(actions)
    }

    /// The message to abort the build with when the build tool could not be
    /// started.
    pub fn spawn_failure(&self, error: &str) -> (r: String)
        ensures
            r@ == self.command@ + "failed: "@ + error@,
    {
        let mut m = self.command.clone();
        m.append("failed: ");
        m.append(error);
        m
    }
}

} // verus!
