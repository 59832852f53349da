use cuda_min::{warning, BuildAction, BuildEnv, GpuCode};

fn env(out: &str) -> BuildEnv {
    BuildEnv {
        cuda_path: None,
        cuda_home: None,
        cargo: None,
        cargo_target_dir: None,
        cargo_build_target_dir: None,
        rustflags: None,
        encoded_rustflags: None,
        out_dir: out.to_string(),
    }
}

#[test]
fn builder_defaults_and_setters() {
    let g = GpuCode::new("foo", "gpu");
    assert_eq!(g.profile_name, "cuda");
    assert_eq!(g.fallback_target_dir, "target");
    assert!(!g.clean);
    let g = g.profile("kernel").target("/tmp/t").clean();
    assert_eq!(g.gpu_crate_name, "foo");
    assert_eq!(g.gpu_crate_dir, "gpu");
    assert_eq!(g.profile_name, "kernel");
    assert_eq!(g.fallback_target_dir, "/tmp/t");
    assert!(g.clean);
}

#[test]
fn plan_publishes_image_by_hard_link() {
    let g = GpuCode::new("foo", "gpu").profile("kernel").target("targetDir");
    let plan = g.plan(&env("/out"));
    assert_eq!(plan.artifact, "targetDir/nvptx64-nvidia-cuda/kernel/foo.ptx");
    assert_eq!(plan.published, "/out/foo.ptx");
    assert_eq!(plan.target_dir, "targetDir");
    assert_eq!(plan.program, "cargo");
    let actions = plan.after_build(true, "", "").unwrap();
    assert_eq!(actions.len(), 3);
    assert!(matches!(&actions[0], BuildAction::RemoveIfExists(p) if p == "/out/foo.ptx"));
    assert!(matches!(&actions[1], BuildAction::Warn(w) if w == "cargo::warning=linking targetDir/nvptx64-nvidia-cuda/kernel/foo.ptx to /out/foo.ptx"));
    assert!(matches!(&actions[2], BuildAction::HardLink { from, to }
        if from == "targetDir/nvptx64-nvidia-cuda/kernel/foo.ptx" && to == "/out/foo.ptx"));
}

#[test]
fn plan_cleans_and_warns_of_stderr() {
    let g = GpuCode::new("foo", "gpu").target("t").clean();
    let plan = g.plan(&env("o"));
    let actions = plan.after_build(true, "ignored", "Compiling foo\nFinished").unwrap();
    assert_eq!(actions.len(), 5);
    assert!(matches!(&actions[0], BuildAction::Warn(w)
        if w == "cargo::warning=Compiling foo\ncargo::warning=Finished"));
    assert!(matches!(&actions[4], BuildAction::RemoveDirAll(d) if d == "t"));
}

#[test]
fn failed_build_surfaces_output() {
    let plan = GpuCode::new("foo", "gpu").plan(&env("o"));
    let m = plan.after_build(false, "out text", "err text").err().unwrap();
    assert_eq!(m, "compile failed:\nstdout:\nout text\nstderr:\nerr text");
}

#[test]
fn plan_arguments_and_environment() {
    let mut e = env("o");
    e.cargo = Some("/bin/cargo".to_string());
    e.cargo_build_target_dir = Some("bt".to_string());
    let plan = GpuCode::new("foo", "gpu").plan(&e);
    assert_eq!(plan.program, "/bin/cargo");
    assert_eq!(
        plan.args,
        vec![
            "build", "--color", "always", "--profile", "cuda", "--manifest-path", "gpu/Cargo.toml",
            "--target", "nvptx64-nvidia-cuda", "--target-dir", "bt",
        ]
    );
    assert_eq!(plan.env_remove, vec!["RUSTFLAGS", "CARGO_ENCODED_RUSTFLAGS"]);
    e.cargo_target_dir = Some("ct".to_string());
    assert_eq!(GpuCode::new("foo", "gpu").plan(&e).target_dir, "ct");
}

#[test]
fn plan_directives() {
    let mut e = env("o");
    e.cuda_home = Some("/usr/cuda".to_string());
    e.encoded_rustflags = Some("-C\u{1f}target-cpu=native".to_string());
    let plan = GpuCode::new("foo", "gpu").target("t").plan(&e);
    let d = &plan.directives;
    assert_eq!(d[0], "cargo::rerun-if-changed=gpu/src");
    assert_eq!(d[1], "cargo::rerun-if-changed=build.rs");
    assert_eq!(d[2], "cargo::rerun-if-env-changed=CUDA_PATH");
    assert_eq!(
        d[3],
        "cargo::warning=try searching with cudart since CUDA_PATH or CUDA_HOME are not all None.\ncargo::warning=print rustc-link-search=/usr/cuda/lib"
    );
    assert_eq!(d[4], "cargo:rustc-link-search=/usr/cuda/lib");
    assert_eq!(d[5], "cargo::warning=omit CARGO_ENCODED_RUSTFLAGS=-C target-cpu=native for compiling GPU code.");
    assert_eq!(d.len(), 7);
    assert_eq!(d[6], format!("cargo::warning={}", plan.command));
    assert_eq!(
        plan.command,
        "executing\x1b[1;32m \"cargo\" build --color always --profile cuda --manifest-path \"gpu/Cargo.toml\" --target nvptx64-nvidia-cuda --target-dir \"t\" \x1b[m"
    );
}

#[test]
fn plan_without_toolkit_warns() {
    let plan = GpuCode::new("foo", "gpu").plan(&env("o"));
    assert!(plan.directives[3].starts_with("cargo::warning=Neither environment CUDA_PATH nor CUDA_HOME exists"));
    assert_eq!(plan.directives.len(), 5);
}

#[test]
fn spawn_failure_message() {
    let plan = GpuCode::new("foo", "gpu").plan(&env("o"));
    let m = plan.spawn_failure("NotFound");
    assert!(m.starts_with("executing"));
    assert!(m.ends_with("\x1b[mfailed: NotFound"));
}

#[test]
fn warning_prefixes_every_line() {
    assert_eq!(warning("a\nb\n"), "cargo::warning=a\ncargo::warning=b\ncargo::warning=");
    assert_eq!(warning(""), "cargo::warning=");
}
