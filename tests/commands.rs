use cargo_options::{
    Build, Check, CheckOptions, Clippy, CommonOptions, Doc, DocOptions, Install, Metadata, Run,
    Rustc, Test,
};

fn strings(v: &[&str]) -> Vec<String> {
    v.iter().map(|s| s.to_string()).collect()
}

#[test]
fn build_example_record() {
    let mut b = Build::default();
    b.packages = strings(&["foo"]);
    b.release = true;
    b.common.target = strings(&["x86_64-unknown-linux-gnu.2.17"]);
    assert_eq!(
        b.command("cargo"),
        strings(&[
            "cargo",
            "build",
            "--target",
            "x86_64-unknown-linux-gnu",
            "--release",
            "--package",
            "foo"
        ])
    );
}

#[test]
fn test_example_record() {
    let mut t = Test::default();
    t.test_name = Some("it_works".to_string());
    t.args = strings(&["--nocapture"]);
    let r = t.command("cargo");
    assert_eq!(r, strings(&["cargo", "test", "--", "it_works", "--nocapture"]));
    assert_eq!(&r[r.len() - 3..], &strings(&["--", "it_works", "--nocapture"])[..]);
}

#[test]
fn test_name_alone_follows_separator() {
    let mut t = Test::default();
    t.test_name = Some("it_works".to_string());
    assert_eq!(t.command("cargo"), strings(&["cargo", "test", "--", "it_works"]));
    let mut u = Test::default();
    u.args = strings(&["--nocapture"]);
    u.release = true;
    assert_eq!(u.command("cargo"), strings(&["cargo", "test", "--release", "--", "--nocapture"]));
}

#[test]
fn defaults_render_bare() {
    assert_eq!(Build::default().command("cargo"), strings(&["cargo", "build"]));
    assert_eq!(Check::default().command("cargo"), strings(&["cargo", "check"]));
    assert_eq!(Clippy::default().command("cargo"), strings(&["cargo", "clippy"]));
    assert_eq!(Doc::default().command("cargo"), strings(&["cargo", "doc"]));
    assert_eq!(Install::default().command("cargo"), strings(&["cargo", "install"]));
    assert_eq!(Metadata::default().command("cargo"), strings(&["cargo", "metadata"]));
    assert_eq!(Run::default().command("cargo"), strings(&["cargo", "run"]));
    assert_eq!(Rustc::default().command("cargo"), strings(&["cargo", "rustc"]));
    assert_eq!(Test::default().command("/opt/bin/cargo"), strings(&["/opt/bin/cargo", "test"]));
}

#[test]
fn defaults_apply_nothing() {
    let mut args = strings(&["cargo"]);
    CommonOptions::default().apply(&mut args);
    CheckOptions::default().apply(&mut args);
    DocOptions::default().apply(&mut args);
    assert_eq!(args, strings(&["cargo"]));
}

#[test]
fn common_options_in_declared_order() {
    let mut c = CommonOptions::default();
    c.quiet = true;
    c.jobs = Some(8);
    c.keep_going = true;
    c.profile = Some("dev".to_string());
    c.features = strings(&["a", "b"]);
    c.all_features = true;
    c.no_default_features = true;
    c.target = strings(&["aarch64-unknown-linux-gnu"]);
    c.target_dir = Some("out".to_string());
    c.message_format = strings(&["json"]);
    c.verbose = 2;
    c.color = Some("never".to_string());
    c.frozen = true;
    c.locked = true;
    c.offline = true;
    c.config = strings(&["k=v"]);
    c.unstable_flags = strings(&["unstable-options"]);
    c.timings = Some(strings(&["html"]));
    let mut args = Vec::new();
    c.apply(&mut args);
    assert_eq!(
        args,
        strings(&[
            "--quiet",
            "--jobs",
            "8",
            "--keep-going",
            "--profile",
            "dev",
            "--features",
            "a",
            "--features",
            "b",
            "--all-features",
            "--no-default-features",
            "--target",
            "aarch64-unknown-linux-gnu",
            "--target-dir",
            "out",
            "--message-format",
            "json",
            "-vv",
            "--color",
            "never",
            "--frozen",
            "--locked",
            "--offline",
            "--config",
            "k=v",
            "-Z",
            "unstable-options",
            "--timings=html",
        ])
    );
}

#[test]
fn check_order_common_then_selection_then_own() {
    let mut c = Check::default();
    c.common.quiet = true;
    c.check.workspace = true;
    c.check.exclude = strings(&["x"]);
    c.check.future_incompat_report = true;
    c.manifest_path = Some("a/Cargo.toml".to_string());
    c.unit_graph = true;
    assert_eq!(
        c.command("cargo"),
        strings(&[
            "cargo",
            "check",
            "--quiet",
            "--workspace",
            "--exclude",
            "x",
            "--future-incompat-report",
            "--manifest-path",
            "a/Cargo.toml",
            "--unit-graph"
        ])
    );
}

#[test]
fn clippy_passthrough_last() {
    let mut c = Clippy::default();
    c.fix = true;
    c.allow_dirty = true;
    c.check.all_targets = true;
    c.args = strings(&["-D", "warnings"]);
    assert_eq!(
        c.command("cargo"),
        strings(&["cargo", "clippy", "--all-targets", "--fix", "--allow-dirty", "--", "-D", "warnings"])
    );
}

#[test]
fn doc_flags() {
    let mut d = Doc::default();
    d.doc.packages = strings(&["p"]);
    d.doc.no_deps = true;
    d.doc.open = true;
    d.release = true;
    assert_eq!(
        d.command("cargo"),
        strings(&["cargo", "doc", "--package", "p", "--no-deps", "--open", "--release"])
    );
}

#[test]
fn install_crates_without_separator() {
    let mut i = Install::default();
    i.version = Some("1.0".to_string());
    i.force = true;
    i.root = Some("/tmp/root".to_string());
    i.bin = strings(&["tool"]);
    i.crates = strings(&["ripgrep", "fd-find"]);
    assert_eq!(
        i.command("cargo"),
        strings(&[
            "cargo",
            "install",
            "--version",
            "1.0",
            "--force",
            "--root",
            "/tmp/root",
            "--bin",
            "tool",
            "ripgrep",
            "fd-find"
        ])
    );
}

#[test]
fn metadata_order() {
    let mut m = Metadata::default();
    m.quiet = true;
    m.verbose = 1;
    m.features = strings(&["f"]);
    m.filter_platform = strings(&["x86_64-pc-windows-msvc"]);
    m.no_deps = true;
    m.format_version = Some("1".to_string());
    m.unstable_flags = strings(&["z"]);
    assert_eq!(
        m.command("cargo"),
        strings(&[
            "cargo",
            "metadata",
            "--quiet",
            "-v",
            "--features",
            "f",
            "--filter-platform",
            "x86_64-pc-windows-msvc",
            "--no-deps",
            "--format-version",
            "1",
            "-Z",
            "z"
        ])
    );
}

#[test]
fn run_passthrough_only_when_given() {
    let mut r = Run::default();
    r.bin = strings(&["app"]);
    assert_eq!(r.command("cargo"), strings(&["cargo", "run", "--bin", "app"]));
    r.args = strings(&["--", "x"]);
    assert_eq!(r.command("cargo"), strings(&["cargo", "run", "--bin", "app", "--", "--", "x"]));
}

#[test]
fn rustc_crate_types_joined() {
    let mut r = Rustc::default();
    r.lib = true;
    r.print = Some("cfg".to_string());
    r.crate_type = strings(&["lib", "cdylib"]);
    r.future_incompat_report = true;
    r.args = strings(&["-C", "opt-level=3"]);
    assert_eq!(
        r.command("cargo"),
        strings(&[
            "cargo",
            "rustc",
            "--lib",
            "--print",
            "cfg",
            "--crate-type",
            "lib,cdylib",
            "--future-incompat-report",
            "--",
            "-C",
            "opt-level=3"
        ])
    );
}

#[test]
fn records_reach_common_options() {
    let mut b = Build::default();
    b.jobs = Some(4);
    b.verbose = 1;
    assert_eq!(b.common.jobs, Some(4));
    assert!(!b.quiet);
    assert_eq!(b.command("cargo"), strings(&["cargo", "build", "--jobs", "4", "-v"]));
}

#[test]
fn program_override() {
    assert_eq!(CommonOptions::cargo_program(None), "cargo");
    assert_eq!(CommonOptions::cargo_program(Some("/x/cargo".to_string())), "/x/cargo");
}
