use cargo_ninja::build_plan::{build_dir, normalized_plan_text, CompileMode, Context, Invocation, TargetKind};
use cargo_ninja::crate_type::CrateType;
use cargo_ninja::error::ErrorKind;
use cargo_ninja::rust_version::RustVersion;

fn strings(list: &[&str]) -> Vec<String> {
    list.iter().map(|s| s.to_string()).collect()
}

fn pairs(list: &[(&str, &str)]) -> Vec<(String, String)> {
    list.iter().map(|(a, b)| (a.to_string(), b.to_string())).collect()
}

fn invocation(name: &str, kind: TargetKind, mode: CompileMode) -> Invocation {
    Invocation {
        package_name: name.to_string(),
        package_version: "0.1.0".to_string(),
        target_kind: kind,
        compile_mode: mode,
        deps: vec![],
        outputs: vec![],
        links: vec![],
        program: "rustc".to_string(),
        args: vec![],
        env: vec![],
        cwd: None,
    }
}

fn context() -> Context {
    Context { build_dir: "/b".to_string(), workspace: pairs(&[("foo", "0.1.0")]), windows: false }
}

#[test]
fn crate_types_have_their_names() {
    for name in ["bin", "lib", "rlib", "dylib", "cdylib", "staticlib", "proc-macro", "something"] {
        assert_eq!(CrateType::new(name).rustc_arg(), name);
    }
    assert_eq!(CrateType::new("rlib"), CrateType::Rlib);
    assert_eq!(CrateType::new("proc-macro"), CrateType::ProcMacro);
    assert_eq!(CrateType::new("wasm"), CrateType::Other("wasm".to_string()));
}

#[test]
fn crate_type_predicates() {
    let linkable = [CrateType::Lib, CrateType::Rlib, CrateType::Dylib, CrateType::ProcMacro];
    let others = [CrateType::Bin, CrateType::Cdylib, CrateType::Staticlib, CrateType::Other("x".to_string())];
    for t in &linkable {
        assert!(t.is_linkable());
    }
    for t in &others {
        assert!(!t.is_linkable());
    }
    assert!(!CrateType::Rlib.requires_upstream_objects());
    for t in [CrateType::Lib, CrateType::Dylib, CrateType::ProcMacro, CrateType::Bin, CrateType::Cdylib, CrateType::Staticlib] {
        assert!(t.requires_upstream_objects());
    }
}

#[test]
fn target_kind_from_kinds() {
    assert_eq!(TargetKind::from_kinds(&strings(&["bin"])).unwrap(), TargetKind::Bin);
    assert_eq!(TargetKind::from_kinds(&strings(&["example"])).unwrap(), TargetKind::ExampleBin);
    assert_eq!(TargetKind::from_kinds(&strings(&["test"])).unwrap(), TargetKind::Test);
    assert_eq!(TargetKind::from_kinds(&strings(&["bench"])).unwrap(), TargetKind::Bench);
    assert_eq!(TargetKind::from_kinds(&strings(&["custom-build"])).unwrap(), TargetKind::CustomBuild);
    assert_eq!(TargetKind::from_kinds(&strings(&["lib"])).unwrap(), TargetKind::Lib(vec![CrateType::Lib]));
    assert_eq!(
        TargetKind::from_kinds(&strings(&["rlib", "cdylib"])).unwrap(),
        TargetKind::Lib(vec![CrateType::Rlib, CrateType::Cdylib])
    );
    assert_eq!(
        TargetKind::from_kinds(&strings(&["bin", "lib"])).unwrap(),
        TargetKind::Lib(vec![CrateType::Bin, CrateType::Lib])
    );
    let err = TargetKind::from_kinds(&vec![]).unwrap_err();
    assert_eq!(err.kind, ErrorKind::PlanShape);
    assert_eq!(err.to_string(), "invalid length 0, expected at least one target kind");
}

#[test]
fn target_kind_description_and_crate_types() {
    assert_eq!(TargetKind::Lib(vec![]).description(), "lib");
    assert_eq!(TargetKind::Bin.description(), "bin");
    assert_eq!(TargetKind::Test.description(), "integration-test");
    assert_eq!(TargetKind::ExampleBin.description(), "example");
    assert_eq!(TargetKind::ExampleLib(vec![]).description(), "example");
    assert_eq!(TargetKind::Bench.description(), "bench");
    assert_eq!(TargetKind::CustomBuild.description(), "build-script");
    assert_eq!(TargetKind::Bin.rustc_crate_types(), vec![CrateType::Bin]);
    assert_eq!(TargetKind::CustomBuild.rustc_crate_types(), vec![CrateType::Bin]);
    assert_eq!(
        TargetKind::Lib(vec![CrateType::Rlib, CrateType::Dylib]).rustc_crate_types(),
        vec![CrateType::Rlib, CrateType::Dylib]
    );
    assert_eq!(TargetKind::ExampleLib(vec![CrateType::Lib]).rustc_crate_types(), vec![CrateType::Lib]);
}

#[test]
fn target_kind_requires_upstream_objects() {
    assert!(TargetKind::Bin.requires_upstream_objects());
    assert!(TargetKind::Test.requires_upstream_objects());
    assert!(!TargetKind::Lib(vec![CrateType::Rlib]).requires_upstream_objects());
    assert!(!TargetKind::Lib(vec![]).requires_upstream_objects());
    assert!(TargetKind::Lib(vec![CrateType::Rlib, CrateType::Cdylib]).requires_upstream_objects());
    assert!(TargetKind::ExampleLib(vec![CrateType::Dylib]).requires_upstream_objects());
}

#[test]
fn compile_mode_names() {
    for (name, mode) in [
        ("test", CompileMode::Test),
        ("build", CompileMode::Build),
        ("check", CompileMode::Check { test: false }),
        ("bench", CompileMode::Bench),
        ("doc", CompileMode::Doc { deps: false, json: false }),
        ("doctest", CompileMode::Doctest),
        ("docscrape", CompileMode::Docscrape),
        ("run-custom-build", CompileMode::RunCustomBuild),
    ] {
        assert_eq!(CompileMode::from_name(name).unwrap(), mode);
        assert_eq!(mode.as_str(), name);
    }
    let err = CompileMode::from_name("link").unwrap_err();
    assert_eq!(err.kind, ErrorKind::PlanShape);
    assert_eq!(err.to_string(), "unknown compile mode link");
}

#[test]
fn invocation_predicates() {
    let lib = invocation("foo", TargetKind::Lib(vec![CrateType::Rlib, CrateType::Cdylib]), CompileMode::Build);
    assert!(lib.is_lib() && lib.is_cdylib() && lib.is_linkable() && lib.doctestable());
    assert!(!lib.is_dylib() && !lib.is_staticlib() && !lib.is_bin() && !lib.is_executable());
    let stat = invocation("foo", TargetKind::Lib(vec![CrateType::Staticlib]), CompileMode::Build);
    assert!(stat.is_staticlib() && !stat.is_linkable() && !stat.doctestable());
    let dy = invocation("foo", TargetKind::Lib(vec![CrateType::Dylib]), CompileMode::Build);
    assert!(dy.is_dylib() && dy.is_linkable() && !dy.doctestable());
    let bin = invocation("foo", TargetKind::Bin, CompileMode::Build);
    assert!(bin.is_bin() && bin.is_executable() && !bin.is_lib() && !bin.is_example());
    let example = invocation("foo", TargetKind::ExampleBin, CompileMode::Build);
    assert!(example.is_example() && example.is_exe_example() && example.is_executable());
    let example_lib = invocation("foo", TargetKind::ExampleLib(vec![CrateType::Lib]), CompileMode::Build);
    assert!(example_lib.is_example() && !example_lib.is_exe_example() && !example_lib.is_linkable());
    let test = invocation("foo", TargetKind::Test, CompileMode::Test);
    assert!(test.is_test() && !test.is_executable() && !test.is_bench());
    let bench = invocation("foo", TargetKind::Bench, CompileMode::Bench);
    assert!(bench.is_bench());
    let script = invocation("foo", TargetKind::CustomBuild, CompileMode::Build);
    assert!(script.is_custom_build() && !script.is_run_custom_build());
    let run = invocation("foo", TargetKind::CustomBuild, CompileMode::RunCustomBuild);
    assert!(run.is_custom_build() && run.is_run_custom_build());
    assert_eq!(bin.rustc_crate_types(), vec![CrateType::Bin]);
    assert_eq!(bin.package_name(), "foo");
}

#[test]
fn workspace_build_needs_name_and_version() {
    let members = pairs(&[("foo", "0.1.0"), ("bar", "2.0.0")]);
    let foo = invocation("foo", TargetKind::Bin, CompileMode::Build);
    assert!(foo.is_workspace_build(&members));
    let mut other = invocation("foo", TargetKind::Bin, CompileMode::Build);
    other.package_version = "0.2.0".to_string();
    assert!(!other.is_workspace_build(&members));
    assert!(!invocation("baz", TargetKind::Bin, CompileMode::Build).is_workspace_build(&members));
    assert!(!invocation("foo", TargetKind::CustomBuild, CompileMode::Build).is_workspace_build(&members));
    assert!(!invocation("foo", TargetKind::CustomBuild, CompileMode::RunCustomBuild).is_workspace_build(&members));
    assert!(!foo.is_workspace_build(&vec![]));
}

#[test]
fn outputs_and_links_leave_out_dwp() {
    let mut inv = invocation("foo", TargetKind::Lib(vec![CrateType::Rlib]), CompileMode::Build);
    inv.outputs = strings(&["/b/deps/libfoo.rlib", "/b/deps/libfoo.dwp", "/b/deps/libfoo.rmeta"]);
    inv.links = pairs(&[("/b/libfoo.dwp", "/b/deps/libfoo.dwp"), ("/b/libfoo.rlib", "/b/deps/libfoo.rlib")]);
    assert_eq!(inv.outputs().unwrap(), strings(&["/b/deps/libfoo.rlib", "/b/deps/libfoo.rmeta"]));
    assert_eq!(inv.links(), pairs(&[("/b/libfoo.rlib", "/b/deps/libfoo.rlib")]));
}

#[test]
fn run_custom_build_outputs_the_script_output_file() {
    let mut inv = invocation("foo", TargetKind::CustomBuild, CompileMode::RunCustomBuild);
    inv.outputs = strings(&["ignored"]);
    inv.env = pairs(&[("CARGO", "cargo"), ("OUT_DIR", "/b/build/foo-abc/out")]);
    assert_eq!(inv.out_dir().unwrap(), "/b/build/foo-abc/out");
    assert_eq!(inv.build_script_output_file().unwrap(), "/b/build/foo-abc/output");
    assert_eq!(inv.outputs().unwrap(), strings(&["/b/build/foo-abc/output"]));
}

#[test]
fn missing_out_dir_is_an_error() {
    let inv = invocation("foo", TargetKind::CustomBuild, CompileMode::RunCustomBuild);
    let err = inv.out_dir().unwrap_err();
    assert_eq!(err.kind, ErrorKind::MissingEnv);
    assert_eq!(err.to_string(), "OUT_DIR is not set for foo");
    assert_eq!(inv.build_script_output_file().unwrap_err().kind, ErrorKind::MissingEnv);
    assert_eq!(inv.outputs().unwrap_err().kind, ErrorKind::MissingEnv);
}

#[test]
fn out_dir_without_parent_is_an_error() {
    let mut inv = invocation("foo", TargetKind::CustomBuild, CompileMode::RunCustomBuild);
    inv.env = pairs(&[("OUT_DIR", "/")]);
    let err = inv.build_script_output_file().unwrap_err();
    assert_eq!(err.kind, ErrorKind::MissingEnv);
    assert_eq!(err.to_string(), "failed get out_dir's parent");
}

#[test]
fn extra_filename_is_read_from_the_arguments() {
    let cx = context();
    let mut inv = invocation("dep", TargetKind::Lib(vec![CrateType::Lib]), CompileMode::Build);
    inv.args = strings(&["--crate-name", "dep", "-C", "extra-filename=-abc=def", "-C", "extra-filename=-second"]);
    assert_eq!(inv.extra_filename(&cx, &None).unwrap(), "-abc");
    inv.args = strings(&["-C", "extra-filename"]);
    let err = inv.extra_filename(&cx, &None).unwrap_err();
    assert_eq!(err.kind, ErrorKind::MissingEnv);
    assert_eq!(err.to_string(), "failed to find extra-filename in args");
    inv.args = strings(&["-C", "metadata=1"]);
    assert_eq!(inv.extra_filename(&cx, &None).unwrap_err().kind, ErrorKind::MissingEnv);
}

#[test]
fn dep_info_file_follows_kind_and_mode() {
    let cx = context();
    let mut lib = invocation("my-dep", TargetKind::Lib(vec![CrateType::Lib]), CompileMode::Build);
    lib.args = strings(&["-C", "extra-filename=-abc"]);
    assert_eq!(lib.dep_info_file(&cx, &None).unwrap(), "/b/deps/my_dep-abc.d");
    let mut script = invocation("my-dep", TargetKind::CustomBuild, CompileMode::Build);
    script.args = strings(&["-C", "extra-filename=-abc"]);
    assert_eq!(script.dep_info_file(&cx, &None).unwrap(), "/b/build/my_dep-abc/build_script_build-abc.d");
    let mut run = invocation("my-dep", TargetKind::CustomBuild, CompileMode::RunCustomBuild);
    run.args = strings(&["extra-filename=-abc"]);
    assert_eq!(run.dep_info_file(&cx, &None).unwrap_err().kind, ErrorKind::NoDepInfo);
    run.args = vec![];
    assert_eq!(run.dep_info_file(&cx, &None).unwrap_err().kind, ErrorKind::MissingEnv);
}

#[test]
fn workspace_invocation_is_rewritten_to_the_build_directory() {
    let cx = context();
    let mut inv = invocation("foo", TargetKind::Bin, CompileMode::Build);
    inv.cwd = Some("/w".to_string());
    inv.args = strings(&["--crate-name", "foo", "src/main.rs", "--edition=2021"]);
    let input = Some("src/main.rs".to_string());
    assert_eq!(inv.args_with(&cx, &input), strings(&["--crate-name", "foo", "../w/src/main.rs", "--edition=2021"]));
    assert_eq!(inv.args(&cx), strings(&["--crate-name", "foo", "../w/src/main.rs", "--edition=2021"]));
    assert_eq!(inv.cwd(&cx), Some("/b".to_string()));
}

#[test]
fn other_invocations_are_left_as_they_are() {
    let cx = context();
    let mut inv = invocation("dep", TargetKind::Lib(vec![CrateType::Lib]), CompileMode::Build);
    inv.cwd = Some("/registry/dep".to_string());
    inv.args = strings(&["--crate-name", "dep", "src/lib.rs"]);
    assert_eq!(inv.args_with(&cx, &Some("src/lib.rs".to_string())), inv.args);
    assert_eq!(inv.args(&cx), inv.args);
    assert_eq!(inv.cwd(&cx), Some("/registry/dep".to_string()));
}

#[test]
fn workspace_invocation_without_input_keeps_its_arguments() {
    let cx = context();
    let mut inv = invocation("foo", TargetKind::Bin, CompileMode::Build);
    inv.cwd = Some("/w".to_string());
    inv.args = strings(&["--crate-name", "foo"]);
    assert_eq!(inv.args_with(&cx, &None), inv.args);
    assert_eq!(inv.args(&cx), inv.args);
    inv.cwd = None;
    inv.args = strings(&["a.rs"]);
    assert_eq!(inv.args_with(&cx, &Some("a.rs".to_string())), inv.args);
    assert_eq!(inv.cwd(&cx), Some("/b".to_string()));
}

#[test]
fn build_script_output_is_parsed_for_the_package() {
    let mut run = invocation("foo", TargetKind::CustomBuild, CompileMode::RunCustomBuild);
    run.env = pairs(&[("OUT_DIR", "/b/build/foo-abc/out")]);
    let out = run.build_script_output(b"cargo:rustc-cfg=has_feature\ncargo::rustc-check-cfg=cfg(x)\ncargo:rustc-env=RUSTC_BOOTSTRAP=1\n", None).unwrap();
    assert_eq!(out.cfgs, strings(&["has_feature"]));
    assert_eq!(out.check_cfgs, strings(&["cfg(x)"]));
    assert_eq!(out.warnings.len(), 1);
    assert!(out.warnings[0].contains("from build script of `foo`"));
    let bare = invocation("foo", TargetKind::CustomBuild, CompileMode::RunCustomBuild);
    assert_eq!(bare.build_script_output(b"", None).unwrap_err().kind, ErrorKind::MissingEnv);
}

#[test]
fn rust_versions_are_ordered_and_shown() {
    let v = |a, b, c| RustVersion::new(a, b, c);
    assert!(v(1, 70, 0).is_before(&v(1, 77, 0)));
    assert!(!v(1, 77, 0).is_before(&v(1, 77, 0)));
    assert!(!v(1, 78, 0).is_before(&v(1, 77, 0)));
    assert!(v(1, 77, 0).is_before(&v(1, 77, 1)));
    assert!(v(0, 99, 9).is_before(&v(1, 0, 0)));
    assert!(!v(2, 0, 0).is_before(&v(1, 99, 0)));
    let short = RustVersion { major: 1, minor: None, patch: None };
    assert!(short.is_before(&v(1, 0, 0)));
    assert!(!v(1, 0, 0).is_before(&short));
    assert_eq!(v(1, 70, 0).to_string(), "1.70.0");
    assert_eq!(v(0, 0, 0).to_string(), "0.0.0");
    assert_eq!(v(12, 345, 6789).to_string(), "12.345.6789");
    assert_eq!(short.to_string(), "1");
    assert_eq!(RustVersion { major: 1, minor: Some(56), patch: None }.to_string(), "1.56");
    assert_eq!(v(u64::MAX, 0, 10).to_string(), "18446744073709551615.0.10");
}

#[test]
fn build_dir_is_seen_from_the_working_directory() {
    assert_eq!(build_dir("/home/me/project", "target/ninja"), "/home/me/project/target/ninja");
    assert_eq!(build_dir("/home/me/project", "/abs"), "/abs");
}

#[test]
fn plan_text_loses_the_profile_directories() {
    assert_eq!(
        normalized_plan_text("{\"outputs\":[\"/b/debug/deps/libfoo.rlib\",\"/b/release/x\",\"/c/debug/y\"]}", "/b"),
        "{\"outputs\":[\"/b/deps/libfoo.rlib\",\"/b/x\",\"/c/debug/y\"]}"
    );
}
