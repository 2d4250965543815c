use cargo_ninja::build_plan::{has_distinct_keys, CompileMode, Context, Invocation, TargetKind};
use cargo_ninja::crate_type::CrateType;
use cargo_ninja::error::ErrorKind;
use cargo_ninja::graph::BuildPlan;
use cargo_ninja::lower::{configure, dirs_among, put_path};

fn texts(list: &[&str]) -> Vec<String> {
    list.iter().map(|s| s.to_string()).collect()
}

fn text_pairs(list: &[(&str, &str)]) -> Vec<(String, String)> {
    list.iter().map(|(a, b)| (a.to_string(), b.to_string())).collect()
}

fn unit(name: &str, kind: TargetKind, mode: CompileMode, deps: &[usize]) -> Invocation {
    Invocation {
        package_name: name.to_string(),
        package_version: "0.1.0".to_string(),
        target_kind: kind,
        compile_mode: mode,
        deps: deps.to_vec(),
        outputs: vec![],
        links: vec![],
        program: "rustc".to_string(),
        args: vec![],
        env: vec![],
        cwd: Some("/w".to_string()),
    }
}

fn cx() -> Context {
    Context { build_dir: "/b".to_string(), workspace: text_pairs(&[("foo", "0.1.0")]), windows: false }
}

/// A build script, its run, and the library that needs it.
fn plan_with_script() -> BuildPlan {
    let mut build = unit("foo", TargetKind::CustomBuild, CompileMode::Build, &[]);
    build.args = texts(&["--crate-name", "build_script_build", "build.rs"]);
    build.outputs = texts(&["/b/build/foo-abc/build_script_build-abc"]);
    let mut run = unit("foo", TargetKind::CustomBuild, CompileMode::RunCustomBuild, &[0]);
    run.program = "/b/build/foo-abc/build-script-build".to_string();
    run.env = text_pairs(&[("OUT_DIR", "/b/build/foo-abc/out")]);
    let mut lib = unit("foo", TargetKind::Lib(vec![CrateType::Lib]), CompileMode::Build, &[1]);
    lib.args = texts(&["--crate-name", "foo", "src/lib.rs", "-C", "extra-filename=-def"]);
    lib.outputs = texts(&["/b/deps/libfoo-def.rlib"]);
    BuildPlan { invocations: vec![build, run, lib], inputs: vec![] }
}

#[test]
fn script_outputs_are_parsed_where_they_were_read() {
    let plan = plan_with_script();
    let outputs = vec![None, Some(b"cargo:rustc-cfg=has_feature\n".to_vec()), None];
    let scripts = plan.parse_scripts(&outputs, &None).unwrap();
    assert_eq!(scripts.len(), 3);
    assert!(scripts[0].is_none());
    assert!(scripts[2].is_none());
    let expected = plan.invocations[1].build_script_output(b"cargo:rustc-cfg=has_feature\n", None).unwrap();
    let parsed = scripts[1].as_ref().unwrap();
    assert_eq!(parsed.cfgs, expected.cfgs);
    assert_eq!(parsed.cfgs, texts(&["has_feature"]));
    assert!(parsed.library_links.is_empty());
    assert!(parsed.warnings.is_empty());
}

#[test]
fn a_script_output_that_cannot_be_parsed_is_the_error() {
    let plan = plan_with_script();
    let outputs = vec![None, Some(b"cargo:rustc-flags=-x foo\n".to_vec()), None];
    let err = plan.parse_scripts(&outputs, &None).unwrap_err();
    assert_eq!(err.kind, ErrorKind::ScriptOutputShape);
    let direct = plan.invocations[1].build_script_output(b"cargo:rustc-flags=-x foo\n", None).unwrap_err();
    assert_eq!(err.message, direct.message);
    let generator = configure("cargo-ninja".to_string(), None, &vec![], &vec![]);
    let staged = plan.build_stage_from_bytes(&cx(), &plan.source_files(), &outputs, &None, generator);
    let staged = staged.unwrap_err();
    assert_eq!(staged.kind, ErrorKind::ScriptOutputShape);
    assert_eq!(staged.message, direct.message);
}

#[test]
fn the_first_script_error_is_returned() {
    let mut plan = plan_with_script();
    plan.invocations[0].env = text_pairs(&[("OUT_DIR", "/b/build/foo-abc/out")]);
    let outputs = vec![
        Some(b"cargo:rustc-flags=-x one\n".to_vec()),
        Some(b"cargo:rustc-flags=-x two\n".to_vec()),
        None,
    ];
    let err = plan.parse_scripts(&outputs, &None).unwrap_err();
    let first = plan.invocations[0].build_script_output(b"cargo:rustc-flags=-x one\n", None).unwrap_err();
    assert_eq!(err.kind, first.kind);
    assert_eq!(err.message, first.message);
    assert!(err.message.contains("one"));
}

#[test]
fn script_outputs_must_match_the_plan() {
    let plan = plan_with_script();
    let err = plan.parse_scripts(&vec![None], &None).unwrap_err();
    assert_eq!(err.kind, ErrorKind::PlanShape);
    let none = BuildPlan { invocations: vec![], inputs: vec![] };
    assert!(none.parse_scripts(&vec![], &None).unwrap().is_empty());
}

#[test]
fn bootstrap_setting_reaches_the_parser() {
    let plan = plan_with_script();
    let outputs = vec![None, Some(b"cargo:rustc-env=RUSTC_BOOTSTRAP=1\n".to_vec()), None];
    let scripts = plan.parse_scripts(&outputs, &Some("1".to_string())).unwrap();
    let out = scripts[1].as_ref().unwrap();
    assert!(out.env.is_empty());
    assert_eq!(out.warnings.len(), 1);
    assert!(out.warnings[0].contains("RUSTC_BOOTSTRAP=1"));
}

#[test]
fn build_stage_from_bytes_is_the_build_stage_of_what_was_parsed() {
    let plan = plan_with_script();
    let outputs = vec![None, Some(b"cargo:rustc-cfg=has_feature\ncargo:rustc-link-lib=z\n".to_vec()), None];
    let inputs = plan.source_files();
    assert_eq!(inputs, vec![Some("build.rs".to_string()), None, Some("src/lib.rs".to_string())]);
    let generator = configure("cargo-ninja".to_string(), Some("/w".to_string()), &texts(&["out"]), &vec![]);
    let from_bytes = plan
        .build_stage_from_bytes(&cx(), &inputs, &outputs, &None, generator.clone())
        .unwrap();
    let scripts = plan.parse_scripts(&outputs, &None).unwrap();
    let staged = plan.build_stage(&cx(), &inputs, &scripts, generator).unwrap();
    assert_eq!(from_bytes, staged);
    let lib = &from_bytes.rules.iter().find(|(id, _)| id == "2-foo-0.1.0-lib-build").unwrap().1;
    assert_eq!(
        lib.command.args,
        texts(&[
            "--crate-name",
            "foo",
            "../w/src/lib.rs",
            "-C",
            "extra-filename=-def",
            "--error-format=human",
            "--cfg",
            "has_feature",
            "-l",
            "z"
        ])
    );
}

#[test]
fn directory_markers_are_a_set_of_paths() {
    assert_eq!(
        dirs_among(&texts(&["/b/z/one", "/b/a/two", "/b//z/three", "/b/a/./four", "/b/m/five"])),
        texts(&["/b/a/.ninja_dir", "/b/m/.ninja_dir", "/b/z/.ninja_dir"])
    );
    assert_eq!(
        dirs_among(&texts(&["/b/a-b/x", "/b/a/x"])),
        texts(&["/b/a/.ninja_dir", "/b/a-b/.ninja_dir"])
    );
}

#[test]
fn put_path_keeps_the_order_of_paths() {
    let mut list: Vec<String> = Vec::new();
    put_path(&mut list, "/b/m".to_string());
    put_path(&mut list, "/b/z".to_string());
    put_path(&mut list, "/b/a".to_string());
    assert_eq!(list, texts(&["/b/a", "/b/m", "/b/z"]));
    put_path(&mut list, "/b//m/".to_string());
    assert_eq!(list, texts(&["/b/a", "/b/m", "/b/z"]));
    put_path(&mut list, "/b/n".to_string());
    assert_eq!(list, texts(&["/b/a", "/b/m", "/b/n", "/b/z"]));
}

#[test]
fn keys_are_distinct_where_no_key_comes_twice() {
    assert!(has_distinct_keys(&vec![]));
    assert!(has_distinct_keys(&text_pairs(&[("a", "1"), ("b", "1")])));
    assert!(!has_distinct_keys(&text_pairs(&[("a", "1"), ("b", "2"), ("a", "3")])));
    let mut inv = unit("foo", TargetKind::Bin, CompileMode::Build, &[]);
    inv.links = text_pairs(&[("/b/foo", "/b/deps/foo-1"), ("/b/foo2", "/b/deps/foo-1")]);
    inv.env = text_pairs(&[("A", "1"), ("B", "2")]);
    assert!(inv.is_keyed());
    inv.env = text_pairs(&[("A", "1"), ("A", "2")]);
    assert!(!inv.is_keyed());
}

#[test]
fn script_outputs_are_read_for_the_graph_alone() {
    let mut plan = plan_with_script();
    let mut other_run = unit("bar", TargetKind::CustomBuild, CompileMode::RunCustomBuild, &[0]);
    other_run.env = text_pairs(&[("OUT_DIR", "/b/build/bar-abc/out")]);
    let mut bar = unit("bar", TargetKind::Lib(vec![CrateType::Lib]), CompileMode::Build, &[3]);
    bar.outputs = texts(&["/b/deps/libbar-def.rlib"]);
    plan.invocations.push(other_run);
    plan.invocations.push(bar);
    let lib_only = vec![false, false, true, false, false];
    assert_eq!(plan.scripts_read(&lib_only, false), vec![false, true, false, false, false]);
    let both = vec![false, false, true, false, true];
    assert_eq!(plan.scripts_read(&both, false), vec![false, true, false, true, false]);
    let none = vec![false; 5];
    assert_eq!(plan.scripts_read(&none, true), vec![false; 5]);
    let runs = vec![false, true, false, true, false];
    assert_eq!(plan.scripts_read(&runs, true), vec![false; 5]);
}

#[test]
fn the_last_run_among_the_dependencies_is_read() {
    let mut plan = plan_with_script();
    let mut other_run = unit("bar", TargetKind::CustomBuild, CompileMode::RunCustomBuild, &[0]);
    other_run.env = text_pairs(&[("OUT_DIR", "/b/build/bar-abc/out")]);
    plan.invocations.insert(2, other_run);
    plan.invocations[3].deps = vec![1, 2];
    assert_eq!(plan.scripts_read(&vec![false, false, false, true], false), vec![false, false, true, false]);
    plan.invocations[3].deps = vec![2, 1];
    assert_eq!(plan.scripts_read(&vec![false, false, false, true], false), vec![false, true, false, false]);
}
