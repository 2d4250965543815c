use cargo_ninja::build_plan::{CompileMode, Context, Invocation, TargetKind};
use cargo_ninja::crate_type::CrateType;
use cargo_ninja::custom_build::BuildScriptOutput;
use cargo_ninja::error::ErrorKind;
use cargo_ninja::graph::BuildPlan;
use cargo_ninja::lower::{configure, dirs_among, ensure_dir_all_rule, link_rule};
use cargo_ninja::ninja::{Build, CommandLine, NinjaFile, Rule};

fn strings(list: &[&str]) -> Vec<String> {
    list.iter().map(|s| s.to_string()).collect()
}

fn pairs(list: &[(&str, &str)]) -> Vec<(String, String)> {
    list.iter().map(|(a, b)| (a.to_string(), b.to_string())).collect()
}

fn invocation(name: &str, kind: TargetKind, mode: CompileMode, deps: &[usize]) -> Invocation {
    Invocation {
        package_name: name.to_string(),
        package_version: "0.1.0".to_string(),
        target_kind: kind,
        compile_mode: mode,
        deps: deps.to_vec(),
        outputs: vec![],
        links: vec![],
        program: "rustc".to_string(),
        args: vec![],
        env: vec![],
        cwd: Some("/w".to_string()),
    }
}

fn context() -> Context {
    Context { build_dir: "/b".to_string(), workspace: pairs(&[("foo", "0.1.0")]), windows: false }
}

/// A build script, its run, and the library that needs it.
fn script_plan() -> BuildPlan {
    let mut build = invocation("foo", TargetKind::CustomBuild, CompileMode::Build, &[]);
    build.args = strings(&["--crate-name", "build_script_build", "build.rs", "-C", "extra-filename=-abc"]);
    build.outputs = strings(&["/b/build/foo-abc/build_script_build-abc"]);
    build.links = pairs(&[("/b/build/foo-abc/build-script-build", "/b/build/foo-abc/build_script_build-abc")]);
    let mut run = invocation("foo", TargetKind::CustomBuild, CompileMode::RunCustomBuild, &[0]);
    run.program = "/b/build/foo-abc/build-script-build".to_string();
    run.env = pairs(&[("OUT_DIR", "/b/build/foo-abc/out")]);
    let mut lib = invocation("foo", TargetKind::Lib(vec![CrateType::Lib]), CompileMode::Build, &[1]);
    lib.args = strings(&["--crate-name", "foo", "src/lib.rs", "--error-format=json", "--json=diagnostic-rendered-ansi", "-C", "extra-filename=-def"]);
    lib.outputs = strings(&["/b/deps/libfoo-def.rlib", "/b/deps/libfoo-def.rmeta"]);
    lib.links = pairs(&[("/b/libfoo.rlib", "/b/deps/libfoo-def.rlib")]);
    BuildPlan { invocations: vec![build, run, lib], inputs: strings(&["/w/Cargo.toml"]) }
}

fn rule<'a>(file: &'a NinjaFile, id: &str) -> &'a Rule {
    &file.rules.iter().find(|(name, _)| name == id).unwrap().1
}

fn edge<'a>(file: &'a NinjaFile, output: &str) -> &'a Build {
    &file.builds.iter().find(|(out, _)| out == output).unwrap().1
}

fn producers(file: &NinjaFile, output: &str) -> usize {
    file.builds.iter().filter(|(out, _)| out == output).count()
}

#[test]
fn rule_id_and_description() {
    let inv = invocation("foo", TargetKind::Lib(vec![CrateType::Lib]), CompileMode::Build, &[]);
    assert_eq!(inv.rule_id(0), "0-foo-0.1.0-lib-build");
    assert_eq!(inv.rule_id(1234567), "1234567-foo-0.1.0-lib-build");
    assert_eq!(inv.description(), "build target lib for foo@0.1.0");
    let run = invocation("my-pkg", TargetKind::CustomBuild, CompileMode::RunCustomBuild, &[]);
    assert_eq!(run.rule_id(17), "17-my-pkg-0.1.0-build-script-run-custom-build");
    assert_eq!(run.description(), "run-custom-build target build-script for my-pkg@0.1.0");
    let test = invocation("t", TargetKind::Test, CompileMode::Check { test: true }, &[]);
    assert_eq!(test.rule_id(2), "2-t-0.1.0-integration-test-check");
}

#[test]
fn fixed_rules() {
    assert_eq!(link_rule(false).command.program, "ln");
    assert_eq!(link_rule(false).command.args, strings(&["-f", "$in", "$out"]));
    assert_eq!(link_rule(true).command.program, "mklink");
    assert_eq!(link_rule(true).command.args, strings(&["/h", "$out", "$in"]));
    let dir = ensure_dir_all_rule();
    assert_eq!(dir.command.program, "mkdir");
    assert_eq!(dir.command.args, strings(&["-p", "$$(dirname $out)", "&&", "touch", "$out"]));
    assert!(!dir.generator && dir.variables.is_empty() && dir.command.env.is_empty());
}

#[test]
fn directory_markers_come_once_each() {
    assert_eq!(
        dirs_among(&strings(&["/b/deps/a", "/b/deps/b", "/b/c", "/b/deps/d", "/"])),
        strings(&["/b/.ninja_dir", "/b/deps/.ninja_dir"])
    );
    assert!(dirs_among(&vec![]).is_empty());
    let mut inv = invocation("foo", TargetKind::Bin, CompileMode::Build, &[]);
    inv.outputs = strings(&["/b/deps/foo", "/b/deps/foo.dwp", "/b/x/foo.d"]);
    assert_eq!(inv.dirs().unwrap(), strings(&["/b/deps/.ninja_dir", "/b/x/.ninja_dir"]));
}

#[test]
fn script_stage_holds_the_script_and_its_run() {
    let plan = script_plan();
    let cx = context();
    let file = plan
        .to_ninja(&cx, true, |inv: &Invocation| inv.is_run_custom_build(), &vec![None, None, None])
        .unwrap();
    let ids: Vec<&str> = file.rules.iter().map(|(id, _)| id.as_str()).collect();
    assert_eq!(
        ids,
        vec![
            "0-foo-0.1.0-build-script-build",
            "ensure_dir_all",
            "link",
            "1-foo-0.1.0-build-script-run-custom-build",
            "ensure_dir_all"
        ]
    );
    let run = rule(&file, "1-foo-0.1.0-build-script-run-custom-build");
    assert_eq!(run.command.program, "/b/build/foo-abc/build-script-build");
    assert_eq!(run.command.args, strings(&["--error-format=human", ">", "/b/build/foo-abc/output"]));
    assert_eq!(run.command.env, pairs(&[("OUT_DIR", "/b/build/foo-abc/out")]));
    assert!(run.variables.is_empty());
    let out = edge(&file, "/b/build/foo-abc/output");
    assert_eq!(out.rule, "1-foo-0.1.0-build-script-run-custom-build");
    assert_eq!(
        out.explicit,
        strings(&["/b/build/foo-abc/build_script_build-abc", "/b/build/foo-abc/build-script-build"])
    );
    assert_eq!(out.implicit, strings(&["/b/build/foo-abc/.ninja_dir"]));
    assert_eq!(producers(&file, "/b/deps/libfoo-def.rlib"), 0);
    let script = rule(&file, "0-foo-0.1.0-build-script-build");
    assert_eq!(script.variables, pairs(&[("deps", "gcc")]));
    let built = edge(&file, "/b/build/foo-abc/build_script_build-abc");
    assert_eq!(
        built.variables,
        pairs(&[
            ("description", "build target build-script for foo@0.1.0"),
            ("depfile", "/b/build/foo-abc/build_script_build-abc.d")
        ])
    );
}

#[test]
fn main_stage_takes_the_script_output() {
    let plan = script_plan();
    let cx = context();
    let output = plan.invocations[1].build_script_output(b"cargo:rustc-cfg=has_feature\n", None).unwrap();
    let scripts = vec![None, Some(output), None];
    let file = plan.to_ninja(&cx, false, |inv: &Invocation| inv.is_workspace_build(&cx.workspace), &scripts).unwrap();
    let ids: Vec<&str> = file.rules.iter().map(|(id, _)| id.as_str()).collect();
    assert_eq!(ids, vec!["2-foo-0.1.0-lib-build", "ensure_dir_all", "link"]);
    let lib = rule(&file, "2-foo-0.1.0-lib-build");
    assert_eq!(lib.command.cwd, Some("/b".to_string()));
    assert_eq!(
        lib.command.args,
        strings(&[
            "--crate-name",
            "foo",
            "../w/src/lib.rs",
            "-C",
            "extra-filename=-def",
            "--error-format=human",
            "--cfg",
            "has_feature"
        ])
    );
    assert_eq!(lib.variables, pairs(&[("deps", "gcc")]));
    let rlib = edge(&file, "/b/deps/libfoo-def.rlib");
    assert!(rlib.explicit.is_empty());
    assert_eq!(rlib.implicit, strings(&["/b/deps/.ninja_dir"]));
    assert_eq!(
        rlib.variables,
        pairs(&[("description", "build target lib for foo@0.1.0"), ("depfile", "/b/deps/foo-def.d")])
    );
    assert_eq!(edge(&file, "/b/deps/libfoo-def.rmeta"), rlib);
    let link = edge(&file, "/b/libfoo.rlib");
    assert_eq!(link.rule, "link");
    assert_eq!(link.explicit, strings(&["/b/deps/libfoo-def.rlib"]));
    assert_eq!(link.implicit, strings(&["/b/deps/.ninja_dir"]));
    assert_eq!(producers(&file, "/b/libfoo.rlib"), 1);
    let marker = edge(&file, "/b/deps/.ninja_dir");
    assert_eq!(marker, &Build::new("ensure_dir_all".to_string()));
    assert_eq!(producers(&file, "/b/build/foo-abc/output"), 0);
}

/// Two libraries and the binary that needs both, with a split debug-info
/// package among the outputs.
fn chain_plan() -> BuildPlan {
    let mut a = invocation("a", TargetKind::Lib(vec![CrateType::Lib]), CompileMode::Build, &[]);
    a.outputs = strings(&["/b/deps/liba.rlib", "/b/deps/liba.dwp"]);
    a.links = pairs(&[("/b/liba.dwp", "/b/deps/liba.dwp"), ("/b/liba.rlib", "/b/deps/liba.rlib")]);
    let mut c = invocation("c", TargetKind::Lib(vec![CrateType::Lib]), CompileMode::Build, &[0]);
    c.outputs = strings(&["/b/deps/libc.rlib"]);
    let mut unused = invocation("unused", TargetKind::Lib(vec![CrateType::Lib]), CompileMode::Build, &[0]);
    unused.outputs = strings(&["/b/deps/libunused.rlib"]);
    let mut bin = invocation("foo", TargetKind::Bin, CompileMode::Build, &[1, 0]);
    bin.outputs = strings(&["/b/deps/foo"]);
    bin.links = pairs(&[("/b/foo", "/b/deps/foo")]);
    BuildPlan { invocations: vec![a, c, unused, bin], inputs: vec![] }
}

#[test]
fn explicit_deps_are_the_outputs_and_links_of_the_dependencies() {
    let plan = chain_plan();
    let cx = context();
    let file = plan.to_ninja(&cx, false, |inv: &Invocation| inv.is_bin(), &vec![None, None, None, None]).unwrap();
    let bin = edge(&file, "/b/deps/foo");
    assert_eq!(bin.explicit, strings(&["/b/deps/libc.rlib", "/b/deps/liba.rlib", "/b/liba.rlib"]));
    assert_eq!(plan.dep_paths(3), bin.explicit);
    let c = edge(&file, "/b/deps/libc.rlib");
    assert_eq!(c.explicit, strings(&["/b/deps/liba.rlib", "/b/liba.rlib"]));
    assert!(edge(&file, "/b/deps/liba.rlib").explicit.is_empty());
    assert_eq!(producers(&file, "/b/deps/libunused.rlib"), 0);
}

#[test]
fn split_debug_info_is_nowhere_in_the_graph() {
    let plan = chain_plan();
    let cx = context();
    let file = plan.to_ninja(&cx, false, |_: &Invocation| true, &vec![None, None, None, None]).unwrap();
    assert_eq!(producers(&file, "/b/deps/liba.rlib"), 1);
    for (output, build) in &file.builds {
        assert!(!output.ends_with(".dwp"));
        assert!(build.explicit.iter().all(|p| !p.ends_with(".dwp")));
        assert!(build.implicit.iter().all(|p| !p.ends_with(".dwp")));
    }
}

#[test]
fn every_output_needs_the_marker_of_its_directory() {
    let plan = chain_plan();
    let cx = context();
    let file = plan.to_ninja(&cx, false, |_: &Invocation| true, &vec![None, None, None, None]).unwrap();
    for inv in &plan.invocations {
        for output in inv.outputs().unwrap() {
            assert_eq!(edge(&file, &output).implicit, strings(&["/b/deps/.ninja_dir"]));
        }
    }
    assert!(producers(&file, "/b/deps/.ninja_dir") >= 1);
    assert_eq!(edge(&file, "/b/deps/.ninja_dir").rule, "ensure_dir_all");
}

#[test]
fn every_link_has_one_edge_from_its_target() {
    let plan = chain_plan();
    let cx = context();
    let file = plan.to_ninja(&cx, false, |_: &Invocation| true, &vec![None, None, None, None]).unwrap();
    for (link, target) in [("/b/liba.rlib", "/b/deps/liba.rlib"), ("/b/foo", "/b/deps/foo")] {
        assert_eq!(producers(&file, link), 1);
        assert_eq!(edge(&file, link).rule, "link");
        assert_eq!(edge(&file, link).explicit, strings(&[target]));
    }
    assert_eq!(producers(&file, "/b/liba.dwp"), 0);
}

#[test]
fn lowering_twice_gives_the_same_graph() {
    let plan = chain_plan();
    let cx = context();
    let scripts = vec![None, None, None, None];
    let one = plan.to_ninja(&cx, false, |inv: &Invocation| inv.is_bin(), &scripts).unwrap();
    let two = plan.to_ninja(&cx, false, |inv: &Invocation| inv.is_bin(), &scripts).unwrap();
    assert_eq!(one, two);
    let primary = vec![false, false, false, true];
    let inputs = vec![None, None, None, None];
    assert_eq!(plan.lower(&cx, false, &primary, &inputs, &scripts).unwrap(), one);
}

#[test]
fn build_scripts_are_drawn_in_only_when_asked() {
    let plan = script_plan();
    assert_eq!(plan.included(&vec![false, false, true], false), vec![false, false, true]);
    assert_eq!(plan.included(&vec![false, false, true], true), vec![true, true, true]);
    assert_eq!(plan.included(&vec![false, true, false], true), vec![true, true, false]);
    assert_eq!(plan.included(&vec![false, true, false], false), vec![false, true, false]);
    assert_eq!(plan.included(&vec![false, false, false], true), vec![false, false, false]);
    let chain = chain_plan();
    assert_eq!(chain.included(&vec![false, false, false, true], false), vec![true, true, false, true]);
    assert_eq!(chain.included(&vec![false, true, false, false], false), vec![true, true, false, false]);
}

#[test]
fn script_output_comes_from_the_last_run_among_the_deps() {
    let plan = script_plan();
    assert_eq!(plan.script_index(2), Some(1));
    assert_eq!(plan.script_index(1), None);
    assert_eq!(plan.script_index(0), None);
}

#[test]
fn a_plan_out_of_order_is_refused() {
    let mut plan = chain_plan();
    plan.invocations[0].deps = vec![3];
    assert!(!plan.is_well_formed());
    let cx = context();
    let err = plan.to_ninja(&cx, false, |_: &Invocation| true, &vec![None, None, None, None]).unwrap_err();
    assert_eq!(err.kind, ErrorKind::PlanShape);
    let mut own = chain_plan();
    own.invocations[1].deps = vec![1];
    assert!(!own.is_well_formed());
    assert!(chain_plan().is_well_formed());
}

#[test]
fn lists_must_match_the_plan() {
    let plan = chain_plan();
    let cx = context();
    let err = plan.to_ninja(&cx, false, |_: &Invocation| true, &vec![None]).unwrap_err();
    assert_eq!(err.kind, ErrorKind::PlanShape);
    let err = plan.lower(&cx, false, &vec![true], &vec![None, None, None, None], &vec![None, None, None, None]).unwrap_err();
    assert_eq!(err.kind, ErrorKind::PlanShape);
}

#[test]
fn a_script_run_without_out_dir_fails_the_lowering() {
    let mut plan = script_plan();
    plan.invocations[1].env = vec![];
    let cx = context();
    let err = plan
        .to_ninja(&cx, true, |inv: &Invocation| inv.is_run_custom_build(), &vec![None, None, None])
        .unwrap_err();
    assert_eq!(err.kind, ErrorKind::MissingEnv);
}

#[test]
fn ninja_build_of_one_invocation() {
    let plan = chain_plan();
    let cx = context();
    let part = plan.invocations[3].ninja_build(3, strings(&["x", "y"]), None, &cx).unwrap();
    let ids: Vec<&str> = part.rules.iter().map(|(id, _)| id.as_str()).collect();
    assert_eq!(ids, vec!["3-foo-0.1.0-bin-build", "ensure_dir_all", "link"]);
    let outs: Vec<&str> = part.builds.iter().map(|(out, _)| out.as_str()).collect();
    assert_eq!(outs, vec!["/b/deps/foo", "/b/deps/.ninja_dir", "/b/foo"]);
    assert_eq!(edge(&part, "/b/deps/foo").explicit, strings(&["x", "y"]));
    assert_eq!(edge(&part, "/b/deps/foo").variables, pairs(&[("description", "build target bin for foo@0.1.0")]));
    assert!(rule(&part, "3-foo-0.1.0-bin-build").variables.is_empty());
}

#[test]
fn arguments_and_environment_are_quoted() {
    let cx = context();
    let mut inv = invocation("dep", TargetKind::Lib(vec![CrateType::Lib]), CompileMode::Build, &[]);
    inv.args = strings(&["--cfg", "feature=\"std\"", "a b", "--json=x", "--error-format=json", "$HOME"]);
    inv.env = pairs(&[("CARGO_PKG_AUTHORS", "A B <a@b.c>"), ("PLAIN", "x")]);
    let part = inv.ninja_build(0, vec![], None, &cx).unwrap();
    let rule = rule(&part, "0-dep-0.1.0-lib-build");
    assert_eq!(
        rule.command.args,
        strings(&["--cfg", "'feature=\"std\"'", "'a b'", "'$HOME'", "--error-format=human"])
    );
    assert_eq!(rule.command.env, pairs(&[("CARGO_PKG_AUTHORS", "'A B <a@b.c>'"), ("PLAIN", "x")]));
    assert_eq!(rule.command.cwd, Some("/w".to_string()));
}

#[test]
fn configure_regenerates_the_graph() {
    let file = configure(
        "/usr/bin/cargo-ninja".to_string(),
        Some("/w".to_string()),
        &strings(&["out dir", "--release"]),
        &pairs(&[("HOME", "/home/me"), ("PS1", "$ ")]),
    );
    assert_eq!(file.rules.len(), 1);
    assert_eq!(file.rules[0].0, "configure");
    let rule = &file.rules[0].1;
    assert!(rule.generator);
    assert!(rule.variables.is_empty());
    assert_eq!(
        rule.command,
        CommandLine {
            program: "/usr/bin/cargo-ninja".to_string(),
            cwd: Some("/w".to_string()),
            args: strings(&["'out dir'", "--release"]),
            env: pairs(&[("HOME", "/home/me"), ("PS1", "'$ '")]),
        }
    );
    assert_eq!(file.builds, vec![("build.ninja".to_string(), Build::new("configure".to_string()))]);
}

#[test]
fn graphs_merge_in_order() {
    let a = NinjaFile::new().rule("r1".to_string(), link_rule(false)).output("o1".to_string(), Build::new("r1".to_string()));
    let b = NinjaFile::new().rule("r2".to_string(), ensure_dir_all_rule()).output("o2".to_string(), Build::new("r2".to_string()).explicit("o1".to_string()).implicit("d".to_string()).variable("k".to_string(), "v".to_string()));
    let merged = a.merge(b);
    assert_eq!(merged.rules.iter().map(|(id, _)| id.as_str()).collect::<Vec<_>>(), vec!["r1", "r2"]);
    assert_eq!(merged.builds.iter().map(|(o, _)| o.as_str()).collect::<Vec<_>>(), vec!["o1", "o2"]);
    assert_eq!(merged.builds[1].1.explicit, strings(&["o1"]));
    assert_eq!(merged.builds[1].1.implicit, strings(&["d"]));
    assert_eq!(merged.builds[1].1.variables, pairs(&[("k", "v")]));
}

#[test]
fn script_output_of_a_dependency_reaches_the_consumer() {
    let mut plan = script_plan();
    plan.invocations[2].package_name = "consumer".to_string();
    let cx = context();
    let output = BuildScriptOutput::parse(b"cargo:links-name=foo\n", None, "my-pkg", "/o", "/o", true, true, &None, None).unwrap();
    let part = plan.invocations[2].ninja_build(2, vec![], Some(&output), &cx).unwrap();
    let rule = rule(&part, "2-consumer-0.1.0-lib-build");
    assert_eq!(rule.command.env, pairs(&[("DEP_CONSUMER_LINKS_NAME", "foo")]));
}

#[test]
fn script_stage_is_the_lowering_for_the_script_runs() {
    let plan = script_plan();
    let cx = context();
    let scripts = vec![None, None, None];
    let inputs = plan.source_files();
    assert_eq!(inputs, vec![Some("build.rs".to_string()), None, Some("src/lib.rs".to_string())]);
    let stage = plan.script_stage(&cx, &inputs, &scripts).unwrap();
    let lowered = plan.to_ninja(&cx, true, |inv: &Invocation| inv.is_run_custom_build(), &scripts).unwrap();
    assert_eq!(stage, lowered);
    assert_eq!(producers(&stage, "/b/build/foo-abc/output"), 1);
    assert_eq!(producers(&stage, "/b/deps/libfoo-def.rlib"), 0);
}

#[test]
fn build_stage_begins_with_the_generator() {
    let plan = script_plan();
    let cx = context();
    let output = plan.invocations[1].build_script_output(b"cargo:rustc-cfg=has_feature\n", None).unwrap();
    let scripts = vec![None, Some(output), None];
    let generator = configure("gen".to_string(), None, &vec![], &vec![]);
    let stage = plan.build_stage(&cx, &plan.source_files(), &scripts, generator.clone()).unwrap();
    let lowered = plan.to_ninja(&cx, false, |inv: &Invocation| inv.is_workspace_build(&cx.workspace), &scripts).unwrap();
    assert_eq!(stage, generator.merge(lowered));
    assert_eq!(stage.rules[0].0, "configure");
    assert_eq!(stage.builds[0].0, "build.ninja");
    assert_eq!(producers(&stage, "/b/build/foo-abc/output"), 0);
    assert!(rule(&stage, "2-foo-0.1.0-lib-build").command.args.contains(&"has_feature".to_string()));
}
