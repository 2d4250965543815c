use cargo_ninja::build_plan::{CompileMode, Invocation, TargetKind};
use cargo_ninja::crate_type::CrateType;
use cargo_ninja::custom_build::{add_custom_flags, envify, BuildDeps, BuildScriptOutput, LinkArgTarget};
use cargo_ninja::ninja::CommandLine;

fn strings(list: &[&str]) -> Vec<String> {
    list.iter().map(|s| s.to_string()).collect()
}

fn invocation(name: &str, kind: TargetKind) -> Invocation {
    Invocation {
        package_name: name.to_string(),
        package_version: "0.1.0".to_string(),
        target_kind: kind,
        compile_mode: CompileMode::Build,
        deps: vec![],
        outputs: vec![],
        links: vec![],
        program: "rustc".to_string(),
        args: vec![],
        env: vec![],
        cwd: None,
    }
}

fn parse(input: &[u8]) -> BuildScriptOutput {
    BuildScriptOutput::parse(input, None, "p", "/o", "/o", true, true, &None, None).unwrap()
}

fn base() -> CommandLine {
    CommandLine::new("rustc".to_string()).arg("x.rs".to_string()).env("A".to_string(), "1".to_string())
}

#[test]
fn no_output_leaves_the_command_alone() {
    let target = invocation("foo", TargetKind::Bin);
    let cmd = add_custom_flags(base(), None, "foo", &target);
    assert_eq!(cmd, base());
}

#[test]
fn cfg_is_added_to_the_command() {
    let out = parse(b"cargo:rustc-cfg=has_feature\ncargo:rustc-cfg=feature=\"a b\"\n");
    let target = invocation("foo", TargetKind::Lib(vec![CrateType::Lib]));
    let cmd = add_custom_flags(base(), Some(&out), "foo", &target);
    assert_eq!(cmd.args, strings(&["x.rs", "--cfg", "has_feature", "--cfg", "'feature=\"a b\"'"]));
    assert_eq!(cmd.program, "rustc");
    assert_eq!(cmd.cwd, None);
}

#[test]
fn check_cfg_enables_unstable_options_once() {
    let out = parse(b"cargo:rustc-check-cfg=cfg(a)\ncargo:rustc-check-cfg=cfg(b)\n");
    let target = invocation("foo", TargetKind::Bin);
    let cmd = add_custom_flags(base(), Some(&out), "foo", &target);
    assert_eq!(
        cmd.args,
        strings(&["x.rs", "-Zunstable-options", "--check-cfg", "'cfg(a)'", "--check-cfg", "'cfg(b)'"])
    );
}

#[test]
fn library_links_go_to_libraries_only() {
    let out = parse(b"cargo:rustc-link-lib=z\ncargo:rustc-link-search=/usr/lib\n");
    let lib = invocation("foo", TargetKind::Lib(vec![CrateType::Rlib]));
    let cmd = add_custom_flags(base(), Some(&out), "foo", &lib);
    assert_eq!(cmd.args, strings(&["x.rs", "-L", "/usr/lib", "-l", "z"]));
    for kind in [TargetKind::Bin, TargetKind::Test, TargetKind::Bench, TargetKind::ExampleBin, TargetKind::CustomBuild, TargetKind::ExampleLib(vec![CrateType::Lib])] {
        let target = invocation("foo", kind);
        let cmd = add_custom_flags(base(), Some(&out), "foo", &target);
        assert_eq!(cmd.args, strings(&["x.rs", "-L", "/usr/lib"]));
        assert!(!cmd.args.iter().any(|a| a == "-l"));
    }
}

#[test]
fn link_args_for_binaries_do_not_reach_a_library() {
    let out = parse(b"cargo:rustc-link-arg-bins=-Wl,--gc-sections\n");
    let target = invocation("foo", TargetKind::Lib(vec![CrateType::Lib]));
    let cmd = add_custom_flags(base(), Some(&out), "foo", &target);
    assert_eq!(cmd.args, strings(&["x.rs"]));
}

#[test]
fn only_cdylib_link_args_are_applied() {
    let out = parse(
        b"cargo:rustc-link-arg=-all\ncargo:rustc-link-arg-cdylib=-shared-one\ncargo:rustc-link-arg-bins=-bin\ncargo:rustc-cdylib-link-arg=-shared-two\n",
    );
    let cdylib = invocation("foo", TargetKind::Lib(vec![CrateType::Rlib, CrateType::Cdylib]));
    let cmd = add_custom_flags(base(), Some(&out), "foo", &cdylib);
    assert_eq!(cmd.args, strings(&["x.rs", "-C", "link-arg=-shared-one", "-C", "link-arg=-shared-two"]));
    let bin = invocation("foo", TargetKind::Bin);
    let cmd = add_custom_flags(base(), Some(&out), "foo", &bin);
    assert_eq!(cmd.args, strings(&["x.rs"]));
    let rlib = invocation("foo", TargetKind::Lib(vec![CrateType::Rlib]));
    let cmd = add_custom_flags(base(), Some(&out), "foo", &rlib);
    assert_eq!(cmd.args, strings(&["x.rs"]));
}

#[test]
fn environment_and_metadata_are_set() {
    let out = parse(b"cargo:rustc-env=K=V\ncargo:links-name=foo\ncargo::metadata=include=/i\n");
    let target = invocation("consumer", TargetKind::Bin);
    let cmd = add_custom_flags(base(), Some(&out), "my-pkg", &target);
    assert_eq!(
        cmd.env,
        vec![
            ("A".to_string(), "1".to_string()),
            ("K".to_string(), "V".to_string()),
            ("DEP_MY_PKG_LINKS_NAME".to_string(), "foo".to_string()),
            ("DEP_MY_PKG_INCLUDE".to_string(), "/i".to_string()),
        ]
    );
}

#[test]
fn envify_shouts_and_underscores() {
    assert_eq!(envify("my-pkg"), "MY_PKG");
    assert_eq!(envify("links-name"), "LINKS_NAME");
    assert_eq!(envify(""), "");
    assert_eq!(envify("a_b1"), "A_B1");
    assert_eq!(envify("stra\u{df}e"), "STRASSE");
}

#[test]
fn applies_to_follows_the_target() {
    let bin = invocation("tool", TargetKind::Bin);
    let lib = invocation("tool", TargetKind::Lib(vec![CrateType::Cdylib]));
    let test = invocation("tool", TargetKind::Test);
    let bench = invocation("tool", TargetKind::Bench);
    let example = invocation("tool", TargetKind::ExampleBin);
    assert!(LinkArgTarget::All.applies_to(&bin));
    assert!(LinkArgTarget::All.applies_to(&lib));
    assert!(LinkArgTarget::Cdylib.applies_to(&lib));
    assert!(!LinkArgTarget::Cdylib.applies_to(&bin));
    assert!(LinkArgTarget::Bin.applies_to(&bin));
    assert!(!LinkArgTarget::Bin.applies_to(&test));
    assert!(LinkArgTarget::SingleBin("tool".to_string()).applies_to(&bin));
    assert!(!LinkArgTarget::SingleBin("other".to_string()).applies_to(&bin));
    assert!(!LinkArgTarget::SingleBin("tool".to_string()).applies_to(&lib));
    assert!(LinkArgTarget::Test.applies_to(&test));
    assert!(!LinkArgTarget::Test.applies_to(&bench));
    assert!(LinkArgTarget::Bench.applies_to(&bench));
    assert!(LinkArgTarget::Example.applies_to(&example));
    assert!(!LinkArgTarget::Example.applies_to(&bin));
}

#[test]
fn build_deps_take_the_rerun_lists() {
    let out = parse(b"cargo:rerun-if-changed=a.c\ncargo:rerun-if-env-changed=CC\n");
    let deps = BuildDeps::new("/b/output", Some(&out));
    assert_eq!(deps.build_script_output, "/b/output");
    assert_eq!(deps.rerun_if_changed, strings(&["a.c"]));
    assert_eq!(deps.rerun_if_env_changed, strings(&["CC"]));
    let deps = BuildDeps::new("/b/output", None);
    assert_eq!(deps.build_script_output, "/b/output");
    assert!(deps.rerun_if_changed.is_empty());
    assert!(deps.rerun_if_env_changed.is_empty());
}
