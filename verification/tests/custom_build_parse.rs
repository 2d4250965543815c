use cargo_ninja::custom_build::{BuildScriptOutput, LinkArgTarget};
use cargo_ninja::error::ErrorKind;
use cargo_ninja::rust_version::RustVersion;

fn parse(input: &[u8]) -> Result<BuildScriptOutput, cargo_ninja::error::Error> {
    BuildScriptOutput::parse(input, None, "foo v0.1.0", "/old/out", "/new/out", true, false, &None, None)
}

fn strings(list: &[&str]) -> Vec<String> {
    list.iter().map(|s| s.to_string()).collect()
}

const DOCS: &str = "See https://doc.rust-lang.org/cargo/reference/build-scripts.html#outputs-of-the-build-script for more information about build script outputs.";

#[test]
fn empty_input_gives_empty_output() {
    let out = parse(b"").unwrap();
    assert!(out.library_paths.is_empty());
    assert!(out.library_links.is_empty());
    assert!(out.linker_args.is_empty());
    assert!(out.cfgs.is_empty());
    assert!(out.check_cfgs.is_empty());
    assert!(out.env.is_empty());
    assert!(out.metadata.is_empty());
    assert!(out.rerun_if_changed.is_empty());
    assert!(out.rerun_if_env_changed.is_empty());
    assert!(out.warnings.is_empty());
}

#[test]
fn old_syntax_cfg_is_read() {
    let out = parse(b"cargo:rustc-cfg=has_feature\n").unwrap();
    assert_eq!(out.cfgs, strings(&["has_feature"]));
}

#[test]
fn new_syntax_rustc_flags_give_paths_and_links() {
    let out = parse(b"cargo::rustc-flags=-Lfoo -lbar").unwrap();
    assert_eq!(out.library_paths, strings(&["foo"]));
    assert_eq!(out.library_links, strings(&["bar"]));
}

#[test]
fn lines_that_are_no_instructions_are_ignored() {
    let out = parse(b"hello\ncargo:rustc-cfg=a  \nwarning: x\ncargo :rustc-cfg=b\n  cargo:rustc-cfg=c\n").unwrap();
    assert_eq!(out.cfgs, strings(&["a"]));
}

#[test]
fn lines_that_are_not_utf8_are_dropped() {
    let out = parse(b"cargo:rustc-cfg=\xff\xfe\ncargo:rustc-cfg=ok\n").unwrap();
    assert_eq!(out.cfgs, strings(&["ok"]));
}

#[test]
fn carriage_returns_are_trimmed() {
    let out = parse(b"cargo:rustc-link-lib=z\r\ncargo:rustc-link-search=/usr/lib\r\n").unwrap();
    assert_eq!(out.library_links, strings(&["z"]));
    assert_eq!(out.library_paths, strings(&["/usr/lib"]));
}

#[test]
fn every_key_fills_its_field() {
    let input = b"cargo:rustc-link-lib=static=foo\n\
cargo:rustc-link-search=native=/lib\n\
cargo:rustc-link-arg-cdylib=-a\n\
cargo:rustc-cdylib-link-arg=-b\n\
cargo:rustc-link-arg-bins=-c\n\
cargo:rustc-link-arg-bin=tool=-d\n\
cargo:rustc-link-arg-tests=-e\n\
cargo:rustc-link-arg-benches=-f\n\
cargo:rustc-link-arg-examples=-g\n\
cargo:rustc-link-arg=-h\n\
cargo:rustc-cfg=c1\n\
cargo:rustc-check-cfg=cfg(c1)\n\
cargo:rustc-env=KEY=VALUE=MORE\n\
cargo:warning=take care\n\
cargo:rerun-if-changed=build.rs\n\
cargo:rerun-if-env-changed=CC\n\
cargo:root=/opt/foo\n";
    let out = parse(input).unwrap();
    assert_eq!(out.library_links, strings(&["static=foo"]));
    assert_eq!(out.library_paths, strings(&["native=/lib"]));
    assert_eq!(
        out.linker_args,
        vec![
            (LinkArgTarget::Cdylib, "-a".to_string()),
            (LinkArgTarget::Cdylib, "-b".to_string()),
            (LinkArgTarget::Bin, "-c".to_string()),
            (LinkArgTarget::SingleBin("tool".to_string()), "-d".to_string()),
            (LinkArgTarget::Test, "-e".to_string()),
            (LinkArgTarget::Bench, "-f".to_string()),
            (LinkArgTarget::Example, "-g".to_string()),
            (LinkArgTarget::All, "-h".to_string()),
        ]
    );
    assert_eq!(out.cfgs, strings(&["c1"]));
    assert_eq!(out.check_cfgs, strings(&["cfg(c1)"]));
    assert_eq!(out.env, vec![("KEY".to_string(), "VALUE=MORE".to_string())]);
    assert_eq!(out.warnings, strings(&["take care"]));
    assert_eq!(out.rerun_if_changed, strings(&["build.rs"]));
    assert_eq!(out.rerun_if_env_changed, strings(&["CC"]));
    assert_eq!(out.metadata, vec![("root".to_string(), "/opt/foo".to_string())]);
}

#[test]
fn check_cfg_is_dropped_without_the_flag() {
    let out = BuildScriptOutput::parse(
        b"cargo:rustc-check-cfg=cfg(x)\n",
        None,
        "foo",
        "/a",
        "/a",
        false,
        false,
        &None,
        None,
    )
    .unwrap();
    assert!(out.check_cfgs.is_empty());
}

#[test]
fn out_dir_is_remapped_in_values() {
    let out = parse(b"cargo:rustc-link-search=/old/out/lib\ncargo:include=/old/out/include:/old/out\n").unwrap();
    assert_eq!(out.library_paths, strings(&["/new/out/lib"]));
    assert_eq!(out.metadata, vec![("include".to_string(), "/new/out/include:/new/out".to_string())]);
}

#[test]
fn new_syntax_metadata_is_read() {
    let out = parse(b"cargo::metadata=foo=bar baz\n").unwrap();
    assert_eq!(out.metadata, vec![("foo".to_string(), "bar baz".to_string())]);
}

#[test]
fn legacy_metadata_without_equals_is_an_error() {
    let err = parse(b"cargo:foo\n").unwrap_err();
    assert_eq!(err.kind, ErrorKind::ScriptOutputShape);
    assert_eq!(
        err.to_string(),
        format!(
            "invalid output in build script of `foo v0.1.0`: `cargo:foo`\nExpected a line with `cargo:KEY=VALUE` with an `=` character, but none was found.\n{}",
            DOCS
        )
    );
}

#[test]
fn new_metadata_without_equals_is_an_error() {
    let err = parse(b"cargo::metadata=foo\n").unwrap_err();
    assert_eq!(
        err.to_string(),
        format!(
            "invalid output in build script of `foo v0.1.0`: `cargo::metadata=foo`\nExpected a line with `cargo::metadata=KEY=VALUE` with an `=` character, but none was found.\n{}",
            DOCS
        )
    );
}

#[test]
fn new_syntax_without_equals_is_an_error() {
    let err = parse(b"cargo::rustc-cfg\n").unwrap_err();
    assert_eq!(err.kind, ErrorKind::ScriptOutputShape);
    assert_eq!(
        err.to_string(),
        format!(
            "invalid output in build script of `foo v0.1.0`: `cargo::rustc-cfg`\nExpected a line with `cargo::KEY=VALUE` with an `=` character, but none was found.\n{}",
            DOCS
        )
    );
}

#[test]
fn unknown_key_in_new_syntax_is_an_error() {
    let err = parse(b"cargo::bogus=1\n").unwrap_err();
    assert_eq!(err.kind, ErrorKind::ScriptOutputShape);
    assert_eq!(
        err.to_string(),
        format!(
            "invalid output in build script of `foo v0.1.0`: `cargo::bogus=1`\nUnknown key: `bogus`.\n{}",
            DOCS
        )
    );
}

#[test]
fn link_arg_bin_needs_a_binary() {
    let err = parse(b"cargo:rustc-link-arg-bin=-x\n").unwrap_err();
    assert_eq!(err.kind, ErrorKind::ScriptOutputShape);
    assert_eq!(
        err.to_string(),
        "invalid instruction `cargo:rustc-link-arg-bin=-x` from build script of `foo v0.1.0`\nThe instruction should have the form cargo:rustc-link-arg-bin=BIN=ARG"
    );
}

#[test]
fn an_error_stops_the_parse() {
    assert!(parse(b"cargo:rustc-cfg=a\ncargo::bogus=1\ncargo:rustc-cfg=b\n").is_err());
}

#[test]
fn new_syntax_needs_a_recent_msrv() {
    let msrv = Some(RustVersion::new(1, 70, 0));
    let err = BuildScriptOutput::parse(b"cargo::rustc-cfg=x\n", None, "foo v0.1.0", "/a", "/a", true, false, &msrv, None)
        .unwrap_err();
    assert_eq!(err.kind, ErrorKind::Msrv);
    assert_eq!(
        err.to_string(),
        format!(
            "the `cargo::` syntax for build script output instructions was added in Rust 1.77.0, but the minimum supported Rust version of `foo v0.1.0` is 1.70.0.\n{}",
            DOCS
        )
    );
}

#[test]
fn new_syntax_passes_with_msrv_at_the_bound() {
    let msrv = Some(RustVersion::new(1, 77, 0));
    let out = BuildScriptOutput::parse(b"cargo::rustc-cfg=x\n", None, "foo", "/a", "/a", true, false, &msrv, None).unwrap();
    assert_eq!(out.cfgs, strings(&["x"]));
}

#[test]
fn old_syntax_passes_with_an_old_msrv() {
    let msrv = Some(RustVersion::new(1, 60, 0));
    let out = BuildScriptOutput::parse(b"cargo:rustc-cfg=x\n", None, "foo", "/a", "/a", true, false, &msrv, None).unwrap();
    assert_eq!(out.cfgs, strings(&["x"]));
}

#[test]
fn msrv_without_patch_comes_before_the_bound() {
    let msrv = Some(RustVersion { major: 1, minor: Some(77), patch: None });
    let err = BuildScriptOutput::parse(b"cargo::rustc-cfg=x\n", None, "p", "/a", "/a", true, false, &msrv, None).unwrap_err();
    assert_eq!(err.kind, ErrorKind::Msrv);
    assert!(err.to_string().contains("is 1.77.\n"));
}

#[test]
fn rustc_bootstrap_is_refused_on_stable() {
    let err = parse(b"cargo:rustc-env=RUSTC_BOOTSTRAP=1\n").unwrap_err();
    assert_eq!(err.kind, ErrorKind::ScriptOutputShape);
    assert_eq!(
        err.to_string(),
        "Cannot set `RUSTC_BOOTSTRAP=1` from build script of `foo v0.1.0`.\nnote: Crates cannot set `RUSTC_BOOTSTRAP` themselves, as doing so would subvert the stability guarantees of Rust for your project.\nhelp: If you're sure you want to do this in your project, set the environment variable `RUSTC_BOOTSTRAP=1` before running cargo instead."
    );
}

#[test]
fn rustc_bootstrap_refusal_names_the_library() {
    let err = BuildScriptOutput::parse(
        b"cargo:rustc-env=RUSTC_BOOTSTRAP=1\n",
        Some("mylib".to_string()),
        "foo",
        "/a",
        "/a",
        true,
        false,
        &None,
        Some("other,another".to_string()),
    )
    .unwrap_err();
    assert!(err.to_string().ends_with("set the environment variable `RUSTC_BOOTSTRAP=mylib` before running cargo instead."));
}

#[test]
fn rustc_bootstrap_is_a_warning_on_nightly() {
    let out = BuildScriptOutput::parse(b"cargo:rustc-env=RUSTC_BOOTSTRAP=1\n", None, "foo", "/a", "/a", true, true, &None, None)
        .unwrap();
    assert!(out.env.is_empty());
    assert_eq!(
        out.warnings,
        strings(&["Cannot set `RUSTC_BOOTSTRAP=1` from build script of `foo`.\nnote: Crates cannot set `RUSTC_BOOTSTRAP` themselves, as doing so would subvert the stability guarantees of Rust for your project."])
    );
}

#[test]
fn rustc_bootstrap_is_a_warning_where_the_environment_lists_the_library() {
    let out = BuildScriptOutput::parse(
        b"cargo:rustc-env=RUSTC_BOOTSTRAP=1\n",
        Some("mylib".to_string()),
        "foo",
        "/a",
        "/a",
        true,
        false,
        &None,
        Some("other,mylib".to_string()),
    )
    .unwrap();
    assert_eq!(out.warnings.len(), 1);
}

#[test]
fn rustc_bootstrap_bypass_needs_a_library_name() {
    let r = BuildScriptOutput::parse(
        b"cargo:rustc-env=RUSTC_BOOTSTRAP=1\n",
        None,
        "foo",
        "/a",
        "/a",
        true,
        false,
        &None,
        Some("1".to_string()),
    );
    assert!(r.is_err());
}

#[test]
fn rustc_env_without_value_is_an_error() {
    let err = parse(b"cargo:rustc-env=NAME\n").unwrap_err();
    assert_eq!(err.kind, ErrorKind::ScriptOutputShape);
    assert_eq!(err.to_string(), "Variable rustc-env has no value in build script of `foo v0.1.0`: NAME");
}

#[test]
fn parse_rustc_env_splits_at_the_first_equals() {
    assert_eq!(
        BuildScriptOutput::parse_rustc_env("A=b=c", "w").unwrap(),
        ("A".to_string(), "b=c".to_string())
    );
    assert_eq!(BuildScriptOutput::parse_rustc_env("A=", "w").unwrap(), ("A".to_string(), String::new()));
    let err = BuildScriptOutput::parse_rustc_env("A", "w").unwrap_err();
    assert_eq!(err.to_string(), "Variable rustc-env has no value in w: A");
}

#[test]
fn parse_rustc_flags_reads_joined_and_separate_values() {
    let (paths, links) = BuildScriptOutput::parse_rustc_flags("  -L /a/b -lfoo   -l bar -L/c\t", "w").unwrap();
    assert_eq!(paths, strings(&["/a/b", "/c"]));
    assert_eq!(links, strings(&["foo", "bar"]));
}

#[test]
fn parse_rustc_flags_of_nothing_is_empty() {
    let (paths, links) = BuildScriptOutput::parse_rustc_flags("   ", "w").unwrap();
    assert!(paths.is_empty());
    assert!(links.is_empty());
}

#[test]
fn parse_rustc_flags_refuses_other_flags() {
    let err = BuildScriptOutput::parse_rustc_flags(" -lfoo -O ", "w").unwrap_err();
    assert_eq!(err.kind, ErrorKind::ScriptOutputShape);
    assert_eq!(err.to_string(), "Only `-l` and `-L` flags are allowed in w: `-lfoo -O`");
}

#[test]
fn parse_rustc_flags_needs_a_value() {
    let err = BuildScriptOutput::parse_rustc_flags("-lfoo -L", "w").unwrap_err();
    assert_eq!(err.kind, ErrorKind::ScriptOutputShape);
    assert_eq!(err.to_string(), "Flag in rustc-flags has no value in w: ");
}

#[test]
fn rustc_flags_links_come_before_paths_of_later_lines() {
    let out = parse(b"cargo:rustc-link-lib=a\ncargo:rustc-flags=-lb -L/x\ncargo:rustc-link-search=/y\n").unwrap();
    assert_eq!(out.library_links, strings(&["a", "b"]));
    assert_eq!(out.library_paths, strings(&["/x", "/y"]));
}

#[test]
fn default_output_is_empty() {
    let out = BuildScriptOutput::default();
    assert!(out.cfgs.is_empty() && out.env.is_empty() && out.metadata.is_empty());
}

#[test]
fn one_line_gives_its_value_to_one_field() {
    for key in ["rustc-link-lib", "rustc-cfg", "warning", "rerun-if-env-changed"] {
        for prefix in ["cargo:", "cargo::"] {
            let line = format!("{prefix}{key}=v\u{e9} /old/out/x \u{2003}\t");
            let out = parse(line.as_bytes()).unwrap();
            let value = strings(&["v\u{e9} /new/out/x"]);
            let none: Vec<String> = Vec::new();
            assert_eq!(out.library_links, if key == "rustc-link-lib" { value.clone() } else { none.clone() });
            assert_eq!(out.cfgs, if key == "rustc-cfg" { value.clone() } else { none.clone() });
            assert_eq!(out.warnings, if key == "warning" { value.clone() } else { none.clone() });
            assert_eq!(
                out.rerun_if_env_changed,
                if key == "rerun-if-env-changed" { value.clone() } else { none.clone() }
            );
            assert!(out.library_paths.is_empty());
            assert!(out.linker_args.is_empty());
            assert!(out.check_cfgs.is_empty());
            assert!(out.env.is_empty());
            assert!(out.metadata.is_empty());
            assert!(out.rerun_if_changed.is_empty());
        }
    }
}
