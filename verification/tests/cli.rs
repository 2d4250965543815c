use cargo_ninja::cli::{args_for_cargo, build_dir, from_cargo};
use cargo_ninja::error::ErrorKind;

fn strings(list: &[&str]) -> Vec<String> {
    list.iter().map(|s| s.to_string()).collect()
}

#[test]
fn started_by_cargo_when_the_subcommand_is_ninja() {
    assert!(from_cargo(&strings(&["cargo-ninja", "ninja", "out"])));
    assert!(!from_cargo(&strings(&["cargo-ninja", "out"])));
    assert!(!from_cargo(&strings(&["cargo-ninja"])));
    assert!(!from_cargo(&strings(&[])));
}

#[test]
fn cargo_gets_the_arguments_without_the_build_directory() {
    let dir = Some("out".to_string());
    assert_eq!(
        args_for_cargo(&strings(&["cargo-ninja", "out", "--release", "-p", "foo"]), &dir),
        strings(&["-Zunstable-options", "build", "--build-plan", "--release", "-p", "foo"])
    );
    assert_eq!(
        args_for_cargo(&strings(&["cargo-ninja", "ninja", "--release", "out/", "-p", "foo"]), &dir),
        strings(&["-Zunstable-options", "build", "--build-plan", "--release", "-p", "foo"])
    );
    assert_eq!(
        args_for_cargo(&strings(&["cargo-ninja", "out", "--bin", "x"]), &None),
        strings(&["-Zunstable-options", "build", "--build-plan", "out", "--bin", "x"])
    );
    assert_eq!(args_for_cargo(&strings(&[]), &dir), strings(&["-Zunstable-options", "build", "--build-plan"]));
    assert_eq!(args_for_cargo(&strings(&["cargo-ninja"]), &dir), strings(&["-Zunstable-options", "build", "--build-plan"]));
}

#[test]
fn build_dir_must_be_named() {
    assert_eq!(build_dir(Some("out".to_string())).unwrap(), "out");
    let err = build_dir(None).unwrap_err();
    assert_eq!(err.kind, ErrorKind::Usage);
    assert_eq!(err.to_string(), "BUILD_DIR None");
}
