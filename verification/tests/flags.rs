use cargo_ninja::custom_build::{BuildScriptOutput, LinkArgTarget};
use cargo_ninja::flags::{flags_line, flags_of, in_one_line};

fn list(items: &[&str]) -> Vec<String> {
    items.iter().map(|s| s.to_string()).collect()
}

#[test]
fn no_flags_give_an_empty_line() {
    let out = BuildScriptOutput::default();
    assert!(flags_of(&out).is_empty());
    assert_eq!(flags_line(&out), "");
}

#[test]
fn flags_come_in_the_order_of_their_kinds() {
    let mut out = BuildScriptOutput::default();
    out.cfgs = list(&["a", "feature=\"b\""]);
    out.library_links = list(&["z", "static=foo"]);
    out.library_paths = list(&["/usr/lib", "native=/opt/lib"]);
    out.linker_args = vec![
        (LinkArgTarget::Bin, "-s".to_string()),
        (LinkArgTarget::Cdylib, "-Wl,-soname".to_string()),
    ];
    out.check_cfgs = list(&["cfg(a)", "cfg(b)", "cfg(c)"]);
    out.env = vec![("A".to_string(), "1".to_string())];
    out.warnings = list(&["careful"]);
    assert_eq!(
        flags_of(&out),
        list(&[
            "-L /usr/lib",
            "-L native=/opt/lib",
            "-l z",
            "-l static=foo",
            "-C link-arg=-s",
            "-C link-arg=-Wl,-soname",
            "--cfg a",
            "--cfg feature=\"b\"",
            "-Zunstable-options--check-cfg cfg(a)",
            "--check-cfg cfg(b)",
            "--check-cfg cfg(c)",
        ])
    );
    assert_eq!(
        flags_line(&out),
        "-L /usr/lib -L native=/opt/lib -l z -l static=foo -C link-arg=-s -C link-arg=-Wl,-soname \
         --cfg a --cfg feature=\"b\" -Zunstable-options--check-cfg cfg(a) --check-cfg cfg(b) \
         --check-cfg cfg(c)"
    );
}

#[test]
fn one_flag_stands_alone() {
    let mut out = BuildScriptOutput::default();
    out.check_cfgs = list(&["cfg(a)"]);
    assert_eq!(flags_line(&out), "-Zunstable-options--check-cfg cfg(a)");
}

#[test]
fn a_blank_stands_before_each_word_that_follows_text() {
    assert_eq!(in_one_line(&list(&[])), "");
    assert_eq!(in_one_line(&list(&["a"])), "a");
    assert_eq!(in_one_line(&list(&["a", "b", "c"])), "a b c");
    assert_eq!(in_one_line(&list(&["", "a", "", "b"])), "a  b");
}
