use cargo_ninja::text::{chars_of, is_listed, replaced, split_words, string_of, trimmed, trimmed_end, with_underscores};

fn replace(s: &str, from: &str, to: &str) -> String {
    string_of(&replaced(&chars_of(s), &chars_of(from), &chars_of(to)))
}

#[test]
fn replace_agrees_with_the_standard_library() {
    let cases = [
        ("", "a", "b"),
        ("aaa", "a", "b"),
        ("aaa", "aa", "b"),
        ("abcabc", "bc", ""),
        ("abcabc", "abc", "abcabc"),
        ("/old/out/x:/old/out", "/old/out", "/new"),
        ("ab", "abc", "x"),
        ("abab", "ba", "-"),
        ("", "", "x"),
        ("ab", "", "-"),
        ("h\u{e9}llo w\u{f6}rld", "l", "L"),
        ("aXbXc", "X", "XX"),
    ];
    for (s, from, to) in cases {
        assert_eq!(replace(s, from, to), s.replace(from, to), "{:?} {:?} {:?}", s, from, to);
    }
}

#[test]
fn trim_agrees_with_the_standard_library() {
    for s in ["", " ", "  a b \t\r\n", "a", "\u{a0}x\u{2003}", "x  y", "\n\n"] {
        assert_eq!(string_of(&trimmed(&chars_of(s))), s.trim());
        assert_eq!(string_of(&trimmed_end(&chars_of(s))), s.trim_end());
    }
}

#[test]
fn words_are_the_runs_between_white_space() {
    assert_eq!(split_words(&chars_of("  -L /a\t-lfoo \n x")), vec!["-L", "/a", "-lfoo", "x"]);
    assert!(split_words(&chars_of("")).is_empty());
    assert!(split_words(&chars_of(" \t ")).is_empty());
    assert_eq!(split_words(&chars_of("one")), vec!["one"]);
}

#[test]
fn listed_items_are_separated_by_commas() {
    let listed = |s: &str, n: &str| is_listed(&chars_of(s), &chars_of(n));
    assert!(listed("a,b,c", "a"));
    assert!(listed("a,b,c", "b"));
    assert!(listed("a,b,c", "c"));
    assert!(!listed("a,b,c", "d"));
    assert!(!listed("ab,c", "a"));
    assert!(listed("", ""));
    assert!(listed("a,", ""));
    assert!(!listed("a", ""));
    assert!(!listed("a,b", "a,b"));
}

#[test]
fn underscores_replace_dashes() {
    assert_eq!(with_underscores("my-dep-sys"), "my_dep_sys");
    assert_eq!(with_underscores("plain"), "plain");
    assert_eq!(with_underscores(""), "");
}

#[test]
fn text_round_trips_through_characters() {
    for s in ["", "abc", "h\u{e9}llo \u{1f600}"] {
        assert_eq!(string_of(&chars_of(s)), s);
    }
}

#[test]
fn white_space_is_the_listed_code_points() {
    let listed = |c: char| {
        let n = c as u32;
        (0x9..=0xd).contains(&n)
            || n == 0x20
            || n == 0x85
            || n == 0xa0
            || n == 0x1680
            || (0x2000..=0x200a).contains(&n)
            || n == 0x2028
            || n == 0x2029
            || n == 0x202f
            || n == 0x205f
            || n == 0x3000
    };
    let mut seen = 0;
    for n in 0..=0x10ffff_u32 {
        if let Some(c) = char::from_u32(n) {
            let trimmed_away = trimmed(&chars_of(&c.to_string())).is_empty();
            assert_eq!(trimmed_away, listed(c), "U+{:04X}", n);
            if trimmed_away {
                seen += 1;
            }
        }
    }
    assert_eq!(seen, 25);
}
