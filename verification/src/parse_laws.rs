//! What holds of every instruction that a build script prints, proved from
//! the definition of the parser.

use crate::custom_build::{
    bootstrap_allowed, directive, is_reserved, new_syntax_version, parse_from, parse_line, parsed,
    rustc_flags, rustc_flags_from, with_linker_arg,
    BuildScriptOutputView, LinkArgTargetView, ParseSettings,
};
use crate::error::{ErrorKind, ErrorView};
use crate::text::{decoded, occurs_in, replace, split_once, starts_with, trim_end};
use vstd::prelude::*;

verus! {

/// The field that an instruction with the key `key` adds its whole value
/// to, as `out` with the value `value` added; `out` itself for any other
/// key.
pub open spec fn with_payload(key: Seq<char>, value: Seq<char>, out: BuildScriptOutputView) -> BuildScriptOutputView {
    if key == "rustc-link-lib"@ {
        BuildScriptOutputView { library_links: out.library_links.push(value), ..out }
    } else if key == "rustc-link-search"@ {
        BuildScriptOutputView { library_paths: out.library_paths.push(value), ..out }
    } else if key == "rustc-link-arg-cdylib"@ || key == "rustc-cdylib-link-arg"@ {
        with_linker_arg(out, LinkArgTargetView::Cdylib, value)
    } else if key == "rustc-link-arg-bins"@ {
        with_linker_arg(out, LinkArgTargetView::Bin, value)
    } else if key == "rustc-link-arg-tests"@ {
        with_linker_arg(out, LinkArgTargetView::Test, value)
    } else if key == "rustc-link-arg-benches"@ {
        with_linker_arg(out, LinkArgTargetView::Bench, value)
    } else if key == "rustc-link-arg-examples"@ {
        with_linker_arg(out, LinkArgTargetView::Example, value)
    } else if key == "rustc-link-arg"@ {
        with_linker_arg(out, LinkArgTargetView::All, value)
    } else if key == "rustc-cfg"@ {
        BuildScriptOutputView { cfgs: out.cfgs.push(value), ..out }
    } else if key == "warning"@ {
        BuildScriptOutputView { warnings: out.warnings.push(value), ..out }
    } else if key == "rerun-if-changed"@ {
        BuildScriptOutputView { rerun_if_changed: out.rerun_if_changed.push(value), ..out }
    } else if key == "rerun-if-env-changed"@ {
        BuildScriptOutputView { rerun_if_env_changed: out.rerun_if_env_changed.push(value), ..out }
    } else {
        out
    }
}

/// Whether an instruction with the key `key` adds its whole value to one
/// field.
pub open spec fn is_payload_key(key: Seq<char>) -> bool {
    key == "rustc-link-lib"@ || key == "rustc-link-search"@ || key == "rustc-link-arg-cdylib"@
        || key == "rustc-cdylib-link-arg"@ || key == "rustc-link-arg-bins"@ || key
        == "rustc-link-arg-tests"@ || key == "rustc-link-arg-benches"@ || key
        == "rustc-link-arg-examples"@ || key == "rustc-link-arg"@ || key == "rustc-cfg"@ || key
        == "warning"@ || key == "rerun-if-changed"@ || key == "rerun-if-env-changed"@
}

/// What the keys are, letter by letter.
proof fn reveal_keys()
    ensures
        "rustc-flags"@ == seq!['r', 'u', 's', 't', 'c', '-', 'f', 'l', 'a', 'g', 's'],
        "rustc-link-lib"@ == seq![
            'r',
            'u',
            's',
            't',
            'c',
            '-',
            'l',
            'i',
            'n',
            'k',
            '-',
            'l',
            'i',
            'b',
        ],
        "rustc-link-search"@.len() == 17,
        "rustc-link-arg-cdylib"@.len() == 21,
        "rustc-link-arg-cdylib"@[11] == 'a',
        "rustc-cdylib-link-arg"@.len() == 21,
        "rustc-cdylib-link-arg"@[6] == 'c',
        "rustc-link-arg-bins"@.len() == 19,
        "rustc-link-arg-bin"@.len() == 18,
        "rustc-link-arg-tests"@.len() == 20,
        "rustc-link-arg-benches"@.len() == 22,
        "rustc-link-arg-examples"@.len() == 23,
        "rustc-link-arg"@ == seq![
            'r',
            'u',
            's',
            't',
            'c',
            '-',
            'l',
            'i',
            'n',
            'k',
            '-',
            'a',
            'r',
            'g',
        ],
        "rustc-cfg"@.len() == 9,
        "rustc-cfg"@[6] == 'c',
        "rustc-check-cfg"@.len() == 15,
        "rustc-env"@.len() == 9,
        "rustc-env"@[6] == 'e',
        "warning"@.len() == 7,
        "rerun-if-changed"@.len() == 16,
        "rerun-if-env-changed"@.len() == 20,
        "rerun-if-env-changed"@[0] == 'r',
        "rerun-if-env-changed"@[1] == 'e',
        "rustc-link-arg-tests"@[1] == 'u',
        "rustc-link-arg-cdylib"@[6] == 'l',
        "metadata"@.len() == 8,
{
    reveal_strlit("rustc-flags");
    reveal_strlit("rustc-link-lib");
    reveal_strlit("rustc-link-search");
    reveal_strlit("rustc-link-arg-cdylib");
    reveal_strlit("rustc-cdylib-link-arg");
    reveal_strlit("rustc-link-arg-bins");
    reveal_strlit("rustc-link-arg-bin");
    reveal_strlit("rustc-link-arg-tests");
    reveal_strlit("rustc-link-arg-benches");
    reveal_strlit("rustc-link-arg-examples");
    reveal_strlit("rustc-link-arg");
    reveal_strlit("rustc-cfg");
    reveal_strlit("rustc-check-cfg");
    reveal_strlit("rustc-env");
    reveal_strlit("warning");
    reveal_strlit("rerun-if-changed");
    reveal_strlit("rerun-if-env-changed");
    reveal_strlit("metadata");
    assert("rustc-flags"@ =~= seq!['r', 'u', 's', 't', 'c', '-', 'f', 'l', 'a', 'g', 's']);
    assert("rustc-link-lib"@ =~= seq![
        'r',
        'u',
        's',
        't',
        'c',
        '-',
        'l',
        'i',
        'n',
        'k',
        '-',
        'l',
        'i',
        'b',
    ]);
    assert("rustc-link-arg"@ =~= seq![
        'r',
        'u',
        's',
        't',
        'c',
        '-',
        'l',
        'i',
        'n',
        'k',
        '-',
        'a',
        'r',
        'g',
    ]);
}

/// The payload of an instruction. An instruction whose key takes the
/// whole value adds the value to the field of the key, with the script's
/// old output directory replaced by the new one, and leaves every other
/// field as it was.
pub proof fn lemma_directive_payload(
    key: Seq<char>,
    raw: Seq<char>,
    old_syntax: bool,
    line: Seq<char>,
    cx: ParseSettings,
    out: BuildScriptOutputView,
)
    requires
        is_payload_key(key),
    ensures
        directive(key, raw, old_syntax, line, cx, out) == Ok::<BuildScriptOutputView, ErrorView>(
            with_payload(key, replace(raw, cx.out_dir_when_generated, cx.out_dir), out),
        ),
{
    reveal_keys();
}

/// The key of an instruction that adds its whole value to one field begins
/// with a letter and holds no `=`.
proof fn lemma_payload_key_shape(key: Seq<char>)
    requires
        is_payload_key(key),
    ensures
        key.len() > 0,
        key[0] != ':',
        forall|j: int| 0 <= j < key.len() ==> key[j] != '=',
        forall|j: int| 0 <= j < key.len() ==> key[j] != '\n',
{
    reveal_strlit("rustc-link-lib");
    reveal_strlit("rustc-link-search");
    reveal_strlit("rustc-link-arg-cdylib");
    reveal_strlit("rustc-cdylib-link-arg");
    reveal_strlit("rustc-link-arg-bins");
    reveal_strlit("rustc-link-arg-tests");
    reveal_strlit("rustc-link-arg-benches");
    reveal_strlit("rustc-link-arg-examples");
    reveal_strlit("rustc-link-arg");
    reveal_strlit("rustc-cfg");
    reveal_strlit("warning");
    reveal_strlit("rerun-if-changed");
    reveal_strlit("rerun-if-env-changed");
}

/// A line in the new syntax gives its payload. A line that is made of
/// `cargo::`, a key that takes the whole value, `=` and a value adds the
/// value, without white space at its end and with the script's old output
/// directory replaced by the new one, to the field of the key, for a
/// package that supports no toolchain older than the syntax.
pub proof fn lemma_new_line_round_trip(
    key: Seq<char>,
    value: Seq<char>,
    cx: ParseSettings,
    out: BuildScriptOutputView,
)
    requires
        is_payload_key(key),
        !(cx.msrv matches Some(msrv) && msrv.precedes(new_syntax_version())),
    ensures
        parse_line("cargo::"@ + key + "="@ + value, cx, out) == Ok::<
            BuildScriptOutputView,
            ErrorView,
        >(with_payload(key, replace(trim_end(value), cx.out_dir_when_generated, cx.out_dir), out)),
{
    reveal(parse_line);
    reveal_strlit("cargo::");
    reveal_strlit("=");
    let line = "cargo::"@ + key + "="@ + value;
    assert(line.take("cargo::"@.len() as int) =~= "cargo::"@);
    let data = line.skip("cargo::"@.len() as int);
    assert("="@ =~= seq!['=']);
    assert(data =~= key + seq!['='] + value);
    lemma_payload_key_shape(key);
    crate::text::lemma_split_once_joined(key, '=', value);
    assert(split_once(data, '=') == Some((key, value)));
    lemma_directive_payload(key, trim_end(value), false, line, cx, out);
}

/// A line in the old syntax gives its payload. A line that is made of
/// `cargo:`, a key that takes the whole value, `=` and a value adds the
/// value, without white space at its end and with the script's old output
/// directory replaced by the new one, to the field of the key.
pub proof fn lemma_old_line_round_trip(
    key: Seq<char>,
    value: Seq<char>,
    cx: ParseSettings,
    out: BuildScriptOutputView,
)
    requires
        is_payload_key(key),
    ensures
        parse_line("cargo:"@ + key + "="@ + value, cx, out) == Ok::<
            BuildScriptOutputView,
            ErrorView,
        >(with_payload(key, replace(trim_end(value), cx.out_dir_when_generated, cx.out_dir), out)),
{
    reveal(parse_line);
    reveal_strlit("cargo::");
    reveal_strlit("cargo:");
    reveal_strlit("=");
    let line = "cargo:"@ + key + "="@ + value;
    lemma_payload_key_shape(key);
    assert(line[6] == key[0]);
    assert(!starts_with(line, "cargo::"@)) by {
        if starts_with(line, "cargo::"@) {
            assert(line.take(7)[6] == "cargo::"@[6]);
        }
    }
    assert(line.take("cargo:"@.len() as int) =~= "cargo:"@);
    let data = line.skip("cargo:"@.len() as int);
    assert("="@ =~= seq!['=']);
    assert(data =~= key + seq!['='] + value);
    lemma_reserved(key, value);
    crate::text::lemma_split_once_joined(key, '=', value);
    assert(split_once(data, '=') == Some((key, value)));
    lemma_directive_payload(key, trim_end(value), true, line, cx, out);
}

/// A key that takes the whole value is a key of the old syntax.
proof fn lemma_reserved(key: Seq<char>, value: Seq<char>)
    requires
        is_payload_key(key),
    ensures
        is_reserved(key + seq!['='] + value),
{
    let data = key + seq!['='] + value;
    let head = key + seq!['='];
    assert(data.take(head.len() as int) =~= head);
    reveal_strlit("rustc-link-lib");
    reveal_strlit("rustc-link-search");
    reveal_strlit("rustc-link-arg-cdylib");
    reveal_strlit("rustc-cdylib-link-arg");
    reveal_strlit("rustc-link-arg-bins");
    reveal_strlit("rustc-link-arg-tests");
    reveal_strlit("rustc-link-arg-benches");
    reveal_strlit("rustc-link-arg-examples");
    reveal_strlit("rustc-link-arg");
    reveal_strlit("rustc-cfg");
    reveal_strlit("warning");
    reveal_strlit("rerun-if-changed");
    reveal_strlit("rerun-if-env-changed");
    reveal_strlit("rustc-link-lib=");
    reveal_strlit("rustc-link-search=");
    reveal_strlit("rustc-link-arg-cdylib=");
    reveal_strlit("rustc-cdylib-link-arg=");
    reveal_strlit("rustc-link-arg-bins=");
    reveal_strlit("rustc-link-arg-tests=");
    reveal_strlit("rustc-link-arg-benches=");
    reveal_strlit("rustc-link-arg-examples=");
    reveal_strlit("rustc-link-arg=");
    reveal_strlit("rustc-cfg=");
    reveal_strlit("warning=");
    reveal_strlit("rerun-if-changed=");
    reveal_strlit("rerun-if-env-changed=");
    if key == "rustc-link-lib"@ {
        assert(head =~= "rustc-link-lib="@);
    } else if key == "rustc-link-search"@ {
        assert(head =~= "rustc-link-search="@);
    } else if key == "rustc-link-arg-cdylib"@ {
        assert(head =~= "rustc-link-arg-cdylib="@);
    } else if key == "rustc-cdylib-link-arg"@ {
        assert(head =~= "rustc-cdylib-link-arg="@);
    } else if key == "rustc-link-arg-bins"@ {
        assert(head =~= "rustc-link-arg-bins="@);
    } else if key == "rustc-link-arg-tests"@ {
        assert(head =~= "rustc-link-arg-tests="@);
    } else if key == "rustc-link-arg-benches"@ {
        assert(head =~= "rustc-link-arg-benches="@);
    } else if key == "rustc-link-arg-examples"@ {
        assert(head =~= "rustc-link-arg-examples="@);
    } else if key == "rustc-link-arg"@ {
        assert(head =~= "rustc-link-arg="@);
    } else if key == "rustc-cfg"@ {
        assert(head =~= "rustc-cfg="@);
    } else if key == "warning"@ {
        assert(head =~= "warning="@);
    } else if key == "rerun-if-changed"@ {
        assert(head =~= "rerun-if-changed="@);
    } else {
        assert(head =~= "rerun-if-env-changed="@);
    }
}

/// A script may not set `RUSTC_BOOTSTRAP`. Where the toolchain allows no
/// unstable features and the environment does not list the package's
/// library, a `rustc-env` instruction that sets `RUSTC_BOOTSTRAP` is an
/// error of the kind `ScriptOutputShape`, whatever the value.
pub proof fn lemma_bootstrap_is_refused(
    raw: Seq<char>,
    old_syntax: bool,
    line: Seq<char>,
    cx: ParseSettings,
    out: BuildScriptOutputView,
)
    requires
        !bootstrap_allowed(cx),
        split_once(replace(raw, cx.out_dir_when_generated, cx.out_dir), '=') matches Some(pair)
            && pair.0 == "RUSTC_BOOTSTRAP"@,
    ensures
        directive("rustc-env"@, raw, old_syntax, line, cx, out) matches Err(e) && e.kind
            == ErrorKind::ScriptOutputShape,
{
    reveal_keys();
}

/// The last line. The output of a script that holds no line feed is one
/// line: it is read as its text, without the white space at its end, where
/// it is valid UTF-8, and adds nothing where it is not.
pub proof fn lemma_last_line(input: Seq<u8>, cx: ParseSettings, out: BuildScriptOutputView)
    requires
        forall|j: int| 0 <= j < input.len() ==> input[j] != 10u8,
    ensures
        parse_from(input, cx, out) == (match decoded(input) {
            Some(text) => parse_line(trim_end(text), cx, out),
            None => Ok(out),
        }),
{
    crate::text::lemma_first_index_absent(input, 10u8);
    assert(input.take(input.len() as int) =~= input);
}

/// Line by line. The output of a script that begins with a line and a
/// line feed is read as that line, and then, unless the line is an error,
/// as what follows the line feed.
pub proof fn lemma_first_line(
    line: Seq<u8>,
    rest: Seq<u8>,
    cx: ParseSettings,
    out: BuildScriptOutputView,
)
    requires
        forall|j: int| 0 <= j < line.len() ==> line[j] != 10u8,
    ensures
        parse_from(line + seq![10u8] + rest, cx, out) == (match (match decoded(line) {
            Some(text) => parse_line(trim_end(text), cx, out),
            None => Ok(out),
        }) {
            Ok(next) => parse_from(rest, cx, next),
            Err(e) => Err(e),
        }),
{
    let input = line + seq![10u8] + rest;
    let n = line.len() as int;
    assert(input[n] == 10u8);
    assert forall|j: int| 0 <= j < n implies input[j] != 10u8 by {
        assert(input[j] == line[j]);
    }
    crate::text::lemma_first_index_at(input, 10u8, n);
    assert(input.take(n) =~= line);
    assert(input.skip(n + 1) =~= rest);
}

/// Text comes back from its bytes. The UTF-8 encoding of a text is read as
/// that text.
pub proof fn lemma_encoded_text_is_read(text: Seq<char>)
    ensures
        decoded(vstd::utf8::encode_utf8(text)) == Some(text),
{
    vstd::utf8::encode_utf8_valid_utf8(text);
    vstd::utf8::encode_utf8_decode_utf8(text);
}

/// An instruction is one line: the encoding of a key that takes the whole
/// value, between `cargo:` or `cargo::` and `=`, and of a value without a
/// line feed holds no byte of a line feed.
proof fn lemma_one_line(key: Seq<char>, head: Seq<char>, value: Seq<char>)
    requires
        is_payload_key(key),
        head == "cargo:"@ + key + "="@ || head == "cargo::"@ + key + "="@,
        !value.contains('\n'),
    ensures
        forall|j: int|
            0 <= j < vstd::utf8::encode_utf8(head + value).len() ==> vstd::utf8::encode_utf8(
                head + value,
            )[j] != 10u8,
{
    lemma_payload_key_shape(key);
    reveal_strlit("cargo:");
    reveal_strlit("cargo::");
    reveal_strlit("=");
    let line = head + value;
    assert forall|j: int| 0 <= j < line.len() implies line[j] != '\n' by {
        if j >= head.len() {
            assert(value.contains(value[j - head.len()]));
        } else if head == "cargo:"@ + key + "="@ {
            if 6 <= j < 6 + key.len() {
                assert(line[j] == key[j - 6]);
            }
        } else {
            if 7 <= j < 7 + key.len() {
                assert(line[j] == key[j - 7]);
            }
        }
    }
    crate::text::lemma_encoded_line(line);
    let bytes = vstd::utf8::encode_utf8(line);
    assert forall|j: int| 0 <= j < bytes.len() implies bytes[j] != 10u8 by {
        assert(bytes.contains(bytes[j]));
    }
}

/// From bytes to field, in the old syntax. Where the output of a script is
/// the UTF-8 encoding of one line that is made of `cargo:`, a key that takes
/// the whole value, `=` and a value without a line feed, the parsed output
/// holds the value in the field of the key, without white space at its end
/// and with the script's old output directory replaced by the new one, and
/// nothing else.
pub proof fn lemma_old_bytes_round_trip(key: Seq<char>, value: Seq<char>, cx: ParseSettings)
    requires
        is_payload_key(key),
        !value.contains('\n'),
    ensures
        parsed(vstd::utf8::encode_utf8("cargo:"@ + key + "="@ + value), cx) == Ok::<
            BuildScriptOutputView,
            ErrorView,
        >(
            with_payload(
                key,
                replace(trim_end(value), cx.out_dir_when_generated, cx.out_dir),
                BuildScriptOutputView::empty(),
            ),
        ),
{
    reveal_strlit("=");
    let head = "cargo:"@ + key + "="@;
    let line = head + value;
    let out = BuildScriptOutputView::empty();
    lemma_one_line(key, head, value);
    lemma_last_line(vstd::utf8::encode_utf8(line), cx, out);
    lemma_encoded_text_is_read(line);
    assert(head.last() == '=');
    crate::text::lemma_trim_end_behind(head, value);
    crate::text::lemma_trim_end_twice(value);
    lemma_old_line_round_trip(key, trim_end(value), cx, out);
}

/// From bytes to field, in the new syntax. The same holds of a line that
/// begins with `cargo::`, for a package that supports no toolchain older
/// than the syntax.
pub proof fn lemma_new_bytes_round_trip(key: Seq<char>, value: Seq<char>, cx: ParseSettings)
    requires
        is_payload_key(key),
        !(cx.msrv matches Some(msrv) && msrv.precedes(new_syntax_version())),
        !value.contains('\n'),
    ensures
        parsed(vstd::utf8::encode_utf8("cargo::"@ + key + "="@ + value), cx) == Ok::<
            BuildScriptOutputView,
            ErrorView,
        >(
            with_payload(
                key,
                replace(trim_end(value), cx.out_dir_when_generated, cx.out_dir),
                BuildScriptOutputView::empty(),
            ),
        ),
{
    reveal_strlit("=");
    let head = "cargo::"@ + key + "="@;
    let line = head + value;
    let out = BuildScriptOutputView::empty();
    lemma_one_line(key, head, value);
    lemma_last_line(vstd::utf8::encode_utf8(line), cx, out);
    lemma_encoded_text_is_read(line);
    assert(head.last() == '=');
    crate::text::lemma_trim_end_behind(head, value);
    crate::text::lemma_trim_end_twice(value);
    lemma_new_line_round_trip(key, trim_end(value), cx, out);
}

/// Flags of both kinds. The instruction `rustc-flags` with the value
/// `-Lfoo -lbar` names the library path `foo` and the library `bar`.
pub proof fn lemma_flags_of_both_kinds(whence: Seq<char>)
    ensures
        rustc_flags("-Lfoo -lbar"@, whence) == Ok::<(Seq<Seq<char>>, Seq<Seq<char>>), ErrorView>(
            (seq!["foo"@], seq!["bar"@]),
        ),
{
    reveal_strlit("-Lfoo -lbar");
    reveal_strlit("-L");
    reveal_strlit("-l");
    reveal_strlit("foo");
    reveal_strlit("bar");
    let value = "-Lfoo -lbar"@;
    let a = seq!['-', 'L', 'f', 'o', 'o'];
    let b = seq!['-', 'l', 'b', 'a', 'r'];
    assert(value =~= a + seq![' '] + b);
    crate::text::lemma_two_words(a, b);
    let flags = seq![a, b];
    let none = Seq::<Seq<char>>::empty();
    assert(!starts_with(a, "-l"@)) by {
        if starts_with(a, "-l"@) {
            assert(a.take(2)[1] == "-l"@[1]);
        }
    }
    assert(starts_with(a, "-L"@)) by {
        assert(a.take(2) =~= "-L"@);
    }
    assert(starts_with(b, "-l"@)) by {
        assert(b.take(2) =~= "-l"@);
    }
    assert(a.skip(2) =~= "foo"@);
    assert(b.skip(2) =~= "bar"@);
    assert(flags.skip(1) =~= seq![b]);
    assert(seq![b].skip(1) =~= none);
    let paths = none.push("foo"@);
    let links = none.push("bar"@);
    assert(rustc_flags_from(none, whence, value, paths, links) == Ok::<
        (Seq<Seq<char>>, Seq<Seq<char>>),
        ErrorView,
    >((paths, links)));
    assert(rustc_flags_from(seq![b], whence, value, paths, none) == rustc_flags_from(
        none,
        whence,
        value,
        paths,
        links,
    ));
    assert(rustc_flags_from(flags, whence, value, none, none) == rustc_flags_from(
        seq![b],
        whence,
        value,
        paths,
        none,
    ));
    assert(paths =~= seq!["foo"@]);
    assert(links =~= seq!["bar"@]);
}

/// A plain value comes back as it is. Where the output of a script is the
/// UTF-8 encoding of `cargo:`, a key that takes the whole value, `=` and a
/// value that holds no line feed, has no white space at its end and does
/// not hold the script's old output directory, the parsed output holds that
/// value in the field of the key, and nothing else.
pub proof fn lemma_plain_value_round_trip(key: Seq<char>, value: Seq<char>, cx: ParseSettings)
    requires
        is_payload_key(key),
        !value.contains('\n'),
        trim_end(value) == value,
        cx.out_dir_when_generated.len() > 0,
        !occurs_in(cx.out_dir_when_generated, value),
    ensures
        parsed(vstd::utf8::encode_utf8("cargo:"@ + key + "="@ + value), cx) == Ok::<
            BuildScriptOutputView,
            ErrorView,
        >(with_payload(key, value, BuildScriptOutputView::empty())),
{
    lemma_old_bytes_round_trip(key, value, cx);
    crate::text::lemma_replace_absent(value, cx.out_dir_when_generated, cx.out_dir);
}

} // verus!
