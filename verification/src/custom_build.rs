//! What a build script prints for the build, and how it is read.
//!
//! A build script speaks to the build through lines on its standard output
//! that begin with `cargo:` or `cargo::`. This module holds the parsed form
//! of such a stream and the parser.

use crate::build_plan::{Invocation, InvocationView};
use crate::crate_type::CrateTypeView;
use crate::error::{Error, ErrorKind, ErrorView};
use crate::ninja::{CommandLine, CommandLineView};
use crate::quote::{all_escaped, escape_all};
use crate::path::opt_text;
use crate::rust_version::RustVersion;
use crate::text::{
    chars_of, copy_of, decode, decoded, find_byte, first_index, has_prefix, is_text, listed, push_pair, push_text,
    replace, replaced, same_text, slice_of, split_at_first, split_once, split_words, starts_with,
    starts_with_at, string_of, text_pairs, texts, trim, trim_end, trimmed, trimmed_end, underscored, uppercased, words,
};
use vstd::prelude::*;
use vstd::string::*;

verus! {

/// The targets that a linker argument of a build script applies to.
#[derive(Clone, Hash, Debug, PartialEq, Eq)]
pub enum LinkArgTarget {
    /// Every target: `rustc-link-arg`.
    All,
    /// Dynamic system libraries: `rustc-cdylib-link-arg`.
    Cdylib,
    /// Binaries: `rustc-link-arg-bins`.
    Bin,
    /// The binary of the given name: `rustc-link-arg-bin`.
    SingleBin(String),
    /// Tests: `rustc-link-arg-tests`.
    Test,
    /// Benchmarks: `rustc-link-arg-benches`.
    Bench,
    /// Examples: `rustc-link-arg-examples`.
    Example,
}

/// A link argument target as a mathematical value.
pub enum LinkArgTargetView {
    All,
    Cdylib,
    Bin,
    SingleBin(Seq<char>),
    Test,
    Bench,
    Example,
}

impl View for LinkArgTarget {
    type V = LinkArgTargetView;

    open spec fn view(&self) -> LinkArgTargetView {
        match self {
            LinkArgTarget::All => LinkArgTargetView::All,
            LinkArgTarget::Cdylib => LinkArgTargetView::Cdylib,
            LinkArgTarget::Bin => LinkArgTargetView::Bin,
            LinkArgTarget::SingleBin(name) => LinkArgTargetView::SingleBin(name@),
            LinkArgTarget::Test => LinkArgTargetView::Test,
            LinkArgTarget::Bench => LinkArgTargetView::Bench,
            LinkArgTarget::Example => LinkArgTargetView::Example,
        }
    }
}

/// The linker arguments of `v` as mathematical values, in order.
pub open spec fn linker_args(v: Seq<(LinkArgTarget, String)>) -> Seq<(LinkArgTargetView, Seq<char>)> {
    Seq::new(v.len(), |i: int| (v[i].0@, v[i].1@))
}

/// The parsed output of a build script.
#[derive(Clone, Debug, Hash)]
pub struct BuildScriptOutput {
    /// Directories to pass to the compiler with `-L`.
    pub library_paths: Vec<String>,
    /// Libraries to pass to the compiler with `-l`.
    pub library_links: Vec<String>,
    /// Arguments for the linker, each with the targets it applies to.
    pub linker_args: Vec<(LinkArgTarget, String)>,
    /// Flags to pass to the compiler with `--cfg`.
    pub cfgs: Vec<String>,
    /// Flags to pass to the compiler with `--check-cfg`.
    pub check_cfgs: Vec<String>,
    /// Environment variables for the compiler, as pairs of name and value.
    pub env: Vec<(String, String)>,
    /// Metadata for the packages that depend on this one, as pairs of key
    /// and value.
    pub metadata: Vec<(String, String)>,
    /// Paths whose change makes the script run again.
    pub rerun_if_changed: Vec<String>,
    /// Environment variables whose change makes the script run again.
    pub rerun_if_env_changed: Vec<String>,
    /// Warnings of the script.
    pub warnings: Vec<String>,
}

/// The parsed output of a build script as a mathematical value.
pub struct BuildScriptOutputView {
    pub library_paths: Seq<Seq<char>>,
    pub library_links: Seq<Seq<char>>,
    pub linker_args: Seq<(LinkArgTargetView, Seq<char>)>,
    pub cfgs: Seq<Seq<char>>,
    pub check_cfgs: Seq<Seq<char>>,
    pub env: Seq<(Seq<char>, Seq<char>)>,
    pub metadata: Seq<(Seq<char>, Seq<char>)>,
    pub rerun_if_changed: Seq<Seq<char>>,
    pub rerun_if_env_changed: Seq<Seq<char>>,
    pub warnings: Seq<Seq<char>>,
}

impl View for BuildScriptOutput {
    type V = BuildScriptOutputView;

    open spec fn view(&self) -> BuildScriptOutputView {
        BuildScriptOutputView {
            library_paths: texts(self.library_paths@),
            library_links: texts(self.library_links@),
            linker_args: linker_args(self.linker_args@),
            cfgs: texts(self.cfgs@),
            check_cfgs: texts(self.check_cfgs@),
            env: text_pairs(self.env@),
            metadata: text_pairs(self.metadata@),
            rerun_if_changed: texts(self.rerun_if_changed@),
            rerun_if_env_changed: texts(self.rerun_if_env_changed@),
            warnings: texts(self.warnings@),
        }
    }
}

impl BuildScriptOutputView {
    /// The output of a script that printed no instruction.
    pub open spec fn empty() -> BuildScriptOutputView {
        BuildScriptOutputView {
            library_paths: Seq::empty(),
            library_links: Seq::empty(),
            linker_args: Seq::empty(),
            cfgs: Seq::empty(),
            check_cfgs: Seq::empty(),
            env: Seq::empty(),
            metadata: Seq::empty(),
            rerun_if_changed: Seq::empty(),
            rerun_if_env_changed: Seq::empty(),
            warnings: Seq::empty(),
        }
    }
}

impl Default for BuildScriptOutput {
    fn default() -> (out: BuildScriptOutput)
        ensures
            out@ == BuildScriptOutputView::empty(),
    {
        let out = BuildScriptOutput {
            library_paths: Vec::new(),
            library_links: Vec::new(),
            linker_args: Vec::new(),
            cfgs: Vec::new(),
            check_cfgs: Vec::new(),
            env: Vec::new(),
            metadata: Vec::new(),
            rerun_if_changed: Vec::new(),
            rerun_if_env_changed: Vec::new(),
            warnings: Vec::new(),
        };
        assert(out@.library_paths =~= Seq::empty());
        assert(out@.library_links =~= Seq::empty());
        assert(out@.linker_args =~= Seq::empty());
        assert(out@.cfgs =~= Seq::empty());
        assert(out@.check_cfgs =~= Seq::empty());
        assert(out@.env =~= Seq::empty());
        assert(out@.metadata =~= Seq::empty());
        assert(out@.rerun_if_changed =~= Seq::empty());
        assert(out@.rerun_if_env_changed =~= Seq::empty());
        assert(out@.warnings =~= Seq::empty());
        out
    }
}

/// Who printed the instructions: the build script of the package `pkg_descr`.
pub open spec fn whence_of(pkg_descr: Seq<char>) -> Seq<char> {
    "build script of `"@ + pkg_descr + "`"@
}

/// Where the instructions of build scripts are documented.
pub open spec fn docs_link_suggestion() -> Seq<char> {
    "See https://doc.rust-lang.org/cargo/reference/build-scripts.html#outputs-of-the-build-script for more information about build script outputs."@
}

/// An error of the kind `ScriptOutputShape` with the given message.
pub open spec fn shape_error(message: Seq<char>) -> ErrorView {
    ErrorView { kind: ErrorKind::ScriptOutputShape, message }
}

/// The message for a `rustc-env` instruction without `=`.
pub open spec fn env_without_value_message(whence: Seq<char>, value: Seq<char>) -> Seq<char> {
    "Variable rustc-env has no value in "@ + whence + ": "@ + value
}

/// What a `rustc-env` instruction with the value `value` sets: the name
/// before the first `=` and the value after it.
pub open spec fn rustc_env(value: Seq<char>, whence: Seq<char>) -> Result<
    (Seq<char>, Seq<char>),
    ErrorView,
> {
    match split_once(value, '=') {
        Some(pair) => Ok(pair),
        None => Err(shape_error(env_without_value_message(whence, value))),
    }
}

/// The message for a `-l` or `-L` that nothing follows.
pub open spec fn flag_without_value_message(whence: Seq<char>) -> Seq<char> {
    "Flag in rustc-flags has no value in "@ + whence + ": "@
}

/// The message for a word of `rustc-flags` that is neither `-l` nor `-L`.
pub open spec fn flag_not_allowed_message(whence: Seq<char>, value: Seq<char>) -> Seq<char> {
    "Only `-l` and `-L` flags are allowed in "@ + whence + ": `"@ + value + "`"@
}

/// What the words `flags` of a `rustc-flags` instruction add to the library
/// paths `paths` and the libraries `links`. A word that begins with `-L`
/// gives a path and one that begins with `-l` a library: the rest of the
/// word, or the next word where the word ends there. `value` is the whole
/// instruction, for the error message.
pub open spec fn rustc_flags_from(
    flags: Seq<Seq<char>>,
    whence: Seq<char>,
    value: Seq<char>,
    paths: Seq<Seq<char>>,
    links: Seq<Seq<char>>,
) -> Result<(Seq<Seq<char>>, Seq<Seq<char>>), ErrorView>
    decreases flags.len(),
{
    if flags.len() == 0 {
        Ok((paths, links))
    } else {
        let flag = flags[0];
        let is_link = starts_with(flag, "-l"@);
        if is_link || starts_with(flag, "-L"@) {
            let marker = if is_link {
                "-l"@
            } else {
                "-L"@
            };
            let joined = flag.skip(marker.len() as int);
            if joined.len() == 0 && flags.len() < 2 {
                Err(shape_error(flag_without_value_message(whence)))
            } else {
                let found = if joined.len() == 0 {
                    flags[1]
                } else {
                    joined
                };
                let rest = if joined.len() == 0 {
                    flags.skip(2)
                } else {
                    flags.skip(1)
                };
                if is_link {
                    rustc_flags_from(rest, whence, value, paths, links.push(found))
                } else {
                    rustc_flags_from(rest, whence, value, paths.push(found), links)
                }
            }
        } else {
            Err(shape_error(flag_not_allowed_message(whence, value)))
        }
    }
}

/// The library paths and the libraries that a `rustc-flags` instruction
/// with the value `value` names.
pub open spec fn rustc_flags(value: Seq<char>, whence: Seq<char>) -> Result<
    (Seq<Seq<char>>, Seq<Seq<char>>),
    ErrorView,
> {
    rustc_flags_from(words(trim(value)), whence, trim(value), Seq::empty(), Seq::empty())
}

/// An error of the kind `ScriptOutputShape` with the given message.
pub fn shape_failure(message: String) -> (e: Error)
    ensures
        e@ == shape_error(message@),
{
    Error::new(ErrorKind::ScriptOutputShape, message)
}

impl BuildScriptOutput {
    /// Parses the value of a `rustc-flags` instruction into library paths
    /// and libraries.
    pub fn parse_rustc_flags(value: &str, whence: &str) -> (r: Result<
        (Vec<String>, Vec<String>),
        Error,
    >)
        ensures
            r matches Ok(p) ==> rustc_flags(value@, whence@) == Ok::<
                (Seq<Seq<char>>, Seq<Seq<char>>),
                ErrorView,
            >((texts(p.0@), texts(p.1@))),
            r matches Err(e) ==> rustc_flags(value@, whence@) == Err::<
                (Seq<Seq<char>>, Seq<Seq<char>>),
                ErrorView,
            >(e@),
    {
        let whole = trimmed(&chars_of(value));
        let flags = split_words(&whole);
        let link_marker = chars_of("-l");
        let path_marker = chars_of("-L");
        let mut library_paths: Vec<String> = Vec::new();
        let mut library_links: Vec<String> = Vec::new();
        let mut i: usize = 0;
        assert(texts(flags@).skip(0) == texts(flags@));
        assert(texts(library_paths@) == Seq::<Seq<char>>::empty());
        assert(texts(library_links@) == Seq::<Seq<char>>::empty());
        while i < flags.len()
            invariant
                i <= flags.len(),
                link_marker@ == "-l"@,
                path_marker@ == "-L"@,
                whole@ == trim(value@),
                texts(flags@) == words(whole@),
                rustc_flags(value@, whence@) == rustc_flags_from(
                    texts(flags@).skip(i as int),
                    whence@,
                    whole@,
                    texts(library_paths@),
                    texts(library_links@),
                ),
            decreases flags.len() - i,
        {
            let flag = chars_of(flags[i].as_str());
            let ghost rest = texts(flags@).skip(i as int);
            assert(rest[0] == flag@);
            let is_link = crate::text::starts_with_at(&flag, 0, &link_marker);
            let is_path = crate::text::starts_with_at(&flag, 0, &path_marker);
            assert(flag@.skip(0) == flag@);
            if is_link || is_path {
                let skip = if is_link {
                    link_marker.len()
                } else {
                    path_marker.len()
                };
                let joined = crate::text::slice_of(&flag, skip, flag.len());
                let found: String;
                if joined.len() == 0 {
                    if i + 1 >= flags.len() {
                        let mut message = copy_of("Flag in rustc-flags has no value in ");
                        message.append(whence);
                        message.append(": ");
                        return Err(shape_failure(message));
                    }
                    assert(rest[1] == flags[i + 1]@);
                    found = flags[i + 1].clone();
                    assert(rest.skip(2) == texts(flags@).skip(i + 2));
                    i = i + 2;
                } else {
                    found = string_of(&joined);
                    assert(rest.skip(1) == texts(flags@).skip(i + 1));
                    i = i + 1;
                }
                if is_link {
                    crate::text::push_text(&mut library_links, found);
                } else {
                    crate::text::push_text(&mut library_paths, found);
                }
            } else {
                let mut message = copy_of("Only `-l` and `-L` flags are allowed in ");
                message.append(whence);
                message.append(": `");
                message.append(string_of(&whole).as_str());
                message.append("`");
                return Err(shape_failure(message));
            }
        }
        Ok((library_paths, library_links))
    }

    /// Parses the value of a `rustc-env` instruction into a name and a
    /// value.
    pub fn parse_rustc_env(value: &str, whence: &str) -> (r: Result<(String, String), Error>)
        ensures
            r matches Ok(p) ==> rustc_env(value@, whence@) == Ok::<
                (Seq<char>, Seq<char>),
                ErrorView,
            >((p.0@, p.1@)),
            r matches Err(e) ==> rustc_env(value@, whence@) == Err::<
                (Seq<char>, Seq<char>),
                ErrorView,
            >(e@),
    {
        match split_at_first(&chars_of(value), '=') {
            Some((name, val)) => Ok((string_of(&name), string_of(&val))),
            None => {
                let mut message = copy_of("Variable rustc-env has no value in ");
                message.append(whence);
                message.append(": ");
                message.append(value);
                Err(shape_failure(message))
            },
        }
    }
}

/// What the parser is told about the script and the build.
pub struct ParseSettings {
    /// The name of the package's library, for the `RUSTC_BOOTSTRAP` bypass.
    pub library_name: Option<Seq<char>>,
    /// The package, as error messages name it.
    pub pkg_descr: Seq<char>,
    /// The script's output directory at the time the script ran.
    pub out_dir_when_generated: Seq<char>,
    /// The script's output directory now.
    pub out_dir: Seq<char>,
    /// Whether `rustc-check-cfg` instructions are kept.
    pub extra_check_cfg: bool,
    /// Whether the toolchain allows unstable features.
    pub nightly_features_allowed: bool,
    /// The toolchain version that the package supports, if it says so.
    pub msrv: Option<RustVersion>,
    /// The value of the environment variable `RUSTC_BOOTSTRAP`, if it is
    /// set.
    pub rustc_bootstrap: Option<Seq<char>>,
}

/// The first toolchain version that knows the `cargo::` syntax.
pub open spec fn new_syntax_version() -> RustVersion {
    RustVersion { major: 1, minor: Some(77), patch: Some(0) }
}

/// The message for a `cargo::` line of a package that supports the older
/// toolchain `msrv`.
pub open spec fn msrv_message(pkg_descr: Seq<char>, msrv: RustVersion) -> Seq<char> {
    "the `cargo::` syntax for build script output instructions was added in Rust 1.77.0, but the minimum supported Rust version of `"@
        + pkg_descr + "` is "@ + msrv.text() + ".\n"@ + docs_link_suggestion()
}

/// The message for the line `line`, which lacks its `=`; `syntax` is the
/// beginning that the line should have had.
pub open spec fn missing_equals_message(whence: Seq<char>, line: Seq<char>, syntax: Seq<char>) -> Seq<
    char,
> {
    "invalid output in "@ + whence + ": `"@ + line + "`\nExpected a line with `"@ + syntax
        + "KEY=VALUE` with an `=` character, but none was found.\n"@ + docs_link_suggestion()
}

/// The message for the line `line`, whose key `key` does not exist.
pub open spec fn unknown_key_message(whence: Seq<char>, line: Seq<char>, key: Seq<char>) -> Seq<
    char,
> {
    "invalid output in "@ + whence + ": `"@ + line + "`\nUnknown key: `"@ + key + "`.\n"@
        + docs_link_suggestion()
}

/// The message for a `rustc-link-arg-bin` instruction that names no binary.
pub open spec fn bin_link_arg_message(
    prefix: Seq<char>,
    key: Seq<char>,
    value: Seq<char>,
    whence: Seq<char>,
) -> Seq<char> {
    "invalid instruction `"@ + prefix + key + "="@ + value + "` from "@ + whence
        + "\nThe instruction should have the form "@ + prefix + key + "=BIN=ARG"@
}

/// The warning for a script that sets `RUSTC_BOOTSTRAP` to `val`.
pub open spec fn bootstrap_note(val: Seq<char>, whence: Seq<char>) -> Seq<char> {
    "Cannot set `RUSTC_BOOTSTRAP="@ + val + "` from "@ + whence
        + ".\nnote: Crates cannot set `RUSTC_BOOTSTRAP` themselves, as doing so would subvert the stability guarantees of Rust for your project."@
}

/// The message for a script that sets `RUSTC_BOOTSTRAP` to `val` and may
/// not.
pub open spec fn bootstrap_refusal(
    val: Seq<char>,
    whence: Seq<char>,
    library_name: Option<Seq<char>>,
) -> Seq<char> {
    bootstrap_note(val, whence)
        + "\nhelp: If you're sure you want to do this in your project, set the environment variable `RUSTC_BOOTSTRAP="@
        + (match library_name {
        Some(name) => name,
        None => "1"@,
    }) + "` before running cargo instead."@
}

/// Whether `data`, the text after `cargo:`, begins with one of the keys of
/// the old syntax. Any other text is metadata.
pub open spec fn is_reserved(data: Seq<char>) -> bool {
    starts_with(data, "rustc-flags="@) || starts_with(data, "rustc-link-lib="@) || starts_with(
        data,
        "rustc-link-search="@,
    ) || starts_with(data, "rustc-link-arg-cdylib="@) || starts_with(
        data,
        "rustc-cdylib-link-arg="@,
    ) || starts_with(data, "rustc-link-arg-bins="@) || starts_with(data, "rustc-link-arg-bin="@)
        || starts_with(data, "rustc-link-arg-tests="@) || starts_with(
        data,
        "rustc-link-arg-benches="@,
    ) || starts_with(data, "rustc-link-arg-examples="@) || starts_with(data, "rustc-link-arg="@)
        || starts_with(data, "rustc-cfg="@) || starts_with(data, "rustc-check-cfg="@)
        || starts_with(data, "rustc-env="@) || starts_with(data, "warning="@) || starts_with(
        data,
        "rerun-if-changed="@,
    ) || starts_with(data, "rerun-if-env-changed="@)
}

/// Whether a script may set `RUSTC_BOOTSTRAP` with no more than a warning:
/// on a toolchain that allows unstable features, or where the environment
/// variable of that name lists the package's library.
pub open spec fn bootstrap_allowed(cx: ParseSettings) -> bool {
    cx.nightly_features_allowed || (cx.library_name matches Some(name)
        && cx.rustc_bootstrap matches Some(var) && listed(var, name))
}

/// `out` with the linker argument `arg` for `target` added.
pub open spec fn with_linker_arg(
    out: BuildScriptOutputView,
    target: LinkArgTargetView,
    arg: Seq<char>,
) -> BuildScriptOutputView {
    BuildScriptOutputView { linker_args: out.linker_args.push((target, arg)), ..out }
}

/// What the instruction with the key `key` and the value `raw` adds to
/// `out`. `line` is the whole line, and `old_syntax` tells whether the line
/// began with `cargo:` rather than `cargo::`.
pub open spec fn directive(
    key: Seq<char>,
    raw: Seq<char>,
    old_syntax: bool,
    line: Seq<char>,
    cx: ParseSettings,
    out: BuildScriptOutputView,
) -> Result<BuildScriptOutputView, ErrorView> {
    let whence = whence_of(cx.pkg_descr);
    let value = replace(raw, cx.out_dir_when_generated, cx.out_dir);
    let prefix = if old_syntax {
        "cargo:"@
    } else {
        "cargo::"@
    };
    if key == "rustc-flags"@ {
        match rustc_flags(value, whence) {
            Ok(found) => Ok(
                BuildScriptOutputView {
                    library_links: out.library_links + found.1,
                    library_paths: out.library_paths + found.0,
                    ..out
                },
            ),
            Err(e) => Err(e),
        }
    } else if key == "rustc-link-lib"@ {
        Ok(BuildScriptOutputView { library_links: out.library_links.push(value), ..out })
    } else if key == "rustc-link-search"@ {
        Ok(BuildScriptOutputView { library_paths: out.library_paths.push(value), ..out })
    } else if key == "rustc-link-arg-cdylib"@ || key == "rustc-cdylib-link-arg"@ {
        Ok(with_linker_arg(out, LinkArgTargetView::Cdylib, value))
    } else if key == "rustc-link-arg-bins"@ {
        Ok(with_linker_arg(out, LinkArgTargetView::Bin, value))
    } else if key == "rustc-link-arg-bin"@ {
        match split_once(value, '=') {
            Some(pair) => Ok(with_linker_arg(out, LinkArgTargetView::SingleBin(pair.0), pair.1)),
            None => Err(shape_error(bin_link_arg_message(prefix, key, value, whence))),
        }
    } else if key == "rustc-link-arg-tests"@ {
        Ok(with_linker_arg(out, LinkArgTargetView::Test, value))
    } else if key == "rustc-link-arg-benches"@ {
        Ok(with_linker_arg(out, LinkArgTargetView::Bench, value))
    } else if key == "rustc-link-arg-examples"@ {
        Ok(with_linker_arg(out, LinkArgTargetView::Example, value))
    } else if key == "rustc-link-arg"@ {
        Ok(with_linker_arg(out, LinkArgTargetView::All, value))
    } else if key == "rustc-cfg"@ {
        Ok(BuildScriptOutputView { cfgs: out.cfgs.push(value), ..out })
    } else if key == "rustc-check-cfg"@ {
        if cx.extra_check_cfg {
            Ok(BuildScriptOutputView { check_cfgs: out.check_cfgs.push(value), ..out })
        } else {
            Ok(out)
        }
    } else if key == "rustc-env"@ {
        match rustc_env(value, whence) {
            Ok(pair) => if pair.0 == "RUSTC_BOOTSTRAP"@ {
                if bootstrap_allowed(cx) {
                    Ok(
                        BuildScriptOutputView {
                            warnings: out.warnings.push(bootstrap_note(pair.1, whence)),
                            ..out
                        },
                    )
                } else {
                    Err(shape_error(bootstrap_refusal(pair.1, whence, cx.library_name)))
                }
            } else {
                Ok(BuildScriptOutputView { env: out.env.push(pair), ..out })
            },
            Err(e) => Err(e),
        }
    } else if key == "warning"@ {
        Ok(BuildScriptOutputView { warnings: out.warnings.push(value), ..out })
    } else if key == "rerun-if-changed"@ {
        Ok(BuildScriptOutputView { rerun_if_changed: out.rerun_if_changed.push(value), ..out })
    } else if key == "rerun-if-env-changed"@ {
        Ok(
            BuildScriptOutputView {
                rerun_if_env_changed: out.rerun_if_env_changed.push(value),
                ..out
            },
        )
    } else if key == "metadata"@ {
        match split_once(value, '=') {
            Some(pair) => Ok(
                BuildScriptOutputView {
                    metadata: out.metadata.push((pair.0, trim_end(pair.1))),
                    ..out
                },
            ),
            None => Err(
                shape_error(
                    missing_equals_message(
                        whence,
                        line,
                        if old_syntax {
                            "cargo:"@
                        } else {
                            "cargo::metadata="@
                        },
                    ),
                ),
            ),
        }
    } else {
        Err(shape_error(unknown_key_message(whence, line, key)))
    }
}

/// What `data`, the text of the line `line` after its beginning, adds to
/// `out`: it is split at its first `=` into a key and a value.
pub open spec fn keyed_directive(
    data: Seq<char>,
    old_syntax: bool,
    line: Seq<char>,
    cx: ParseSettings,
    out: BuildScriptOutputView,
) -> Result<BuildScriptOutputView, ErrorView> {
    match split_once(data, '=') {
        Some(pair) => directive(pair.0, trim_end(pair.1), old_syntax, line, cx, out),
        None => Err(
            shape_error(
                missing_equals_message(
                    whence_of(cx.pkg_descr),
                    line,
                    if old_syntax {
                        "cargo:"@
                    } else {
                        "cargo::"@
                    },
                ),
            ),
        ),
    }
}

/// What the line `line`, without the white space at its end, adds to `out`.
/// A line that begins with neither `cargo::` nor `cargo:` adds nothing.
#[verifier::opaque]
pub open spec fn parse_line(line: Seq<char>, cx: ParseSettings, out: BuildScriptOutputView) -> Result<
    BuildScriptOutputView,
    ErrorView,
> {
    if starts_with(line, "cargo::"@) {
        if cx.msrv matches Some(msrv) && msrv.precedes(new_syntax_version()) {
            Err(
                ErrorView {
                    kind: ErrorKind::Msrv,
                    message: msrv_message(cx.pkg_descr, cx.msrv->0),
                },
            )
        } else {
            keyed_directive(line.skip("cargo::"@.len() as int), false, line, cx, out)
        }
    } else if starts_with(line, "cargo:"@) {
        let data = line.skip("cargo:"@.len() as int);
        if is_reserved(data) {
            keyed_directive(data, true, line, cx, out)
        } else {
            directive("metadata"@, data, true, line, cx, out)
        }
    } else {
        Ok(out)
    }
}

/// What the lines of `input` add to `out`, from the first line to the last.
/// Lines end at a line feed; a line that is not valid UTF-8 adds nothing,
/// and white space at the end of a line does not count.
pub open spec fn parse_from(input: Seq<u8>, cx: ParseSettings, out: BuildScriptOutputView) -> Result<
    BuildScriptOutputView,
    ErrorView,
>
    decreases input.len(),
{
    let end = first_index(input, 10u8) as int;
    let after = match decoded(input.take(end)) {
        Some(text) => parse_line(trim_end(text), cx, out),
        None => Ok(out),
    };
    if end < input.len() {
        match after {
            Ok(next) => parse_from(input.skip(end + 1), cx, next),
            Err(e) => Err(e),
        }
    } else {
        after
    }
}

/// The parsed form of the script output `input`, or the error of the first
/// line that cannot be read.
pub open spec fn parsed(input: Seq<u8>, cx: ParseSettings) -> Result<
    BuildScriptOutputView,
    ErrorView,
> {
    parse_from(input, cx, BuildScriptOutputView::empty())
}

/// Appends the linker argument `arg` for `target` to `v`.
fn push_linker_arg(v: &mut Vec<(LinkArgTarget, String)>, target: LinkArgTarget, arg: String)
    ensures
        linker_args(final(v)@) == linker_args(old(v)@).push((target@, arg@)),
{
    v.push((target, arg));
    assert(linker_args(v@) =~= linker_args(old(v)@).push((target@, arg@)));
}

/// Appends the sentence that points to the documentation.
fn push_docs_link(message: &mut String)
    ensures
        final(message)@ == old(message)@ + docs_link_suggestion(),
{
    message.append(
        "See https://doc.rust-lang.org/cargo/reference/build-scripts.html#outputs-of-the-build-script for more information about build script outputs.",
    );
}

/// The error for the line `line`, which lacks its `=`.
fn missing_equals(whence: &str, line: &Vec<char>, syntax: &str) -> (e: Error)
    ensures
        e@ == shape_error(missing_equals_message(whence@, line@, syntax@)),
{
    let mut message = copy_of("invalid output in ");
    message.append(whence);
    message.append(": `");
    message.append(string_of(line).as_str());
    message.append("`\nExpected a line with `");
    message.append(syntax);
    message.append("KEY=VALUE` with an `=` character, but none was found.\n");
    push_docs_link(&mut message);
    shape_failure(message)
}

/// The error for the line `line`, whose key does not exist.
fn unknown_key(whence: &str, line: &Vec<char>, key: &Vec<char>) -> (e: Error)
    ensures
        e@ == shape_error(unknown_key_message(whence@, line@, key@)),
{
    let mut message = copy_of("invalid output in ");
    message.append(whence);
    message.append(": `");
    message.append(string_of(line).as_str());
    message.append("`\nUnknown key: `");
    message.append(string_of(key).as_str());
    message.append("`.\n");
    push_docs_link(&mut message);
    shape_failure(message)
}

/// The error for a `rustc-link-arg-bin` instruction that names no binary.
fn bin_link_arg(prefix: &str, key: &Vec<char>, value: &str, whence: &str) -> (e: Error)
    ensures
        e@ == shape_error(bin_link_arg_message(prefix@, key@, value@, whence@)),
{
    let key = string_of(key);
    let mut message = copy_of("invalid instruction `");
    message.append(prefix);
    message.append(key.as_str());
    message.append("=");
    message.append(value);
    message.append("` from ");
    message.append(whence);
    message.append("\nThe instruction should have the form ");
    message.append(prefix);
    message.append(key.as_str());
    message.append("=BIN=ARG");
    shape_failure(message)
}

/// The warning for a script that sets `RUSTC_BOOTSTRAP` to `val`.
fn bootstrap_warning(val: &str, whence: &str) -> (message: String)
    ensures
        message@ == bootstrap_note(val@, whence@),
{
    let mut message = copy_of("Cannot set `RUSTC_BOOTSTRAP=");
    message.append(val);
    message.append("` from ");
    message.append(whence);
    message.append(
        ".\nnote: Crates cannot set `RUSTC_BOOTSTRAP` themselves, as doing so would subvert the stability guarantees of Rust for your project.",
    );
    message
}

/// The error for a script that sets `RUSTC_BOOTSTRAP` to `val` and may not.
fn bootstrap_failure(val: &str, whence: &str, library_name: &Option<String>) -> (e: Error)
    ensures
        e@ == shape_error(bootstrap_refusal(val@, whence@, opt_text(*library_name))),
{
    let mut message = bootstrap_warning(val, whence);
    message.append(
        "\nhelp: If you're sure you want to do this in your project, set the environment variable `RUSTC_BOOTSTRAP=",
    );
    match library_name {
        Some(name) => message.append(name.as_str()),
        None => message.append("1"),
    }
    message.append("` before running cargo instead.");
    shape_failure(message)
}

/// The error for a `cargo::` line of a package that supports the older
/// toolchain `msrv`.
fn msrv_failure(pkg_descr: &str, msrv: &RustVersion) -> (e: Error)
    ensures
        e@ == (ErrorView { kind: ErrorKind::Msrv, message: msrv_message(pkg_descr@, *msrv) }),
{
    let mut message = copy_of(
        "the `cargo::` syntax for build script output instructions was added in Rust 1.77.0, but the minimum supported Rust version of `",
    );
    message.append(pkg_descr);
    message.append("` is ");
    message.append(msrv.to_string().as_str());
    message.append(".\n");
    push_docs_link(&mut message);
    Error::new(ErrorKind::Msrv, message)
}

/// What the parser is told, in the form it works with.
struct Settings {
    library_name: Option<String>,
    pkg_descr: String,
    whence: String,
    out_dir_when_generated: Vec<char>,
    out_dir: Vec<char>,
    extra_check_cfg: bool,
    nightly_features_allowed: bool,
    msrv: Option<RustVersion>,
    rustc_bootstrap: Option<String>,
}

impl Settings {
    spec fn settings(&self) -> ParseSettings {
        ParseSettings {
            library_name: opt_text(self.library_name),
            pkg_descr: self.pkg_descr@,
            out_dir_when_generated: self.out_dir_when_generated@,
            out_dir: self.out_dir@,
            extra_check_cfg: self.extra_check_cfg,
            nightly_features_allowed: self.nightly_features_allowed,
            msrv: self.msrv,
            rustc_bootstrap: opt_text(self.rustc_bootstrap),
        }
    }

    spec fn wf(&self) -> bool {
        self.whence@ == whence_of(self.pkg_descr@)
    }

    /// Whether a script may set `RUSTC_BOOTSTRAP` with no more than a
    /// warning.
    fn allows_bootstrap(&self) -> (b: bool)
        ensures
            b == bootstrap_allowed(self.settings()),
    {
        if self.nightly_features_allowed {
            return true;
        }
        match (&self.library_name, &self.rustc_bootstrap) {
            (Some(name), Some(var)) => crate::text::is_listed(
                &chars_of(var.as_str()),
                &chars_of(name.as_str()),
            ),
            _ => false,
        }
    }
}

/// Whether `data` begins with one of the keys of the old syntax.
fn reserved(data: &Vec<char>) -> (b: bool)
    ensures
        b == is_reserved(data@),
{
    has_prefix(data, "rustc-flags=") || has_prefix(data, "rustc-link-lib=") || has_prefix(
        data,
        "rustc-link-search=",
    ) || has_prefix(data, "rustc-link-arg-cdylib=") || has_prefix(data, "rustc-cdylib-link-arg=")
        || has_prefix(data, "rustc-link-arg-bins=") || has_prefix(data, "rustc-link-arg-bin=")
        || has_prefix(data, "rustc-link-arg-tests=") || has_prefix(
        data,
        "rustc-link-arg-benches=",
    ) || has_prefix(data, "rustc-link-arg-examples=") || has_prefix(data, "rustc-link-arg=")
        || has_prefix(data, "rustc-cfg=") || has_prefix(data, "rustc-check-cfg=") || has_prefix(
        data,
        "rustc-env=",
    ) || has_prefix(data, "warning=") || has_prefix(data, "rerun-if-changed=") || has_prefix(
        data,
        "rerun-if-env-changed=",
    )
}

/// Adds to `out` what the instruction with the key `key` and the value
/// `raw` says.
fn apply_directive(
    out: &mut BuildScriptOutput,
    key: &Vec<char>,
    raw: &Vec<char>,
    old_syntax: bool,
    line: &Vec<char>,
    cx: &Settings,
) -> (r: Result<(), Error>)
    requires
        cx.wf(),
    ensures
        r is Ok ==> directive(key@, raw@, old_syntax, line@, cx.settings(), old(out)@) == Ok::<
            BuildScriptOutputView,
            ErrorView,
        >(final(out)@),
        r matches Err(e) ==> directive(key@, raw@, old_syntax, line@, cx.settings(), old(out)@)
            == Err::<BuildScriptOutputView, ErrorView>(e@),
{
    let value_chars = replaced(raw, &cx.out_dir_when_generated, &cx.out_dir);
    let value = string_of(&value_chars);
    let whence = cx.whence.as_str();
    let prefix = if old_syntax {
        "cargo:"
    } else {
        "cargo::"
    };
    if is_text(key, "rustc-flags") {
        match BuildScriptOutput::parse_rustc_flags(value.as_str(), whence) {
            Ok((paths, links)) => {
                crate::text::push_texts(&mut out.library_links, &links);
                crate::text::push_texts(&mut out.library_paths, &paths);
                Ok(())
            },
            Err(e) => Err(e),
        }
    } else if is_text(key, "rustc-link-lib") {
        push_text(&mut out.library_links, value);
        Ok(())
    } else if is_text(key, "rustc-link-search") {
        push_text(&mut out.library_paths, value);
        Ok(())
    } else if is_text(key, "rustc-link-arg-cdylib") || is_text(key, "rustc-cdylib-link-arg") {
        push_linker_arg(&mut out.linker_args, LinkArgTarget::Cdylib, value);
        Ok(())
    } else if is_text(key, "rustc-link-arg-bins") {
        push_linker_arg(&mut out.linker_args, LinkArgTarget::Bin, value);
        Ok(())
    } else if is_text(key, "rustc-link-arg-bin") {
        match split_at_first(&value_chars, '=') {
            Some((bin_name, arg)) => {
                push_linker_arg(
                    &mut out.linker_args,
                    LinkArgTarget::SingleBin(string_of(&bin_name)),
                    string_of(&arg),
                );
                Ok(())
            },
            None => Err(bin_link_arg(prefix, key, value.as_str(), whence)),
        }
    } else if is_text(key, "rustc-link-arg-tests") {
        push_linker_arg(&mut out.linker_args, LinkArgTarget::Test, value);
        Ok(())
    } else if is_text(key, "rustc-link-arg-benches") {
        push_linker_arg(&mut out.linker_args, LinkArgTarget::Bench, value);
        Ok(())
    } else if is_text(key, "rustc-link-arg-examples") {
        push_linker_arg(&mut out.linker_args, LinkArgTarget::Example, value);
        Ok(())
    } else if is_text(key, "rustc-link-arg") {
        push_linker_arg(&mut out.linker_args, LinkArgTarget::All, value);
        Ok(())
    } else if is_text(key, "rustc-cfg") {
        push_text(&mut out.cfgs, value);
        Ok(())
    } else if is_text(key, "rustc-check-cfg") {
        if cx.extra_check_cfg {
            push_text(&mut out.check_cfgs, value);
        }
        Ok(())
    } else if is_text(key, "rustc-env") {
        match BuildScriptOutput::parse_rustc_env(value.as_str(), whence) {
            Ok((name, val)) => {
                if same_text(name.as_str(), "RUSTC_BOOTSTRAP") {
                    if cx.allows_bootstrap() {
                        push_text(&mut out.warnings, bootstrap_warning(val.as_str(), whence));
                        Ok(())
                    } else {
                        Err(bootstrap_failure(val.as_str(), whence, &cx.library_name))
                    }
                } else {
                    push_pair(&mut out.env, name, val);
                    Ok(())
                }
            },
            Err(e) => Err(e),
        }
    } else if is_text(key, "warning") {
        push_text(&mut out.warnings, value);
        Ok(())
    } else if is_text(key, "rerun-if-changed") {
        push_text(&mut out.rerun_if_changed, value);
        Ok(())
    } else if is_text(key, "rerun-if-env-changed") {
        push_text(&mut out.rerun_if_env_changed, value);
        Ok(())
    } else if is_text(key, "metadata") {
        match split_at_first(&value_chars, '=') {
            Some((name, val)) => {
                push_pair(&mut out.metadata, string_of(&name), string_of(&trimmed_end(&val)));
                Ok(())
            },
            None => Err(
                missing_equals(
                    whence,
                    line,
                    if old_syntax {
                        "cargo:"
                    } else {
                        "cargo::metadata="
                    },
                ),
            ),
        }
    } else {
        Err(unknown_key(whence, line, key))
    }
}

/// Adds to `out` what `data` says, which is split at its first `=` into a
/// key and a value.
fn apply_keyed(
    out: &mut BuildScriptOutput,
    data: &Vec<char>,
    old_syntax: bool,
    line: &Vec<char>,
    cx: &Settings,
) -> (r: Result<(), Error>)
    requires
        cx.wf(),
    ensures
        r is Ok ==> keyed_directive(data@, old_syntax, line@, cx.settings(), old(out)@) == Ok::<
            BuildScriptOutputView,
            ErrorView,
        >(final(out)@),
        r matches Err(e) ==> keyed_directive(data@, old_syntax, line@, cx.settings(), old(out)@)
            == Err::<BuildScriptOutputView, ErrorView>(e@),
{
    match split_at_first(data, '=') {
        Some((key, value)) => apply_directive(
            out,
            &key,
            &trimmed_end(&value),
            old_syntax,
            line,
            cx,
        ),
        None => Err(
            missing_equals(
                cx.whence.as_str(),
                line,
                if old_syntax {
                    "cargo:"
                } else {
                    "cargo::"
                },
            ),
        ),
    }
}

/// Adds to `out` what the line `line` says.
fn apply_line(out: &mut BuildScriptOutput, line: &Vec<char>, cx: &Settings) -> (r: Result<
    (),
    Error,
>)
    requires
        cx.wf(),
    ensures
        r is Ok ==> parse_line(line@, cx.settings(), old(out)@) == Ok::<
            BuildScriptOutputView,
            ErrorView,
        >(final(out)@),
        r matches Err(e) ==> parse_line(line@, cx.settings(), old(out)@) == Err::<
            BuildScriptOutputView,
            ErrorView,
        >(e@),
{
    reveal(parse_line);
    let new_prefix = chars_of("cargo::");
    let old_prefix = chars_of("cargo:");
    assert(line@.skip(0) == line@);
    if starts_with_at(line, 0, &new_prefix) {
        match &cx.msrv {
            Some(msrv) => {
                if msrv.is_before(&RustVersion::new(1, 77, 0)) {
                    return Err(msrv_failure(cx.pkg_descr.as_str(), msrv));
                }
            },
            None => {},
        }
        let data = slice_of(line, new_prefix.len(), line.len());
        apply_keyed(out, &data, false, line, cx)
    } else if starts_with_at(line, 0, &old_prefix) {
        let data = slice_of(line, old_prefix.len(), line.len());
        if reserved(&data) {
            apply_keyed(out, &data, true, line, cx)
        } else {
            apply_directive(out, &chars_of("metadata"), &data, true, line, cx)
        }
    } else {
        Ok(())
    }
}

impl BuildScriptOutput {
    /// Parses the output of a build script.
    ///
    /// `library_name` and `rustc_bootstrap` decide whether the script may
    /// set `RUSTC_BOOTSTRAP`; `rustc_bootstrap` is the value of the
    /// environment variable of that name, if it is set. `pkg_descr` names the
    /// package in error messages. In every value, the text
    /// `script_out_dir_when_generated` is replaced by `script_out_dir`.
    /// `extra_check_cfg` keeps the `rustc-check-cfg` instructions, and `msrv`
    /// is the toolchain version that the package supports. The result is
    /// the whole output, or the error of the first line that cannot be
    /// read.
    pub fn parse(
        input: &[u8],
        library_name: Option<String>,
        pkg_descr: &str,
        script_out_dir_when_generated: &str,
        script_out_dir: &str,
        extra_check_cfg: bool,
        nightly_features_allowed: bool,
        msrv: &Option<RustVersion>,
        rustc_bootstrap: Option<String>,
    ) -> (r: Result<BuildScriptOutput, Error>)
        ensures
            r matches Ok(out) ==> parsed(
                input@,
                ParseSettings {
                    library_name: opt_text(library_name),
                    pkg_descr: pkg_descr@,
                    out_dir_when_generated: script_out_dir_when_generated@,
                    out_dir: script_out_dir@,
                    extra_check_cfg,
                    nightly_features_allowed,
                    msrv: *msrv,
                    rustc_bootstrap: opt_text(rustc_bootstrap),
                },
            ) == Ok::<BuildScriptOutputView, ErrorView>(out@),
            r matches Err(e) ==> parsed(
                input@,
                ParseSettings {
                    library_name: opt_text(library_name),
                    pkg_descr: pkg_descr@,
                    out_dir_when_generated: script_out_dir_when_generated@,
                    out_dir: script_out_dir@,
                    extra_check_cfg,
                    nightly_features_allowed,
                    msrv: *msrv,
                    rustc_bootstrap: opt_text(rustc_bootstrap),
                },
            ) == Err::<BuildScriptOutputView, ErrorView>(e@),
    {
        let mut whence = copy_of("build script of `");
        whence.append(pkg_descr);
        whence.append("`");
        let cx = Settings {
            library_name,
            pkg_descr: copy_of(pkg_descr),
            whence,
            out_dir_when_generated: chars_of(script_out_dir_when_generated),
            out_dir: chars_of(script_out_dir),
            extra_check_cfg,
            nightly_features_allowed,
            msrv: *msrv,
            rustc_bootstrap,
        };
        let ghost settings = cx.settings();
        let mut out = BuildScriptOutput::default();
        let mut start: usize = 0;
        assert(input@.skip(0) == input@);
        loop
            invariant
                start <= input.len(),
                cx.wf(),
                cx.settings() == settings,
                settings == (ParseSettings {
                    library_name: opt_text(library_name),
                    pkg_descr: pkg_descr@,
                    out_dir_when_generated: script_out_dir_when_generated@,
                    out_dir: script_out_dir@,
                    extra_check_cfg,
                    nightly_features_allowed,
                    msrv: *msrv,
                    rustc_bootstrap: opt_text(rustc_bootstrap),
                }),
                parsed(input@, settings) == parse_from(input@.skip(start as int), settings, out@),
            decreases input.len() - start,
        {
            let end = find_byte(input, start, 10u8);
            let ghost rest = input@.skip(start as int);
            assert(rest.take(end - start) == input@.subrange(start as int, end as int));
            match decode(vstd::slice::slice_subrange(input, start, end)) {
                Some(text) => {
                    match apply_line(&mut out, &trimmed_end(&text), &cx) {
                        Ok(()) => {},
                        Err(e) => {
                            return Err(e);
                        },
                    }
                },
                None => {},
            }
            if end < input.len() {
                assert(rest.skip(end - start + 1) == input@.skip(end + 1));
                start = end + 1;
            } else {
                return Ok(out);
            }
        }
    }
}

impl LinkArgTargetView {
    /// Whether linker arguments for `self` go to the invocation `target`.
    pub open spec fn applies_to(self, target: InvocationView) -> bool {
        match self {
            LinkArgTargetView::All => true,
            LinkArgTargetView::Cdylib => target.is_lib_of(CrateTypeView::Cdylib),
            LinkArgTargetView::Bin => target.is_bin(),
            LinkArgTargetView::SingleBin(name) => target.is_bin() && target.package_name == name,
            LinkArgTargetView::Test => target.target_kind is Test,
            LinkArgTargetView::Bench => target.target_kind is Bench,
            LinkArgTargetView::Example => target.is_exe_example(),
        }
    }
}

impl LinkArgTarget {
    /// Whether linker arguments for `self` go to the invocation `target`.
    pub fn applies_to(&self, target: &Invocation) -> (b: bool)
        ensures
            b == self@.applies_to(target@),
    {
        match self {
            LinkArgTarget::All => true,
            LinkArgTarget::Cdylib => target.is_cdylib(),
            LinkArgTarget::Bin => target.is_bin(),
            LinkArgTarget::SingleBin(name) => target.is_bin() && same_text(
                target.package_name(),
                name.as_str(),
            ),
            LinkArgTarget::Test => target.is_test(),
            LinkArgTarget::Bench => target.is_bench(),
            LinkArgTarget::Example => target.is_exe_example(),
        }
    }
}

/// What makes a build script run again.
#[derive(Debug)]
pub struct BuildDeps {
    /// The file that holds the output of the build script.
    pub build_script_output: String,
    /// Paths whose change makes the script run again.
    pub rerun_if_changed: Vec<String>,
    /// Environment variables whose change makes the script run again.
    pub rerun_if_env_changed: Vec<String>,
}

impl BuildDeps {
    /// What makes the build script run again whose output, where it has
    /// run, is `output` and lies in `output_file`.
    pub fn new(output_file: &str, output: Option<&BuildScriptOutput>) -> (deps: BuildDeps)
        ensures
            deps.build_script_output@ == output_file@,
            texts(deps.rerun_if_changed@) == (match output {
                Some(out) => out@.rerun_if_changed,
                None => Seq::empty(),
            }),
            texts(deps.rerun_if_env_changed@) == (match output {
                Some(out) => out@.rerun_if_env_changed,
                None => Seq::empty(),
            }),
    {
        match output {
            Some(out) => BuildDeps {
                build_script_output: copy_of(output_file),
                rerun_if_changed: crate::text::copy_strings(&out.rerun_if_changed),
                rerun_if_env_changed: crate::text::copy_strings(&out.rerun_if_env_changed),
            },
            None => {
                let deps = BuildDeps {
                    build_script_output: copy_of(output_file),
                    rerun_if_changed: Vec::new(),
                    rerun_if_env_changed: Vec::new(),
                };
                assert(texts(deps.rerun_if_changed@) =~= Seq::empty());
                assert(texts(deps.rerun_if_env_changed@) =~= Seq::empty());
                deps
            },
        }
    }
}

/// `s` as part of the name of an environment variable: in upper case, with
/// `_` for each `-`.
pub open spec fn envified(s: Seq<char>) -> Seq<char> {
    underscored(uppercased(s))
}

/// `s` as part of the name of an environment variable.
pub fn envify(s: &str) -> (r: String)
    ensures
        r@ == envified(s@),
{
    string_of(&crate::text::shouted(&chars_of(s)))
}

/// The name of the variable that hands the metadata `key` of the package
/// `package_name` to the packages that depend on it.
pub open spec fn dep_variable(package_name: Seq<char>, key: Seq<char>) -> Seq<char> {
    "DEP_"@ + envified(package_name) + "_"@ + envified(key)
}

/// The arguments `flag value` for each value of `values`, in order.
pub open spec fn flag_args(flag: Seq<char>, values: Seq<Seq<char>>) -> Seq<Seq<char>>
    decreases values.len(),
{
    if values.len() == 0 {
        Seq::empty()
    } else {
        flag_args(flag, values.drop_last()).push(flag).push(values.last())
    }
}

/// The arguments for the `--check-cfg` flags `values`: the option that
/// allows them, once, and `--check-cfg value` for each.
pub open spec fn check_cfg_args(values: Seq<Seq<char>>) -> Seq<Seq<char>> {
    if values.len() == 0 {
        Seq::empty()
    } else {
        seq!["-Zunstable-options"@] + flag_args("--check-cfg"@, values)
    }
}

/// The arguments `-C link-arg=..` for the linker arguments of `args` that
/// are meant for dynamic system libraries, where `target` builds one. The
/// linker arguments for other targets give nothing.
pub open spec fn cdylib_link_args(
    args: Seq<(LinkArgTargetView, Seq<char>)>,
    target: InvocationView,
) -> Seq<Seq<char>>
    decreases args.len(),
{
    if args.len() == 0 {
        Seq::empty()
    } else {
        let before = cdylib_link_args(args.drop_last(), target);
        let last = args.last();
        if last.0 is Cdylib && last.0.applies_to(target) {
            before.push("-C"@).push("link-arg="@ + last.1)
        } else {
            before
        }
    }
}

/// The variables that hand the metadata `metadata` of the package
/// `package_name` on.
pub open spec fn metadata_env(package_name: Seq<char>, metadata: Seq<(Seq<char>, Seq<char>)>) -> Seq<
    (Seq<char>, Seq<char>),
> {
    Seq::new(metadata.len(), |i: int| (dep_variable(package_name, metadata[i].0), metadata[i].1))
}

/// The command `cmd` with what the script output `output` asks for, for the
/// invocation `target` of the package `package_name`: the `--cfg` and
/// `--check-cfg` flags, quoted; the environment; the library paths; the
/// libraries, if `target` builds a library; the linker arguments for
/// dynamic system libraries, if it builds one; the metadata.
pub open spec fn custom_flags(
    cmd: CommandLineView,
    output: Option<BuildScriptOutputView>,
    package_name: Seq<char>,
    target: InvocationView,
) -> CommandLineView {
    match output {
        None => cmd,
        Some(out) => cmd.with_args(flag_args("--cfg"@, all_escaped(out.cfgs))).with_args(
            check_cfg_args(all_escaped(out.check_cfgs)),
        ).with_env(out.env).with_args(flag_args("-L"@, out.library_paths)).with_args(
            if target.is_lib() {
                flag_args("-l"@, out.library_links)
            } else {
                Seq::empty()
            },
        ).with_args(cdylib_link_args(out.linker_args, target)).with_env(
            metadata_env(package_name, out.metadata),
        ),
    }
}

/// Appends `flag value` to `args` for each value of `values`.
fn push_flag_args(args: &mut Vec<String>, flag: &str, values: &Vec<String>)
    ensures
        texts(final(args)@) == texts(old(args)@) + flag_args(flag@, texts(values@)),
{
    let mut i: usize = 0;
    assert(texts(values@).take(0) =~= Seq::empty());
    assert(texts(args@) =~= texts(old(args)@) + Seq::empty());
    while i < values.len()
        invariant
            i <= values.len(),
            texts(args@) == texts(old(args)@) + flag_args(flag@, texts(values@).take(i as int)),
        decreases values.len() - i,
    {
        let ghost before = texts(args@);
        push_text(args, copy_of(flag));
        push_text(args, values[i].clone());
        proof {
            let next = texts(values@).take(i + 1);
            assert(next.drop_last() =~= texts(values@).take(i as int));
            assert(next.last() == values[i as int]@);
            assert(texts(args@) =~= texts(old(args)@) + flag_args(flag@, next));
        }
        i = i + 1;
    }
    assert(texts(values@).take(values.len() as int) =~= texts(values@));
}

/// The script output `output` as a mathematical value, where there is one.
pub open spec fn output_view(output: Option<&BuildScriptOutput>) -> Option<BuildScriptOutputView> {
    match output {
        Some(out) => Some(out@),
        None => None,
    }
}

/// Appends to `args` the arguments for the linker arguments `wanted`.
fn push_cdylib_link_args(
    args: &mut Vec<String>,
    wanted: &Vec<(LinkArgTarget, String)>,
    target: &Invocation,
)
    ensures
        texts(final(args)@) == texts(old(args)@) + cdylib_link_args(
            linker_args(wanted@),
            target@,
        ),
{
    let ghost all = linker_args(wanted@);
    let mut i: usize = 0;
    assert(all.take(0) =~= Seq::empty());
    assert(texts(args@) =~= texts(old(args)@) + Seq::empty());
    while i < wanted.len()
        invariant
            i <= wanted.len(),
            all == linker_args(wanted@),
            texts(args@) == texts(old(args)@) + cdylib_link_args(all.take(i as int), target@),
        decreases wanted.len() - i,
    {
        let ghost next = all.take(i + 1);
        assert(next.drop_last() =~= all.take(i as int));
        assert(next.last() == (wanted[i as int].0@, wanted[i as int].1@));
        let is_cdylib = matches!(wanted[i].0, LinkArgTarget::Cdylib);
        if is_cdylib && wanted[i].0.applies_to(target) {
            let mut arg = copy_of("link-arg=");
            arg.append(wanted[i].1.as_str());
            push_text(args, copy_of("-C"));
            push_text(args, arg);
            assert(texts(args@) =~= texts(old(args)@) + cdylib_link_args(next, target@));
        }
        i = i + 1;
    }
    assert(all.take(wanted.len() as int) =~= all);
}

/// Appends to `env` the variables that hand the metadata `metadata` on.
fn push_metadata_env(
    env: &mut Vec<(String, String)>,
    package_name: &str,
    metadata: &Vec<(String, String)>,
)
    ensures
        text_pairs(final(env)@) == text_pairs(old(env)@) + metadata_env(
            package_name@,
            text_pairs(metadata@),
        ),
{
    let package = envify(package_name);
    let mut i: usize = 0;
    while i < metadata.len()
        invariant
            i <= metadata.len(),
            package@ == envified(package_name@),
            env.len() == old(env).len() + i,
            forall|j: int|
                0 <= j < old(env).len() ==> env[j].0@ == old(env)[j].0@ && env[j].1@ == old(
                    env,
                )[j].1@,
            forall|j: int|
                0 <= j < i ==> env[old(env).len() + j].0@ == dep_variable(
                    package_name@,
                    metadata[j].0@,
                ) && env[old(env).len() + j].1@ == metadata[j].1@,
        decreases metadata.len() - i,
    {
        let mut name = copy_of("DEP_");
        name.append(package.as_str());
        name.append("_");
        name.append(envify(metadata[i].0.as_str()).as_str());
        env.push((name, metadata[i].1.clone()));
        i = i + 1;
    }
    assert(text_pairs(env@) =~= text_pairs(old(env)@) + metadata_env(
        package_name@,
        text_pairs(metadata@),
    ));
}

/// Adds to the command `cmd` what the output `output` of a build script asks
/// for, for the invocation `target` of the package `package_name`. Without
/// an output the command stays as it is.
pub fn add_custom_flags(
    cmd: CommandLine,
    output: Option<&BuildScriptOutput>,
    package_name: &str,
    target: &Invocation,
) -> (r: CommandLine)
    ensures
        r@ == custom_flags(cmd@, output_view(output), package_name@, target@),
{
    let out = match output {
        Some(out) => out,
        None => {
            return cmd;
        },
    };
    let mut cmd = cmd;
    let ghost start = cmd@;
    push_flag_args(&mut cmd.args, "--cfg", &escape_all(&out.cfgs));
    let ghost with_cfgs = cmd@;
    assert(with_cfgs == start.with_args(flag_args("--cfg"@, all_escaped(out@.cfgs))));
    let check_cfgs = escape_all(&out.check_cfgs);
    if check_cfgs.len() > 0 {
        push_text(&mut cmd.args, copy_of("-Zunstable-options"));
        push_flag_args(&mut cmd.args, "--check-cfg", &check_cfgs);
        assert(cmd@.args =~= with_cfgs.args + check_cfg_args(all_escaped(out@.check_cfgs)));
    } else {
        assert(cmd@.args =~= with_cfgs.args + check_cfg_args(all_escaped(out@.check_cfgs)));
    }
    let ghost with_checks = cmd@;
    assert(with_checks == with_cfgs.with_args(check_cfg_args(all_escaped(out@.check_cfgs))));
    crate::text::push_pairs(&mut cmd.env, &out.env);
    push_flag_args(&mut cmd.args, "-L", &out.library_paths);
    let ghost with_paths = cmd@;
    assert(with_paths == with_checks.with_env(out@.env).with_args(
        flag_args("-L"@, out@.library_paths),
    ));
    if target.is_lib() {
        push_flag_args(&mut cmd.args, "-l", &out.library_links);
    } else {
        assert(cmd@.args =~= with_paths.args + Seq::empty());
    }
    let ghost with_links = cmd@;
    push_cdylib_link_args(&mut cmd.args, &out.linker_args, target);
    push_metadata_env(&mut cmd.env, package_name, &out.metadata);
    assert(cmd@ == with_links.with_args(cdylib_link_args(out@.linker_args, target@)).with_env(
        metadata_env(package_name@, out@.metadata),
    ));
    cmd
}

} // verus!
