//! The command line of the compiler, as far as it is needed to find the
//! source file among the arguments of an invocation.
//!
//! The grammar is written down as a `clap::Command`, and `clap` does the
//! parsing. Of a grammar the contracts know the program's name and the
//! arguments in the order in which they were added, and of an argument the
//! settings that decide how a command line is read. What `clap` finds for
//! the source file on a command line has a name, `compiler_input`, and the
//! contracts that rest on the source file speak of that name.

use crate::path::opt_text;
use crate::text::texts;
use vstd::prelude::*;

verus! {

/// `clap::Command`: a command-line grammar. It holds a name and arguments.
#[verifier::external_type_specification]
#[verifier::external_body]
pub struct ExCommand(clap::Command);

/// `clap::Arg`: one argument of a grammar. It holds settings.
#[verifier::external_type_specification]
#[verifier::external_body]
pub struct ExArg(clap::Arg);

/// `clap::ArgMatches`: the values that a command line gives to the arguments
/// of a grammar, carried through and never read.
#[verifier::external_type_specification]
#[verifier::external_body]
pub struct ExArgMatches(clap::ArgMatches);

/// What an argument does when the command line gives it.
pub enum ArgActionSpec {
    /// It takes one value.
    SetValue,
    /// It takes one value each time, and keeps them all.
    AppendValue,
    /// It takes no value and is on once it is given.
    SetTrue,
    /// Any other action.
    Other,
}

/// The settings of an argument that decide how a command line is read.
pub struct ArgSpec {
    /// The identifier under which the values are found.
    pub id: Seq<char>,
    /// The letter after `-` that gives the argument.
    pub short: Option<char>,
    /// The word after `--` that gives the argument.
    pub long: Option<Seq<char>>,
    /// The names of the values.
    pub value_names: Seq<Seq<char>>,
    /// What the argument does, where that is set.
    pub action: Option<ArgActionSpec>,
    /// Whether the command line must give the argument.
    pub required: bool,
    /// Whether the value is read as a `camino::Utf8PathBuf`.
    pub path_valued: bool,
}

/// The settings that the argument `arg` holds.
pub uninterp spec fn arg_spec(arg: clap::Arg) -> ArgSpec;

/// The arguments that the grammar `cmd` holds, in the order in which they
/// were added.
pub uninterp spec fn command_args(cmd: clap::Command) -> Seq<ArgSpec>;

/// The name of the program of the grammar `cmd`.
pub uninterp spec fn command_name(cmd: clap::Command) -> Seq<char>;

/// The path that the matches `matches` hold for the argument `id`, if they
/// hold one.
pub uninterp spec fn matched(matches: clap::ArgMatches, id: Seq<char>) -> Option<Seq<char>>;

/// What `clap` finds for the argument `INPUT` when it reads the command line
/// `line`, which begins with the program's name, by the compiler's grammar:
/// the source file, or nothing where the command line does not follow the
/// grammar.
pub uninterp spec fn compiler_input(line: Seq<Seq<char>>) -> Option<Seq<char>>;

/// The source file among the compiler arguments `args`, which do not hold
/// the program's name.
pub open spec fn source_file(args: Seq<Seq<char>>) -> Option<Seq<char>> {
    compiler_input(seq!["rustc"@] + args)
}

/// The text of an optional word.
pub open spec fn opt_word(word: Option<&'static str>) -> Option<Seq<char>> {
    match word {
        Some(w) => Some(w@),
        None => None,
    }
}

impl ArgSpec {
    /// The argument with the identifier `id` and nothing else set: it is
    /// positional.
    pub open spec fn new(id: Seq<char>) -> ArgSpec {
        ArgSpec {
            id,
            short: None,
            long: None,
            value_names: Seq::empty(),
            action: None,
            required: false,
            path_valued: false,
        }
    }
}

/// The argument with the identifier `id`, given as `-short` or `--long`
/// where these are set.
pub open spec fn named_spec(id: Seq<char>, short: Option<char>, long: Option<Seq<char>>) -> ArgSpec {
    ArgSpec { short, long, ..ArgSpec::new(id) }
}

/// The option with the identifier `id` that takes a value called
/// `value_name`; with `many`, it may be given several times and keeps every
/// value.
pub open spec fn option_spec(
    id: Seq<char>,
    short: Option<char>,
    long: Option<Seq<char>>,
    value_name: Seq<char>,
    many: bool,
) -> ArgSpec {
    ArgSpec {
        value_names: seq![value_name],
        action: Some(
            if many {
                ArgActionSpec::AppendValue
            } else {
                ArgActionSpec::SetValue
            },
        ),
        ..named_spec(id, short, long)
    }
}

/// The flag with the identifier `id`.
pub open spec fn flag_spec(id: Seq<char>, short: Option<char>, long: Option<Seq<char>>) -> ArgSpec {
    ArgSpec { action: Some(ArgActionSpec::SetTrue), ..named_spec(id, short, long) }
}

/// The source file of the compiler: the positional argument `INPUT`, which
/// must be given and is read as a path.
pub open spec fn input_spec() -> ArgSpec {
    ArgSpec {
        value_names: seq!["INPUT"@],
        action: Some(ArgActionSpec::SetValue),
        required: true,
        path_valued: true,
        ..ArgSpec::new("INPUT"@)
    }
}

/// The grammar of the compiler's command line: the source file, and the
/// options and flags that may stand around it. The options that may be
/// given several times are `--cfg`, `--check-cfg`, `-L`, `-l`, `-C`,
/// `--extern`, `-Z`, `--json`, `--remap-path-prefix` and `--env-set`.
pub open spec fn rustc_grammar() -> Seq<ArgSpec> {
    seq![
        input_spec(),
        option_spec("cfg"@, None, Some("cfg"@), "SPEC"@, true),
        option_spec("check-cfg"@, None, Some("check-cfg"@), "SPEC"@, true),
        option_spec("[KIND=]PATH"@, Some('L'), None, "[KIND=]PATH"@, true),
        option_spec("[KIND[:MODIFIERS]=]NAME[:RENAME]"@, Some('l'), None, "[KIND[:MODIFIERS]=]NAME[:RENAME]"@, true),
        option_spec("crate-type"@, None, Some("crate-type"@), "TYPE"@, false),
        option_spec("crate-name"@, None, Some("crate-name"@), "NAME"@, false),
        option_spec("edition"@, None, Some("edition"@), "EDITION"@, false),
        option_spec("emit"@, None, Some("emit"@), "TYPE[,TYPE]"@, false),
        option_spec("print"@, None, Some("print"@), "INFO"@, false),
        flag_spec("debug"@, Some('g'), None),
        flag_spec("opt"@, Some('O'), None),
        option_spec("FILENAME"@, Some('o'), None, "FILENAME"@, false),
        option_spec("out-dir"@, None, Some("out-dir"@), "DIR"@, false),
        option_spec("explain"@, None, Some("explain"@), "OPT"@, false),
        flag_spec("test"@, None, Some("test"@)),
        option_spec("target"@, None, Some("target"@), "TARGET"@, false),
        option_spec("allow"@, Some('A'), Some("allow"@), "LINT"@, false),
        option_spec("warn"@, Some('W'), Some("warn"@), "LINT"@, false),
        option_spec("force-warn"@, None, Some("force-warn"@), "LINT"@, false),
        option_spec("deny"@, Some('D'), Some("deny"@), "LINT"@, false),
        option_spec("forbid"@, Some('F'), Some("forbid"@), "LINT"@, false),
        option_spec("cap-lints"@, None, Some("cap-lints"@), "LEVEL"@, false),
        option_spec("codegen"@, Some('C'), Some("codegen"@), "OPT[=VALUE]"@, true),
        option_spec("extern"@, None, Some("extern"@), "NAME[=PATH]"@, true),
        option_spec("sysroot"@, None, Some("sysroot"@), "PATH"@, false),
        option_spec("FLAG"@, Some('Z'), None, "FLAG"@, true),
        option_spec("error-format"@, None, Some("error-format"@), "FORMAT"@, false),
        option_spec("json"@, None, Some("json"@), "CONFIG"@, true),
        option_spec("color"@, None, Some("color"@), "COLOR"@, false),
        option_spec("diagnostic-width"@, None, Some("diagnostic-width"@), "WIDTH"@, false),
        option_spec("remap-path-prefix"@, None, Some("remap-path-prefix"@), "FROM=TO"@, true),
        option_spec("env-set"@, None, Some("env-set"@), "VAR=VALUE"@, true),
        flag_spec("verbose"@, Some('v'), Some("verbose"@)),
    ]
}

/// `clap::Command::new`: a grammar for the program `name`, without
/// arguments.
#[verifier::external_body]
fn command_new(name: &'static str) -> (cmd: clap::Command)
    ensures
        command_name(cmd) == name@,
        command_args(cmd) == Seq::<ArgSpec>::empty(),
{
    clap::Command::new(name)
}

/// `clap::Command::arg`: the grammar with `arg` added after its arguments.
/// The settings of `arg` that are known here stay as they are.
#[verifier::external_body]
fn command_arg(cmd: clap::Command, arg: clap::Arg) -> (r: clap::Command)
    ensures
        command_name(r) == command_name(cmd),
        command_args(r) == command_args(cmd).push(arg_spec(arg)),
{
    cmd.arg(arg)
}

/// `clap::Arg::new`: an argument with the identifier `id` and every other
/// setting at its default.
#[verifier::external_body]
fn arg_new(id: &'static str) -> (arg: clap::Arg)
    ensures
        arg_spec(arg) == ArgSpec::new(id@),
{
    clap::Arg::new(id)
}

/// `clap::Arg::short`: the argument, given as `-c`. The letter may not be
/// `-`.
#[verifier::external_body]
fn arg_short(arg: clap::Arg, c: char) -> (r: clap::Arg)
    requires
        c != '-',
    ensures
        arg_spec(r) == (ArgSpec { short: Some(c), ..arg_spec(arg) }),
{
    arg.short(c)
}

/// `clap::Arg::long`: the argument, given as `--name`.
#[verifier::external_body]
fn arg_long(arg: clap::Arg, name: &'static str) -> (r: clap::Arg)
    ensures
        arg_spec(r) == (ArgSpec { long: Some(name@), ..arg_spec(arg) }),
{
    arg.long(name)
}

/// `clap::Arg::value_name`: the argument with `name` as the one name of its
/// value.
#[verifier::external_body]
fn arg_value_name(arg: clap::Arg, name: &'static str) -> (r: clap::Arg)
    ensures
        arg_spec(r) == (ArgSpec { value_names: seq![name@], ..arg_spec(arg) }),
{
    arg.value_name(name)
}

/// `clap::Arg::help`: the argument with a help text. The settings that
/// decide how a command line is read stay as they are.
#[verifier::external_body]
fn arg_help(arg: clap::Arg, help: &'static str) -> (r: clap::Arg)
    ensures
        arg_spec(r) == arg_spec(arg),
{
    arg.help(help)
}

/// `clap::Arg::required`: the argument, which must be given.
#[verifier::external_body]
fn arg_required(arg: clap::Arg) -> (r: clap::Arg)
    ensures
        arg_spec(r) == (ArgSpec { required: true, ..arg_spec(arg) }),
{
    arg.required(true)
}

/// `clap::Arg::action` with `ArgAction::Set`: the argument takes one value.
#[verifier::external_body]
fn arg_set(arg: clap::Arg) -> (r: clap::Arg)
    ensures
        arg_spec(r) == (ArgSpec { action: Some(ArgActionSpec::SetValue), ..arg_spec(arg) }),
{
    arg.action(clap::ArgAction::Set)
}

/// `clap::Arg::action` with `ArgAction::Append`: the argument takes one
/// value each time it is given.
#[verifier::external_body]
fn arg_append(arg: clap::Arg) -> (r: clap::Arg)
    ensures
        arg_spec(r) == (ArgSpec { action: Some(ArgActionSpec::AppendValue), ..arg_spec(arg) }),
{
    arg.action(clap::ArgAction::Append)
}

/// `clap::Arg::action` with `ArgAction::SetTrue`: the argument is a flag.
#[verifier::external_body]
fn arg_set_true(arg: clap::Arg) -> (r: clap::Arg)
    ensures
        arg_spec(r) == (ArgSpec { action: Some(ArgActionSpec::SetTrue), ..arg_spec(arg) }),
{
    arg.action(clap::ArgAction::SetTrue)
}

/// `clap::Arg::value_parser`: the argument's value is read as a
/// `camino::Utf8PathBuf`.
#[verifier::external_body]
fn arg_utf8_path(arg: clap::Arg) -> (r: clap::Arg)
    ensures
        arg_spec(r) == (ArgSpec { path_valued: true, ..arg_spec(arg) }),
{
    arg.value_parser(
        clap::builder::TypedValueParser::map(
            clap::builder::StringValueParser::new(),
            camino::Utf8PathBuf::from,
        ),
    )
}

/// `clap::Command::try_get_matches_from`: what the command line `args`
/// gives to each argument of the grammar `cmd`, or nothing where the
/// command line does not follow the grammar. It is asked of the compiler's
/// grammar alone, which `clap` accepts as sound. What the matches then hold
/// for `INPUT` is what `clap` finds for it on that command line; it depends
/// on the grammar and the command line alone.
#[verifier::external_body]
fn try_matches(cmd: clap::Command, args: &Vec<String>) -> (r: Option<clap::ArgMatches>)
    requires
        command_name(cmd) == "rustc"@,
        command_args(cmd) == rustc_grammar(),
    ensures
        r matches Some(matches) ==> matched(matches, "INPUT"@) == compiler_input(texts(args@)),
        r is None ==> compiler_input(texts(args@)) is None,
{
    cmd.try_get_matches_from(args).ok()
}

/// `clap::ArgMatches::try_get_one`: the path that the matches hold for the
/// argument `id`, or nothing where they hold none or the grammar has no
/// such argument.
#[verifier::external_body]
fn matched_path(matches: &clap::ArgMatches, id: &str) -> (r: Option<String>)
    ensures
        opt_text(r) == matched(*matches, id@),
{
    let path = matches.try_get_one::<camino::Utf8PathBuf>(id).ok()??;
    Some(path.as_str().to_owned())
}

/// An argument with the identifier `id`, given as `-short` or `--long`
/// where these are set.
fn named(id: &'static str, short: Option<char>, long: Option<&'static str>) -> (arg: clap::Arg)
    requires
        short != Some('-'),
    ensures
        arg_spec(arg) == named_spec(id@, short, opt_word(long)),
{
    let arg = arg_new(id);
    let arg = match short {
        Some(c) => arg_short(arg, c),
        None => arg,
    };
    match long {
        Some(name) => arg_long(arg, name),
        None => arg,
    }
}

/// The grammar `cmd` with an option that takes a value; with `many`, the
/// option may be given several times.
fn option(
    cmd: clap::Command,
    id: &'static str,
    short: Option<char>,
    long: Option<&'static str>,
    value_name: &'static str,
    help: &'static str,
    many: bool,
) -> (r: clap::Command)
    requires
        short != Some('-'),
    ensures
        command_name(r) == command_name(cmd),
        command_args(r) == command_args(cmd).push(
            option_spec(id@, short, opt_word(long), value_name@, many),
        ),
{
    let arg = arg_value_name(named(id, short, long), value_name);
    let arg = if many {
        arg_append(arg)
    } else {
        arg_set(arg)
    };
    command_arg(cmd, arg_help(arg, help))
}

/// The grammar `cmd` with a flag.
fn flag(
    cmd: clap::Command,
    id: &'static str,
    short: Option<char>,
    long: Option<&'static str>,
    help: &'static str,
) -> (r: clap::Command)
    requires
        short != Some('-'),
    ensures
        command_name(r) == command_name(cmd),
        command_args(r) == command_args(cmd).push(flag_spec(id@, short, opt_word(long))),
{
    command_arg(cmd, arg_help(arg_set_true(named(id, short, long)), help))
}

/// The grammar of the compiler's command line: the source file `INPUT`, and
/// the options and flags that may stand around it.
pub fn rustc() -> (cmd: clap::Command)
    ensures
        command_name(cmd) == "rustc"@,
        command_args(cmd) == rustc_grammar(),
{
    let cmd = command_new("rustc");
    let input = arg_set(arg_value_name(arg_required(arg_new("INPUT")), "INPUT"));
    let cmd = command_arg(cmd, arg_utf8_path(arg_help(input, "source")));
    let cmd = option(
        cmd,
        "cfg",
        None,
        Some("cfg"),
        "SPEC",
        "Configure the compilation environment.\nSPEC supports the syntax `NAME[=\"VALUE\"]`.)",
        true,
    );
    let cmd = option(
        cmd,
        "check-cfg",
        None,
        Some("check-cfg"),
        "SPEC",
        "Provide list of valid cfg options for checking",
        true,
    );
    let cmd = option(
        cmd,
        "[KIND=]PATH",
        Some('L'),
        None,
        "[KIND=]PATH",
        "Add a directory to the library search path. The\noptional KIND can be one of dependency, crate, native,\nframework, or all (the default).",
        true,
    );
    let cmd = option(
        cmd,
        "[KIND[:MODIFIERS]=]NAME[:RENAME]",
        Some('l'),
        None,
        "[KIND[:MODIFIERS]=]NAME[:RENAME]",
        "Link the generated crate(s) to the specified native\nlibrary NAME. The optional KIND can be one of\nstatic, framework, or dylib (the default).\nOptional comma separated MODIFIERS\n(bundle|verbatim|whole-archive|as-needed)\nmay be specified each with a prefix of either '+' to\nenable or '-' to disable.",
        true,
    );
    let cmd = option(
        cmd,
        "crate-type",
        None,
        Some("crate-type"),
        "TYPE",
        "Comma separated list of types\n(bin|lib|rlib|dylib|cdylib|staticlib|proc-macro)\nof crates for the compiler to emit",
        false,
    );
    let cmd = option(
        cmd,
        "crate-name",
        None,
        Some("crate-name"),
        "NAME",
        "Specify the name of the crate being built",
        false,
    );
    let cmd = option(
        cmd,
        "edition",
        None,
        Some("edition"),
        "EDITION",
        "Specify which edition of the compiler (2015|2018|2021|2024)\nto use when compiling code.",
        false,
    );
    let cmd = option(
        cmd,
        "emit",
        None,
        Some("emit"),
        "TYPE[,TYPE]",
        "Comma separated list of types\n(asm|llvm-bc|llvm-ir|obj|metadata|link|dep-info|mir)\nof output for the compiler to emit",
        false,
    );
    let cmd = option(
        cmd,
        "print",
        None,
        Some("print"),
        "INFO",
        "Compiler information to print on stdout\n[crate-name|file-names|sysroot|target-libdir|cfg|calling-conventions|target-list|target-cpus|target-features|relocation-models|code-models|tls-models|target-spec-json|native-static-libs|stack-protector-strategies|link-args]",
        false,
    );
    let cmd = flag(cmd, "debug", Some('g'), None, "Equivalent to -C debuginfo=2");
    let cmd = flag(cmd, "opt", Some('O'), None, "Equivalent to -C opt-level=2");
    let cmd = option(cmd, "FILENAME", Some('o'), None, "FILENAME", "Write output to FILENAME", false);
    let cmd = option(
        cmd,
        "out-dir",
        None,
        Some("out-dir"),
        "DIR",
        "Write output to compiler-chosen filename in DIR",
        false,
    );
    let cmd = option(
        cmd,
        "explain",
        None,
        Some("explain"),
        "OPT",
        "Provide a detailed explanation of an error message",
        false,
    );
    let cmd = flag(cmd, "test", None, Some("test"), "Build a test harness");
    let cmd = option(
        cmd,
        "target",
        None,
        Some("target"),
        "TARGET",
        "Target triple for which the code is compiled",
        false,
    );
    let cmd = option(cmd, "allow", Some('A'), Some("allow"), "LINT", "Set lint allowed", false);
    let cmd = option(cmd, "warn", Some('W'), Some("warn"), "LINT", "Set lint warnings", false);
    let cmd = option(
        cmd,
        "force-warn",
        None,
        Some("force-warn"),
        "LINT",
        "Set lint force-warn",
        false,
    );
    let cmd = option(
        cmd,
        "deny",
        Some('D'),
        Some("deny"),
        "LINT",
        "Set lint denied --target <TARGET>",
        false,
    );
    let cmd = option(cmd, "forbid", Some('F'), Some("forbid"), "LINT", "Set lint forbidden", false);
    let cmd = option(
        cmd,
        "cap-lints",
        None,
        Some("cap-lints"),
        "LEVEL",
        "Set the most restrictive lint level. More restrictive\n                        lints are capped at this level ",
        false,
    );
    let cmd = option(
        cmd,
        "codegen",
        Some('C'),
        Some("codegen"),
        "OPT[=VALUE]",
        "Set a codegen option",
        true,
    );
    let cmd = option(
        cmd,
        "extern",
        None,
        Some("extern"),
        "NAME[=PATH]",
        "Specify where an external rust library is located",
        true,
    );
    let cmd = option(cmd, "sysroot", None, Some("sysroot"), "PATH", "Override the system root", false);
    let cmd = option(
        cmd,
        "FLAG",
        Some('Z'),
        None,
        "FLAG",
        "Set unstable / perma-unstable options",
        true,
    );
    let cmd = option(
        cmd,
        "error-format",
        None,
        Some("error-format"),
        "FORMAT",
        "How (human|json|short) errors and other messages are produced",
        false,
    );
    let cmd = option(
        cmd,
        "json",
        None,
        Some("json"),
        "CONFIG",
        "Configure the JSON output of the compiler",
        true,
    );
    let cmd = option(
        cmd,
        "color",
        None,
        Some("color"),
        "COLOR",
        "Configure coloring of output:\nauto   = colorize, if output goes to a tty (default);\nalways = always colorize output;\nnever  = never colorize output",
        false,
    );
    let cmd = option(
        cmd,
        "diagnostic-width",
        None,
        Some("diagnostic-width"),
        "WIDTH",
        "Inform rustc of the width of the output so that diagnostics can be truncated to fit",
        false,
    );
    let cmd = option(
        cmd,
        "remap-path-prefix",
        None,
        Some("remap-path-prefix"),
        "FROM=TO",
        "Remap source names in all output (compiler messages and output files)",
        true,
    );
    let cmd = option(
        cmd,
        "env-set",
        None,
        Some("env-set"),
        "VAR=VALUE",
        "Inject an environment variable",
        true,
    );
    let cmd = flag(cmd, "verbose", Some('v'), Some("verbose"), "Use verbose output");
    assert(command_args(cmd) =~= rustc_grammar());
    cmd
}

/// The command line of the compiler with the arguments `args`: the
/// program's name, then the arguments.
pub fn compiler_line(args: &Vec<String>) -> (line: Vec<String>)
    ensures
        texts(line@) == seq!["rustc"@] + texts(args@),
{
    let mut line: Vec<String> = Vec::new();
    crate::text::push_text(&mut line, crate::text::copy_of("rustc"));
    crate::text::push_texts(&mut line, args);
    assert(texts(line@) =~= seq!["rustc"@] + texts(args@));
    line
}

/// The source file among the compiler arguments `args`, which do not hold
/// the program's name: what `clap` finds for `INPUT` when it reads the
/// compiler's command line with these arguments by the compiler's grammar.
/// There is none where the arguments do not follow the grammar.
pub fn rustc_input(args: &Vec<String>) -> (r: Option<String>)
    ensures
        opt_text(r) == source_file(texts(args@)),
{
    let line = compiler_line(args);
    match try_matches(rustc(), &line) {
        Some(matches) => matched_path(&matches, "INPUT"),
        None => None,
    }
}

} // verus!
