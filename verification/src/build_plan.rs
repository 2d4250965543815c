//! The build plan: every tool invocation that a build needs, with the edges
//! between them.

use crate::crate_type::{CrateType, CrateTypeView};
pub use crate::graph::BuildPlan;
use crate::custom_build::{parsed, BuildScriptOutput, BuildScriptOutputView, ParseSettings};
use crate::error::{Error, ErrorKind, ErrorView};
use crate::path::{
    diff, has_dwp_extension, is_dwp, join, opt_text, parent, path_diff, path_join, path_parent,
};
use crate::rustc_config::{rustc_input, source_file};
use crate::text::{
    chars_of, copy_of, copy_option, copy_pairs, copy_strings, find_char, find_value,
    find_with_prefix, first_index, first_with_prefix, lookup, push_pair, push_text, replace,
    replaced, same_text,
    slice_of, split_at_first, split_once, string_of, text_pairs, texts, underscored,
    with_underscores,
};
use vstd::prelude::*;
use vstd::string::*;

verus! {

/// The crate types of `v` as mathematical values, in order.
pub open spec fn crate_types(v: Seq<CrateType>) -> Seq<CrateTypeView> {
    Seq::new(v.len(), |i: int| v[i]@)
}

/// A copy of the crate types of `v`.
pub fn copy_crate_types(v: &Vec<CrateType>) -> (r: Vec<CrateType>)
    ensures
        crate_types(r@) == crate_types(v@),
{
    let mut out: Vec<CrateType> = Vec::new();
    let mut i: usize = 0;
    while i < v.len()
        invariant
            i <= v.len(),
            out.len() == i,
            forall|j: int| 0 <= j < i ==> out[j]@ == v[j]@,
        decreases v.len() - i,
    {
        out.push(v[i].duplicate());
        i = i + 1;
    }
    assert(crate_types(out@) =~= crate_types(v@));
    out
}

/// The kind of artifact that an invocation produces.
#[derive(Clone, Debug, Hash, PartialEq, Eq, PartialOrd, Ord)]
pub enum TargetKind {
    Lib(Vec<CrateType>),
    Bin,
    Test,
    Bench,
    ExampleLib(Vec<CrateType>),
    ExampleBin,
    CustomBuild,
}

/// A target kind as a mathematical value.
pub enum TargetKindView {
    Lib(Seq<CrateTypeView>),
    Bin,
    Test,
    Bench,
    ExampleLib(Seq<CrateTypeView>),
    ExampleBin,
    CustomBuild,
}

impl View for TargetKind {
    type V = TargetKindView;

    open spec fn view(&self) -> TargetKindView {
        match self {
            TargetKind::Lib(kinds) => TargetKindView::Lib(crate_types(kinds@)),
            TargetKind::Bin => TargetKindView::Bin,
            TargetKind::Test => TargetKindView::Test,
            TargetKind::Bench => TargetKindView::Bench,
            TargetKind::ExampleLib(kinds) => TargetKindView::ExampleLib(crate_types(kinds@)),
            TargetKind::ExampleBin => TargetKindView::ExampleBin,
            TargetKind::CustomBuild => TargetKindView::CustomBuild,
        }
    }
}

/// The crate types named by `names`, in order.
pub open spec fn named_crate_types(names: Seq<Seq<char>>) -> Seq<CrateTypeView> {
    Seq::new(names.len(), |i: int| CrateTypeView::named(names[i]))
}

/// The message of the error for a plan that gives a target no kind.
pub open spec fn no_target_kind_message() -> Seq<char> {
    "invalid length 0, expected at least one target kind"@
}

/// The message of the error for a plan that names the compile mode `name`,
/// which does not exist.
pub open spec fn unknown_mode_message(name: Seq<char>) -> Seq<char> {
    "unknown compile mode "@ + name
}

impl TargetKindView {
    /// The target kind that a plan writes as the list `names`: one of the
    /// five single words, or else a library of the named crate types. An
    /// empty list names no target kind.
    pub open spec fn from_kinds(names: Seq<Seq<char>>) -> Result<TargetKindView, ErrorView> {
        if names.len() == 0 {
            Err(ErrorView { kind: ErrorKind::PlanShape, message: no_target_kind_message() })
        } else if names == seq!["bin"@] {
            Ok(TargetKindView::Bin)
        } else if names == seq!["example"@] {
            Ok(TargetKindView::ExampleBin)
        } else if names == seq!["test"@] {
            Ok(TargetKindView::Test)
        } else if names == seq!["custom-build"@] {
            Ok(TargetKindView::CustomBuild)
        } else if names == seq!["bench"@] {
            Ok(TargetKindView::Bench)
        } else {
            Ok(TargetKindView::Lib(named_crate_types(names)))
        }
    }

    /// A word for the target kind, as it stands in rule names and
    /// descriptions.
    pub open spec fn description(self) -> Seq<char> {
        match self {
            TargetKindView::Lib(_) => "lib"@,
            TargetKindView::Bin => "bin"@,
            TargetKindView::Test => "integration-test"@,
            TargetKindView::ExampleBin => "example"@,
            TargetKindView::ExampleLib(_) => "example"@,
            TargetKindView::Bench => "bench"@,
            TargetKindView::CustomBuild => "build-script"@,
        }
    }

    /// The crate types of a library or of an example library; no crate type
    /// for any other target kind.
    pub open spec fn library_types(self) -> Seq<CrateTypeView> {
        match self {
            TargetKindView::Lib(kinds) => kinds,
            TargetKindView::ExampleLib(kinds) => kinds,
            _ => Seq::empty(),
        }
    }

    /// Whether the target is a library or an example library.
    pub open spec fn has_library_types(self) -> bool {
        self is Lib || self is ExampleLib
    }

    /// Whether producing the artifact needs the object files of its
    /// dependencies: a library needs them if one of its crate types does,
    /// every other target does.
    pub open spec fn needs_upstream_objects(self) -> bool {
        self.has_library_types() ==> exists|i: int|
            0 <= i < self.library_types().len()
                && #[trigger] self.library_types()[i].needs_upstream_objects()
    }

    /// The crate types to pass to the compiler: those of a library, `bin`
    /// for every other target.
    pub open spec fn rustc_crate_types(self) -> Seq<CrateTypeView> {
        if self.has_library_types() {
            self.library_types()
        } else {
            seq![CrateTypeView::Bin]
        }
    }
}

impl TargetKind {
    /// The target kind that a plan writes as the list `names`.
    pub fn from_kinds(names: &Vec<String>) -> (r: Result<TargetKind, Error>)
        ensures
            r matches Ok(k) ==> TargetKindView::from_kinds(texts(names@)) == Ok::<
                TargetKindView,
                ErrorView,
            >(k@),
            r matches Err(e) ==> TargetKindView::from_kinds(texts(names@)) == Err::<
                TargetKindView,
                ErrorView,
            >(e@),
    {
        if names.len() == 0 {
            return Err(
                Error::new(
                    ErrorKind::PlanShape,
                    copy_of("invalid length 0, expected at least one target kind"),
                ),
            );
        }
        if names.len() == 1 {
            let word = names[0].as_str();
            assert(texts(names@) == seq![word@]);
            assert(seq![word@][0] == word@);
            if same_text(word, "bin") {
                return Ok(TargetKind::Bin);
            } else if same_text(word, "example") {
                assert(seq!["bin"@][0] == "bin"@);
                return Ok(TargetKind::ExampleBin);
            } else if same_text(word, "test") {
                assert(seq!["bin"@][0] == "bin"@);
                assert(seq!["example"@][0] == "example"@);
                return Ok(TargetKind::Test);
            } else if same_text(word, "custom-build") {
                assert(seq!["bin"@][0] == "bin"@);
                assert(seq!["example"@][0] == "example"@);
                assert(seq!["test"@][0] == "test"@);
                return Ok(TargetKind::CustomBuild);
            } else if same_text(word, "bench") {
                assert(seq!["bin"@][0] == "bin"@);
                assert(seq!["example"@][0] == "example"@);
                assert(seq!["test"@][0] == "test"@);
                assert(seq!["custom-build"@][0] == "custom-build"@);
                return Ok(TargetKind::Bench);
            }
            assert(seq!["bin"@][0] == "bin"@);
            assert(seq!["example"@][0] == "example"@);
            assert(seq!["test"@][0] == "test"@);
            assert(seq!["custom-build"@][0] == "custom-build"@);
            assert(seq!["bench"@][0] == "bench"@);
        } else {
            assert(seq!["bin"@].len() == 1);
            assert(seq!["example"@].len() == 1);
            assert(seq!["test"@].len() == 1);
            assert(seq!["custom-build"@].len() == 1);
            assert(seq!["bench"@].len() == 1);
        }
        let mut kinds: Vec<CrateType> = Vec::new();
        let mut i: usize = 0;
        while i < names.len()
            invariant
                i <= names.len(),
                kinds.len() == i,
                forall|j: int| 0 <= j < i ==> kinds[j]@ == CrateTypeView::named(names[j]@),
            decreases names.len() - i,
        {
            kinds.push(CrateType::new(names[i].as_str()));
            i = i + 1;
        }
        assert(crate_types(kinds@) =~= named_crate_types(texts(names@)));
        Ok(TargetKind::Lib(kinds))
    }

    /// A word for the target kind, as it stands in rule names and
    /// descriptions.
    pub fn description(&self) -> (s: &'static str)
        ensures
            s@ == self@.description(),
    {
        match self {
            TargetKind::Lib(..) => "lib",
            TargetKind::Bin => "bin",
            TargetKind::Test => "integration-test",
            TargetKind::ExampleBin | TargetKind::ExampleLib(..) => "example",
            TargetKind::Bench => "bench",
            TargetKind::CustomBuild => "build-script",
        }
    }

    /// Whether producing the artifact needs the object files of its
    /// dependencies.
    pub fn requires_upstream_objects(&self) -> (b: bool)
        ensures
            b == self@.needs_upstream_objects(),
    {
        match self {
            TargetKind::Lib(kinds) | TargetKind::ExampleLib(kinds) => {
                let mut i: usize = 0;
                while i < kinds.len()
                    invariant
                        i <= kinds.len(),
                        self@.has_library_types(),
                        self@.library_types() == crate_types(kinds@),
                        forall|j: int|
                            0 <= j < i ==> !(#[trigger] self@.library_types()[j]).needs_upstream_objects(),
                    decreases kinds.len() - i,
                {
                    if kinds[i].requires_upstream_objects() {
                        assert(self@.library_types()[i as int].needs_upstream_objects());
                        return true;
                    }
                    i = i + 1;
                }
                false
            },
            _ => true,
        }
    }

    /// The crate types to pass to the compiler.
    pub fn rustc_crate_types(&self) -> (r: Vec<CrateType>)
        ensures
            crate_types(r@) == self@.rustc_crate_types(),
    {
        match self {
            TargetKind::Lib(kinds) | TargetKind::ExampleLib(kinds) => copy_crate_types(kinds),
            TargetKind::CustomBuild
            | TargetKind::Bench
            | TargetKind::Test
            | TargetKind::ExampleBin
            | TargetKind::Bin => {
                let mut r: Vec<CrateType> = Vec::new();
                r.push(CrateType::Bin);
                r
            },
        }
    }

    /// A copy of this target kind.
    pub fn duplicate(&self) -> (k: TargetKind)
        ensures
            k@ == self@,
    {
        match self {
            TargetKind::Lib(kinds) => TargetKind::Lib(copy_crate_types(kinds)),
            TargetKind::Bin => TargetKind::Bin,
            TargetKind::Test => TargetKind::Test,
            TargetKind::Bench => TargetKind::Bench,
            TargetKind::ExampleLib(kinds) => TargetKind::ExampleLib(copy_crate_types(kinds)),
            TargetKind::ExampleBin => TargetKind::ExampleBin,
            TargetKind::CustomBuild => TargetKind::CustomBuild,
        }
    }
}

/// What an invocation does within the build.
#[derive(Clone, Copy, PartialEq, Debug, Eq, Hash, PartialOrd, Ord, Structural)]
pub enum CompileMode {
    /// A target being built for a test.
    Test,
    /// Building a target with the compiler.
    Build,
    /// Building a target to emit metadata only; with `test`, it is checked
    /// like a test.
    Check { test: bool },
    /// Building a target for benchmarks.
    Bench,
    /// Documenting a target; with `deps`, its dependencies too, and with
    /// `json`, in JSON.
    Doc { deps: bool, json: bool },
    /// Testing the examples in a target's documentation.
    Doctest,
    /// Scraping a target for function calls.
    Docscrape,
    /// Running a build script.
    RunCustomBuild,
}

impl CompileMode {
    /// The word that a plan writes for the compile mode.
    pub open spec fn name(self) -> Seq<char> {
        match self {
            CompileMode::Test => "test"@,
            CompileMode::Build => "build"@,
            CompileMode::Check { .. } => "check"@,
            CompileMode::Bench => "bench"@,
            CompileMode::Doc { .. } => "doc"@,
            CompileMode::Doctest => "doctest"@,
            CompileMode::Docscrape => "docscrape"@,
            CompileMode::RunCustomBuild => "run-custom-build"@,
        }
    }

    /// The compile mode that a plan writes as `name`, with every flag off.
    pub open spec fn named(name: Seq<char>) -> Result<CompileMode, ErrorView> {
        if name == "test"@ {
            Ok(CompileMode::Test)
        } else if name == "build"@ {
            Ok(CompileMode::Build)
        } else if name == "check"@ {
            Ok(CompileMode::Check { test: false })
        } else if name == "bench"@ {
            Ok(CompileMode::Bench)
        } else if name == "doc"@ {
            Ok(CompileMode::Doc { deps: false, json: false })
        } else if name == "doctest"@ {
            Ok(CompileMode::Doctest)
        } else if name == "docscrape"@ {
            Ok(CompileMode::Docscrape)
        } else if name == "run-custom-build"@ {
            Ok(CompileMode::RunCustomBuild)
        } else {
            Err(ErrorView { kind: ErrorKind::PlanShape, message: unknown_mode_message(name) })
        }
    }

    /// The compile mode that a plan writes as `name`.
    pub fn from_name(name: &str) -> (r: Result<CompileMode, Error>)
        ensures
            r matches Ok(m) ==> CompileMode::named(name@) == Ok::<CompileMode, ErrorView>(m),
            r matches Err(e) ==> CompileMode::named(name@) == Err::<CompileMode, ErrorView>(e@),
    {
        if same_text(name, "test") {
            Ok(CompileMode::Test)
        } else if same_text(name, "build") {
            Ok(CompileMode::Build)
        } else if same_text(name, "check") {
            Ok(CompileMode::Check { test: false })
        } else if same_text(name, "bench") {
            Ok(CompileMode::Bench)
        } else if same_text(name, "doc") {
            Ok(CompileMode::Doc { deps: false, json: false })
        } else if same_text(name, "doctest") {
            Ok(CompileMode::Doctest)
        } else if same_text(name, "docscrape") {
            Ok(CompileMode::Docscrape)
        } else if same_text(name, "run-custom-build") {
            Ok(CompileMode::RunCustomBuild)
        } else {
            let mut message = copy_of("unknown compile mode ");
            message.append(name);
            Err(Error::new(ErrorKind::PlanShape, message))
        }
    }

    /// The word that a plan writes for the compile mode.
    pub fn as_str(&self) -> (s: &'static str)
        ensures
            s@ == self.name(),
    {
        match self {
            CompileMode::Test => "test",
            CompileMode::Build => "build",
            CompileMode::Check { .. } => "check",
            CompileMode::Bench => "bench",
            CompileMode::Doc { .. } => "doc",
            CompileMode::Doctest => "doctest",
            CompileMode::Docscrape => "docscrape",
            CompileMode::RunCustomBuild => "run-custom-build",
        }
    }
}

/// Whether one of `kinds` is `wanted`.
pub fn has_crate_type(kinds: &Vec<CrateType>, wanted: &CrateType) -> (b: bool)
    ensures
        b == crate_types(kinds@).contains(wanted@),
{
    let mut i: usize = 0;
    while i < kinds.len()
        invariant
            i <= kinds.len(),
            forall|j: int| 0 <= j < i ==> crate_types(kinds@)[j] != wanted@,
        decreases kinds.len() - i,
    {
        if kinds[i].same(wanted) {
            assert(crate_types(kinds@)[i as int] == wanted@);
            return true;
        }
        i = i + 1;
    }
    false
}

/// One tool execution of a build plan.
#[derive(Clone, Debug, Hash, PartialEq, Eq, PartialOrd, Ord)]
pub struct Invocation {
    /// The name of the package that the invocation belongs to.
    pub package_name: String,
    /// The version of that package.
    pub package_version: String,
    pub target_kind: TargetKind,
    pub compile_mode: CompileMode,
    /// The invocations that this one depends on, as positions in the plan.
    pub deps: Vec<usize>,
    /// The artifacts that the invocation produces.
    pub outputs: Vec<String>,
    /// The hard links to place once the invocation has run: each pair holds
    /// the link's path and the path that it points to. A plan names each
    /// link once; `is_keyed` tells whether these do.
    pub links: Vec<(String, String)>,
    pub program: String,
    pub args: Vec<String>,
    /// The environment of the invocation: pairs of name and value. A plan
    /// names each variable once; `is_keyed` tells whether these do.
    pub env: Vec<(String, String)>,
    pub cwd: Option<String>,
}

/// An invocation as a mathematical value.
pub struct InvocationView {
    pub package_name: Seq<char>,
    pub package_version: Seq<char>,
    pub target_kind: TargetKindView,
    pub compile_mode: CompileMode,
    pub deps: Seq<usize>,
    pub outputs: Seq<Seq<char>>,
    pub links: Seq<(Seq<char>, Seq<char>)>,
    pub program: Seq<char>,
    pub args: Seq<Seq<char>>,
    pub env: Seq<(Seq<char>, Seq<char>)>,
    pub cwd: Option<Seq<char>>,
}

impl View for Invocation {
    type V = InvocationView;

    open spec fn view(&self) -> InvocationView {
        InvocationView {
            package_name: self.package_name@,
            package_version: self.package_version@,
            target_kind: self.target_kind@,
            compile_mode: self.compile_mode,
            deps: self.deps@,
            outputs: texts(self.outputs@),
            links: text_pairs(self.links@),
            program: self.program@,
            args: texts(self.args@),
            env: text_pairs(self.env@),
            cwd: opt_text(self.cwd),
        }
    }
}

impl InvocationView {
    /// Whether the invocation runs a build script.
    pub open spec fn is_run_custom_build(self) -> bool {
        self.compile_mode == CompileMode::RunCustomBuild
    }

    /// Whether the invocation builds a build script.
    pub open spec fn is_custom_build(self) -> bool {
        self.target_kind is CustomBuild
    }

    /// Whether the invocation builds a library.
    pub open spec fn is_lib(self) -> bool {
        self.target_kind is Lib
    }

    /// Whether the invocation builds a library with `kind` among its crate
    /// types.
    pub open spec fn is_lib_of(self, kind: CrateTypeView) -> bool {
        self.target_kind matches TargetKindView::Lib(kinds) && kinds.contains(kind)
    }

    /// Whether the invocation builds a library that a Rust crate can link
    /// against.
    pub open spec fn is_linkable(self) -> bool {
        self.target_kind matches TargetKindView::Lib(kinds) && exists|i: int|
            0 <= i < kinds.len() && (#[trigger] kinds[i]).linkable()
    }

    /// Whether the examples in the documentation of the target can be run as
    /// tests.
    pub open spec fn doctestable(self) -> bool {
        self.is_lib_of(CrateTypeView::Rlib) || self.is_lib_of(CrateTypeView::Lib)
            || self.is_lib_of(CrateTypeView::ProcMacro)
    }

    /// Whether the invocation builds a binary.
    pub open spec fn is_bin(self) -> bool {
        self.target_kind is Bin
    }

    /// Whether the invocation builds an example that can be run.
    pub open spec fn is_exe_example(self) -> bool {
        self.target_kind is ExampleBin
    }

    /// Whether the invocation builds an example.
    pub open spec fn is_example(self) -> bool {
        self.target_kind is ExampleBin || self.target_kind is ExampleLib
    }

    /// Whether the invocation belongs to a package of the workspace and
    /// neither builds nor runs a build script.
    pub open spec fn is_workspace_build(self, members: Seq<(Seq<char>, Seq<char>)>) -> bool {
        members.contains((self.package_name, self.package_version)) && !self.is_run_custom_build()
            && !self.is_custom_build()
    }
}

impl Invocation {
    /// Whether the invocation runs a build script.
    pub fn is_run_custom_build(&self) -> (b: bool)
        ensures
            b == self@.is_run_custom_build(),
    {
        self.compile_mode == CompileMode::RunCustomBuild
    }

    /// Whether the invocation belongs to one of the workspace's packages,
    /// given as pairs of name and version, and neither builds nor runs a
    /// build script.
    pub fn is_workspace_build(&self, members: &Vec<(String, String)>) -> (b: bool)
        ensures
            b == self@.is_workspace_build(text_pairs(members@)),
    {
        if self.is_run_custom_build() || self.is_custom_build() {
            return false;
        }
        let mut i: usize = 0;
        while i < members.len()
            invariant
                i <= members.len(),
                !self@.is_run_custom_build(),
                !self@.is_custom_build(),
                forall|j: int|
                    0 <= j < i ==> text_pairs(members@)[j] != (
                        self@.package_name,
                        self@.package_version,
                    ),
            decreases members.len() - i,
        {
            if same_text(members[i].0.as_str(), self.package_name.as_str()) && same_text(
                members[i].1.as_str(),
                self.package_version.as_str(),
            ) {
                assert(text_pairs(members@)[i as int] == (
                    self@.package_name,
                    self@.package_version,
                ));
                return true;
            }
            i = i + 1;
        }
        false
    }

    /// Whether the examples in the documentation of the target can be run as
    /// tests.
    pub fn doctestable(&self) -> (b: bool)
        ensures
            b == self@.doctestable(),
    {
        match &self.target_kind {
            TargetKind::Lib(kinds) => has_crate_type(kinds, &CrateType::Rlib) || has_crate_type(
                kinds,
                &CrateType::Lib,
            ) || has_crate_type(kinds, &CrateType::ProcMacro),
            _ => false,
        }
    }

    /// Whether the invocation builds a library.
    pub fn is_lib(&self) -> (b: bool)
        ensures
            b == self@.is_lib(),
    {
        matches!(self.target_kind, TargetKind::Lib(_))
    }

    /// Whether the invocation builds a dynamic Rust library.
    pub fn is_dylib(&self) -> (b: bool)
        ensures
            b == self@.is_lib_of(CrateTypeView::Dylib),
    {
        match &self.target_kind {
            TargetKind::Lib(kinds) => has_crate_type(kinds, &CrateType::Dylib),
            _ => false,
        }
    }

    /// Whether the invocation builds a dynamic system library.
    pub fn is_cdylib(&self) -> (b: bool)
        ensures
            b == self@.is_lib_of(CrateTypeView::Cdylib),
    {
        match &self.target_kind {
            TargetKind::Lib(kinds) => has_crate_type(kinds, &CrateType::Cdylib),
            _ => false,
        }
    }

    /// Whether the invocation builds a static system library.
    pub fn is_staticlib(&self) -> (b: bool)
        ensures
            b == self@.is_lib_of(CrateTypeView::Staticlib),
    {
        match &self.target_kind {
            TargetKind::Lib(kinds) => has_crate_type(kinds, &CrateType::Staticlib),
            _ => false,
        }
    }

    /// Whether the invocation builds a library that a Rust crate can link
    /// against.
    pub fn is_linkable(&self) -> (b: bool)
        ensures
            b == self@.is_linkable(),
    {
        match &self.target_kind {
            TargetKind::Lib(kinds) => {
                let mut i: usize = 0;
                while i < kinds.len()
                    invariant
                        i <= kinds.len(),
                        self@.target_kind == TargetKindView::Lib(crate_types(kinds@)),
                        forall|j: int| 0 <= j < i ==> !(#[trigger] crate_types(kinds@)[j]).linkable(),
                    decreases kinds.len() - i,
                {
                    if kinds[i].is_linkable() {
                        assert(self@.target_kind->Lib_0[i as int].linkable());
                        return true;
                    }
                    i = i + 1;
                }
                false
            },
            _ => false,
        }
    }

    /// Whether the invocation builds a binary.
    pub fn is_bin(&self) -> (b: bool)
        ensures
            b == self@.is_bin(),
    {
        matches!(self.target_kind, TargetKind::Bin)
    }

    /// Whether the invocation builds an example.
    pub fn is_example(&self) -> (b: bool)
        ensures
            b == self@.is_example(),
    {
        matches!(self.target_kind, TargetKind::ExampleBin | TargetKind::ExampleLib(..))
    }

    /// Whether the invocation builds a binary or an example that can be run.
    /// A test is neither.
    pub fn is_executable(&self) -> (b: bool)
        ensures
            b == (self@.is_bin() || self@.is_exe_example()),
    {
        self.is_bin() || self.is_exe_example()
    }

    /// Whether the invocation builds an example that can be run.
    pub fn is_exe_example(&self) -> (b: bool)
        ensures
            b == self@.is_exe_example(),
    {
        matches!(self.target_kind, TargetKind::ExampleBin)
    }

    /// Whether the invocation builds an integration test.
    pub fn is_test(&self) -> (b: bool)
        ensures
            b == (self@.target_kind is Test),
    {
        matches!(self.target_kind, TargetKind::Test)
    }

    /// Whether the invocation builds a benchmark.
    pub fn is_bench(&self) -> (b: bool)
        ensures
            b == (self@.target_kind is Bench),
    {
        matches!(self.target_kind, TargetKind::Bench)
    }

    /// Whether the invocation builds a build script.
    pub fn is_custom_build(&self) -> (b: bool)
        ensures
            b == self@.is_custom_build(),
    {
        matches!(self.target_kind, TargetKind::CustomBuild)
    }

    /// The crate types to pass to the compiler.
    pub fn rustc_crate_types(&self) -> (r: Vec<CrateType>)
        ensures
            crate_types(r@) == self@.target_kind.rustc_crate_types(),
    {
        self.target_kind.rustc_crate_types()
    }

    /// The name of the package that the invocation belongs to.
    pub fn package_name(&self) -> (s: &str)
        ensures
            s@ == self@.package_name,
    {
        self.package_name.as_str()
    }

    /// A copy of this invocation.
    pub fn duplicate(&self) -> (r: Invocation)
        ensures
            r@ == self@,
    {
        Invocation {
            package_name: self.package_name.clone(),
            package_version: self.package_version.clone(),
            target_kind: self.target_kind.duplicate(),
            compile_mode: self.compile_mode,
            deps: self.deps.clone(),
            outputs: copy_strings(&self.outputs),
            links: copy_pairs(&self.links),
            program: self.program.clone(),
            args: copy_strings(&self.args),
            env: copy_pairs(&self.env),
            cwd: copy_option(&self.cwd),
        }
    }
}

/// What the lowering knows about the build besides the plan.
#[derive(Clone, Debug)]
pub struct Context {
    /// The directory that the build writes to.
    pub build_dir: String,
    /// The packages of the workspace, as pairs of name and version.
    pub workspace: Vec<(String, String)>,
    /// Whether the build runs on Windows.
    pub windows: bool,
}

/// The context as a mathematical value.
pub struct ContextView {
    pub build_dir: Seq<char>,
    pub workspace: Seq<(Seq<char>, Seq<char>)>,
    pub windows: bool,
}

impl View for Context {
    type V = ContextView;

    open spec fn view(&self) -> ContextView {
        ContextView {
            build_dir: self.build_dir@,
            workspace: text_pairs(self.workspace@),
            windows: self.windows,
        }
    }
}

/// The test that keeps every path but split debug-info packages.
pub open spec fn keeps_output() -> spec_fn(Seq<char>) -> bool {
    |path: Seq<char>| !is_dwp(path)
}

/// The test that keeps every link but those to split debug-info packages.
pub open spec fn keeps_link() -> spec_fn((Seq<char>, Seq<char>)) -> bool {
    |link: (Seq<char>, Seq<char>)| !is_dwp(link.1)
}

/// An error of the kind `MissingEnv` with the given message.
pub open spec fn missing(message: Seq<char>) -> ErrorView {
    ErrorView { kind: ErrorKind::MissingEnv, message }
}

/// The message for an invocation of the package `package_name` that has no
/// `OUT_DIR`.
pub open spec fn no_out_dir_message(package_name: Seq<char>) -> Seq<char> {
    "OUT_DIR is not set for "@ + package_name
}

impl InvocationView {
    /// The hard links of the invocation, without those to split debug-info
    /// packages.
    pub open spec fn kept_links(self) -> Seq<(Seq<char>, Seq<char>)> {
        self.links.filter(keeps_link())
    }

    /// The value of `OUT_DIR` in the environment of the invocation.
    pub open spec fn out_dir(self) -> Result<Seq<char>, ErrorView> {
        match lookup(self.env, "OUT_DIR"@) {
            Some(dir) => Ok(dir),
            None => Err(missing(no_out_dir_message(self.package_name))),
        }
    }

    /// The file that takes the output of the build script: `output` beside
    /// the script's `OUT_DIR`.
    pub open spec fn script_output_file(self) -> Result<Seq<char>, ErrorView> {
        match self.out_dir() {
            Ok(dir) => match path_parent(dir) {
                Some(parent) => Ok(path_join(parent, "output"@)),
                None => Err(missing("failed get out_dir's parent"@)),
            },
            Err(e) => Err(e),
        }
    }

    /// What the invocation produces: for the run of a build script the file
    /// that takes its output, else the outputs of the plan without split
    /// debug-info packages.
    pub open spec fn canonical_outputs(self) -> Result<Seq<Seq<char>>, ErrorView> {
        if self.is_run_custom_build() {
            match self.script_output_file() {
                Ok(file) => Ok(seq![file]),
                Err(e) => Err(e),
            }
        } else {
            Ok(self.outputs.filter(keeps_output()))
        }
    }

    /// The source file `input` as seen from the build directory, where the
    /// invocation belongs to the workspace and has a working directory.
    pub open spec fn relative_input(self, cx: ContextView, input: Option<Seq<char>>) -> Option<
        Seq<char>,
    > {
        if self.is_workspace_build(cx.workspace) && self.cwd is Some && input is Some {
            path_diff(path_join(self.cwd->0, input->0), cx.build_dir)
        } else {
            None
        }
    }

    /// The arguments of the invocation as the build graph runs it: where
    /// the source file `input` can be seen from the build directory, each
    /// argument that is the source file names it from there.
    pub open spec fn effective_args(self, cx: ContextView, input: Option<Seq<char>>) -> Seq<
        Seq<char>,
    > {
        match self.relative_input(cx, input) {
            Some(relative) => Seq::new(
                self.args.len(),
                |i: int|
                    if self.args[i] == input->0 {
                        relative
                    } else {
                        self.args[i]
                    },
            ),
            None => self.args,
        }
    }

    /// The directory that the build graph runs the invocation in: the build
    /// directory for an invocation of the workspace.
    pub open spec fn effective_cwd(self, cx: ContextView) -> Option<Seq<char>> {
        if self.is_workspace_build(cx.workspace) {
            Some(cx.build_dir)
        } else {
            self.cwd
        }
    }

    /// The value of the compiler option `extra-filename`: in the first
    /// argument that begins with that word, the text after the first `=` up
    /// to the next one.
    pub open spec fn extra_filename(self, cx: ContextView, input: Option<Seq<char>>) -> Result<
        Seq<char>,
        ErrorView,
    > {
        match first_with_prefix(self.effective_args(cx, input), "extra-filename"@) {
            Some(arg) => match split_once(arg, '=') {
                Some(pair) => Ok(pair.1.take(first_index(pair.1, '=') as int)),
                None => Err(missing("failed to find extra-filename in args"@)),
            },
            None => Err(missing("failed to find extra-filename in args"@)),
        }
    }

    /// The file in which the compiler records what the invocation read.
    /// The run of a build script has none.
    pub open spec fn dep_info_file(self, cx: ContextView, input: Option<Seq<char>>) -> Result<
        Seq<char>,
        ErrorView,
    > {
        match self.extra_filename(cx, input) {
            Ok(extra) => {
                let package = underscored(self.package_name);
                if self.is_custom_build() && self.compile_mode == CompileMode::Build {
                    Ok(
                        path_join(
                            cx.build_dir,
                            "build/"@ + package + extra + "/build_script_build"@ + extra + ".d"@,
                        ),
                    )
                } else if self.is_custom_build() && self.is_run_custom_build() {
                    Err(
                        ErrorView {
                            kind: ErrorKind::NoDepInfo,
                            message: "the run of a build script has no dep-info file"@,
                        },
                    )
                } else {
                    Ok(path_join(cx.build_dir, "deps/"@ + package + extra + ".d"@))
                }
            },
            Err(e) => Err(e),
        }
    }
}

/// The paths of `paths` without split debug-info packages.
pub fn without_dwp(paths: &Vec<String>) -> (r: Vec<String>)
    ensures
        texts(r@) == texts(paths@).filter(keeps_output()),
{
    let mut out: Vec<String> = Vec::new();
    let mut i: usize = 0;
    proof {
        reveal(Seq::filter);
        assert(texts(paths@).take(0) =~= Seq::empty());
        assert(texts(out@) =~= Seq::empty());
    }
    while i < paths.len()
        invariant
            i <= paths.len(),
            texts(out@) == texts(paths@).take(i as int).filter(keeps_output()),
        decreases paths.len() - i,
    {
        proof {
            reveal(Seq::filter);
            let next = texts(paths@).take(i + 1);
            assert(next.drop_last() =~= texts(paths@).take(i as int));
            assert(next.last() == paths[i as int]@);
        }
        if !has_dwp_extension(paths[i].as_str()) {
            push_text(&mut out, paths[i].clone());
        }
        i = i + 1;
    }
    assert(texts(paths@).take(paths.len() as int) =~= texts(paths@));
    out
}

impl Invocation {
    /// The hard links of the invocation, without those to split debug-info
    /// packages.
    pub fn links(&self) -> (r: Vec<(String, String)>)
        ensures
            text_pairs(r@) == self@.kept_links(),
    {
        let mut out: Vec<(String, String)> = Vec::new();
        let mut i: usize = 0;
        let ghost all = text_pairs(self.links@);
        proof {
            reveal(Seq::filter);
            assert(all.take(0) =~= Seq::empty());
            assert(text_pairs(out@) =~= Seq::empty());
        }
        while i < self.links.len()
            invariant
                i <= self.links.len(),
                all == text_pairs(self.links@),
                text_pairs(out@) == all.take(i as int).filter(keeps_link()),
            decreases self.links.len() - i,
        {
            proof {
                reveal(Seq::filter);
                let next = all.take(i + 1);
                assert(next.drop_last() =~= all.take(i as int));
                assert(next.last() == (self.links[i as int].0@, self.links[i as int].1@));
            }
            if !has_dwp_extension(self.links[i].1.as_str()) {
                push_pair(&mut out, self.links[i].0.clone(), self.links[i].1.clone());
            }
            i = i + 1;
        }
        assert(all.take(self.links.len() as int) =~= all);
        out
    }

    /// The value of `OUT_DIR` in the environment of the invocation.
    pub fn out_dir(&self) -> (r: Result<String, Error>)
        ensures
            r matches Ok(dir) ==> self@.out_dir() == Ok::<Seq<char>, ErrorView>(dir@),
            r matches Err(e) ==> self@.out_dir() == Err::<Seq<char>, ErrorView>(e@),
    {
        match find_value(&self.env, "OUT_DIR") {
            Some(dir) => Ok(dir),
            None => {
                let mut message = copy_of("OUT_DIR is not set for ");
                message.append(self.package_name.as_str());
                Err(Error::new(ErrorKind::MissingEnv, message))
            },
        }
    }

    /// The file that takes the output of the build script.
    pub fn build_script_output_file(&self) -> (r: Result<String, Error>)
        ensures
            r matches Ok(file) ==> self@.script_output_file() == Ok::<Seq<char>, ErrorView>(file@),
            r matches Err(e) ==> self@.script_output_file() == Err::<Seq<char>, ErrorView>(e@),
    {
        match self.out_dir() {
            Ok(dir) => match parent(dir.as_str()) {
                Some(p) => Ok(join(p.as_str(), "output")),
                None => Err(
                    Error::new(ErrorKind::MissingEnv, copy_of("failed get out_dir's parent")),
                ),
            },
            Err(e) => Err(e),
        }
    }

    /// What the invocation produces.
    pub fn outputs(&self) -> (r: Result<Vec<String>, Error>)
        ensures
            r matches Ok(outputs) ==> self@.canonical_outputs() == Ok::<
                Seq<Seq<char>>,
                ErrorView,
            >(texts(outputs@)),
            r matches Err(e) ==> self@.canonical_outputs() == Err::<Seq<Seq<char>>, ErrorView>(e@),
    {
        if self.is_run_custom_build() {
            match self.build_script_output_file() {
                Ok(file) => {
                    let mut out: Vec<String> = Vec::new();
                    out.push(file);
                    assert(texts(out@) =~= seq![file@]);
                    Ok(out)
                },
                Err(e) => Err(e),
            }
        } else {
            Ok(without_dwp(&self.outputs))
        }
    }

    /// The arguments of the invocation as the build graph runs it, where
    /// `input` is the source file among them.
    pub fn args_with(&self, cx: &Context, input: &Option<String>) -> (r: Vec<String>)
        ensures
            texts(r@) == self@.effective_args(cx@, opt_text(*input)),
    {
        if self.is_workspace_build(&cx.workspace) {
            match (&self.cwd, input) {
                (Some(cwd), Some(orig)) => {
                    let joined = join(cwd.as_str(), orig.as_str());
                    match diff(joined.as_str(), cx.build_dir.as_str()) {
                        Some(relative) => {
                            let mut out: Vec<String> = Vec::new();
                            let mut i: usize = 0;
                            while i < self.args.len()
                                invariant
                                    i <= self.args.len(),
                                    out.len() == i,
                                    forall|j: int|
                                        0 <= j < i ==> out[j]@ == (if self.args[j]@ == orig@ {
                                            relative@
                                        } else {
                                            self.args[j]@
                                        }),
                                decreases self.args.len() - i,
                            {
                                if same_text(self.args[i].as_str(), orig.as_str()) {
                                    out.push(relative.clone());
                                } else {
                                    out.push(self.args[i].clone());
                                }
                                i = i + 1;
                            }
                            assert(texts(out@) =~= self@.effective_args(cx@, opt_text(*input)));
                            return out;
                        },
                        None => {},
                    }
                },
                _ => {},
            }
        }
        copy_strings(&self.args)
    }

    /// The arguments of the invocation as the build graph runs it. The
    /// source file among them is the one that the compiler's grammar finds.
    pub fn args(&self, cx: &Context) -> (r: Vec<String>)
        ensures
            texts(r@) == self@.effective_args(cx@, source_file(self@.args)),
    {
        let input = rustc_input(&self.args);
        self.args_with(cx, &input)
    }

    /// The directory that the build graph runs the invocation in.
    pub fn cwd(&self, cx: &Context) -> (r: Option<String>)
        ensures
            opt_text(r) == self@.effective_cwd(cx@),
    {
        if self.is_workspace_build(&cx.workspace) {
            Some(cx.build_dir.clone())
        } else {
            copy_option(&self.cwd)
        }
    }

    /// The value of the compiler option `extra-filename`, where `input` is
    /// the source file among the arguments.
    pub fn extra_filename(&self, cx: &Context, input: &Option<String>) -> (r: Result<
        String,
        Error,
    >)
        ensures
            r matches Ok(extra) ==> self@.extra_filename(cx@, opt_text(*input)) == Ok::<
                Seq<char>,
                ErrorView,
            >(extra@),
            r matches Err(e) ==> self@.extra_filename(cx@, opt_text(*input)) == Err::<
                Seq<char>,
                ErrorView,
            >(e@),
    {
        let args = self.args_with(cx, input);
        match find_with_prefix(&args, "extra-filename") {
            Some(i) => match split_at_first(&chars_of(args[i].as_str()), '=') {
                Some((_, rest)) => {
                    let end = find_char(&rest, '=');
                    Ok(string_of(&slice_of(&rest, 0, end)))
                },
                None => Err(
                    Error::new(
                        ErrorKind::MissingEnv,
                        copy_of("failed to find extra-filename in args"),
                    ),
                ),
            },
            None => Err(
                Error::new(ErrorKind::MissingEnv, copy_of("failed to find extra-filename in args")),
            ),
        }
    }

    /// The file in which the compiler records what the invocation read,
    /// where `input` is the source file among the arguments.
    pub fn dep_info_file(&self, cx: &Context, input: &Option<String>) -> (r: Result<String, Error>)
        ensures
            r matches Ok(file) ==> self@.dep_info_file(cx@, opt_text(*input)) == Ok::<
                Seq<char>,
                ErrorView,
            >(file@),
            r matches Err(e) ==> self@.dep_info_file(cx@, opt_text(*input)) == Err::<
                Seq<char>,
                ErrorView,
            >(e@),
    {
        let extra = match self.extra_filename(cx, input) {
            Ok(extra) => extra,
            Err(e) => {
                return Err(e);
            },
        };
        let package = with_underscores(self.package_name.as_str());
        if self.is_custom_build() && self.compile_mode == CompileMode::Build {
            let mut file = copy_of("build/");
            file.append(package.as_str());
            file.append(extra.as_str());
            file.append("/build_script_build");
            file.append(extra.as_str());
            file.append(".d");
            Ok(join(cx.build_dir.as_str(), file.as_str()))
        } else if self.is_custom_build() && self.is_run_custom_build() {
            Err(
                Error::new(
                    ErrorKind::NoDepInfo,
                    copy_of("the run of a build script has no dep-info file"),
                ),
            )
        } else {
            let mut file = copy_of("deps/");
            file.append(package.as_str());
            file.append(extra.as_str());
            file.append(".d");
            Ok(join(cx.build_dir.as_str(), file.as_str()))
        }
    }
}

/// The directory that the build writes to: the directory `named` that the
/// command line names, seen from the working directory `current_dir`.
pub fn build_dir(current_dir: &str, named: &str) -> (r: String)
    ensures
        r@ == path_join(current_dir@, named@),
{
    join(current_dir, named)
}

/// The plan text `output` with the profile directories `debug` and
/// `release` of the build directory turned into the build directory itself.
pub open spec fn plan_text(output: Seq<char>, build_dir: Seq<char>) -> Seq<char> {
    replace(
        replace(output, path_join(build_dir, "debug"@), build_dir),
        path_join(build_dir, "release"@),
        build_dir,
    )
}

/// The plan text `output` as the lowering reads it: within the build
/// directory, the package manager's profile directories do not count.
pub fn normalized_plan_text(output: &str, build_dir: &str) -> (r: String)
    ensures
        r@ == plan_text(output@, build_dir@),
{
    let dir = chars_of(build_dir);
    let debug = chars_of(join(build_dir, "debug").as_str());
    let release = chars_of(join(build_dir, "release").as_str());
    let once = replaced(&chars_of(output), &debug, &dir);
    string_of(&replaced(&once, &release, &dir))
}

impl InvocationView {
    /// The settings with which the output of the build script of this
    /// invocation is parsed: the package names itself, paths stay as the
    /// script wrote them, and every instruction is allowed.
    pub open spec fn script_settings(self, dir: Seq<char>, rustc_bootstrap: Option<Seq<char>>) -> ParseSettings {
        ParseSettings {
            library_name: Some(self.package_name),
            pkg_descr: self.package_name,
            out_dir_when_generated: dir,
            out_dir: dir,
            extra_check_cfg: true,
            nightly_features_allowed: true,
            msrv: None,
            rustc_bootstrap,
        }
    }

    /// The parsed form of `contents`, the output of the build script that
    /// this invocation runs.
    pub open spec fn script_output(self, contents: Seq<u8>, rustc_bootstrap: Option<Seq<char>>) -> Result<
        BuildScriptOutputView,
        ErrorView,
    > {
        match self.script_output_file() {
            Ok(file) => match path_parent(file) {
                Some(dir) => parsed(contents, self.script_settings(dir, rustc_bootstrap)),
                None => Err(missing("failed to get output dir"@)),
            },
            Err(e) => Err(e),
        }
    }
}

impl Invocation {
    /// Parses `contents`, the output of the build script that this
    /// invocation runs. `rustc_bootstrap` is the value of the environment
    /// variable `RUSTC_BOOTSTRAP`, if it is set.
    pub fn build_script_output(&self, contents: &[u8], rustc_bootstrap: Option<String>) -> (r: Result<
        BuildScriptOutput,
        Error,
    >)
        ensures
            r matches Ok(out) ==> self@.script_output(contents@, opt_text(rustc_bootstrap)) == Ok::<
                BuildScriptOutputView,
                ErrorView,
            >(out@),
            r matches Err(e) ==> self@.script_output(contents@, opt_text(rustc_bootstrap)) == Err::<
                BuildScriptOutputView,
                ErrorView,
            >(e@),
    {
        let file = match self.build_script_output_file() {
            Ok(file) => file,
            Err(e) => {
                return Err(e);
            },
        };
        let dir = match parent(file.as_str()) {
            Some(dir) => dir,
            None => {
                return Err(Error::new(ErrorKind::MissingEnv, copy_of("failed to get output dir")));
            },
        };
        BuildScriptOutput::parse(
            contents,
            Some(self.package_name.clone()),
            self.package_name.as_str(),
            dir.as_str(),
            dir.as_str(),
            true,
            true,
            &None,
            rustc_bootstrap,
        )
    }
}

/// Whether no two of `pairs` have one key.
pub open spec fn distinct_keys(pairs: Seq<(Seq<char>, Seq<char>)>) -> bool {
    forall|a: int, b: int|
        0 <= a < b < pairs.len() ==> (#[trigger] pairs[a]).0 != (#[trigger] pairs[b]).0
}

/// Pairs with distinct keys still have distinct keys when some of them are
/// left out.
pub proof fn lemma_filter_keeps_keys(
    pairs: Seq<(Seq<char>, Seq<char>)>,
    keep: spec_fn((Seq<char>, Seq<char>)) -> bool,
)
    requires
        distinct_keys(pairs),
    ensures
        distinct_keys(pairs.filter(keep)),
    decreases pairs.len(),
{
    reveal(Seq::filter);
    if pairs.len() > 0 {
        let before = pairs.drop_last();
        assert(distinct_keys(before)) by {
            assert forall|a: int, b: int| 0 <= a < b < before.len() implies (#[trigger] before[a]).0
                != (#[trigger] before[b]).0 by {
                assert(before[a] == pairs[a] && before[b] == pairs[b]);
            }
        }
        lemma_filter_keeps_keys(before, keep);
        let kept = before.filter(keep);
        if keep(pairs.last()) {
            assert forall|a: int, b: int|
                0 <= a < b < kept.push(pairs.last()).len() implies (#[trigger] kept.push(
                pairs.last(),
            )[a]).0 != (#[trigger] kept.push(pairs.last())[b]).0 by {
                if b == kept.len() {
                    assert(kept.contains(kept[a]));
                    before.lemma_filter_contains_rev(keep, kept[a]);
                    let j = choose|j: int| 0 <= j < before.len() && before[j] == kept[a];
                    assert(pairs[j] == kept[a]);
                    assert(pairs[j].0 != pairs[pairs.len() - 1].0);
                } else {
                    assert(kept[a].0 != kept[b].0);
                }
            }
        }
    }
}

impl InvocationView {
    /// Whether the hard links and the environment are maps: no two hard
    /// links have one path, and no two variables one name.
    pub open spec fn keyed(self) -> bool {
        distinct_keys(self.links) && distinct_keys(self.env)
    }
}

/// Whether no two of `pairs` have one key.
pub fn has_distinct_keys(pairs: &Vec<(String, String)>) -> (b: bool)
    ensures
        b == distinct_keys(text_pairs(pairs@)),
{
    let ghost all = text_pairs(pairs@);
    let mut j: usize = 0;
    while j < pairs.len()
        invariant
            j <= pairs.len(),
            all == text_pairs(pairs@),
            forall|a: int, b: int| 0 <= a < b < j ==> (#[trigger] all[a]).0 != (#[trigger] all[b]).0,
        decreases pairs.len() - j,
    {
        let mut i: usize = 0;
        while i < j
            invariant
                i <= j < pairs.len(),
                all == text_pairs(pairs@),
                forall|a: int| 0 <= a < i ==> (#[trigger] all[a]).0 != all[j as int].0,
            decreases j - i,
        {
            if same_text(pairs[i].0.as_str(), pairs[j].0.as_str()) {
                assert(all[i as int].0 == all[j as int].0);
                return false;
            }
            i = i + 1;
        }
        j = j + 1;
    }
    true
}

impl Invocation {
    /// Whether the hard links and the environment are maps.
    pub fn is_keyed(&self) -> (b: bool)
        ensures
            b == self@.keyed(),
    {
        has_distinct_keys(&self.links) && has_distinct_keys(&self.env)
    }
}

} // verus!
