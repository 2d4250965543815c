//! The lowering of one invocation into its part of the build graph.

use crate::build_plan::{Context, ContextView, Invocation, InvocationView};
use crate::custom_build::{
    add_custom_flags, custom_flags, output_view, BuildScriptOutput, BuildScriptOutputView,
};
use crate::error::{Error, ErrorView};
use crate::ninja::{
    Build, BuildView, CommandLine, CommandLineView, NinjaFile, NinjaFileView, Rule, RuleView,
};
use crate::path::{
    dir_marker, ninja_dir, opt_text, path_before, path_eq, path_lt, same_path,
};
use crate::quote::{all_escaped, escape, escaped};
use crate::rust_version::{decimal, push_decimal};
use crate::rustc_config::{rustc_input, source_file};
use crate::text::{
    chars_of, copy_of, has_prefix, is_text, push_text, starts_with, string_of,
    text_pairs, texts,
};
use vstd::prelude::*;
use vstd::string::*;

verus! {

/// The name of the rule that places hard links.
pub open spec fn link_rule_id() -> Seq<char> {
    "link"@
}

/// The name of the rule that makes directories.
pub open spec fn ensure_dir_all_rule_id() -> Seq<char> {
    "ensure_dir_all"@
}

/// The rule that places a hard link: `mklink /h` on Windows, `ln -f`
/// elsewhere.
pub open spec fn link_rule_spec(windows: bool) -> RuleView {
    if windows {
        RuleView::new(CommandLineView::new("mklink"@).arg("/h"@).arg("$out"@).arg("$in"@))
    } else {
        RuleView::new(CommandLineView::new("ln"@).arg("-f"@).arg("$in"@).arg("$out"@))
    }
}

/// The rule that makes the directory of its output and the output itself.
pub open spec fn ensure_dir_all_rule_spec() -> RuleView {
    RuleView::new(
        CommandLineView::new("mkdir"@).arg("-p"@).arg("$$(dirname $out)"@).arg("&&"@).arg(
            "touch"@,
        ).arg("$out"@),
    )
}

/// The rule that places a hard link.
pub fn link_rule(windows: bool) -> (r: Rule)
    ensures
        r@ == link_rule_spec(windows),
{
    if windows {
        Rule::new(
            CommandLine::new(copy_of("mklink")).arg(copy_of("/h")).arg(copy_of("$out")).arg(
                copy_of("$in"),
            ),
        )
    } else {
        Rule::new(
            CommandLine::new(copy_of("ln")).arg(copy_of("-f")).arg(copy_of("$in")).arg(
                copy_of("$out"),
            ),
        )
    }
}

/// The rule that makes the directory of its output and the output itself.
pub fn ensure_dir_all_rule() -> (r: Rule)
    ensures
        r@ == ensure_dir_all_rule_spec(),
{
    Rule::new(
        CommandLine::new(copy_of("mkdir")).arg(copy_of("-p")).arg(copy_of("$$(dirname $out)")).arg(
            copy_of("&&"),
        ).arg(copy_of("touch")).arg(copy_of("$out")),
    )
}

/// How many of the paths at the head of `list` come before the path `path`.
pub open spec fn place_of(list: Seq<Seq<char>>, path: Seq<char>) -> nat
    decreases list.len(),
{
    if list.len() == 0 || !path_lt(list[0], path) {
        0
    } else {
        1 + place_of(list.drop_first(), path)
    }
}

/// The ordered list `list` with the path `path` in it: `path` goes behind
/// the paths that come before it, unless the same path stands there already.
pub open spec fn with_path(list: Seq<Seq<char>>, path: Seq<char>) -> Seq<Seq<char>> {
    let at = place_of(list, path) as int;
    if at < list.len() && path_eq(list[at], path) {
        list
    } else {
        list.insert(at, path)
    }
}

/// The directory markers of the paths `outputs`: a set of paths, in the
/// order of paths. Of two markers that are the same path the first stays.
pub open spec fn dirs_of(outputs: Seq<Seq<char>>) -> Seq<Seq<char>>
    decreases outputs.len(),
{
    if outputs.len() == 0 {
        Seq::empty()
    } else {
        let before = dirs_of(outputs.drop_last());
        match dir_marker(outputs.last()) {
            Some(marker) => with_path(before, marker),
            None => before,
        }
    }
}

/// The place of `path` in `list` is within the list.
pub proof fn lemma_place_of(list: Seq<Seq<char>>, path: Seq<char>)
    ensures
        place_of(list, path) <= list.len(),
        forall|j: int| 0 <= j < place_of(list, path) ==> path_lt(#[trigger] list[j], path),
        place_of(list, path) < list.len() ==> !path_lt(list[place_of(list, path) as int], path),
    decreases list.len(),
{
    if list.len() != 0 && path_lt(list[0], path) {
        let rest = list.drop_first();
        lemma_place_of(rest, path);
        let at = place_of(rest, path) as int;
        assert forall|j: int| 0 <= j < at + 1 implies path_lt(#[trigger] list[j], path) by {
            if j > 0 {
                assert(list[j] == rest[j - 1]);
            }
        }
        if at + 1 < list.len() {
            assert(list[at + 1] == rest[at]);
        }
    }
}

/// The first of `list` behind which no earlier path stands is its place.
pub proof fn lemma_place_found(list: Seq<Seq<char>>, path: Seq<char>, at: int)
    requires
        0 <= at <= list.len(),
        forall|j: int| 0 <= j < at ==> path_lt(#[trigger] list[j], path),
        at < list.len() ==> !path_lt(list[at], path),
    ensures
        place_of(list, path) == at,
    decreases list.len(),
{
    if at > 0 {
        assert(path_lt(list[0], path));
        let rest = list.drop_first();
        assert forall|j: int| 0 <= j < at - 1 implies path_lt(#[trigger] rest[j], path) by {
            assert(rest[j] == list[j + 1]);
        }
        if at < list.len() {
            assert(rest[at - 1] == list[at]);
        }
        lemma_place_found(rest, path, at - 1);
    }
}

/// Puts the path `path` into the ordered list `list`, unless the same path
/// stands there already.
pub fn put_path(list: &mut Vec<String>, path: String)
    ensures
        texts(final(list)@) == with_path(texts(old(list)@), path@),
{
    let ghost all = texts(list@);
    let mut at: usize = 0;
    while at < list.len() && path_before(list[at].as_str(), path.as_str())
        invariant
            at <= list.len(),
            *list == *old(list),
            all == texts(list@),
            forall|j: int| 0 <= j < at ==> path_lt(#[trigger] all[j], path@),
        decreases list.len() - at,
    {
        at = at + 1;
    }
    proof {
        if at < list.len() {
            assert(all[at as int] == list[at as int]@);
        }
        lemma_place_found(all, path@, at as int);
    }
    if at < list.len() && same_path(list[at].as_str(), path.as_str()) {
        return ;
    }
    list.insert(at, path);
    assert(texts(list@) =~= all.insert(at as int, path@));
}

/// The directory markers of the paths `outputs`: each path once, in the
/// order of paths.
pub fn dirs_among(outputs: &Vec<String>) -> (r: Vec<String>)
    ensures
        texts(r@) == dirs_of(texts(outputs@)),
{
    let mut out: Vec<String> = Vec::new();
    let mut i: usize = 0;
    let ghost all = texts(outputs@);
    assert(all.take(0) =~= Seq::empty());
    assert(texts(out@) =~= Seq::empty());
    while i < outputs.len()
        invariant
            i <= outputs.len(),
            all == texts(outputs@),
            texts(out@) == dirs_of(all.take(i as int)),
        decreases outputs.len() - i,
    {
        proof {
            let next = all.take(i + 1);
            assert(next.drop_last() =~= all.take(i as int));
            assert(next.last() == outputs[i as int]@);
        }
        match ninja_dir(outputs[i].as_str()) {
            Some(marker) => {
                put_path(&mut out, marker);
            },
            None => {},
        }
        i = i + 1;
    }
    assert(all.take(outputs.len() as int) =~= all);
    out
}

impl InvocationView {
    /// What the invocation does, in words.
    pub open spec fn description(self) -> Seq<char> {
        self.compile_mode.name() + " target "@ + self.target_kind.description() + " for "@
            + self.package_name + "@"@ + self.package_version
    }

    /// The name of the rule of the invocation, which stands at the position
    /// `index` of its plan.
    pub open spec fn rule_id(self, index: nat) -> Seq<char> {
        decimal(index) + "-"@ + self.package_name + "-"@ + self.package_version + "-"@
            + self.target_kind.description() + "-"@ + self.compile_mode.name()
    }

    /// The directory markers of what the invocation produces.
    pub open spec fn dirs(self) -> Result<Seq<Seq<char>>, ErrorView> {
        match self.canonical_outputs() {
            Ok(outputs) => Ok(dirs_of(outputs)),
            Err(e) => Err(e),
        }
    }
}

impl Invocation {
    /// What the invocation does, in words.
    pub fn description(&self) -> (s: String)
        ensures
            s@ == self@.description(),
    {
        let mut s = copy_of(self.compile_mode.as_str());
        s.append(" target ");
        s.append(self.target_kind.description());
        s.append(" for ");
        s.append(self.package_name.as_str());
        s.append("@");
        s.append(self.package_version.as_str());
        s
    }

    /// The name of the rule of the invocation, which stands at the position
    /// `indice` of its plan.
    pub fn rule_id(&self, indice: usize) -> (s: String)
        ensures
            s@ == self@.rule_id(indice as nat),
    {
        let mut digits: Vec<char> = Vec::new();
        push_decimal(&mut digits, indice as u64);
        assert(digits@ == decimal(indice as nat));
        let mut s = string_of(&digits);
        s.append("-");
        s.append(self.package_name.as_str());
        s.append("-");
        s.append(self.package_version.as_str());
        s.append("-");
        s.append(self.target_kind.description());
        s.append("-");
        s.append(self.compile_mode.as_str());
        s
    }

    /// The directory markers of what the invocation produces.
    pub fn dirs(&self) -> (r: Result<Vec<String>, Error>)
        ensures
            r matches Ok(dirs) ==> self@.dirs() == Ok::<Seq<Seq<char>>, ErrorView>(texts(dirs@)),
            r matches Err(e) ==> self@.dirs() == Err::<Seq<Seq<char>>, ErrorView>(e@),
    {
        match self.outputs() {
            Ok(outputs) => Ok(dirs_among(&outputs)),
            Err(e) => Err(e),
        }
    }
}

/// The test that keeps every compiler argument but those that ask for
/// diagnostics in JSON.
pub open spec fn keeps_arg() -> spec_fn(Seq<char>) -> bool {
    |arg: Seq<char>| !(arg == "--error-format=json"@ || starts_with(arg, "--json="@))
}

/// The variables of `env`, each value quoted.
pub open spec fn escaped_env(env: Seq<(Seq<char>, Seq<char>)>) -> Seq<(Seq<char>, Seq<char>)> {
    Seq::new(env.len(), |i: int| (env[i].0, escaped(env[i].1)))
}

impl InvocationView {
    /// The command of the invocation before the output of a build script is
    /// added: the program in its working directory, the arguments, quoted,
    /// without those that ask for diagnostics in JSON and with the one that
    /// asks for them in words, and the environment with quoted values.
    pub open spec fn base_command(self, cx: ContextView, input: Option<Seq<char>>) -> CommandLineView {
        CommandLineView {
            program: self.program,
            cwd: self.effective_cwd(cx),
            args: all_escaped(self.effective_args(cx, input).filter(keeps_arg())).push(
                "--error-format=human"@,
            ),
            env: escaped_env(self.env),
        }
    }

    /// The command of the rule of the invocation: the base command with
    /// what the script output `script` asks for; the run of a build script
    /// also sends its output to the file that takes it.
    pub open spec fn rule_command(
        self,
        cx: ContextView,
        input: Option<Seq<char>>,
        script: Option<BuildScriptOutputView>,
    ) -> Result<CommandLineView, ErrorView> {
        let command = custom_flags(self.base_command(cx, input), script, self.package_name, self);
        if self.is_run_custom_build() {
            match self.script_output_file() {
                Ok(file) => Ok(command.arg(">"@).arg(file)),
                Err(e) => Err(e),
            }
        } else {
            Ok(command)
        }
    }

    /// The rule of the invocation. Where the invocation has a dep-info
    /// file, the rule says that the file is in the format of `gcc`.
    pub open spec fn rule(
        self,
        cx: ContextView,
        input: Option<Seq<char>>,
        script: Option<BuildScriptOutputView>,
    ) -> Result<RuleView, ErrorView> {
        match self.rule_command(cx, input, script) {
            Ok(command) => Ok(
                if self.dep_info_file(cx, input) is Ok {
                    RuleView::new(command).variable("deps"@, "gcc"@)
                } else {
                    RuleView::new(command)
                },
            ),
            Err(e) => Err(e),
        }
    }

    /// The build edge of the invocation without its output: it runs the
    /// rule of the invocation, has `deps` as explicit inputs, and carries
    /// the description and, where there is one, the dep-info file.
    pub open spec fn build(
        self,
        index: nat,
        deps: Seq<Seq<char>>,
        cx: ContextView,
        input: Option<Seq<char>>,
    ) -> BuildView {
        let build = BuildView {
            rule: self.rule_id(index),
            explicit: deps,
            implicit: Seq::empty(),
            variables: seq![("description"@, self.description())],
        };
        match self.dep_info_file(cx, input) {
            Ok(file) => build.variable("depfile"@, file),
            Err(_) => build,
        }
    }

    /// The part of the build graph that the invocation gives, where it
    /// stands at the position `index` of its plan, `deps` are the paths
    /// that it needs, `script` is the output of the build script that it
    /// depends on, and `input` is its source file: its rule; one edge for
    /// each output, which also needs the marker of the output's directory;
    /// one edge and the directory rule for each such marker; one edge and
    /// the link rule for each hard link, from the link to what it points to.
    pub open spec fn fragment(
        self,
        index: nat,
        deps: Seq<Seq<char>>,
        script: Option<BuildScriptOutputView>,
        cx: ContextView,
        input: Option<Seq<char>>,
    ) -> Result<NinjaFileView, ErrorView> {
        match self.rule(cx, input, script) {
            Err(e) => Err(e),
            Ok(rule) => match self.canonical_outputs() {
                Err(e) => Err(e),
                Ok(outputs) => {
                    let build = self.build(index, deps, cx, input);
                    let dirs = dirs_of(outputs);
                    let links = self.kept_links();
                    Ok(
                        NinjaFileView {
                            rules: seq![(self.rule_id(index), rule)] + Seq::new(
                                dirs.len(),
                                |i: int| (ensure_dir_all_rule_id(), ensure_dir_all_rule_spec()),
                            ) + Seq::new(
                                links.len(),
                                |i: int| (link_rule_id(), link_rule_spec(cx.windows)),
                            ),
                            builds: Seq::new(
                                outputs.len(),
                                |i: int| (outputs[i], build.implicit_if(dir_marker(outputs[i]))),
                            ) + Seq::new(
                                dirs.len(),
                                |i: int| (dirs[i], BuildView::new(ensure_dir_all_rule_id())),
                            ) + Seq::new(
                                links.len(),
                                |i: int|
                                    (
                                        links[i].0,
                                        BuildView::new(link_rule_id()).explicit(
                                            links[i].1,
                                        ).implicit_if(dir_marker(links[i].1)),
                                    ),
                            ),
                        },
                    )
                },
            },
        }
    }
}

impl Invocation {
    /// The command of the invocation before the output of a build script is
    /// added.
    fn base_command(&self, cx: &Context, input: &Option<String>) -> (c: CommandLine)
        ensures
            c@ == self@.base_command(cx@, opt_text(*input)),
    {
        let args = self.args_with(cx, input);
        let ghost all = texts(args@);
        let mut kept: Vec<String> = Vec::new();
        let mut i: usize = 0;
        proof {
            reveal(Seq::filter);
            assert(all.take(0) =~= Seq::empty());
            assert(texts(kept@) =~= all_escaped(all.take(0).filter(keeps_arg())));
        }
        while i < args.len()
            invariant
                i <= args.len(),
                all == texts(args@),
                texts(kept@) == all_escaped(all.take(i as int).filter(keeps_arg())),
            decreases args.len() - i,
        {
            proof {
                reveal(Seq::filter);
                let next = all.take(i + 1);
                assert(next.drop_last() =~= all.take(i as int));
                assert(next.last() == args[i as int]@);
            }
            let arg = chars_of(args[i].as_str());
            if !(is_text(&arg, "--error-format=json") || has_prefix(&arg, "--json=")) {
                let ghost before = all.take(i as int).filter(keeps_arg());
                push_text(&mut kept, escape(args[i].as_str()));
                assert(texts(kept@) =~= all_escaped(before.push(args[i as int]@)));
            }
            i = i + 1;
        }
        assert(all.take(args.len() as int) =~= all);
        push_text(&mut kept, copy_of("--error-format=human"));
        let mut env: Vec<(String, String)> = Vec::new();
        let mut k: usize = 0;
        while k < self.env.len()
            invariant
                k <= self.env.len(),
                env.len() == k,
                forall|j: int|
                    0 <= j < k ==> env[j].0@ == self.env[j].0@ && env[j].1@ == escaped(
                        self.env[j].1@,
                    ),
            decreases self.env.len() - k,
        {
            env.push((self.env[k].0.clone(), escape(self.env[k].1.as_str())));
            k = k + 1;
        }
        assert(text_pairs(env@) =~= escaped_env(self@.env));
        CommandLine { program: self.program.clone(), cwd: self.cwd(cx), args: kept, env }
    }

    /// The rule of the invocation, where `script` is the output of the
    /// build script that it depends on and `input` is its source file.
    pub fn rule_with(
        &self,
        cx: &Context,
        input: &Option<String>,
        script: Option<&BuildScriptOutput>,
    ) -> (r: Result<Rule, Error>)
        ensures
            r matches Ok(rule) ==> self@.rule(cx@, opt_text(*input), output_view(script)) == Ok::<
                RuleView,
                ErrorView,
            >(rule@),
            r matches Err(e) ==> self@.rule(cx@, opt_text(*input), output_view(script)) == Err::<
                RuleView,
                ErrorView,
            >(e@),
    {
        let command = self.base_command(cx, input);
        let command = add_custom_flags(command, script, self.package_name.as_str(), self);
        let command = if self.is_run_custom_build() {
            match self.build_script_output_file() {
                Ok(file) => command.arg(copy_of(">")).arg(file),
                Err(e) => {
                    return Err(e);
                },
            }
        } else {
            command
        };
        let rule = Rule::new(command);
        match self.dep_info_file(cx, input) {
            Ok(_) => Ok(rule.variable(copy_of("deps"), copy_of("gcc"))),
            Err(_) => Ok(rule),
        }
    }

    /// The build edge of the invocation without its output.
    pub fn build_with(&self, indice: usize, deps: Vec<String>, cx: &Context, input: &Option<String>) -> (b:
        Build)
        ensures
            b@ == self@.build(indice as nat, texts(deps@), cx@, opt_text(*input)),
    {
        let build = Build::new(self.rule_id(indice));
        let mut build = build.variable(copy_of("description"), self.description());
        build.explicit = deps;
        assert(build@.variables =~= seq![("description"@, self@.description())]);
        match self.dep_info_file(cx, input) {
            Ok(file) => build.variable(copy_of("depfile"), file),
            Err(_) => build,
        }
    }
}

/// The edge `build` with the marker of the directory of `path`, where there
/// is one, as one more implicit input.
fn with_dir_marker(build: Build, path: &str) -> (b: Build)
    ensures
        b@ == build@.implicit_if(dir_marker(path@)),
{
    match ninja_dir(path) {
        Some(marker) => build.implicit(marker),
        None => build,
    }
}

impl Invocation {
    /// The part of the build graph that the invocation gives, where it
    /// stands at the position `indice` of its plan, `deps` are the paths
    /// that it needs, `build_script_output` is the output of the build
    /// script that it depends on, and `input` is its source file.
    pub fn ninja_build_with(
        &self,
        indice: usize,
        deps: Vec<String>,
        build_script_output: Option<&BuildScriptOutput>,
        cx: &Context,
        input: &Option<String>,
    ) -> (r: Result<NinjaFile, Error>)
        ensures
            r matches Ok(file) ==> self@.fragment(
                indice as nat,
                texts(deps@),
                output_view(build_script_output),
                cx@,
                opt_text(*input),
            ) == Ok::<NinjaFileView, ErrorView>(file@),
            r matches Err(e) ==> self@.fragment(
                indice as nat,
                texts(deps@),
                output_view(build_script_output),
                cx@,
                opt_text(*input),
            ) == Err::<NinjaFileView, ErrorView>(e@),
    {
        let rule = match self.rule_with(cx, input, build_script_output) {
            Ok(rule) => rule,
            Err(e) => {
                return Err(e);
            },
        };
        let outputs = match self.outputs() {
            Ok(outputs) => outputs,
            Err(e) => {
                return Err(e);
            },
        };
        let build = self.build_with(indice, deps, cx, input);
        let dirs = dirs_among(&outputs);
        let links = self.links();
        let mut rules: Vec<(String, Rule)> = Vec::new();
        let mut builds: Vec<(String, Build)> = Vec::new();
        rules.push((self.rule_id(indice), rule));
        let mut i: usize = 0;
        while i < outputs.len()
            invariant
                i <= outputs.len(),
                builds.len() == i,
                rules.len() == 1,
                rules[0].0@ == self@.rule_id(indice as nat),
                rules[0].1@ == rule@,
                forall|k: int|
                    0 <= k < i ==> (#[trigger] builds[k]).0@ == outputs[k]@ && builds[k].1@
                        == build@.implicit_if(dir_marker(outputs[k]@)),
            decreases outputs.len() - i,
        {
            builds.push(
                (outputs[i].clone(), with_dir_marker(build.duplicate(), outputs[i].as_str())),
            );
            i = i + 1;
        }
        let ghost n = outputs.len() as int;
        let ghost m = dirs.len() as int;
        let mut d: usize = 0;
        while d < dirs.len()
            invariant
                d <= dirs.len(),
                n == outputs.len(),
                rules.len() == 1 + d,
                builds.len() == n + d,
                rules[0].0@ == self@.rule_id(indice as nat),
                rules[0].1@ == rule@,
                forall|k: int|
                    1 <= k < 1 + d ==> (#[trigger] rules[k]).0@ == ensure_dir_all_rule_id()
                        && rules[k].1@ == ensure_dir_all_rule_spec(),
                forall|k: int|
                    0 <= k < n ==> (#[trigger] builds[k]).0@ == outputs[k]@ && builds[k].1@
                        == build@.implicit_if(dir_marker(outputs[k]@)),
                forall|k: int|
                    n <= k < n + d ==> (#[trigger] builds[k]).0@ == dirs[k - n]@ && builds[k].1@
                        == BuildView::new(ensure_dir_all_rule_id()),
            decreases dirs.len() - d,
        {
            rules.push((copy_of("ensure_dir_all"), ensure_dir_all_rule()));
            builds.push((dirs[d].clone(), Build::new(copy_of("ensure_dir_all"))));
            d = d + 1;
        }
        let mut l: usize = 0;
        while l < links.len()
            invariant
                l <= links.len(),
                n == outputs.len(),
                m == dirs.len(),
                rules.len() == 1 + m + l,
                builds.len() == n + m + l,
                rules[0].0@ == self@.rule_id(indice as nat),
                rules[0].1@ == rule@,
                forall|k: int|
                    1 <= k < 1 + m ==> (#[trigger] rules[k]).0@ == ensure_dir_all_rule_id()
                        && rules[k].1@ == ensure_dir_all_rule_spec(),
                forall|k: int|
                    1 + m <= k < 1 + m + l ==> (#[trigger] rules[k]).0@ == link_rule_id()
                        && rules[k].1@ == link_rule_spec(cx.windows),
                forall|k: int|
                    0 <= k < n ==> (#[trigger] builds[k]).0@ == outputs[k]@ && builds[k].1@
                        == build@.implicit_if(dir_marker(outputs[k]@)),
                forall|k: int|
                    n <= k < n + m ==> (#[trigger] builds[k]).0@ == dirs[k - n]@ && builds[k].1@
                        == BuildView::new(ensure_dir_all_rule_id()),
                forall|k: int|
                    n + m <= k < n + m + l ==> (#[trigger] builds[k]).0@ == links[k - n - m].0@
                        && builds[k].1@ == BuildView::new(link_rule_id()).explicit(
                        links[k - n - m].1@,
                    ).implicit_if(dir_marker(links[k - n - m].1@)),
            decreases links.len() - l,
        {
            rules.push((copy_of("link"), link_rule(cx.windows)));
            let edge = Build::new(copy_of("link")).explicit(links[l].1.clone());
            builds.push((links[l].0.clone(), with_dir_marker(edge, links[l].1.as_str())));
            l = l + 1;
        }
        let file = NinjaFile { rules, builds };
        proof {
            let wanted = self@.fragment(
                indice as nat,
                texts(deps@),
                output_view(build_script_output),
                cx@,
                opt_text(*input),
            )->Ok_0;
            assert(text_pairs(links@) == self@.kept_links());
            assert(file@.rules =~= wanted.rules);
            assert(file@.builds =~= wanted.builds);
        }
        Ok(file)
    }

    /// The part of the build graph that the invocation gives. Its source
    /// file is the one that the compiler's grammar finds among its
    /// arguments.
    pub fn ninja_build(
        &self,
        indice: usize,
        deps: Vec<String>,
        build_script_output: Option<&BuildScriptOutput>,
        cx: &Context,
    ) -> (r: Result<NinjaFile, Error>)
        ensures
            r matches Ok(file) ==> self@.fragment(
                indice as nat,
                texts(deps@),
                output_view(build_script_output),
                cx@,
                source_file(self@.args),
            ) == Ok::<NinjaFileView, ErrorView>(file@),
            r matches Err(e) ==> self@.fragment(
                indice as nat,
                texts(deps@),
                output_view(build_script_output),
                cx@,
                source_file(self@.args),
            ) == Err::<NinjaFileView, ErrorView>(e@),
    {
        let input = rustc_input(&self.args);
        self.ninja_build_with(indice, deps, build_script_output, cx, &input)
    }
}

/// The graph that writes the build graph anew: the rule `configure`, which
/// runs the generator as it was started, and the edge that makes
/// `build.ninja` with it.
pub open spec fn configure_spec(
    program: Seq<char>,
    cwd: Option<Seq<char>>,
    args: Seq<Seq<char>>,
    env: Seq<(Seq<char>, Seq<char>)>,
) -> NinjaFileView {
    let command = CommandLineView {
        program,
        cwd,
        args: all_escaped(args),
        env: escaped_env(env),
    };
    NinjaFileView::empty().rule(
        "configure"@,
        RuleView { generator: true, ..RuleView::new(command) },
    ).output("build.ninja"@, BuildView::new("configure"@))
}

/// The graph that writes the build graph anew, where the generator was
/// started as `program` in the directory `cwd` with the arguments `args`
/// and the environment `env`.
pub fn configure(
    program: String,
    cwd: Option<String>,
    args: &Vec<String>,
    env: &Vec<(String, String)>,
) -> (r: NinjaFile)
    ensures
        r@ == configure_spec(program@, opt_text(cwd), texts(args@), text_pairs(env@)),
{
    let mut quoted: Vec<(String, String)> = Vec::new();
    let mut k: usize = 0;
    while k < env.len()
        invariant
            k <= env.len(),
            quoted.len() == k,
            forall|j: int|
                0 <= j < k ==> quoted[j].0@ == env[j].0@ && quoted[j].1@ == escaped(env[j].1@),
        decreases env.len() - k,
    {
        quoted.push((env[k].0.clone(), escape(env[k].1.as_str())));
        k = k + 1;
    }
    assert(text_pairs(quoted@) =~= escaped_env(text_pairs(env@)));
    let command = CommandLine { program, cwd, args: crate::quote::escape_all(args), env: quoted };
    let rule = Rule::new(command).generator(true);
    NinjaFile::new().rule(copy_of("configure"), rule).output(
        copy_of("build.ninja"),
        Build::new(copy_of("configure")),
    )
}

} // verus!
