//! The build graph: commands, rules and build edges.
//!
//! A graph is held as the list of rules and the list of build edges in the
//! order in which they were emitted.

use crate::path::opt_text;
use crate::text::{
    copy_option, copy_pairs, copy_strings, push_pair, push_text, text_pairs, texts,
};
use vstd::prelude::*;

verus! {

/// A command line with its working directory and environment.
#[derive(Clone, Debug, PartialEq, Eq)]
pub struct CommandLine {
    pub program: String,
    /// The directory to run the program from.
    pub cwd: Option<String>,
    pub args: Vec<String>,
    /// Environment variables as pairs of name and value; of two pairs with
    /// one name the later counts.
    pub env: Vec<(String, String)>,
}

/// A command as a mathematical value.
pub struct CommandLineView {
    pub program: Seq<char>,
    pub cwd: Option<Seq<char>>,
    pub args: Seq<Seq<char>>,
    pub env: Seq<(Seq<char>, Seq<char>)>,
}

impl View for CommandLine {
    type V = CommandLineView;

    open spec fn view(&self) -> CommandLineView {
        CommandLineView {
            program: self.program@,
            cwd: opt_text(self.cwd),
            args: texts(self.args@),
            env: text_pairs(self.env@),
        }
    }
}

impl CommandLineView {
    /// The command that runs `program` without arguments.
    pub open spec fn new(program: Seq<char>) -> CommandLineView {
        CommandLineView { program, cwd: None, args: Seq::empty(), env: Seq::empty() }
    }

    /// The command with `arg` as its last argument.
    pub open spec fn arg(self, arg: Seq<char>) -> CommandLineView {
        CommandLineView { args: self.args.push(arg), ..self }
    }

    /// The command with the arguments `args` after its own.
    pub open spec fn with_args(self, args: Seq<Seq<char>>) -> CommandLineView {
        CommandLineView { args: self.args + args, ..self }
    }

    /// The command with the variable `key` set to `value`.
    pub open spec fn env(self, key: Seq<char>, value: Seq<char>) -> CommandLineView {
        CommandLineView { env: self.env.push((key, value)), ..self }
    }

    /// The command with the variables `env` set after its own.
    pub open spec fn with_env(self, env: Seq<(Seq<char>, Seq<char>)>) -> CommandLineView {
        CommandLineView { env: self.env + env, ..self }
    }
}

impl CommandLine {
    /// The command that runs `program` without arguments.
    pub fn new(program: String) -> (c: CommandLine)
        ensures
            c@ == CommandLineView::new(program@),
    {
        let c = CommandLine { program, cwd: None, args: Vec::new(), env: Vec::new() };
        assert(c@.args =~= Seq::empty());
        assert(c@.env =~= Seq::empty());
        c
    }

    /// The command with the working directory `cwd`.
    pub fn cwd(self, cwd: Option<String>) -> (c: CommandLine)
        ensures
            c@ == (CommandLineView { cwd: opt_text(cwd), ..self@ }),
    {
        let mut c = self;
        c.cwd = cwd;
        c
    }

    /// The command with `arg` as its last argument.
    pub fn arg(self, arg: String) -> (c: CommandLine)
        ensures
            c@ == self@.arg(arg@),
    {
        let mut c = self;
        push_text(&mut c.args, arg);
        c
    }

    /// The command with the variable `key` set to `value`.
    pub fn env(self, key: String, value: String) -> (c: CommandLine)
        ensures
            c@ == self@.env(key@, value@),
    {
        let mut c = self;
        push_pair(&mut c.env, key, value);
        c
    }

    /// A copy of this command.
    pub fn duplicate(&self) -> (c: CommandLine)
        ensures
            c@ == self@,
    {
        CommandLine {
            program: self.program.clone(),
            cwd: copy_option(&self.cwd),
            args: copy_strings(&self.args),
            env: copy_pairs(&self.env),
        }
    }
}

/// A rule: a command with the variables that go with it.
#[derive(Clone, Debug, PartialEq, Eq)]
pub struct Rule {
    pub command: CommandLine,
    /// Variables of the rule as pairs of name and value.
    pub variables: Vec<(String, String)>,
    /// Whether the rule writes the build graph itself.
    pub generator: bool,
}

/// A rule as a mathematical value.
pub struct RuleView {
    pub command: CommandLineView,
    pub variables: Seq<(Seq<char>, Seq<char>)>,
    pub generator: bool,
}

impl View for Rule {
    type V = RuleView;

    open spec fn view(&self) -> RuleView {
        RuleView {
            command: self.command@,
            variables: text_pairs(self.variables@),
            generator: self.generator,
        }
    }
}

impl RuleView {
    /// The rule that runs `command`, without variables.
    pub open spec fn new(command: CommandLineView) -> RuleView {
        RuleView { command, variables: Seq::empty(), generator: false }
    }

    /// The rule with the variable `key` set to `value`.
    pub open spec fn variable(self, key: Seq<char>, value: Seq<char>) -> RuleView {
        RuleView { variables: self.variables.push((key, value)), ..self }
    }
}

impl Rule {
    /// The rule that runs `command`, without variables.
    pub fn new(command: CommandLine) -> (r: Rule)
        ensures
            r@ == RuleView::new(command@),
    {
        let r = Rule { command, variables: Vec::new(), generator: false };
        assert(r@.variables =~= Seq::empty());
        r
    }

    /// The rule with the variable `key` set to `value`.
    pub fn variable(self, key: String, value: String) -> (r: Rule)
        ensures
            r@ == self@.variable(key@, value@),
    {
        let mut r = self;
        push_pair(&mut r.variables, key, value);
        r
    }

    /// The rule, marked or not as one that writes the build graph.
    pub fn generator(self, generator: bool) -> (r: Rule)
        ensures
            r@ == (RuleView { generator, ..self@ }),
    {
        let mut r = self;
        r.generator = generator;
        r
    }
}

/// A build edge without its output: the rule to run and what it needs.
#[derive(Clone, Debug, PartialEq, Eq)]
pub struct Build {
    /// The name of the rule that produces the output.
    pub rule: String,
    /// The inputs that the rule's command sees.
    pub explicit: Vec<String>,
    /// The inputs that must exist and that the command does not see.
    pub implicit: Vec<String>,
    /// Variables of the edge as pairs of name and value.
    pub variables: Vec<(String, String)>,
}

/// A build edge as a mathematical value.
pub struct BuildView {
    pub rule: Seq<char>,
    pub explicit: Seq<Seq<char>>,
    pub implicit: Seq<Seq<char>>,
    pub variables: Seq<(Seq<char>, Seq<char>)>,
}

impl View for Build {
    type V = BuildView;

    open spec fn view(&self) -> BuildView {
        BuildView {
            rule: self.rule@,
            explicit: texts(self.explicit@),
            implicit: texts(self.implicit@),
            variables: text_pairs(self.variables@),
        }
    }
}

impl BuildView {
    /// The edge that runs the rule `rule` and needs nothing.
    pub open spec fn new(rule: Seq<char>) -> BuildView {
        BuildView { rule, explicit: Seq::empty(), implicit: Seq::empty(), variables: Seq::empty() }
    }

    /// The edge with `dep` as one more explicit input.
    pub open spec fn explicit(self, dep: Seq<char>) -> BuildView {
        BuildView { explicit: self.explicit.push(dep), ..self }
    }

    /// The edge with `dep` as one more implicit input.
    pub open spec fn implicit(self, dep: Seq<char>) -> BuildView {
        BuildView { implicit: self.implicit.push(dep), ..self }
    }

    /// The edge with `dep`, where there is one, as one more implicit input.
    pub open spec fn implicit_if(self, dep: Option<Seq<char>>) -> BuildView {
        match dep {
            Some(d) => self.implicit(d),
            None => self,
        }
    }

    /// The edge with the variable `key` set to `value`.
    pub open spec fn variable(self, key: Seq<char>, value: Seq<char>) -> BuildView {
        BuildView { variables: self.variables.push((key, value)), ..self }
    }
}

impl Build {
    /// The edge that runs the rule `rule` and needs nothing.
    pub fn new(rule: String) -> (b: Build)
        ensures
            b@ == BuildView::new(rule@),
    {
        let b = Build { rule, explicit: Vec::new(), implicit: Vec::new(), variables: Vec::new() };
        assert(b@.explicit =~= Seq::empty());
        assert(b@.implicit =~= Seq::empty());
        assert(b@.variables =~= Seq::empty());
        b
    }

    /// The edge with `dep` as one more explicit input.
    pub fn explicit(self, dep: String) -> (b: Build)
        ensures
            b@ == self@.explicit(dep@),
    {
        let mut b = self;
        push_text(&mut b.explicit, dep);
        b
    }

    /// The edge with `dep` as one more implicit input.
    pub fn implicit(self, dep: String) -> (b: Build)
        ensures
            b@ == self@.implicit(dep@),
    {
        let mut b = self;
        push_text(&mut b.implicit, dep);
        b
    }

    /// The edge with the variable `key` set to `value`.
    pub fn variable(self, key: String, value: String) -> (b: Build)
        ensures
            b@ == self@.variable(key@, value@),
    {
        let mut b = self;
        push_pair(&mut b.variables, key, value);
        b
    }

    /// A copy of this edge.
    pub fn duplicate(&self) -> (b: Build)
        ensures
            b@ == self@,
    {
        Build {
            rule: self.rule.clone(),
            explicit: copy_strings(&self.explicit),
            implicit: copy_strings(&self.implicit),
            variables: copy_pairs(&self.variables),
        }
    }
}

/// The rules of `v` as mathematical values, each with its name.
pub open spec fn named_rules(v: Seq<(String, Rule)>) -> Seq<(Seq<char>, RuleView)> {
    Seq::new(v.len(), |i: int| (v[i].0@, v[i].1@))
}

/// The build edges of `v` as mathematical values, each with its output.
pub open spec fn output_builds(v: Seq<(String, Build)>) -> Seq<(Seq<char>, BuildView)> {
    Seq::new(v.len(), |i: int| (v[i].0@, v[i].1@))
}

/// A build graph: rules by name and build edges by output, in the order of
/// their emission.
#[derive(Clone, Debug, PartialEq, Eq)]
pub struct NinjaFile {
    pub rules: Vec<(String, Rule)>,
    pub builds: Vec<(String, Build)>,
}

/// A build graph as a mathematical value.
pub struct NinjaFileView {
    pub rules: Seq<(Seq<char>, RuleView)>,
    pub builds: Seq<(Seq<char>, BuildView)>,
}

impl View for NinjaFile {
    type V = NinjaFileView;

    open spec fn view(&self) -> NinjaFileView {
        NinjaFileView { rules: named_rules(self.rules@), builds: output_builds(self.builds@) }
    }
}

impl NinjaFileView {
    /// The graph without rules and edges.
    pub open spec fn empty() -> NinjaFileView {
        NinjaFileView { rules: Seq::empty(), builds: Seq::empty() }
    }

    /// The graph with the rule `rule` under the name `id`.
    pub open spec fn rule(self, id: Seq<char>, rule: RuleView) -> NinjaFileView {
        NinjaFileView { rules: self.rules.push((id, rule)), ..self }
    }

    /// The graph with the edge `build` that produces `output`.
    pub open spec fn output(self, output: Seq<char>, build: BuildView) -> NinjaFileView {
        NinjaFileView { builds: self.builds.push((output, build)), ..self }
    }

    /// The graph with the rules and edges of `other` after its own.
    pub open spec fn merge(self, other: NinjaFileView) -> NinjaFileView {
        NinjaFileView { rules: self.rules + other.rules, builds: self.builds + other.builds }
    }

    /// Whether the graph has an edge that produces `output`.
    pub open spec fn produces(self, output: Seq<char>) -> bool {
        exists|i: int| 0 <= i < self.builds.len() && (#[trigger] self.builds[i]).0 == output
    }
}

impl NinjaFile {
    /// The graph without rules and edges.
    pub fn new() -> (f: NinjaFile)
        ensures
            f@ == NinjaFileView::empty(),
    {
        let f = NinjaFile { rules: Vec::new(), builds: Vec::new() };
        assert(f@.rules =~= Seq::empty());
        assert(f@.builds =~= Seq::empty());
        f
    }

    /// The graph with the rule `rule` under the name `id`.
    pub fn rule(self, id: String, rule: Rule) -> (f: NinjaFile)
        ensures
            f@ == self@.rule(id@, rule@),
    {
        let mut f = self;
        f.rules.push((id, rule));
        assert(f@.rules =~= self@.rules.push((id@, rule@)));
        f
    }

    /// The graph with the edge `build` that produces `output`.
    pub fn output(self, output: String, build: Build) -> (f: NinjaFile)
        ensures
            f@ == self@.output(output@, build@),
    {
        let mut f = self;
        f.builds.push((output, build));
        assert(f@.builds =~= self@.builds.push((output@, build@)));
        f
    }

    /// The graph with the rules and edges of `other` after its own.
    pub fn merge(self, other: NinjaFile) -> (f: NinjaFile)
        ensures
            f@ == self@.merge(other@),
    {
        let mut f = self;
        let mut other = other;
        let ghost rules = other@.rules;
        let ghost builds = other@.builds;
        f.rules.append(&mut other.rules);
        f.builds.append(&mut other.builds);
        assert(f@.rules =~= self@.rules + rules);
        assert(f@.builds =~= self@.builds + builds);
        f
    }
}

} // verus!
