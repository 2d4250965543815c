//! The flags that the output of one build script asks for, as one line of
//! text for the eye.

use crate::custom_build::{linker_args, BuildScriptOutput, BuildScriptOutputView, LinkArgTarget, LinkArgTargetView};
use crate::text::{copy_of, push_text, texts};
use vstd::prelude::*;
use vstd::string::*;

verus! {

/// Each of `values` behind `prefix`.
pub open spec fn prefixed(prefix: Seq<char>, values: Seq<Seq<char>>) -> Seq<Seq<char>> {
    Seq::new(values.len(), |i: int| prefix + values[i])
}

/// The linker arguments `args` without their targets.
pub open spec fn link_arg_texts(args: Seq<(LinkArgTargetView, Seq<char>)>) -> Seq<Seq<char>> {
    Seq::new(args.len(), |i: int| args[i].1)
}

/// The words for the `--check-cfg` flags `values`: the first stands directly
/// behind the option that allows them.
pub open spec fn check_cfg_words(values: Seq<Seq<char>>) -> Seq<Seq<char>> {
    Seq::new(
        values.len(),
        |i: int|
            if i == 0 {
                "-Zunstable-options--check-cfg "@ + values[i]
            } else {
                "--check-cfg "@ + values[i]
            },
    )
}

/// The flags that `out` asks for, one word for each: the library paths, the
/// libraries, the linker arguments for whatever target, the `--cfg` flags
/// and the `--check-cfg` flags.
pub open spec fn flag_words(out: BuildScriptOutputView) -> Seq<Seq<char>> {
    prefixed("-L "@, out.library_paths) + prefixed("-l "@, out.library_links) + prefixed(
        "-C link-arg="@,
        link_arg_texts(out.linker_args),
    ) + prefixed("--cfg "@, out.cfgs) + check_cfg_words(out.check_cfgs)
}

/// `words` in one line: a blank stands before each word that follows text.
pub open spec fn spaced(words: Seq<Seq<char>>) -> Seq<char>
    decreases words.len(),
{
    if words.len() == 0 {
        Seq::empty()
    } else {
        let before = spaced(words.drop_last());
        if before.len() == 0 {
            words.last()
        } else {
            before + " "@ + words.last()
        }
    }
}

/// The flags that `out` asks for, in one line.
pub open spec fn flag_line(out: BuildScriptOutputView) -> Seq<char> {
    spaced(flag_words(out))
}

/// Appends each of `values` behind `prefix` to `words`.
fn push_prefixed(words: &mut Vec<String>, prefix: &str, values: &Vec<String>)
    ensures
        texts(final(words)@) == texts(old(words)@) + prefixed(prefix@, texts(values@)),
{
    let ghost all = texts(values@);
    let mut i: usize = 0;
    assert(texts(words@) =~= texts(old(words)@) + prefixed(prefix@, all.take(0)));
    while i < values.len()
        invariant
            i <= values.len(),
            all == texts(values@),
            texts(words@) == texts(old(words)@) + prefixed(prefix@, all.take(i as int)),
        decreases values.len() - i,
    {
        let ghost before = texts(words@);
        let mut word = copy_of(prefix);
        word.append(values[i].as_str());
        push_text(words, word);
        assert(all[i as int] == values[i as int]@);
        assert(texts(words@) =~= texts(old(words)@) + prefixed(prefix@, all.take(i + 1)));
        i = i + 1;
    }
    assert(all.take(values.len() as int) =~= all);
}

/// Appends the linker arguments `args`, each behind `-C link-arg=`, to
/// `words`.
fn push_link_args(words: &mut Vec<String>, args: &Vec<(LinkArgTarget, String)>)
    ensures
        texts(final(words)@) == texts(old(words)@) + prefixed(
            "-C link-arg="@,
            link_arg_texts(linker_args(args@)),
        ),
{
    let ghost all = link_arg_texts(linker_args(args@));
    let mut i: usize = 0;
    assert(texts(words@) =~= texts(old(words)@) + prefixed("-C link-arg="@, all.take(0)));
    while i < args.len()
        invariant
            i <= args.len(),
            all == link_arg_texts(linker_args(args@)),
            texts(words@) == texts(old(words)@) + prefixed("-C link-arg="@, all.take(i as int)),
        decreases args.len() - i,
    {
        let mut word = copy_of("-C link-arg=");
        word.append(args[i].1.as_str());
        push_text(words, word);
        assert(all[i as int] == args[i as int].1@);
        assert(texts(words@) =~= texts(old(words)@) + prefixed(
            "-C link-arg="@,
            all.take(i + 1),
        ));
        i = i + 1;
    }
    assert(all.take(args.len() as int) =~= all);
}

/// Appends the words for the `--check-cfg` flags `values` to `words`.
fn push_check_cfgs(words: &mut Vec<String>, values: &Vec<String>)
    ensures
        texts(final(words)@) == texts(old(words)@) + check_cfg_words(texts(values@)),
{
    let ghost all = texts(values@);
    let mut i: usize = 0;
    assert(texts(words@) =~= texts(old(words)@) + check_cfg_words(all).take(0));
    while i < values.len()
        invariant
            i <= values.len(),
            all == texts(values@),
            texts(words@) == texts(old(words)@) + check_cfg_words(all).take(i as int),
        decreases values.len() - i,
    {
        let mut word = if i == 0 {
            copy_of("-Zunstable-options--check-cfg ")
        } else {
            copy_of("--check-cfg ")
        };
        word.append(values[i].as_str());
        push_text(words, word);
        assert(all[i as int] == values[i as int]@);
        assert(texts(words@) =~= texts(old(words)@) + check_cfg_words(all).take(i + 1));
        i = i + 1;
    }
    assert(check_cfg_words(all).take(values.len() as int) =~= check_cfg_words(all));
}

/// The flags that `out` asks for, one word for each.
pub fn flags_of(out: &BuildScriptOutput) -> (words: Vec<String>)
    ensures
        texts(words@) == flag_words(out@),
{
    let mut words: Vec<String> = Vec::new();
    assert(texts(words@) =~= Seq::empty());
    push_prefixed(&mut words, "-L ", &out.library_paths);
    push_prefixed(&mut words, "-l ", &out.library_links);
    push_link_args(&mut words, &out.linker_args);
    push_prefixed(&mut words, "--cfg ", &out.cfgs);
    push_check_cfgs(&mut words, &out.check_cfgs);
    assert(texts(words@) =~= flag_words(out@));
    words
}

/// `words` in one line, with a blank before each word that follows text.
pub fn in_one_line(words: &Vec<String>) -> (line: String)
    ensures
        line@ == spaced(texts(words@)),
{
    let ghost all = texts(words@);
    let mut line = String::new();
    let mut i: usize = 0;
    assert(all.take(0) =~= Seq::empty());
    while i < words.len()
        invariant
            i <= words.len(),
            all == texts(words@),
            line@ == spaced(all.take(i as int)),
        decreases words.len() - i,
    {
        proof {
            let next = all.take(i + 1);
            assert(next.drop_last() =~= all.take(i as int));
            assert(next.last() == words[i as int]@);
        }
        if line.as_str().unicode_len() != 0 {
            line.append(" ");
        }
        line.append(words[i].as_str());
        i = i + 1;
    }
    assert(all.take(words.len() as int) =~= all);
    line
}

/// The flags that `out` asks for, in one line.
pub fn flags_line(out: &BuildScriptOutput) -> (line: String)
    ensures
        line@ == flag_line(out@),
{
    in_one_line(&flags_of(out))
}

} // verus!
