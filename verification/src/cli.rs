//! What the driver's command line says to the lowering.

use crate::error::{Error, ErrorKind, ErrorView};
use crate::path::{opt_text, path_eq, same_path};
use crate::text::{copy_of, push_text, same_text, texts};
use vstd::prelude::*;

verus! {

/// Whether the program was started by the package manager as its
/// subcommand `ninja`: the first argument after the program's name is that
/// word.
pub open spec fn started_by_cargo(argv: Seq<Seq<char>>) -> bool {
    argv.len() > 1 && argv[1] == "ninja"@
}

/// The test that keeps every argument but the build directory `dir`.
pub open spec fn keeps_cargo_arg(dir: Option<Seq<char>>) -> spec_fn(Seq<char>) -> bool {
    |arg: Seq<char>| !(dir is Some && path_eq(arg, dir->0))
}

/// The arguments that ask the package manager for the build plan: the
/// request itself, and the arguments of the driver after its name and
/// subcommand, without the build directory.
pub open spec fn cargo_args(argv: Seq<Seq<char>>, dir: Option<Seq<char>>) -> Seq<Seq<char>> {
    let skip: int = if started_by_cargo(argv) {
        2
    } else {
        1
    };
    seq!["-Zunstable-options"@, "build"@, "--build-plan"@] + (if argv.len() >= skip {
        argv.skip(skip).filter(keeps_cargo_arg(dir))
    } else {
        Seq::empty()
    })
}

/// The build directory that the command line names.
pub open spec fn named_build_dir(matched: Option<Seq<char>>) -> Result<Seq<char>, ErrorView> {
    match matched {
        Some(dir) => Ok(dir),
        None => Err(ErrorView { kind: ErrorKind::Usage, message: "BUILD_DIR None"@ }),
    }
}

/// Whether the program was started by the package manager as its
/// subcommand `ninja`.
pub fn from_cargo(argv: &Vec<String>) -> (b: bool)
    ensures
        b == started_by_cargo(texts(argv@)),
{
    argv.len() > 1 && same_text(argv[1].as_str(), "ninja")
}

/// The arguments that ask the package manager for the build plan, where
/// `argv` is the command line of the driver and `build_dir` the build
/// directory that it names.
pub fn args_for_cargo(argv: &Vec<String>, build_dir: &Option<String>) -> (r: Vec<String>)
    ensures
        texts(r@) == cargo_args(texts(argv@), opt_text(*build_dir)),
{
    let skip: usize = if from_cargo(argv) {
        2
    } else {
        1
    };
    let mut out: Vec<String> = Vec::new();
    push_text(&mut out, copy_of("-Zunstable-options"));
    push_text(&mut out, copy_of("build"));
    push_text(&mut out, copy_of("--build-plan"));
    let ghost base = texts(out@);
    assert(base =~= seq!["-Zunstable-options"@, "build"@, "--build-plan"@]);
    if argv.len() < skip {
        assert(texts(out@) =~= base + Seq::<Seq<char>>::empty());
        return out;
    }
    let ghost rest = texts(argv@).skip(skip as int);
    let ghost keep = keeps_cargo_arg(opt_text(*build_dir));
    let mut i: usize = skip;
    proof {
        reveal(Seq::filter);
        assert(rest.take(0) =~= Seq::empty());
        assert(texts(out@) =~= base + rest.take(0).filter(keep));
    }
    while i < argv.len()
        invariant
            skip <= i <= argv.len(),
            rest == texts(argv@).skip(skip as int),
            keep == keeps_cargo_arg(opt_text(*build_dir)),
            texts(out@) == base + rest.take(i - skip).filter(keep),
        decreases argv.len() - i,
    {
        proof {
            reveal(Seq::filter);
            let next = rest.take(i - skip + 1);
            assert(next.drop_last() =~= rest.take(i - skip));
            assert(next.last() == argv[i as int]@);
        }
        let is_dir = match build_dir {
            Some(dir) => same_path(argv[i].as_str(), dir.as_str()),
            None => false,
        };
        if !is_dir {
            let ghost kept = rest.take(i - skip).filter(keep);
            push_text(&mut out, argv[i].clone());
            assert(texts(out@) =~= base + kept.push(argv[i as int]@));
        }
        i = i + 1;
    }
    assert(rest.take(argv.len() - skip) =~= rest);
    out
}

/// The build directory that the command line names, where `matched` is the
/// value that the command line gives to `BUILD_DIR`.
pub fn build_dir(matched: Option<String>) -> (r: Result<String, Error>)
    ensures
        r matches Ok(dir) ==> named_build_dir(opt_text(matched)) == Ok::<Seq<char>, ErrorView>(
            dir@,
        ),
        r matches Err(e) ==> named_build_dir(opt_text(matched)) == Err::<Seq<char>, ErrorView>(
            e@,
        ),
{
    match matched {
        Some(dir) => Ok(dir),
        None => Err(Error::new(ErrorKind::Usage, copy_of("BUILD_DIR None"))),
    }
}

} // verus!
