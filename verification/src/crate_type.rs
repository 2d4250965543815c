//! The form of artifact that a library target produces.

use crate::text::{copy_of, same_text};
use vstd::prelude::*;

verus! {

/// A crate type, as the compiler's `--crate-type` option names it.
#[derive(Clone, Debug, Hash, PartialEq, Eq, PartialOrd, Ord)]
pub enum CrateType {
    Bin,
    Lib,
    Rlib,
    Dylib,
    Cdylib,
    Staticlib,
    ProcMacro,
    Other(String),
}

/// A crate type as a mathematical value.
pub enum CrateTypeView {
    Bin,
    Lib,
    Rlib,
    Dylib,
    Cdylib,
    Staticlib,
    ProcMacro,
    Other(Seq<char>),
}

impl View for CrateType {
    type V = CrateTypeView;

    open spec fn view(&self) -> CrateTypeView {
        match self {
            CrateType::Bin => CrateTypeView::Bin,
            CrateType::Lib => CrateTypeView::Lib,
            CrateType::Rlib => CrateTypeView::Rlib,
            CrateType::Dylib => CrateTypeView::Dylib,
            CrateType::Cdylib => CrateTypeView::Cdylib,
            CrateType::Staticlib => CrateTypeView::Staticlib,
            CrateType::ProcMacro => CrateTypeView::ProcMacro,
            CrateType::Other(name) => CrateTypeView::Other(name@),
        }
    }
}

impl CrateTypeView {
    /// The crate type that the compiler calls `name`.
    pub open spec fn named(name: Seq<char>) -> CrateTypeView {
        if name == "bin"@ {
            CrateTypeView::Bin
        } else if name == "lib"@ {
            CrateTypeView::Lib
        } else if name == "rlib"@ {
            CrateTypeView::Rlib
        } else if name == "dylib"@ {
            CrateTypeView::Dylib
        } else if name == "cdylib"@ {
            CrateTypeView::Cdylib
        } else if name == "staticlib"@ {
            CrateTypeView::Staticlib
        } else if name == "proc-macro"@ {
            CrateTypeView::ProcMacro
        } else {
            CrateTypeView::Other(name)
        }
    }

    /// What the compiler calls the crate type.
    pub open spec fn name(self) -> Seq<char> {
        match self {
            CrateTypeView::Bin => "bin"@,
            CrateTypeView::Lib => "lib"@,
            CrateTypeView::Rlib => "rlib"@,
            CrateTypeView::Dylib => "dylib"@,
            CrateTypeView::Cdylib => "cdylib"@,
            CrateTypeView::Staticlib => "staticlib"@,
            CrateTypeView::ProcMacro => "proc-macro"@,
            CrateTypeView::Other(name) => name,
        }
    }

    /// Whether a Rust crate can link against an artifact of this type.
    pub open spec fn linkable(self) -> bool {
        self is Lib || self is Rlib || self is Dylib || self is ProcMacro
    }

    /// Whether producing an artifact of this type needs the object files of
    /// its dependencies: every type but `rlib` does.
    pub open spec fn needs_upstream_objects(self) -> bool {
        !(self is Rlib)
    }
}

impl CrateType {
    /// The crate type that the compiler calls `name`. A name that the
    /// compiler does not define is kept as it is.
    pub fn new(name: &str) -> (t: CrateType)
        ensures
            t@ == CrateTypeView::named(name@),
            t@.name() == name@,
    {
        if same_text(name, "bin") {
            CrateType::Bin
        } else if same_text(name, "lib") {
            CrateType::Lib
        } else if same_text(name, "rlib") {
            CrateType::Rlib
        } else if same_text(name, "dylib") {
            CrateType::Dylib
        } else if same_text(name, "cdylib") {
            CrateType::Cdylib
        } else if same_text(name, "staticlib") {
            CrateType::Staticlib
        } else if same_text(name, "proc-macro") {
            CrateType::ProcMacro
        } else {
            CrateType::Other(copy_of(name))
        }
    }

    /// The argument that selects this crate type on the compiler's command
    /// line.
    pub fn rustc_arg(&self) -> (s: String)
        ensures
            s@ == self@.name(),
    {
        match self {
            CrateType::Bin => copy_of("bin"),
            CrateType::Lib => copy_of("lib"),
            CrateType::Rlib => copy_of("rlib"),
            CrateType::Dylib => copy_of("dylib"),
            CrateType::Cdylib => copy_of("cdylib"),
            CrateType::Staticlib => copy_of("staticlib"),
            CrateType::ProcMacro => copy_of("proc-macro"),
            CrateType::Other(name) => name.clone(),
        }
    }

    /// Whether a Rust crate can link against an artifact of this type.
    pub fn is_linkable(&self) -> (b: bool)
        ensures
            b == self@.linkable(),
    {
        match self {
            CrateType::Lib | CrateType::Rlib | CrateType::Dylib | CrateType::ProcMacro => true,
            CrateType::Bin | CrateType::Cdylib | CrateType::Staticlib | CrateType::Other(_) => false,
        }
    }

    /// Whether producing an artifact of this type needs the object files of
    /// its dependencies.
    pub fn requires_upstream_objects(&self) -> (b: bool)
        ensures
            b == self@.needs_upstream_objects(),
    {
        match self {
            CrateType::Rlib => false,
            _ => true,
        }
    }

    /// Whether `self` and `other` are the same crate type.
    pub fn same(&self, other: &CrateType) -> (b: bool)
        ensures
            b == (self@ == other@),
    {
        match (self, other) {
            (CrateType::Bin, CrateType::Bin) => true,
            (CrateType::Lib, CrateType::Lib) => true,
            (CrateType::Rlib, CrateType::Rlib) => true,
            (CrateType::Dylib, CrateType::Dylib) => true,
            (CrateType::Cdylib, CrateType::Cdylib) => true,
            (CrateType::Staticlib, CrateType::Staticlib) => true,
            (CrateType::ProcMacro, CrateType::ProcMacro) => true,
            (CrateType::Other(a), CrateType::Other(b)) => same_text(a.as_str(), b.as_str()),
            _ => false,
        }
    }

    /// A copy of this crate type.
    pub fn duplicate(&self) -> (t: CrateType)
        ensures
            t@ == self@,
    {
        match self {
            CrateType::Bin => CrateType::Bin,
            CrateType::Lib => CrateType::Lib,
            CrateType::Rlib => CrateType::Rlib,
            CrateType::Dylib => CrateType::Dylib,
            CrateType::Cdylib => CrateType::Cdylib,
            CrateType::Staticlib => CrateType::Staticlib,
            CrateType::ProcMacro => CrateType::ProcMacro,
            CrateType::Other(name) => CrateType::Other(name.clone()),
        }
    }
}

} // verus!
