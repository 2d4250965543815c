//! Lowering of a package manager's build plan into a file-level build graph.
//!
//! A build plan lists every tool invocation that a build needs, with the
//! edges between them. This crate turns such a plan into the rules and build
//! edges of a graph for a file-level build executor:
//!
//! - [`build_plan`] and [`crate_type`] hold the plan model;
//! - [`custom_build`] reads what build scripts print and folds it into the
//!   commands of the invocations that depend on them, and [`flags`] shows
//!   the flags of one script output in one line;
//! - [`lower`] gives the part of the graph of one invocation, and [`graph`]
//!   the graph of a plan;
//! - [`ninja`] holds the graph itself;
//! - [`rustc_config`] holds the grammar of the compiler's command line and
//!   names the source file that `clap` finds on it;
//! - [`path`], [`quote`] and [`text`] hold what the others need of paths,
//!   shell quoting and text;
//! - [`laws`] and [`parse_laws`] state what holds of every lowering and of
//!   every instruction of a build script.
//!
//! Every function carries a contract over a mathematical view of its
//! arguments and its result, and Verus proves the functions against their
//! contracts.

pub mod build_plan;
pub mod cli;
pub mod crate_type;
pub mod custom_build;
pub mod error;
pub mod flags;
pub mod graph;
pub mod laws;
pub mod lower;
pub mod ninja;
pub mod parse_laws;
pub mod path;
pub mod quote;
pub mod rust_version;
pub mod rustc_config;
pub mod text;
