//! Tramp: intercepts invocations of command-line binaries and applies
//! user-declared policy to them.
//!
//! The library holds the interception pipeline: merging of the cascaded
//! configuration, compilation and first-match evaluation of rules, the
//! rewrite strategies with their substitution mini-language, the environment
//! handed to hook scripts, and the hook lifecycle around the real command.
//! Reading files, querying the environment and spawning processes is left to
//! the caller, which feeds the outcomes back in.

pub mod cascade;
pub mod config;
pub mod error;
pub mod hooks;
pub mod lifecycle;
pub mod matcher;
pub mod pattern;
pub mod rewriter;
pub mod text;
