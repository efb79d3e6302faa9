//! Core logic of a static-site build pipeline: configuration model,
//! plugin integrity checking, page and template handling, the build
//! orchestration state machine, and the development-server loop model.

use vstd::prelude::*;

pub mod args;
pub mod builder;
pub mod config;
pub mod errors;
pub mod frontmatter;
pub mod page;
pub mod plugin;
pub mod serve;
pub mod strings;
pub mod template;

verus! {

/// The effective skip-verification flag is the logical OR of the
/// command-line override and the configuration-level setting.
pub fn effective_skip_verify(cli_flag: bool, config_flag: bool) -> (r: bool)
    ensures
        r == (cli_flag || config_flag),
{
    cli_flag || config_flag
}

/// Whether a fresh project may be initialized in a directory.
pub enum InitDecision {
    /// Create the project skeleton.
    Proceed,
    /// The target directory does not exist.
    MissingDirectory,
    /// The target directory is not empty (or not readable) and overwriting
    /// was not forced.
    NotEmpty,
}

/// Decides whether `init` proceeds: the target directory must exist, and
/// must be empty unless overwriting is forced.
pub fn init_decision(dir_exists: bool, force: bool, dir_empty: bool) -> (r: InitDecision)
    ensures
        r is Proceed <==> (dir_exists && (force || dir_empty)),
        r is MissingDirectory <==> !dir_exists,
        r is NotEmpty <==> (dir_exists && !force && !dir_empty),
{
    if !dir_exists {
        InitDecision::MissingDirectory
    } else if force || dir_empty {
        InitDecision::Proceed
    } else {
        InitDecision::NotEmpty
    }
}

} // verus!
