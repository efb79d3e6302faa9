//! Parsed command-line surface: the subcommands and their options.
//!
//! Argument parsing itself happens outside the library; these types are the
//! validated result it hands over.

use vstd::prelude::*;

verus! {

/// The configuration file used when none is named on the command line.
pub const DEFAULT_TARS_CONFIG_FILE: &'static str = "tars.toml";

/// The whole parsed command line.
pub struct Args {
    pub subcommand: TarsSubcommand,
}

/// One subcommand with its options.
pub enum TarsSubcommand {
    Init(InitArgs),
    Build(BuildArgs),
    Clean(CleanArgs),
    Serve(ServeArgs),
    Plugin(PluginArgs),
}

/// Options of `init`: create a fresh project skeleton.
pub struct InitArgs {
    /// Allow writing into a non-empty directory.
    pub force: bool,
    /// Directory in which the project is created.
    pub path: String,
}

/// Options of `build`: run one full build.
pub struct BuildArgs {
    pub config: String,
    /// Disable plugin integrity verification for this build.
    pub skip_verify: bool,
}

/// Options of `clean`: remove the output directory.
pub struct CleanArgs {
    pub config: String,
}

/// Options of `serve`: build, watch and serve with live reload.
pub struct ServeArgs {
    pub config: String,
}

/// Options of `plugin`: inspect the plugin manifest and executables.
pub struct PluginArgs {
    pub config: String,
    /// Plugin directory override; the configured directory when absent.
    pub dir: Option<String>,
    pub command: PluginCommand,
}

/// The `plugin` subcommand's actions.
pub enum PluginCommand {
    /// List the plugins declared in the manifest.
    List,
    /// Recompute every declared plugin's digest and compare it to the manifest.
    Verify,
    /// Print the content digest of one plugin executable.
    Hash { name: String },
}

impl Default for InitArgs {
    fn default() -> (r: Self)
        ensures
            !r.force,
            r.path@ == "."@,
    {
        InitArgs { force: false, path: String::from_str(".") }
    }
}

impl Default for BuildArgs {
    fn default() -> (r: Self)
        ensures
            r.config@ == DEFAULT_TARS_CONFIG_FILE@,
            !r.skip_verify,
    {
        BuildArgs { config: String::from_str(DEFAULT_TARS_CONFIG_FILE), skip_verify: false }
    }
}

impl Default for CleanArgs {
    fn default() -> (r: Self)
        ensures
            r.config@ == DEFAULT_TARS_CONFIG_FILE@,
    {
        CleanArgs { config: String::from_str(DEFAULT_TARS_CONFIG_FILE) }
    }
}

impl Default for ServeArgs {
    fn default() -> (r: Self)
        ensures
            r.config@ == DEFAULT_TARS_CONFIG_FILE@,
    {
        ServeArgs { config: String::from_str(DEFAULT_TARS_CONFIG_FILE) }
    }
}

impl Default for PluginArgs {
    fn default() -> (r: Self)
        ensures
            r.config@ == DEFAULT_TARS_CONFIG_FILE@,
            r.dir is None,
            r.command is List,
    {
        PluginArgs {
            config: String::from_str(DEFAULT_TARS_CONFIG_FILE),
            dir: None,
            command: PluginCommand::List,
        }
    }
}

} // verus!
