//! Error taxonomy of the build pipeline and the development server.

use vstd::prelude::*;

verus! {

/// Spec-level shape of a [`SiteError`]: names are sequences of characters.
pub enum ErrV {
    Config,
    Io,
    IntegrityMismatch { name: Seq<char> },
    PluginNotFound { name: Seq<char> },
    PluginExecutionFailed { code: i32 },
    PluginNoExitCode { name: Seq<char> },
    TemplateNotFound { name: Seq<char> },
    RenderError { name: Seq<char> },
    Conversion { name: Seq<char> },
    Watch,
    Network,
}

/// One error type for the whole pipeline: configuration loading, filesystem
/// work, plugin integrity and execution, template binding and rendering,
/// content conversion, and the server's watcher and network edges.
#[derive(Debug, Clone)]
pub enum SiteError {
    /// The configuration file is missing or malformed.
    Config,
    /// A filesystem operation failed during copy, walk, read or write.
    Io,
    /// A plugin executable's content digest differs from the trusted
    /// hash in the manifest while verification is enabled.
    IntegrityMismatch { name: String },
    /// The named plugin is not a regular file in the plugin directory.
    PluginNotFound { name: String },
    /// A plugin subprocess exited with a non-zero code.
    PluginExecutionFailed { code: i32 },
    /// A plugin subprocess was terminated by a signal and has no exit code.
    PluginNoExitCode { name: String },
    /// A page names a template that is not in the registry.
    TemplateNotFound { name: String },
    /// The template engine failed while expanding a template for a page.
    RenderError { name: String },
    /// A content file could not be converted.
    Conversion { name: String },
    /// The filesystem watcher failed.
    Watch,
    /// Binding or serving the listening socket failed.
    Network,
}

impl View for SiteError {
    type V = ErrV;

    open spec fn view(&self) -> ErrV {
        match self {
            SiteError::Config => ErrV::Config,
            SiteError::Io => ErrV::Io,
            SiteError::IntegrityMismatch { name } => ErrV::IntegrityMismatch { name: name@ },
            SiteError::PluginNotFound { name } => ErrV::PluginNotFound { name: name@ },
            SiteError::PluginExecutionFailed { code } => ErrV::PluginExecutionFailed {
                code: *code,
            },
            SiteError::PluginNoExitCode { name } => ErrV::PluginNoExitCode { name: name@ },
            SiteError::TemplateNotFound { name } => ErrV::TemplateNotFound { name: name@ },
            SiteError::RenderError { name } => ErrV::RenderError { name: name@ },
            SiteError::Conversion { name } => ErrV::Conversion { name: name@ },
            SiteError::Watch => ErrV::Watch,
            SiteError::Network => ErrV::Network,
        }
    }
}

impl SiteError {
    /// Short machine-readable label of the error's kind, for logs and tests.
    pub fn kind_label(&self) -> (r: &'static str)
        ensures
            r@ == match self@ {
                ErrV::Config => "config"@,
                ErrV::Io => "io"@,
                ErrV::IntegrityMismatch { .. } => "integrity_mismatch"@,
                ErrV::PluginNotFound { .. } => "plugin_not_found"@,
                ErrV::PluginExecutionFailed { .. } => "plugin_execution_failed"@,
                ErrV::PluginNoExitCode { .. } => "plugin_no_exit_code"@,
                ErrV::TemplateNotFound { .. } => "template_not_found"@,
                ErrV::RenderError { .. } => "render_error"@,
                ErrV::Conversion { .. } => "conversion"@,
                ErrV::Watch => "watch"@,
                ErrV::Network => "network"@,
            },
    {
        match self {
            SiteError::Config => "config",
            SiteError::Io => "io",
            SiteError::IntegrityMismatch { .. } => "integrity_mismatch",
            SiteError::PluginNotFound { .. } => "plugin_not_found",
            SiteError::PluginExecutionFailed { .. } => "plugin_execution_failed",
            SiteError::PluginNoExitCode { .. } => "plugin_no_exit_code",
            SiteError::TemplateNotFound { .. } => "template_not_found",
            SiteError::RenderError { .. } => "render_error",
            SiteError::Conversion { .. } => "conversion",
            SiteError::Watch => "watch",
            SiteError::Network => "network",
        }
    }
}

} // verus!
