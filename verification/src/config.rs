//! Typed, validated configuration: site metadata, build paths, serve
//! address and the plugin manifest. Pure data with field-by-field
//! defaulting, so a minimal or empty configuration file is valid.

use vstd::prelude::*;

use crate::plugin::Plugin;
use crate::plugin::PluginV;

verus! {

/// Site metadata shown to templates.
pub struct Site {
    pub title: Option<String>,
    pub base_url: Option<String>,
    pub author: Option<String>,
    pub description: Option<String>,
    /// Template used by pages whose frontmatter names none.
    pub default_template: String,
}

/// Build paths and switches. All directory paths are interpreted relative
/// to the process working directory at load time.
pub struct Build {
    pub content_dir: String,
    pub template_dir: String,
    pub static_dir: String,
    pub build_dir: String,
    pub plugin_dir: String,
    /// Directory name under the output root that receives the static tree.
    pub static_prefix: String,
    pub include_drafts: bool,
    /// Configuration-level switch that disables plugin integrity checks.
    pub skip_verify: bool,
}

/// Address the development server listens on.
pub struct Serve {
    pub host: String,
    pub port: u16,
}

/// The whole configuration: site settings, build paths, serve address,
/// the ordered plugin manifest, and the path the configuration itself
/// was loaded from (needed to copy it into the build sandbox).
pub struct Config {
    pub site: Site,
    pub build: Build,
    pub serve: Serve,
    pub plugins: Vec<Plugin>,
    pub path: String,
}

pub fn default_template_name() -> (r: String)
    ensures
        r@ == "default.html"@,
{
    String::from_str("default.html")
}

pub fn default_content_dir() -> (r: String)
    ensures
        r@ == "content"@,
{
    String::from_str("content")
}

pub fn default_static_dir() -> (r: String)
    ensures
        r@ == "static"@,
{
    String::from_str("static")
}

pub fn default_template_dir() -> (r: String)
    ensures
        r@ == "template"@,
{
    String::from_str("template")
}

pub fn default_build_dir() -> (r: String)
    ensures
        r@ == "build"@,
{
    String::from_str("build")
}

pub fn default_plugin_dir() -> (r: String)
    ensures
        r@ == "plugins"@,
{
    String::from_str("plugins")
}

pub fn default_static_prefix() -> (r: String)
    ensures
        r@ == "static"@,
{
    String::from_str("static")
}

pub fn default_serve_host() -> (r: String)
    ensures
        r@ == "127.0.0.1"@,
{
    String::from_str("127.0.0.1")
}

impl Default for Site {
    fn default() -> (r: Self)
        ensures
            r.title is None,
            r.base_url is None,
            r.author is None,
            r.description is None,
            r.default_template@ == "default.html"@,
    {
        Site {
            title: None,
            base_url: None,
            author: None,
            description: None,
            default_template: default_template_name(),
        }
    }
}

impl Default for Build {
    fn default() -> (r: Self)
        ensures
            r.content_dir@ == "content"@,
            r.template_dir@ == "template"@,
            r.static_dir@ == "static"@,
            r.build_dir@ == "build"@,
            r.plugin_dir@ == "plugins"@,
            r.static_prefix@ == "static"@,
            !r.include_drafts,
            !r.skip_verify,
    {
        Build {
            content_dir: default_content_dir(),
            template_dir: default_template_dir(),
            static_dir: default_static_dir(),
            build_dir: default_build_dir(),
            plugin_dir: default_plugin_dir(),
            static_prefix: default_static_prefix(),
            include_drafts: false,
            skip_verify: false,
        }
    }
}

impl Default for Serve {
    fn default() -> (r: Self)
        ensures
            r.host@ == "127.0.0.1"@,
            r.port == 8080u16,
    {
        Serve { host: default_serve_host(), port: 8080 }
    }
}

impl Default for Config {
    fn default() -> (r: Self)
        ensures
            r.site.title is None,
            r.site.base_url is None,
            r.site.author is None,
            r.site.description is None,
            r.site.default_template@ == "default.html"@,
            r.build.content_dir@ == "content"@,
            r.build.template_dir@ == "template"@,
            r.build.static_dir@ == "static"@,
            r.build.build_dir@ == "build"@,
            r.build.plugin_dir@ == "plugins"@,
            r.build.static_prefix@ == "static"@,
            !r.build.include_drafts,
            !r.build.skip_verify,
            r.serve.host@ == "127.0.0.1"@,
            r.serve.port == 8080u16,
            r.plugins@.len() == 0,
            r.path@ == "tars.toml"@,
    {
        Config {
            site: Site::default(),
            build: Build::default(),
            serve: Serve::default(),
            plugins: Vec::new(),
            path: String::from_str(crate::args::DEFAULT_TARS_CONFIG_FILE),
        }
    }
}

/// What a configuration file provided, field by field: each setting
/// optional, exactly as the deserializer found it. The plugin manifest is
/// already parsed into entries, in file order.
pub struct ConfigParts {
    pub title: Option<String>,
    pub base_url: Option<String>,
    pub author: Option<String>,
    pub description: Option<String>,
    pub default_template: Option<String>,
    pub content_dir: Option<String>,
    pub template_dir: Option<String>,
    pub static_dir: Option<String>,
    pub build_dir: Option<String>,
    pub plugin_dir: Option<String>,
    pub static_prefix: Option<String>,
    pub include_drafts: Option<bool>,
    pub skip_verify: Option<bool>,
    pub host: Option<String>,
    pub port: Option<u16>,
    pub plugins: Vec<Plugin>,
    pub path: String,
}

/// An optional setting, or its default where the file is silent.
pub open spec fn spec_or_default(given: Option<String>, default: Seq<char>) -> Seq<char> {
    match given {
        Some(s) => s@,
        None => default,
    }
}

fn or_default(given: Option<String>, default: String) -> (r: String)
    ensures
        r@ == spec_or_default(given, default@),
{
    match given {
        Some(s) => s,
        None => default,
    }
}

impl Config {
    /// Builds the configuration from what a file provided, applying each
    /// field's default exactly where the file is silent.
    pub fn from_parts(parts: ConfigParts) -> (r: Config)
        ensures
            r.site.title == parts.title,
            r.site.base_url == parts.base_url,
            r.site.author == parts.author,
            r.site.description == parts.description,
            r.site.default_template@ == spec_or_default(parts.default_template, "default.html"@),
            r.build.content_dir@ == spec_or_default(parts.content_dir, "content"@),
            r.build.template_dir@ == spec_or_default(parts.template_dir, "template"@),
            r.build.static_dir@ == spec_or_default(parts.static_dir, "static"@),
            r.build.build_dir@ == spec_or_default(parts.build_dir, "build"@),
            r.build.plugin_dir@ == spec_or_default(parts.plugin_dir, "plugins"@),
            r.build.static_prefix@ == spec_or_default(parts.static_prefix, "static"@),
            r.build.include_drafts == (parts.include_drafts matches Some(true)),
            r.build.skip_verify == (parts.skip_verify matches Some(true)),
            r.serve.host@ == spec_or_default(parts.host, "127.0.0.1"@),
            r.serve.port == match parts.port {
                Some(p) => p,
                None => 8080u16,
            },
            r.plugins == parts.plugins,
            r.path == parts.path,
    {
        Config {
            site: Site {
                title: parts.title,
                base_url: parts.base_url,
                author: parts.author,
                description: parts.description,
                default_template: or_default(parts.default_template, default_template_name()),
            },
            build: Build {
                content_dir: or_default(parts.content_dir, default_content_dir()),
                template_dir: or_default(parts.template_dir, default_template_dir()),
                static_dir: or_default(parts.static_dir, default_static_dir()),
                build_dir: or_default(parts.build_dir, default_build_dir()),
                plugin_dir: or_default(parts.plugin_dir, default_plugin_dir()),
                static_prefix: or_default(parts.static_prefix, default_static_prefix()),
                include_drafts: match parts.include_drafts {
                    Some(b) => b,
                    None => false,
                },
                skip_verify: match parts.skip_verify {
                    Some(b) => b,
                    None => false,
                },
            },
            serve: Serve {
                host: or_default(parts.host, default_serve_host()),
                port: match parts.port {
                    Some(p) => p,
                    None => 8080,
                },
            },
            plugins: parts.plugins,
            path: parts.path,
        }
    }
}

/// The slice of the configuration the build state machine depends on.
pub struct BuildConfigV {
    pub plugins: Seq<PluginV>,
    pub include_drafts: bool,
    pub default_template: Seq<char>,
}

impl Config {
    /// The build-relevant view of this configuration.
    pub open spec fn build_view(&self) -> BuildConfigV {
        BuildConfigV {
            plugins: self.plugins.deep_view(),
            include_drafts: self.build.include_drafts,
            default_template: self.site.default_template@,
        }
    }
}

} // verus!
