use tars::args::{Args, BuildArgs, CleanArgs, InitArgs, PluginArgs, PluginCommand, ServeArgs, TarsSubcommand};
use tars::config::{Build, Config, ConfigParts, Serve, Site};
use tars::plugin::{parse_hook, HookKind};
use tars::config::{
    default_build_dir, default_content_dir, default_plugin_dir, default_serve_host,
    default_static_dir, default_static_prefix, default_template_dir, default_template_name,
};
use tars::{effective_skip_verify, init_decision, InitDecision};

#[test]
fn default_path_names() {
    assert_eq!(default_template_name(), "default.html");
    assert_eq!(default_content_dir(), "content");
    assert_eq!(default_static_dir(), "static");
    assert_eq!(default_template_dir(), "template");
    assert_eq!(default_build_dir(), "build");
    assert_eq!(default_plugin_dir(), "plugins");
    assert_eq!(default_static_prefix(), "static");
    assert_eq!(default_serve_host(), "127.0.0.1");
}

#[test]
fn site_defaults() {
    let s = Site::default();
    assert!(s.title.is_none());
    assert!(s.base_url.is_none());
    assert!(s.author.is_none());
    assert!(s.description.is_none());
    assert_eq!(s.default_template, "default.html");
}

#[test]
fn build_defaults() {
    let b = Build::default();
    assert_eq!(b.content_dir, "content");
    assert_eq!(b.template_dir, "template");
    assert_eq!(b.static_dir, "static");
    assert_eq!(b.build_dir, "build");
    assert_eq!(b.plugin_dir, "plugins");
    assert_eq!(b.static_prefix, "static");
    assert!(!b.include_drafts);
    assert!(!b.skip_verify);
}

#[test]
fn serve_defaults() {
    let s = Serve::default();
    assert_eq!(s.host, "127.0.0.1");
    assert_eq!(s.port, 8080);
}

#[test]
fn config_defaults() {
    let c = Config::default();
    assert_eq!(c.site.default_template, "default.html");
    assert_eq!(c.build.content_dir, "content");
    assert_eq!(c.build.build_dir, "build");
    assert!(!c.build.include_drafts);
    assert!(c.plugins.is_empty());
    assert_eq!(c.path, "tars.toml");
}

#[test]
fn arg_defaults() {
    let i = InitArgs::default();
    assert!(!i.force);
    assert_eq!(i.path, ".");
    let b = BuildArgs::default();
    assert_eq!(b.config, "tars.toml");
    assert!(!b.skip_verify);
    let c = CleanArgs::default();
    assert_eq!(c.config, "tars.toml");
    let s = ServeArgs::default();
    assert_eq!(s.config, "tars.toml");
    let p = PluginArgs::default();
    assert_eq!(p.config, "tars.toml");
    assert!(p.dir.is_none());
    assert!(matches!(p.command, PluginCommand::List));
}

#[test]
fn subcommand_carries_args() {
    let a = Args {
        subcommand: TarsSubcommand::Build(BuildArgs {
            config: String::from("other.toml"),
            skip_verify: true,
        }),
    };
    match a.subcommand {
        TarsSubcommand::Build(b) => {
            assert_eq!(b.config, "other.toml");
            assert!(b.skip_verify);
        },
        _ => panic!("wrong subcommand"),
    }
}

#[test]
fn effective_skip_verify_is_or() {
    assert!(!effective_skip_verify(false, false));
    assert!(effective_skip_verify(true, false));
    assert!(effective_skip_verify(false, true));
    assert!(effective_skip_verify(true, true));
}

#[test]
fn init_decision_cases() {
    assert!(matches!(init_decision(false, false, false), InitDecision::MissingDirectory));
    assert!(matches!(init_decision(false, true, true), InitDecision::MissingDirectory));
    assert!(matches!(init_decision(true, false, false), InitDecision::NotEmpty));
    assert!(matches!(init_decision(true, true, false), InitDecision::Proceed));
    assert!(matches!(init_decision(true, false, true), InitDecision::Proceed));
}

#[test]
fn config_from_parts_applies_defaults_where_silent() {
    let parts = ConfigParts {
        title: Some(String::from("My Site")),
        base_url: None,
        author: None,
        description: None,
        default_template: None,
        content_dir: Some(String::from("posts")),
        template_dir: None,
        static_dir: None,
        build_dir: None,
        plugin_dir: None,
        static_prefix: None,
        include_drafts: Some(true),
        skip_verify: None,
        host: None,
        port: Some(3000),
        plugins: Vec::new(),
        path: String::from("site.toml"),
    };
    let c = Config::from_parts(parts);
    assert_eq!(c.site.title.as_deref(), Some("My Site"));
    assert_eq!(c.site.default_template, "default.html");
    assert_eq!(c.build.content_dir, "posts");
    assert_eq!(c.build.template_dir, "template");
    assert_eq!(c.build.static_prefix, "static");
    assert!(c.build.include_drafts);
    assert!(!c.build.skip_verify);
    assert_eq!(c.serve.host, "127.0.0.1");
    assert_eq!(c.serve.port, 3000);
    assert_eq!(c.path, "site.toml");
}

#[test]
fn parse_hook_accepts_only_pre_and_post() {
    assert!(matches!(parse_hook("pre"), Some(HookKind::Pre)));
    assert!(matches!(parse_hook("post"), Some(HookKind::Post)));
    assert!(parse_hook("after").is_none());
    assert!(parse_hook("").is_none());
    assert!(parse_hook("Pre").is_none());
}
