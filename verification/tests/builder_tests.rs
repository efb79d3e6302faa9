use tars::builder::{
    finish_rendered_page, BuildAction, BuildEvent, BuildPhase, Builder, TemplatesOutcome,
    WriteOutcome, WriteTask,
};
use tars::config::{Build, Config, Serve, Site};
use tars::errors::SiteError;
use tars::page::Page;
use tars::plugin::{digest_hex, HookKind, Plugin};

fn config_with(plugins: Vec<Plugin>, include_drafts: bool) -> Config {
    let mut build = Build::default();
    build.include_drafts = include_drafts;
    Config {
        site: Site::default(),
        build,
        serve: Serve::default(),
        plugins,
        path: String::from("tars.toml"),
    }
}

fn plugin(hook: HookKind, name: &str, hash: &str) -> Plugin {
    Plugin { hook, name: String::from(name), hash: String::from(hash), extra: Vec::new() }
}

fn advance_through_setup(b: &mut Builder) {
    assert!(matches!(b.step(BuildEvent::BuildStarted), BuildAction::PrepareSandbox));
    assert!(matches!(b.step(BuildEvent::SandboxPrepared { ok: true }), BuildAction::CleanOutput));
    assert!(matches!(b.step(BuildEvent::OutputCleaned { ok: true }), BuildAction::CreateStaging));
    assert!(matches!(b.step(BuildEvent::StagingCreated { ok: true }), BuildAction::CopyStatic));
}

#[test]
fn successful_build_without_plugins() {
    let mut b = Builder::new(config_with(Vec::new(), false), false);
    advance_through_setup(&mut b);
    assert!(matches!(b.step(BuildEvent::StaticCopied { ok: true }), BuildAction::LoadTemplates));
    let entries = vec![(String::from("default.html"), String::from("{{ content }}"))];
    assert!(matches!(
        b.step(BuildEvent::TemplatesLoaded { outcome: TemplatesOutcome::Loaded { entries } }),
        BuildAction::LoadPages
    ));
    let pages = vec![
        Page::from_file("content/a.md", "a.md", "---\ntitle: Hello\n---\n# Hi"),
        Page::from_file("content/d.md", "d.md", "---\ndraft: true\n---\nhidden"),
    ];
    let a = b.step(BuildEvent::PagesLoaded { pages: Some(pages) });
    let jobs = match a {
        BuildAction::WritePages { jobs } => jobs,
        _ => panic!("expected a write plan"),
    };
    // Draft filtering: only the non-draft page is planned, at its
    // extension-swapped path, through the registered default template.
    assert_eq!(jobs.len(), 1);
    assert_eq!(jobs[0].out_rel, "a.html");
    assert_eq!(jobs[0].page_index, 0);
    match &jobs[0].task {
        WriteTask::Render { template } => assert_eq!(template, "default.html"),
        _ => panic!("expected a template render"),
    }
    // No post-hooks: writing finishes the pipeline and publishes.
    assert!(matches!(
        b.step(BuildEvent::PagesWritten { outcome: WriteOutcome::Done }),
        BuildAction::PublishOutput
    ));
    assert!(matches!(b.step(BuildEvent::OutputPublished { ok: true }), BuildAction::Halt));
    assert!(matches!(b.phase, BuildPhase::Built));
}

#[test]
fn drafts_included_when_configured() {
    let mut b = Builder::new(config_with(Vec::new(), true), false);
    advance_through_setup(&mut b);
    b.step(BuildEvent::StaticCopied { ok: true });
    b.step(BuildEvent::TemplatesLoaded { outcome: TemplatesOutcome::Loaded { entries: Vec::new() } });
    let pages = vec![Page::from_file("content/d.md", "d.md", "---\ndraft: true\n---\n# D")];
    let a = b.step(BuildEvent::PagesLoaded { pages: Some(pages) });
    let jobs = match a {
        BuildAction::WritePages { jobs } => jobs,
        _ => panic!("expected a write plan"),
    };
    assert_eq!(jobs.len(), 1);
    assert_eq!(jobs[0].out_rel, "d.html");
    // The registry is empty and no template is named: the converted body is
    // written raw.
    match &jobs[0].task {
        WriteTask::Raw { content } => assert!(content.contains("<h1>D</h1>")),
        _ => panic!("expected a raw write"),
    }
}

#[test]
fn pre_hook_integrity_mismatch_aborts_before_pages() {
    let bytes = b"#!/bin/sh\nexit 0\n".to_vec();
    let p = plugin(HookKind::Pre, "gen", "0000000000000000000000000000000000000000000000000000000000000000");
    let mut b = Builder::new(config_with(vec![p], false), false);
    advance_through_setup(&mut b);
    let a = b.step(BuildEvent::StaticCopied { ok: true });
    match a {
        BuildAction::ReadPlugin { name } => assert_eq!(name, "gen"),
        _ => panic!("expected the plugin to be read"),
    }
    // The on-disk digest differs from the manifest hash: abort, naming the
    // plugin, before any template or page is loaded.
    assert!(matches!(b.step(BuildEvent::PluginRead { bytes: Some(bytes) }), BuildAction::Halt));
    match &b.phase {
        BuildPhase::Failed { error: SiteError::IntegrityMismatch { name } } => {
            assert_eq!(name, "gen")
        },
        _ => panic!("expected an integrity mismatch"),
    }
    // Nothing further ever happens.
    assert!(matches!(
        b.step(BuildEvent::TemplatesLoaded { outcome: TemplatesOutcome::Loaded { entries: Vec::new() } }),
        BuildAction::Halt
    ));
    assert!(matches!(
        b.step(BuildEvent::PagesLoaded { pages: Some(Vec::new()) }),
        BuildAction::Halt
    ));
}

#[test]
fn pre_hook_runs_when_hash_matches() {
    let bytes = b"#!/bin/sh\nexit 0\n".to_vec();
    let trusted = digest_hex(&bytes);
    let mut p = plugin(HookKind::Pre, "gen", &trusted);
    p.extra.push((String::from("mode"), String::from("fast")));
    let mut b = Builder::new(config_with(vec![p], false), false);
    advance_through_setup(&mut b);
    b.step(BuildEvent::StaticCopied { ok: true });
    let a = b.step(BuildEvent::PluginRead { bytes: Some(bytes) });
    match a {
        BuildAction::ExecPlugin { hook, idx, name, args } => {
            assert!(matches!(hook, HookKind::Pre));
            assert_eq!(idx, 0);
            assert_eq!(name, "gen");
            assert_eq!(args, vec![String::from("mode=fast")]);
        },
        _ => panic!("expected the plugin to execute"),
    }
    assert!(matches!(
        b.step(BuildEvent::PluginExited { code: Some(0) }),
        BuildAction::LoadTemplates
    ));
}

#[test]
fn skip_verify_runs_plugin_regardless_of_hash() {
    let p = plugin(HookKind::Pre, "gen", "not-a-digest");
    let mut b = Builder::new(config_with(vec![p], false), true);
    advance_through_setup(&mut b);
    b.step(BuildEvent::StaticCopied { ok: true });
    let a = b.step(BuildEvent::PluginRead { bytes: Some(vec![1, 2, 3]) });
    assert!(matches!(a, BuildAction::ExecPlugin { .. }));
}

#[test]
fn missing_plugin_fails_with_not_found() {
    let p = plugin(HookKind::Pre, "gone", "x");
    let mut b = Builder::new(config_with(vec![p], false), true);
    advance_through_setup(&mut b);
    b.step(BuildEvent::StaticCopied { ok: true });
    assert!(matches!(b.step(BuildEvent::PluginRead { bytes: None }), BuildAction::Halt));
    match &b.phase {
        BuildPhase::Failed { error: SiteError::PluginNotFound { name } } => {
            assert_eq!(name, "gone")
        },
        _ => panic!("expected a missing plugin"),
    }
}

#[test]
fn post_hooks_run_in_manifest_order_and_failure_stops_the_rest() {
    let bytes = b"post plugin".to_vec();
    let trusted = digest_hex(&bytes);
    let first = plugin(HookKind::Post, "first", &trusted);
    let second = plugin(HookKind::Post, "second", &trusted);
    let mut b = Builder::new(config_with(vec![first, second], false), false);
    advance_through_setup(&mut b);
    b.step(BuildEvent::StaticCopied { ok: true });
    b.step(BuildEvent::TemplatesLoaded { outcome: TemplatesOutcome::Loaded { entries: Vec::new() } });
    b.step(BuildEvent::PagesLoaded { pages: Some(Vec::new()) });
    // After the pages are written, the first post-hook (manifest order) runs.
    let a = b.step(BuildEvent::PagesWritten { outcome: WriteOutcome::Done });
    match a {
        BuildAction::ReadPlugin { name } => assert_eq!(name, "first"),
        _ => panic!("expected the first post-hook"),
    }
    let a = b.step(BuildEvent::PluginRead { bytes: Some(bytes) });
    match a {
        BuildAction::ExecPlugin { name, idx, .. } => {
            assert_eq!(name, "first");
            assert_eq!(idx, 0);
        },
        _ => panic!("expected the first post-hook to execute"),
    }
    // The first post-hook fails: the build aborts and the second one never
    // executes; in particular nothing is ever published.
    assert!(matches!(b.step(BuildEvent::PluginExited { code: Some(2) }), BuildAction::Halt));
    match &b.phase {
        BuildPhase::Failed { error: SiteError::PluginExecutionFailed { code } } => {
            assert_eq!(*code, 2)
        },
        _ => panic!("expected an execution failure"),
    }
    assert!(matches!(b.step(BuildEvent::PluginRead { bytes: None }), BuildAction::Halt));
    assert!(matches!(b.step(BuildEvent::PluginExited { code: Some(0) }), BuildAction::Halt));
    assert!(matches!(b.step(BuildEvent::OutputPublished { ok: true }), BuildAction::Halt));
    assert!(matches!(b.phase, BuildPhase::Failed { .. }));
}

#[test]
fn post_hook_signal_death_fails_without_exit_code() {
    let bytes = b"post plugin".to_vec();
    let trusted = digest_hex(&bytes);
    let p = plugin(HookKind::Post, "poster", &trusted);
    let mut b = Builder::new(config_with(vec![p], false), false);
    advance_through_setup(&mut b);
    b.step(BuildEvent::StaticCopied { ok: true });
    b.step(BuildEvent::TemplatesLoaded { outcome: TemplatesOutcome::Loaded { entries: Vec::new() } });
    b.step(BuildEvent::PagesLoaded { pages: Some(Vec::new()) });
    b.step(BuildEvent::PagesWritten { outcome: WriteOutcome::Done });
    b.step(BuildEvent::PluginRead { bytes: Some(bytes) });
    assert!(matches!(b.step(BuildEvent::PluginExited { code: None }), BuildAction::Halt));
    match &b.phase {
        BuildPhase::Failed { error: SiteError::PluginNoExitCode { name } } => {
            assert_eq!(name, "poster")
        },
        _ => panic!("expected a signal death"),
    }
}

#[test]
fn explicit_missing_template_aborts() {
    let mut b = Builder::new(config_with(Vec::new(), false), false);
    advance_through_setup(&mut b);
    b.step(BuildEvent::StaticCopied { ok: true });
    b.step(BuildEvent::TemplatesLoaded { outcome: TemplatesOutcome::Loaded { entries: Vec::new() } });
    let pages = vec![Page::from_file("a.md", "a.md", "---\ntemplate: gone.html\n---\nbody")];
    assert!(matches!(
        b.step(BuildEvent::PagesLoaded { pages: Some(pages) }),
        BuildAction::Halt
    ));
    match &b.phase {
        BuildPhase::Failed { error: SiteError::TemplateNotFound { name } } => {
            assert_eq!(name, "gone.html")
        },
        _ => panic!("expected a missing template"),
    }
}

#[test]
fn render_failure_aborts() {
    let mut b = Builder::new(config_with(Vec::new(), false), false);
    advance_through_setup(&mut b);
    b.step(BuildEvent::StaticCopied { ok: true });
    b.step(BuildEvent::TemplatesLoaded { outcome: TemplatesOutcome::Loaded { entries: Vec::new() } });
    b.step(BuildEvent::PagesLoaded { pages: Some(Vec::new()) });
    let a = b.step(BuildEvent::PagesWritten {
        outcome: WriteOutcome::RenderFailed { name: String::from("default.html") },
    });
    assert!(matches!(a, BuildAction::Halt));
    match &b.phase {
        BuildPhase::Failed { error: SiteError::RenderError { name } } => {
            assert_eq!(name, "default.html")
        },
        _ => panic!("expected a render error"),
    }
}

#[test]
fn io_failure_during_setup_aborts() {
    let mut b = Builder::new(config_with(Vec::new(), false), false);
    assert!(matches!(b.step(BuildEvent::BuildStarted), BuildAction::PrepareSandbox));
    assert!(matches!(b.step(BuildEvent::SandboxPrepared { ok: false }), BuildAction::Halt));
    assert!(matches!(b.phase, BuildPhase::Failed { error: SiteError::Io }));
}

#[test]
fn suffix_is_appended_to_raw_pages() {
    let mut b = Builder::new(config_with(Vec::new(), false), false);
    b.set_suffix(String::from("<script>reload()</script>"));
    advance_through_setup(&mut b);
    b.step(BuildEvent::StaticCopied { ok: true });
    b.step(BuildEvent::TemplatesLoaded { outcome: TemplatesOutcome::Loaded { entries: Vec::new() } });
    let pages = vec![Page::from_file("a.md", "a.md", "body")];
    let a = b.step(BuildEvent::PagesLoaded { pages: Some(pages) });
    let jobs = match a {
        BuildAction::WritePages { jobs } => jobs,
        _ => panic!("expected a write plan"),
    };
    match &jobs[0].task {
        WriteTask::Raw { content } => {
            assert!(content.ends_with("<script>reload()</script>"))
        },
        _ => panic!("expected a raw write"),
    }
}

#[test]
fn rebuild_resets_state() {
    let mut b = Builder::new(config_with(Vec::new(), false), false);
    advance_through_setup(&mut b);
    b.step(BuildEvent::StaticCopied { ok: true });
    b.step(BuildEvent::TemplatesLoaded {
        outcome: TemplatesOutcome::Loaded { entries: vec![(String::from("t"), String::from("x"))] },
    });
    let pages = vec![Page::from_file("a.md", "a.md", "body")];
    b.step(BuildEvent::PagesLoaded { pages: Some(pages) });
    assert_eq!(b.pages.len(), 1);
    // A rebuild discards pages and templates and starts over.
    assert!(matches!(b.rebuild(), BuildAction::PrepareSandbox));
    assert!(b.pages.is_empty());
    assert!(matches!(b.phase, BuildPhase::PreparingSandbox));
}

#[test]
fn idempotent_replay_gives_identical_plan() {
    // The same configuration and the same inputs, replayed, produce a
    // byte-identical write plan.
    let run = || {
        let mut b = Builder::new(config_with(Vec::new(), false), false);
        advance_through_setup(&mut b);
        b.step(BuildEvent::StaticCopied { ok: true });
        b.step(BuildEvent::TemplatesLoaded {
            outcome: TemplatesOutcome::Loaded {
                entries: vec![(String::from("default.html"), String::from("{{ content }}"))],
            },
        });
        let pages = vec![
            Page::from_file("content/a.md", "a.md", "---\ntitle: Hello\n---\n# Hi"),
            Page::from_file("content/b.md", "b.md", "plain"),
        ];
        match b.step(BuildEvent::PagesLoaded { pages: Some(pages) }) {
            BuildAction::WritePages { jobs } => jobs
                .iter()
                .map(|j| {
                    let body = match &j.task {
                        WriteTask::Raw { content } => format!("raw:{content}"),
                        WriteTask::Render { template } => format!("render:{template}"),
                    };
                    format!("{}|{}|{}", j.out_rel, j.page_index, body)
                })
                .collect::<Vec<_>>(),
            _ => panic!("expected a write plan"),
        }
    };
    assert_eq!(run(), run());
}

#[test]
fn mismatched_event_changes_nothing() {
    let mut b = Builder::new(config_with(Vec::new(), false), false);
    // Events that do not belong to the current stage are ignored.
    assert!(matches!(
        b.step(BuildEvent::PagesLoaded { pages: Some(Vec::new()) }),
        BuildAction::Halt
    ));
    assert!(matches!(b.step(BuildEvent::OutputPublished { ok: true }), BuildAction::Halt));
    assert!(matches!(b.phase, BuildPhase::Idle));
    assert!(matches!(b.step(BuildEvent::BuildStarted), BuildAction::PrepareSandbox));
}

#[test]
fn publish_failure_fails_the_build() {
    let mut b = Builder::new(config_with(Vec::new(), false), false);
    advance_through_setup(&mut b);
    b.step(BuildEvent::StaticCopied { ok: true });
    b.step(BuildEvent::TemplatesLoaded { outcome: TemplatesOutcome::Loaded { entries: Vec::new() } });
    b.step(BuildEvent::PagesLoaded { pages: Some(Vec::new()) });
    assert!(matches!(
        b.step(BuildEvent::PagesWritten { outcome: WriteOutcome::Done }),
        BuildAction::PublishOutput
    ));
    assert!(matches!(b.step(BuildEvent::OutputPublished { ok: false }), BuildAction::Halt));
    assert!(matches!(b.phase, BuildPhase::Failed { error: SiteError::Io }));
}

#[test]
fn static_copy_failure_aborts_before_hooks() {
    let bytes = b"pre plugin".to_vec();
    let trusted = digest_hex(&bytes);
    let p = plugin(HookKind::Pre, "gen", &trusted);
    let mut b = Builder::new(config_with(vec![p], false), false);
    advance_through_setup(&mut b);
    assert!(matches!(b.step(BuildEvent::StaticCopied { ok: false }), BuildAction::Halt));
    assert!(matches!(b.phase, BuildPhase::Failed { error: SiteError::Io }));
    // The pre-hook never runs.
    assert!(matches!(b.step(BuildEvent::PluginRead { bytes: Some(bytes) }), BuildAction::Halt));
}

#[test]
fn bad_template_at_load_is_a_render_error() {
    let mut b = Builder::new(config_with(Vec::new(), false), false);
    advance_through_setup(&mut b);
    b.step(BuildEvent::StaticCopied { ok: true });
    let a = b.step(BuildEvent::TemplatesLoaded {
        outcome: TemplatesOutcome::BadTemplate { name: String::from("broken.html") },
    });
    assert!(matches!(a, BuildAction::Halt));
    match &b.phase {
        BuildPhase::Failed { error: SiteError::RenderError { name } } => {
            assert_eq!(name, "broken.html")
        },
        _ => panic!("expected a template error"),
    }
}

#[test]
fn template_read_failure_is_an_io_error() {
    let mut b = Builder::new(config_with(Vec::new(), false), false);
    advance_through_setup(&mut b);
    b.step(BuildEvent::StaticCopied { ok: true });
    let a = b.step(BuildEvent::TemplatesLoaded { outcome: TemplatesOutcome::ReadFailed });
    assert!(matches!(a, BuildAction::Halt));
    assert!(matches!(b.phase, BuildPhase::Failed { error: SiteError::Io }));
}

#[test]
fn rendered_pages_get_the_suffix() {
    let full = finish_rendered_page(String::from("<body>x</body>"), "<script>r()</script>");
    assert_eq!(full, "<body>x</body><script>r()</script>");
    assert_eq!(finish_rendered_page(String::from("page"), ""), "page");
}
