//! The build orchestrator, as a state machine. One session drives one
//! build through its stages: prepare the sandbox, clean the real output,
//! create the staging output, copy static assets, run pre-hooks, load
//! templates and pages, render, run post-hooks, publish.
//!
//! The machine decides; the surrounding program performs. Each call of
//! [`Builder::step`] consumes the outcome of the previous action and
//! returns the next action to perform. Every transition is pinned down by
//! [`spec_step`], so the stage ordering, the abort-on-first-failure rule
//! and the publish-last discipline are proved, not promised.

use vstd::prelude::*;

use crate::config::BuildConfigV;
use crate::config::Config;
use crate::errors::ErrV;
use crate::errors::SiteError;
use crate::page::Page;
use crate::page::PageV;
use crate::plugin::HookKind;
use crate::plugin::PluginV;
use crate::plugin::next_hook;
use crate::plugin::plugin_args;
use crate::plugin::resolve_check;
use crate::plugin::exit_outcome;
use crate::plugin::sha256_of;
use crate::plugin::spec_hex_of;
use crate::plugin::spec_next_hook;
use crate::plugin::spec_plugin_args;
use crate::template::TemplateEnvironment;
use crate::template::reg_contains;

verus! {

/// The stage a build session is in. A session moves forward only; any
/// failure jumps to `Failed`, and `Built` and `Failed` are terminal.
pub enum BuildPhase {
    Idle,
    PreparingSandbox,
    CleaningOutput,
    CreatingStaging,
    CopyingStatic,
    /// Awaiting the bytes of the plugin at manifest index `idx`.
    ResolvingHook { hook: HookKind, idx: usize },
    /// Awaiting the exit status of the plugin at manifest index `idx`.
    RunningHook { hook: HookKind, idx: usize },
    LoadingTemplates,
    LoadingPages,
    Rendering,
    Publishing,
    Built,
    Failed { error: SiteError },
}

/// Spec-level shape of a [`BuildPhase`].
pub enum PhaseV {
    Idle,
    PreparingSandbox,
    CleaningOutput,
    CreatingStaging,
    CopyingStatic,
    ResolvingHook { hook: HookKind, idx: int },
    RunningHook { hook: HookKind, idx: int },
    LoadingTemplates,
    LoadingPages,
    Rendering,
    Publishing,
    Built,
    Failed { error: ErrV },
}

impl View for BuildPhase {
    type V = PhaseV;

    open spec fn view(&self) -> PhaseV {
        match self {
            BuildPhase::Idle => PhaseV::Idle,
            BuildPhase::PreparingSandbox => PhaseV::PreparingSandbox,
            BuildPhase::CleaningOutput => PhaseV::CleaningOutput,
            BuildPhase::CreatingStaging => PhaseV::CreatingStaging,
            BuildPhase::CopyingStatic => PhaseV::CopyingStatic,
            BuildPhase::ResolvingHook { hook, idx } => PhaseV::ResolvingHook {
                hook: *hook,
                idx: *idx as int,
            },
            BuildPhase::RunningHook { hook, idx } => PhaseV::RunningHook {
                hook: *hook,
                idx: *idx as int,
            },
            BuildPhase::LoadingTemplates => PhaseV::LoadingTemplates,
            BuildPhase::LoadingPages => PhaseV::LoadingPages,
            BuildPhase::Rendering => PhaseV::Rendering,
            BuildPhase::Publishing => PhaseV::Publishing,
            BuildPhase::Built => PhaseV::Built,
            BuildPhase::Failed { error } => PhaseV::Failed { error: error@ },
        }
    }
}

/// The outcome of performing one action, handed back to the machine.
pub enum BuildEvent {
    /// Begin the build (from `Idle`).
    BuildStarted,
    SandboxPrepared { ok: bool },
    OutputCleaned { ok: bool },
    StagingCreated { ok: bool },
    StaticCopied { ok: bool },
    /// The plugin executable's bytes, or `None` when it is not a regular
    /// readable file in the plugin directory.
    PluginRead { bytes: Option<Vec<u8>> },
    /// The plugin subprocess's exit code; `None` when it was terminated by
    /// a signal.
    PluginExited { code: Option<i32> },
    /// How loading the template tree went.
    TemplatesLoaded { outcome: TemplatesOutcome },
    /// Every content file, already converted into a page record.
    PagesLoaded { pages: Option<Vec<Page>> },
    PagesWritten { outcome: WriteOutcome },
    OutputPublished { ok: bool },
}

/// How loading the template tree went.
pub enum TemplatesOutcome {
    /// Every template of the tree, as `(name, source)`; an absent tree is
    /// an empty list, not a failure.
    Loaded { entries: Vec<(String, String)> },
    /// The tree could not be walked or a file not read.
    ReadFailed,
    /// The engine rejected the named template when it was registered.
    BadTemplate { name: String },
}

/// Spec-level shape of a [`TemplatesOutcome`].
pub enum TemplatesOutcomeV {
    Loaded { entries: Seq<(Seq<char>, Seq<char>)> },
    ReadFailed,
    BadTemplate { name: Seq<char> },
}

impl View for TemplatesOutcome {
    type V = TemplatesOutcomeV;

    open spec fn view(&self) -> TemplatesOutcomeV {
        match self {
            TemplatesOutcome::Loaded { entries } => TemplatesOutcomeV::Loaded {
                entries: entries.deep_view(),
            },
            TemplatesOutcome::ReadFailed => TemplatesOutcomeV::ReadFailed,
            TemplatesOutcome::BadTemplate { name } => TemplatesOutcomeV::BadTemplate {
                name: name@,
            },
        }
    }
}

/// How writing the planned pages went.
pub enum WriteOutcome {
    Done,
    /// The template engine failed while expanding the named template.
    RenderFailed { name: String },
    WriteFailed,
}

/// Spec-level shape of a [`WriteOutcome`].
pub enum WriteOutcomeV {
    Done,
    RenderFailed { name: Seq<char> },
    WriteFailed,
}

impl View for WriteOutcome {
    type V = WriteOutcomeV;

    open spec fn view(&self) -> WriteOutcomeV {
        match self {
            WriteOutcome::Done => WriteOutcomeV::Done,
            WriteOutcome::RenderFailed { name } => WriteOutcomeV::RenderFailed { name: name@ },
            WriteOutcome::WriteFailed => WriteOutcomeV::WriteFailed,
        }
    }
}

/// Spec-level shape of a [`BuildEvent`].
pub enum EvV {
    BuildStarted,
    SandboxPrepared { ok: bool },
    OutputCleaned { ok: bool },
    StagingCreated { ok: bool },
    StaticCopied { ok: bool },
    PluginRead { bytes: Option<Seq<u8>> },
    PluginExited { code: Option<i32> },
    TemplatesLoaded { outcome: TemplatesOutcomeV },
    PagesLoaded { pages: Option<Seq<PageV>> },
    PagesWritten { outcome: WriteOutcomeV },
    OutputPublished { ok: bool },
}

impl View for BuildEvent {
    type V = EvV;

    open spec fn view(&self) -> EvV {
        match self {
            BuildEvent::BuildStarted => EvV::BuildStarted,
            BuildEvent::SandboxPrepared { ok } => EvV::SandboxPrepared { ok: *ok },
            BuildEvent::OutputCleaned { ok } => EvV::OutputCleaned { ok: *ok },
            BuildEvent::StagingCreated { ok } => EvV::StagingCreated { ok: *ok },
            BuildEvent::StaticCopied { ok } => EvV::StaticCopied { ok: *ok },
            BuildEvent::PluginRead { bytes } => EvV::PluginRead { bytes: bytes.deep_view() },
            BuildEvent::PluginExited { code } => EvV::PluginExited { code: *code },
            BuildEvent::TemplatesLoaded { outcome } => EvV::TemplatesLoaded { outcome: outcome@ },
            BuildEvent::PagesLoaded { pages } => EvV::PagesLoaded { pages: pages.deep_view() },
            BuildEvent::PagesWritten { outcome } => EvV::PagesWritten { outcome: outcome@ },
            BuildEvent::OutputPublished { ok } => EvV::OutputPublished { ok: *ok },
        }
    }
}

/// How one planned page is written.
pub enum WriteTask {
    /// Write this exact content (the page body with the configured suffix
    /// already appended).
    Raw { content: String },
    /// Expand the named template over the page's context, append the
    /// session's suffix, and write the result.
    Render { template: String },
}

/// Spec-level shape of a [`WriteTask`].
pub enum TaskV {
    Raw { content: Seq<char> },
    Render { template: Seq<char> },
}

impl View for WriteTask {
    type V = TaskV;

    open spec fn view(&self) -> TaskV {
        match self {
            WriteTask::Raw { content } => TaskV::Raw { content: content@ },
            WriteTask::Render { template } => TaskV::Render { template: template@ },
        }
    }
}

/// One page to write: its output-relative path, the index of its page in
/// the session's page list (for building the render context), and the task.
pub struct WriteJob {
    pub out_rel: String,
    pub page_index: usize,
    pub task: WriteTask,
}

/// Spec-level shape of a [`WriteJob`].
pub struct JobV {
    pub out_rel: Seq<char>,
    pub page_index: int,
    pub task: TaskV,
}

impl View for WriteJob {
    type V = JobV;

    open spec fn view(&self) -> JobV {
        JobV { out_rel: self.out_rel@, page_index: self.page_index as int, task: self.task@ }
    }
}

impl DeepView for WriteJob {
    type V = JobV;

    open spec fn deep_view(&self) -> JobV {
        self.view()
    }
}

/// What the surrounding program must do next. Every action is performed
/// against the sandbox, except `CleanOutput` and `PublishOutput`, which
/// touch the real output directory.
pub enum BuildAction {
    /// Create a fresh scratch directory and copy the content, static and
    /// template trees and the configuration file into it.
    PrepareSandbox,
    /// Remove the pre-existing real output directory.
    CleanOutput,
    /// Create the staging output directory inside the sandbox.
    CreateStaging,
    /// Copy the sandboxed static tree into the staging output under the
    /// configured prefix; an absent tree is success.
    CopyStatic,
    /// Read the named plugin executable's bytes from the plugin directory.
    ReadPlugin { name: String },
    /// Spawn the named plugin with the given `key=value` arguments, with
    /// the sandbox root as its working directory, and await its exit.
    ExecPlugin { hook: HookKind, idx: usize, name: String, args: Vec<String> },
    /// Read every file of the sandboxed template tree.
    LoadTemplates,
    /// Walk the sandboxed content tree, mirror its directories into the
    /// staging output, and convert every file into a page record.
    LoadPages,
    /// Write every planned page into the staging output.
    WritePages { jobs: Vec<WriteJob> },
    /// Copy the staging output into the real output directory. This is the
    /// single go-live moment of a build.
    PublishOutput,
    /// Nothing to perform: the session is finished or failed.
    Halt,
}

/// Spec-level shape of a [`BuildAction`].
pub enum ActionV {
    PrepareSandbox,
    CleanOutput,
    CreateStaging,
    CopyStatic,
    ReadPlugin { name: Seq<char> },
    ExecPlugin { hook: HookKind, idx: int, name: Seq<char>, args: Seq<Seq<char>> },
    LoadTemplates,
    LoadPages,
    WritePages { jobs: Seq<JobV> },
    PublishOutput,
    Halt,
}

impl View for BuildAction {
    type V = ActionV;

    open spec fn view(&self) -> ActionV {
        match self {
            BuildAction::PrepareSandbox => ActionV::PrepareSandbox,
            BuildAction::CleanOutput => ActionV::CleanOutput,
            BuildAction::CreateStaging => ActionV::CreateStaging,
            BuildAction::CopyStatic => ActionV::CopyStatic,
            BuildAction::ReadPlugin { name } => ActionV::ReadPlugin { name: name@ },
            BuildAction::ExecPlugin { hook, idx, name, args } => ActionV::ExecPlugin {
                hook: *hook,
                idx: *idx as int,
                name: name@,
                args: args.deep_view(),
            },
            BuildAction::LoadTemplates => ActionV::LoadTemplates,
            BuildAction::LoadPages => ActionV::LoadPages,
            BuildAction::WritePages { jobs } => ActionV::WritePages { jobs: jobs.deep_view() },
            BuildAction::PublishOutput => ActionV::PublishOutput,
            BuildAction::Halt => ActionV::Halt,
        }
    }
}

/// One build session. Constructed fresh per build; a rebuild discards all
/// in-memory page and template state and starts over.
pub struct Builder {
    pub config: Config,
    /// The effective skip-verification switch: command line OR configuration.
    pub skip_verify: bool,
    /// Appended verbatim to every written page (the development server puts
    /// its reload script here); empty by default.
    pub suffix: String,
    pub phase: BuildPhase,
    pub template_env: TemplateEnvironment,
    pub pages: Vec<Page>,
}

/// Spec-level shape of a [`Builder`] session.
pub struct BuilderV {
    pub cfg: BuildConfigV,
    pub skip_verify: bool,
    pub suffix: Seq<char>,
    pub phase: PhaseV,
    pub templates: Seq<(Seq<char>, Seq<char>)>,
    pub pages: Seq<PageV>,
}

impl View for Builder {
    type V = BuilderV;

    open spec fn view(&self) -> BuilderV {
        BuilderV {
            cfg: self.config.build_view(),
            skip_verify: self.skip_verify,
            suffix: self.suffix@,
            phase: self.phase@,
            templates: self.template_env@,
            pages: self.pages.deep_view(),
        }
    }
}

/// A page is written when drafts are included or it is not a draft.
pub open spec fn spec_keep_page(p: PageV, include_drafts: bool) -> bool {
    include_drafts || !p.meta.draft
}

/// How one kept page renders against the registry: through its explicit
/// template (which must exist), through the site default when the
/// frontmatter names none and the default exists, or raw otherwise.
pub enum RenderDecisionV {
    Raw,
    Render { template: Seq<char> },
    Missing { template: Seq<char> },
}

pub open spec fn spec_render_decision(
    tmpl: Option<Seq<char>>,
    reg: Seq<(Seq<char>, Seq<char>)>,
    default_template: Seq<char>,
) -> RenderDecisionV {
    match tmpl {
        Some(t) => if reg_contains(reg, t) {
            RenderDecisionV::Render { template: t }
        } else {
            RenderDecisionV::Missing { template: t }
        },
        None => if reg_contains(reg, default_template) {
            RenderDecisionV::Render { template: default_template }
        } else {
            RenderDecisionV::Raw
        },
    }
}

/// The explicit template of the first kept page, from index `i` on, that
/// the registry does not hold — the name the build aborts with.
pub open spec fn spec_first_missing(
    pages: Seq<PageV>,
    reg: Seq<(Seq<char>, Seq<char>)>,
    default_template: Seq<char>,
    include_drafts: bool,
    i: int,
) -> Option<Seq<char>>
    decreases pages.len() - i,
{
    if i >= pages.len() {
        None
    } else if spec_keep_page(pages[i], include_drafts) && (spec_render_decision(
        pages[i].meta.template,
        reg,
        default_template,
    ) matches RenderDecisionV::Missing { template }) {
        Some(pages[i].meta.template->0)
    } else {
        spec_first_missing(pages, reg, default_template, include_drafts, i + 1)
    }
}

/// The write plan from index `i` on: one job per kept page, in page order,
/// each at the page's output-relative path. Raw jobs carry the page body
/// with the suffix appended. Meaningful when no template is missing.
pub open spec fn spec_jobs(
    pages: Seq<PageV>,
    reg: Seq<(Seq<char>, Seq<char>)>,
    default_template: Seq<char>,
    include_drafts: bool,
    suffix: Seq<char>,
    i: int,
) -> Seq<JobV>
    decreases pages.len() - i,
{
    if i >= pages.len() {
        Seq::empty()
    } else {
        let rest = spec_jobs(pages, reg, default_template, include_drafts, suffix, i + 1);
        if spec_keep_page(pages[i], include_drafts) {
            match spec_render_decision(pages[i].meta.template, reg, default_template) {
                RenderDecisionV::Render { template } => seq![
                    JobV {
                        out_rel: pages[i].rel_path,
                        page_index: i,
                        task: TaskV::Render { template },
                    },
                ] + rest,
                RenderDecisionV::Raw => seq![
                    JobV {
                        out_rel: pages[i].rel_path,
                        page_index: i,
                        task: TaskV::Raw { content: pages[i].content + suffix },
                    },
                ] + rest,
                RenderDecisionV::Missing { .. } => rest,
            }
        } else {
            rest
        }
    }
}

/// The session, failed with the given error.
pub open spec fn spec_fail(m: BuilderV, e: ErrV) -> (BuilderV, ActionV) {
    (BuilderV { phase: PhaseV::Failed { error: e }, ..m }, ActionV::Halt)
}

/// Move to the first hook of phase `h` at or after manifest index `from`:
/// ask for its bytes; when none is left, move past the hook stage — to
/// template loading after the pre-hooks, to publish after the post-hooks.
pub open spec fn spec_enter_hooks(m: BuilderV, h: HookKind, from: int) -> (BuilderV, ActionV) {
    let j = spec_next_hook(m.cfg.plugins, from, h);
    if j < m.cfg.plugins.len() {
        (
            BuilderV { phase: PhaseV::ResolvingHook { hook: h, idx: j }, ..m },
            ActionV::ReadPlugin { name: m.cfg.plugins[j].name },
        )
    } else {
        match h {
            HookKind::Pre => (
                BuilderV { phase: PhaseV::LoadingTemplates, ..m },
                ActionV::LoadTemplates,
            ),
            HookKind::Post => (
                BuilderV { phase: PhaseV::Publishing, ..m },
                ActionV::PublishOutput,
            ),
        }
    }
}

/// The transition relation of a build session: from the session and the
/// outcome of the previous action to the new session and the next action.
/// An event that does not belong to the current stage changes nothing.
pub open spec fn spec_step(m: BuilderV, ev: EvV) -> (BuilderV, ActionV) {
    match ev {
        EvV::BuildStarted => {
            if m.phase is Idle {
                (BuilderV { phase: PhaseV::PreparingSandbox, ..m }, ActionV::PrepareSandbox)
            } else {
                (m, ActionV::Halt)
            }
        },
        EvV::SandboxPrepared { ok } => {
            if m.phase is PreparingSandbox {
                if ok {
                    (BuilderV { phase: PhaseV::CleaningOutput, ..m }, ActionV::CleanOutput)
                } else {
                    spec_fail(m, ErrV::Io)
                }
            } else {
                (m, ActionV::Halt)
            }
        },
        EvV::OutputCleaned { ok } => {
            if m.phase is CleaningOutput {
                if ok {
                    (BuilderV { phase: PhaseV::CreatingStaging, ..m }, ActionV::CreateStaging)
                } else {
                    spec_fail(m, ErrV::Io)
                }
            } else {
                (m, ActionV::Halt)
            }
        },
        EvV::StagingCreated { ok } => {
            if m.phase is CreatingStaging {
                if ok {
                    (BuilderV { phase: PhaseV::CopyingStatic, ..m }, ActionV::CopyStatic)
                } else {
                    spec_fail(m, ErrV::Io)
                }
            } else {
                (m, ActionV::Halt)
            }
        },
        EvV::StaticCopied { ok } => {
            if m.phase is CopyingStatic {
                if ok {
                    spec_enter_hooks(m, HookKind::Pre, 0)
                } else {
                    spec_fail(m, ErrV::Io)
                }
            } else {
                (m, ActionV::Halt)
            }
        },
        EvV::PluginRead { bytes } => {
            if m.phase matches PhaseV::ResolvingHook { hook, idx }
                && 0 <= idx < m.cfg.plugins.len() {
                let hook = m.phase->ResolvingHook_hook;
                let idx = m.phase->ResolvingHook_idx;
                let p = m.cfg.plugins[idx];
                match bytes {
                    None => spec_fail(m, ErrV::PluginNotFound { name: p.name }),
                    Some(b) => {
                        if m.skip_verify || spec_hex_of(sha256_of(b)) == p.hash {
                            (
                                BuilderV {
                                    phase: PhaseV::RunningHook { hook, idx },
                                    ..m
                                },
                                ActionV::ExecPlugin {
                                    hook,
                                    idx,
                                    name: p.name,
                                    args: spec_plugin_args(p.extra),
                                },
                            )
                        } else {
                            spec_fail(m, ErrV::IntegrityMismatch { name: p.name })
                        }
                    },
                }
            } else {
                (m, ActionV::Halt)
            }
        },
        EvV::PluginExited { code } => {
            if m.phase matches PhaseV::RunningHook { hook, idx }
                && 0 <= idx < m.cfg.plugins.len() {
                let hook = m.phase->RunningHook_hook;
                let idx = m.phase->RunningHook_idx;
                match code {
                    Some(c) => {
                        if c == 0 {
                            spec_enter_hooks(m, hook, idx + 1)
                        } else {
                            spec_fail(m, ErrV::PluginExecutionFailed { code: c })
                        }
                    },
                    None => spec_fail(
                        m,
                        ErrV::PluginNoExitCode { name: m.cfg.plugins[idx].name },
                    ),
                }
            } else {
                (m, ActionV::Halt)
            }
        },
        EvV::TemplatesLoaded { outcome } => {
            if m.phase is LoadingTemplates {
                match outcome {
                    TemplatesOutcomeV::Loaded { entries } => (
                        BuilderV { templates: entries, phase: PhaseV::LoadingPages, ..m },
                        ActionV::LoadPages,
                    ),
                    TemplatesOutcomeV::ReadFailed => spec_fail(m, ErrV::Io),
                    TemplatesOutcomeV::BadTemplate { name } => spec_fail(
                        m,
                        ErrV::RenderError { name },
                    ),
                }
            } else {
                (m, ActionV::Halt)
            }
        },
        EvV::PagesLoaded { pages } => {
            if m.phase is LoadingPages {
                match pages {
                    Some(ps) => {
                        match spec_first_missing(
                            ps,
                            m.templates,
                            m.cfg.default_template,
                            m.cfg.include_drafts,
                            0,
                        ) {
                            Some(t) => spec_fail(m, ErrV::TemplateNotFound { name: t }),
                            None => (
                                BuilderV { pages: ps, phase: PhaseV::Rendering, ..m },
                                ActionV::WritePages {
                                    jobs: spec_jobs(
                                        ps,
                                        m.templates,
                                        m.cfg.default_template,
                                        m.cfg.include_drafts,
                                        m.suffix,
                                        0,
                                    ),
                                },
                            ),
                        }
                    },
                    None => spec_fail(m, ErrV::Io),
                }
            } else {
                (m, ActionV::Halt)
            }
        },
        EvV::PagesWritten { outcome } => {
            if m.phase is Rendering {
                match outcome {
                    WriteOutcomeV::Done => spec_enter_hooks(m, HookKind::Post, 0),
                    WriteOutcomeV::RenderFailed { name } => spec_fail(
                        m,
                        ErrV::RenderError { name },
                    ),
                    WriteOutcomeV::WriteFailed => spec_fail(m, ErrV::Io),
                }
            } else {
                (m, ActionV::Halt)
            }
        },
        EvV::OutputPublished { ok } => {
            if m.phase is Publishing {
                if ok {
                    (BuilderV { phase: PhaseV::Built, ..m }, ActionV::Halt)
                } else {
                    spec_fail(m, ErrV::Io)
                }
            } else {
                (m, ActionV::Halt)
            }
        },
    }
}

impl Builder {
    /// A fresh session over the given configuration. The effective
    /// skip-verification switch is the command line's OR the
    /// configuration's.
    pub fn new(config: Config, cli_skip_verify: bool) -> (r: Builder)
        ensures
            r@.cfg == config.build_view(),
            r@.skip_verify == (cli_skip_verify || config.build.skip_verify),
            r@.suffix =~= Seq::<char>::empty(),
            r@.phase == PhaseV::Idle,
            r@.templates =~= Seq::<(Seq<char>, Seq<char>)>::empty(),
            r@.pages =~= Seq::<PageV>::empty(),
    {
        let skip_verify = crate::effective_skip_verify(cli_skip_verify, config.build.skip_verify);
        let r = Builder {
            config,
            skip_verify,
            suffix: String::new(),
            phase: BuildPhase::Idle,
            template_env: TemplateEnvironment::new(),
            pages: Vec::new(),
        };
        proof {
            assert(r@.pages =~= Seq::<PageV>::empty());
        }
        r
    }

    /// Sets the suffix appended to every written page — the development
    /// server's reload script.
    pub fn set_suffix(&mut self, suffix: String)
        ensures
            final(self)@ == (BuilderV { suffix: suffix@, ..old(self)@ }),
    {
        self.suffix = suffix;
    }

    /// Discards all in-memory page and template state and starts the build
    /// sequence over from the first stage. There is no incremental reuse
    /// between builds.
    pub fn rebuild(&mut self) -> (a: BuildAction)
        ensures
            final(self)@ == (BuilderV {
                phase: PhaseV::PreparingSandbox,
                templates: Seq::empty(),
                pages: Seq::empty(),
                ..old(self)@
            }),
            a@ == ActionV::PrepareSandbox,
    {
        self.template_env = TemplateEnvironment::new();
        self.pages = Vec::new();
        self.phase = BuildPhase::Idle;
        let a = self.step(BuildEvent::BuildStarted);
        proof {
            assert(final(self)@.pages =~= Seq::<PageV>::empty());
        }
        a
    }

    /// Consumes the outcome of the previous action and returns the next
    /// action, exactly as [`spec_step`] relates them.
    pub fn step(&mut self, ev: BuildEvent) -> (a: BuildAction)
        ensures
            final(self)@ == spec_step(old(self)@, ev@).0,
            a@ == spec_step(old(self)@, ev@).1,
    {
        match ev {
            BuildEvent::BuildStarted => {
                if let BuildPhase::Idle = &self.phase {
                    self.phase = BuildPhase::PreparingSandbox;
                    BuildAction::PrepareSandbox
                } else {
                    BuildAction::Halt
                }
            },
            BuildEvent::SandboxPrepared { ok } => {
                if let BuildPhase::PreparingSandbox = &self.phase {
                    if ok {
                        self.phase = BuildPhase::CleaningOutput;
                        BuildAction::CleanOutput
                    } else {
                        self.phase = BuildPhase::Failed { error: SiteError::Io };
                        BuildAction::Halt
                    }
                } else {
                    BuildAction::Halt
                }
            },
            BuildEvent::OutputCleaned { ok } => {
                if let BuildPhase::CleaningOutput = &self.phase {
                    if ok {
                        self.phase = BuildPhase::CreatingStaging;
                        BuildAction::CreateStaging
                    } else {
                        self.phase = BuildPhase::Failed { error: SiteError::Io };
                        BuildAction::Halt
                    }
                } else {
                    BuildAction::Halt
                }
            },
            BuildEvent::StagingCreated { ok } => {
                if let BuildPhase::CreatingStaging = &self.phase {
                    if ok {
                        self.phase = BuildPhase::CopyingStatic;
                        BuildAction::CopyStatic
                    } else {
                        self.phase = BuildPhase::Failed { error: SiteError::Io };
                        BuildAction::Halt
                    }
                } else {
                    BuildAction::Halt
                }
            },
            BuildEvent::StaticCopied { ok } => {
                if let BuildPhase::CopyingStatic = &self.phase {
                    if ok {
                        self.enter_hooks(HookKind::Pre, 0)
                    } else {
                        self.phase = BuildPhase::Failed { error: SiteError::Io };
                        BuildAction::Halt
                    }
                } else {
                    BuildAction::Halt
                }
            },
            BuildEvent::PluginRead { bytes } => {
                let (hook, idx) = match &self.phase {
                    BuildPhase::ResolvingHook { hook, idx } => (*hook, *idx),
                    _ => {
                        return BuildAction::Halt;
                    },
                };
                if idx >= self.config.plugins.len() {
                    return BuildAction::Halt;
                }
                match bytes {
                    None => {
                        let name = self.config.plugins[idx].name.clone();
                        self.phase = BuildPhase::Failed {
                            error: SiteError::PluginNotFound { name },
                        };
                        BuildAction::Halt
                    },
                    Some(b) => {
                        proof {
                            assert(b.deep_view() =~= b@);
                        }
                        let check = resolve_check(
                            self.config.plugins[idx].name.as_str(),
                            b.as_slice(),
                            self.config.plugins[idx].hash.as_str(),
                            self.skip_verify,
                        );
                        match check {
                            Ok(()) => {
                                let name = self.config.plugins[idx].name.clone();
                                let args = plugin_args(&self.config.plugins[idx]);
                                self.phase = BuildPhase::RunningHook { hook, idx };
                                BuildAction::ExecPlugin { hook, idx, name, args }
                            },
                            Err(e) => {
                                self.phase = BuildPhase::Failed { error: e };
                                BuildAction::Halt
                            },
                        }
                    },
                }
            },
            BuildEvent::PluginExited { code } => {
                let (hook, idx) = match &self.phase {
                    BuildPhase::RunningHook { hook, idx } => (*hook, *idx),
                    _ => {
                        return BuildAction::Halt;
                    },
                };
                if idx >= self.config.plugins.len() {
                    return BuildAction::Halt;
                }
                let outcome = exit_outcome(self.config.plugins[idx].name.as_str(), code);
                match outcome {
                    Ok(()) => self.enter_hooks(hook, idx + 1),
                    Err(e) => {
                        self.phase = BuildPhase::Failed { error: e };
                        BuildAction::Halt
                    },
                }
            },
            BuildEvent::TemplatesLoaded { outcome } => {
                if let BuildPhase::LoadingTemplates = &self.phase {
                    match outcome {
                        TemplatesOutcome::Loaded { entries } => {
                            self.template_env.load_templates(entries);
                            self.phase = BuildPhase::LoadingPages;
                            BuildAction::LoadPages
                        },
                        TemplatesOutcome::ReadFailed => {
                            self.phase = BuildPhase::Failed { error: SiteError::Io };
                            BuildAction::Halt
                        },
                        TemplatesOutcome::BadTemplate { name } => {
                            self.phase = BuildPhase::Failed {
                                error: SiteError::RenderError { name },
                            };
                            BuildAction::Halt
                        },
                    }
                } else {
                    BuildAction::Halt
                }
            },
            BuildEvent::PagesLoaded { pages } => {
                if let BuildPhase::LoadingPages = &self.phase {
                    match pages {
                        Some(ps) => {
                            let missing = self.first_missing_template(&ps);
                            match missing {
                                Some(name) => {
                                    self.phase = BuildPhase::Failed {
                                        error: SiteError::TemplateNotFound { name },
                                    };
                                    BuildAction::Halt
                                },
                                None => {
                                    let jobs = self.make_jobs(&ps);
                                    self.pages = ps;
                                    self.phase = BuildPhase::Rendering;
                                    BuildAction::WritePages { jobs }
                                },
                            }
                        },
                        None => {
                            self.phase = BuildPhase::Failed { error: SiteError::Io };
                            BuildAction::Halt
                        },
                    }
                } else {
                    BuildAction::Halt
                }
            },
            BuildEvent::PagesWritten { outcome } => {
                if let BuildPhase::Rendering = &self.phase {
                    match outcome {
                        WriteOutcome::Done => self.enter_hooks(HookKind::Post, 0),
                        WriteOutcome::RenderFailed { name } => {
                            self.phase = BuildPhase::Failed {
                                error: SiteError::RenderError { name },
                            };
                            BuildAction::Halt
                        },
                        WriteOutcome::WriteFailed => {
                            self.phase = BuildPhase::Failed { error: SiteError::Io };
                            BuildAction::Halt
                        },
                    }
                } else {
                    BuildAction::Halt
                }
            },
            BuildEvent::OutputPublished { ok } => {
                if let BuildPhase::Publishing = &self.phase {
                    if ok {
                        self.phase = BuildPhase::Built;
                        BuildAction::Halt
                    } else {
                        self.phase = BuildPhase::Failed { error: SiteError::Io };
                        BuildAction::Halt
                    }
                } else {
                    BuildAction::Halt
                }
            },
        }
    }

    fn enter_hooks(&mut self, h: HookKind, from: usize) -> (a: BuildAction)
        requires
            from <= old(self).config.plugins@.len(),
        ensures
            final(self)@ == spec_enter_hooks(old(self)@, h, from as int).0,
            a@ == spec_enter_hooks(old(self)@, h, from as int).1,
    {
        let j = next_hook(&self.config.plugins, from, h);
        if j < self.config.plugins.len() {
            let name = self.config.plugins[j].name.clone();
            self.phase = BuildPhase::ResolvingHook { hook: h, idx: j };
            BuildAction::ReadPlugin { name }
        } else {
            match h {
                HookKind::Pre => {
                    self.phase = BuildPhase::LoadingTemplates;
                    BuildAction::LoadTemplates
                },
                HookKind::Post => {
                    self.phase = BuildPhase::Publishing;
                    BuildAction::PublishOutput
                },
            }
        }
    }

    fn first_missing_template(&self, ps: &Vec<Page>) -> (r: Option<String>)
        ensures
            r.deep_view() == spec_first_missing(
                ps.deep_view(),
                self@.templates,
                self@.cfg.default_template,
                self@.cfg.include_drafts,
                0,
            ),
    {
        let mut i: usize = 0;
        while i < ps.len()
            invariant
                i <= ps@.len(),
                spec_first_missing(
                    ps.deep_view(),
                    self@.templates,
                    self@.cfg.default_template,
                    self@.cfg.include_drafts,
                    0,
                ) == spec_first_missing(
                    ps.deep_view(),
                    self@.templates,
                    self@.cfg.default_template,
                    self@.cfg.include_drafts,
                    i as int,
                ),
            decreases ps@.len() - i,
        {
            let keep = self.config.build.include_drafts || !ps[i].meta.draft;
            if keep {
                if let Some(t) = &ps[i].meta.template {
                    if !self.template_env.contains_template(t.as_str()) {
                        return Some(t.clone());
                    }
                }
            }
            i += 1;
        }
        None
    }

    fn make_jobs(&self, ps: &Vec<Page>) -> (r: Vec<WriteJob>)
        requires
            spec_first_missing(
                ps.deep_view(),
                self@.templates,
                self@.cfg.default_template,
                self@.cfg.include_drafts,
                0,
            ) is None,
        ensures
            r.deep_view() == spec_jobs(
                ps.deep_view(),
                self@.templates,
                self@.cfg.default_template,
                self@.cfg.include_drafts,
                self@.suffix,
                0,
            ),
    {
        let ghost reg = self@.templates;
        let ghost dt = self@.cfg.default_template;
        let ghost drafts = self@.cfg.include_drafts;
        let ghost sfx = self@.suffix;
        let mut out: Vec<WriteJob> = Vec::new();
        let mut i: usize = 0;
        proof {
            assert(out.deep_view() =~= Seq::<JobV>::empty());
        }
        while i < ps.len()
            invariant
                i <= ps@.len(),
                reg == self@.templates,
                dt == self@.cfg.default_template,
                drafts == self@.cfg.include_drafts,
                sfx == self@.suffix,
                spec_first_missing(ps.deep_view(), reg, dt, drafts, i as int) is None,
                spec_jobs(ps.deep_view(), reg, dt, drafts, sfx, 0) == out.deep_view()
                    + spec_jobs(ps.deep_view(), reg, dt, drafts, sfx, i as int),
            decreases ps@.len() - i,
        {
            let ghost pv = ps.deep_view()[i as int];
            let keep = self.config.build.include_drafts || !ps[i].meta.draft;
            if keep {
                let job: WriteJob = match &ps[i].meta.template {
                    Some(t) => {
                        let present = self.template_env.contains_template(t.as_str());
                        assert(present) by {
                            assert(spec_first_missing(ps.deep_view(), reg, dt, drafts, i as int)
                                is None);
                        }
                        WriteJob {
                            out_rel: ps[i].rel_path.clone(),
                            page_index: i,
                            task: WriteTask::Render { template: t.clone() },
                        }
                    },
                    None => {
                        if self.template_env.contains_template(
                            self.config.site.default_template.as_str(),
                        ) {
                            WriteJob {
                                out_rel: ps[i].rel_path.clone(),
                                page_index: i,
                                task: WriteTask::Render {
                                    template: self.config.site.default_template.clone(),
                                },
                            }
                        } else {
                            let mut content = ps[i].content.clone();
                            content.append(self.suffix.as_str());
                            WriteJob {
                                out_rel: ps[i].rel_path.clone(),
                                page_index: i,
                                task: WriteTask::Raw { content },
                            }
                        }
                    },
                };
                proof {
                    assert(job@ == spec_jobs(ps.deep_view(), reg, dt, drafts, sfx, i as int)[0]);
                }
                out.push(job);
                proof {
                    assert(spec_jobs(ps.deep_view(), reg, dt, drafts, sfx, i as int)
                        =~= seq![out.deep_view().last()] + spec_jobs(
                        ps.deep_view(),
                        reg,
                        dt,
                        drafts,
                        sfx,
                        i as int + 1,
                    ));
                    assert(out.deep_view() + spec_jobs(
                        ps.deep_view(),
                        reg,
                        dt,
                        drafts,
                        sfx,
                        i as int + 1,
                    ) =~= spec_jobs(ps.deep_view(), reg, dt, drafts, sfx, 0));
                }
            }
            i += 1;
        }
        proof {
            assert(out.deep_view() + spec_jobs(
                ps.deep_view(),
                reg,
                dt,
                drafts,
                sfx,
                ps@.len() as int,
            ) =~= out.deep_view());
        }
        out
    }
}

/// The final text of a rendered page: the engine's output with the
/// session's suffix appended — rendered pages get the suffix by the same
/// rule raw pages do.
pub fn finish_rendered_page(rendered: String, suffix: &str) -> (r: String)
    ensures
        r@ == rendered@ + suffix@,
{
    let mut out = rendered;
    out.append(suffix);
    out
}

/// The session after consuming a sequence of events, one step per event.
pub open spec fn spec_run(m: BuilderV, evs: Seq<EvV>) -> BuilderV
    decreases evs.len(),
{
    if evs.len() == 0 {
        m
    } else {
        spec_run(spec_step(m, evs[0]).0, evs.drop_first())
    }
}

/// The actions a session issues while consuming a sequence of events.
pub open spec fn spec_run_actions(m: BuilderV, evs: Seq<EvV>) -> Seq<ActionV>
    decreases evs.len(),
{
    if evs.len() == 0 {
        Seq::empty()
    } else {
        seq![spec_step(m, evs[0]).1] + spec_run_actions(spec_step(m, evs[0]).0, evs.drop_first())
    }
}

/// A finished or failed session never changes again and never issues
/// another action: a stage failure aborts every remaining stage, and no
/// stage is retried.
pub proof fn lemma_terminal_stays(m: BuilderV, evs: Seq<EvV>)
    requires
        m.phase is Built || m.phase is Failed,
    ensures
        spec_run(m, evs) == m,
        spec_run_actions(m, evs).len() == evs.len(),
        forall|k: int| 0 <= k < evs.len() ==> spec_run_actions(m, evs)[k] == ActionV::Halt,
    decreases evs.len(),
{
    if evs.len() > 0 {
        assert(spec_step(m, evs[0]).0 == m && spec_step(m, evs[0]).1 == ActionV::Halt);
        lemma_terminal_stays(m, evs.drop_first());
        assert forall|k: int| 0 <= k < evs.len() implies spec_run_actions(m, evs)[k]
            == ActionV::Halt by {
            if k > 0 {
                assert(spec_run_actions(m, evs)[k] == spec_run_actions(m, evs.drop_first())[k
                    - 1]);
            }
        }
    }
}

/// Atomic publish: when a post-hook exits non-zero (or dies on a signal),
/// the session fails at once and issues nothing further — in particular no
/// `PublishOutput` — so the staged render never goes live and the real
/// output directory never sees a partial render. Note that the pre-existing
/// output was already removed at the clean stage, which deliberately runs
/// before the hooks; a failed build therefore leaves the output directory
/// as the clean stage left it, not as the previous build filled it.
pub proof fn lemma_post_hook_failure_never_publishes(m: BuilderV, ev: EvV, evs: Seq<EvV>)
    requires
        m.phase matches PhaseV::RunningHook { hook: HookKind::Post, idx },
        0 <= m.phase->RunningHook_idx < m.cfg.plugins.len(),
        ev matches EvV::PluginExited { code } && code != Some(0i32),
    ensures
        spec_step(m, ev).0.phase is Failed,
        spec_step(m, ev).1 == ActionV::Halt,
        forall|k: int| 0 <= k < evs.len() ==> spec_run_actions(spec_step(m, ev).0, evs)[k]
            == ActionV::Halt,
{
    lemma_terminal_stays(spec_step(m, ev).0, evs);
}

/// Plugin integrity: when verification is enabled and the on-disk plugin's
/// digest differs from the manifest's trusted hash, the build aborts with
/// `IntegrityMismatch` naming that plugin, before anything else happens —
/// no page is loaded, nothing is written, nothing executes.
pub proof fn lemma_integrity_mismatch_aborts(m: BuilderV, b: Seq<u8>, evs: Seq<EvV>)
    requires
        m.phase matches PhaseV::ResolvingHook { hook, idx },
        0 <= m.phase->ResolvingHook_idx < m.cfg.plugins.len(),
        !m.skip_verify,
        spec_hex_of(sha256_of(b)) != m.cfg.plugins[m.phase->ResolvingHook_idx].hash,
    ensures
        spec_step(m, EvV::PluginRead { bytes: Some(b) }).0.phase == (PhaseV::Failed {
            error: ErrV::IntegrityMismatch {
                name: m.cfg.plugins[m.phase->ResolvingHook_idx].name,
            },
        }),
        spec_step(m, EvV::PluginRead { bytes: Some(b) }).1 == ActionV::Halt,
        forall|k: int| 0 <= k < evs.len() ==> spec_run_actions(
            spec_step(m, EvV::PluginRead { bytes: Some(b) }).0,
            evs,
        )[k] == ActionV::Halt,
{
    lemma_terminal_stays(spec_step(m, EvV::PluginRead { bytes: Some(b) }).0, evs);
}

/// Where a hook phase sits in the build order.
pub open spec fn hook_rank(h: HookKind) -> int {
    match h {
        HookKind::Pre => 0,
        HookKind::Post => 1,
    }
}

/// The position of a phase along the build order, as a pair ordered
/// lexicographically: the band (pre-hook stages, the page pipeline with
/// post-hooks, the end) and the hook index within it.
pub open spec fn phase_key(p: PhaseV) -> (int, int) {
    match p {
        PhaseV::Idle => (0, 0),
        PhaseV::PreparingSandbox => (0, 0),
        PhaseV::CleaningOutput => (0, 0),
        PhaseV::CreatingStaging => (0, 0),
        PhaseV::CopyingStatic => (0, 0),
        PhaseV::ResolvingHook { hook, idx } => (hook_rank(hook), idx),
        PhaseV::RunningHook { hook, idx } => (hook_rank(hook), idx + 1),
        PhaseV::LoadingTemplates => (1, 0),
        PhaseV::LoadingPages => (1, 0),
        PhaseV::Rendering => (1, 0),
        PhaseV::Publishing => (2, 0),
        PhaseV::Built => (2, 0),
        PhaseV::Failed { .. } => (2, 0),
    }
}

pub open spec fn key_le(a: (int, int), b: (int, int)) -> bool {
    a.0 < b.0 || (a.0 == b.0 && a.1 <= b.1)
}

pub open spec fn key_lt(a: (int, int), b: (int, int)) -> bool {
    a.0 < b.0 || (a.0 == b.0 && a.1 < b.1)
}

/// The key of a plugin execution action.
pub open spec fn exec_key(a: ActionV) -> (int, int)
    recommends
        a is ExecPlugin,
{
    (hook_rank(a->ExecPlugin_hook), a->ExecPlugin_idx)
}

proof fn lemma_next_hook_ge(plugins: Seq<PluginV>, from: int, h: HookKind)
    requires
        0 <= from <= plugins.len(),
    ensures
        from <= spec_next_hook(plugins, from, h) <= plugins.len(),
    decreases plugins.len() - from,
{
    if from < plugins.len() && plugins[from].hook != h {
        lemma_next_hook_ge(plugins, from + 1, h);
    }
}

/// One step never moves the session backwards along the build order, and a
/// plugin execution is issued exactly at the current position, after which
/// the position is strictly past it.
pub proof fn lemma_step_key_monotone(m: BuilderV, ev: EvV)
    ensures
        key_le(phase_key(m.phase), phase_key(spec_step(m, ev).0.phase)),
        spec_step(m, ev).1 is ExecPlugin ==> exec_key(spec_step(m, ev).1) == phase_key(m.phase)
            && key_lt(exec_key(spec_step(m, ev).1), phase_key(spec_step(m, ev).0.phase)),
{
    match ev {
        EvV::StaticCopied { ok } => {
            if m.phase is CopyingStatic && ok {
                lemma_next_hook_ge(m.cfg.plugins, 0, HookKind::Pre);
            }
        },
        EvV::PluginExited { code } => {
            if m.phase matches PhaseV::RunningHook { hook, idx } && 0 <= idx
                < m.cfg.plugins.len() && code == Some(0i32) {
                lemma_next_hook_ge(m.cfg.plugins, m.phase->RunningHook_idx + 1,
                    m.phase->RunningHook_hook);
            }
        },
        EvV::PagesWritten { outcome } => {
            if m.phase is Rendering && outcome is Done {
                lemma_next_hook_ge(m.cfg.plugins, 0, HookKind::Post);
            }
        },
        _ => {},
    }
}

/// The action trace is as long as the event sequence: one action per event.
pub proof fn lemma_run_actions_len(m: BuilderV, evs: Seq<EvV>)
    ensures
        spec_run_actions(m, evs).len() == evs.len(),
    decreases evs.len(),
{
    if evs.len() > 0 {
        lemma_run_actions_len(spec_step(m, evs[0]).0, evs.drop_first());
    }
}

/// Every plugin execution in a run is issued at or past the session's
/// starting position.
proof fn lemma_run_exec_ge(m: BuilderV, evs: Seq<EvV>, k: int)
    requires
        0 <= k < evs.len(),
        spec_run_actions(m, evs)[k] is ExecPlugin,
    ensures
        key_le(phase_key(m.phase), exec_key(spec_run_actions(m, evs)[k])),
    decreases evs.len(),
{
    let m1 = spec_step(m, evs[0]).0;
    lemma_run_actions_len(m, evs);
    lemma_run_actions_len(m1, evs.drop_first());
    assert(spec_run_actions(m, evs) == seq![spec_step(m, evs[0]).1] + spec_run_actions(
        m1,
        evs.drop_first(),
    ));
    lemma_step_key_monotone(m, evs[0]);
    if k == 0 {
        assert(spec_run_actions(m, evs)[0] == spec_step(m, evs[0]).1);
    } else {
        assert(spec_run_actions(m, evs)[k] == spec_run_actions(m1, evs.drop_first())[k - 1]);
        lemma_run_exec_ge(m1, evs.drop_first(), k - 1);
    }
}

/// Hook ordering: of two plugin executions in one run, the earlier one has
/// the strictly smaller position — every pre-hook execution precedes every
/// post-hook execution, and within one hook phase executions follow the
/// manifest order strictly. Together with the abort lemmas this pins the
/// hook discipline: hooks run in manifest order and a failed hook stops
/// all later ones.
pub proof fn lemma_hooks_in_manifest_order(m: BuilderV, evs: Seq<EvV>, k1: int, k2: int)
    requires
        0 <= k1 < k2 < evs.len(),
        spec_run_actions(m, evs)[k1] is ExecPlugin,
        spec_run_actions(m, evs)[k2] is ExecPlugin,
    ensures
        key_lt(exec_key(spec_run_actions(m, evs)[k1]), exec_key(spec_run_actions(m, evs)[k2])),
    decreases evs.len(),
{
    let m1 = spec_step(m, evs[0]).0;
    lemma_run_actions_len(m, evs);
    lemma_run_actions_len(m1, evs.drop_first());
    assert(spec_run_actions(m, evs) == seq![spec_step(m, evs[0]).1] + spec_run_actions(
        m1,
        evs.drop_first(),
    ));
    if k1 == 0 {
        lemma_step_key_monotone(m, evs[0]);
        assert(spec_run_actions(m, evs)[0] == spec_step(m, evs[0]).1);
        assert(spec_run_actions(m, evs)[k2] == spec_run_actions(m1, evs.drop_first())[k2 - 1]);
        lemma_run_exec_ge(m1, evs.drop_first(), k2 - 1);
    } else {
        assert(spec_run_actions(m, evs)[k1] == spec_run_actions(m1, evs.drop_first())[k1 - 1]);
        assert(spec_run_actions(m, evs)[k2] == spec_run_actions(m1, evs.drop_first())[k2 - 1]);
        lemma_hooks_in_manifest_order(m1, evs.drop_first(), k1 - 1, k2 - 1);
    }
}

/// The task one kept page renders with: through the decided template, or a
/// raw write of its converted body with the session's suffix appended.
pub open spec fn spec_task_of(
    p: PageV,
    reg: Seq<(Seq<char>, Seq<char>)>,
    default_template: Seq<char>,
    suffix: Seq<char>,
) -> TaskV {
    match spec_render_decision(p.meta.template, reg, default_template) {
        RenderDecisionV::Render { template } => TaskV::Render { template },
        _ => TaskV::Raw { content: p.content + suffix },
    }
}

/// The write plan is exactly the kept pages: every job belongs to a kept
/// page, carries that page's own output-relative path and its decided
/// task, and the jobs follow page order; conversely every kept page from
/// `i` on has a job. With drafts excluded a draft page is kept out; with
/// drafts included every page is in.
pub proof fn lemma_jobs_exact(
    pages: Seq<PageV>,
    reg: Seq<(Seq<char>, Seq<char>)>,
    dt: Seq<char>,
    drafts: bool,
    suffix: Seq<char>,
    i: int,
)
    requires
        0 <= i,
        spec_first_missing(pages, reg, dt, drafts, i) is None,
    ensures
        ({
            let jobs = spec_jobs(pages, reg, dt, drafts, suffix, i);
            &&& forall|k: int|
                0 <= k < jobs.len() ==> i <= #[trigger] jobs[k].page_index < pages.len()
                    && spec_keep_page(pages[jobs[k].page_index], drafts) && jobs[k].out_rel
                    == pages[jobs[k].page_index].rel_path && jobs[k].task == spec_task_of(
                    pages[jobs[k].page_index],
                    reg,
                    dt,
                    suffix,
                )
            &&& forall|k1: int, k2: int|
                0 <= k1 < k2 < jobs.len() ==> #[trigger] jobs[k1].page_index
                    < #[trigger] jobs[k2].page_index
            &&& forall|p: int|
                i <= p < pages.len() && spec_keep_page(#[trigger] pages[p], drafts)
                    ==> exists|k: int| 0 <= k < jobs.len() && #[trigger] jobs[k].page_index == p
        }),
    decreases pages.len() - i,
{
    if i >= pages.len() {
    } else {
        lemma_jobs_exact(pages, reg, dt, drafts, suffix, i + 1);
        let jobs = spec_jobs(pages, reg, dt, drafts, suffix, i);
        let rest = spec_jobs(pages, reg, dt, drafts, suffix, i + 1);
        if spec_keep_page(pages[i], drafts) {
            assert(!(spec_render_decision(pages[i].meta.template, reg, dt)
                matches RenderDecisionV::Missing { .. }));
            assert(jobs.len() == 1 + rest.len());
            assert(jobs[0].page_index == i);
            assert(forall|k: int| 1 <= k < jobs.len() ==> jobs[k] == #[trigger] rest[k - 1]);
            assert forall|p: int|
                i <= p < pages.len() && spec_keep_page(#[trigger] pages[p], drafts)
                implies exists|k: int|
                0 <= k < jobs.len() && #[trigger] jobs[k].page_index == p by {
                if p == i {
                    assert(jobs[0].page_index == p);
                } else {
                    let k0 = choose|k: int|
                        0 <= k < rest.len() && #[trigger] rest[k].page_index == p;
                    assert(jobs[k0 + 1].page_index == p);
                }
            }
        } else {
            assert(jobs == rest);
        }
    }
}

/// Draft filtering, one direction: when drafts are excluded, no job of the
/// write plan belongs to a draft page.
pub proof fn lemma_draft_excluded(
    pages: Seq<PageV>,
    reg: Seq<(Seq<char>, Seq<char>)>,
    dt: Seq<char>,
    suffix: Seq<char>,
    p: int,
)
    requires
        0 <= p < pages.len(),
        pages[p].meta.draft,
        spec_first_missing(pages, reg, dt, false, 0) is None,
    ensures
        forall|k: int|
            0 <= k < spec_jobs(pages, reg, dt, false, suffix, 0).len()
                ==> (#[trigger] spec_jobs(pages, reg, dt, false, suffix, 0)[k]).page_index != p,
{
    lemma_jobs_exact(pages, reg, dt, false, suffix, 0);
}

/// Draft filtering, the other direction: when drafts are included, every
/// page — drafts too — has a job in the write plan.
pub proof fn lemma_draft_included(
    pages: Seq<PageV>,
    reg: Seq<(Seq<char>, Seq<char>)>,
    dt: Seq<char>,
    suffix: Seq<char>,
    p: int,
)
    requires
        0 <= p < pages.len(),
        spec_first_missing(pages, reg, dt, true, 0) is None,
    ensures
        exists|k: int|
            0 <= k < spec_jobs(pages, reg, dt, true, suffix, 0).len()
                && (#[trigger] spec_jobs(pages, reg, dt, true, suffix, 0)[k]).page_index == p,
{
    lemma_jobs_exact(pages, reg, dt, true, suffix, 0);
    assert(spec_keep_page(pages[p], true));
}

/// Publish happens last: the machine asks for the staged output to go live
/// only at the moment the final post-hook reports success, or straight
/// after the pages are written when the manifest declares no post-hook at
/// all. Everything before that moment happened in the sandbox.
pub proof fn lemma_publish_only_after_post_hooks(m: BuilderV, ev: EvV)
    ensures
        spec_step(m, ev).1 is PublishOutput ==> {
            ||| {
                &&& m.phase is Rendering
                &&& ev matches EvV::PagesWritten { outcome: WriteOutcomeV::Done }
                &&& spec_next_hook(m.cfg.plugins, 0, HookKind::Post) == m.cfg.plugins.len()
            }
            ||| {
                &&& m.phase matches PhaseV::RunningHook { hook: HookKind::Post, idx }
                &&& ev matches EvV::PluginExited { code: Some(0i32) }
                &&& spec_next_hook(m.cfg.plugins, idx + 1, HookKind::Post)
                    == m.cfg.plugins.len()
            }
        },
{
    lemma_next_hook_ge(m.cfg.plugins, 0, HookKind::Post);
    match m.phase {
        PhaseV::RunningHook { hook, idx } => {
            if 0 <= idx < m.cfg.plugins.len() {
                lemma_next_hook_ge(m.cfg.plugins, idx + 1, hook);
            }
        },
        _ => {},
    }
}

/// Determinism: a build session is a function of its starting state and
/// its events. Two sessions in equal states, fed equal event sequences,
/// pass through equal states and issue equal actions — so a second build
/// over unchanged inputs reproduces the first one's output plan exactly.
pub proof fn lemma_build_deterministic(m1: BuilderV, m2: BuilderV, evs1: Seq<EvV>, evs2: Seq<EvV>)
    requires
        m1 == m2,
        evs1 == evs2,
    ensures
        spec_run(m1, evs1) == spec_run(m2, evs2),
        spec_run_actions(m1, evs1) == spec_run_actions(m2, evs2),
{
}

/// No state survives a rebuild: a rebuilt session equals a brand-new
/// session over the same configuration that has just been started.
pub proof fn lemma_rebuild_is_fresh(m: BuilderV)
    ensures
        (BuilderV {
            phase: PhaseV::PreparingSandbox,
            templates: Seq::empty(),
            pages: Seq::empty(),
            ..m
        }) == spec_step(
            BuilderV { phase: PhaseV::Idle, templates: Seq::empty(), pages: Seq::empty(), ..m },
            EvV::BuildStarted,
        ).0,
{
}

} // verus!
