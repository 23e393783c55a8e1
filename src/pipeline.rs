//! The post-generation pipeline: git init, dependency install, hook setup and
//! editor open, in that order, each gated by the settings and each allowed to
//! fail without stopping the others.
//!
//! The pipeline decides; the caller runs. `Pipeline::advance` takes how the last
//! command ended and returns the next command to run, recording an outcome for
//! every step on the way.
use vstd::prelude::*;

use crate::config::{opt_view, Config};
use crate::output::{
    info, info_view, lines_view, push_line, success, success_view, warning, warning_view, Line,
};
use crate::text::{cat3, copy_opt};
use crate::utils::{failure_text, run_post_generation_command, CommandStatus};

verus! {

/// The steps, in the order they run.
#[derive(Debug, Clone, Copy, PartialEq, Eq, Structural)]
pub enum PostStep {
    GitInit,
    InstallDeps,
    SetupHooks,
    OpenEditor,
}

/// Why a step did not run.
#[derive(Debug, Clone, Copy, PartialEq, Eq, Structural)]
pub enum SkipReason {
    /// The settings turn it off.
    Disabled,
    /// The caller asked for no git repository.
    Overridden,
    /// Hooks need a repository, and git init did not succeed.
    GitNotInitialized,
}

/// What came of one step.
#[derive(Debug, Clone)]
pub enum StepOutcome {
    Succeeded,
    Skipped(SkipReason),
    /// The warning to show, and a hint for doing the step by hand.
    Failed { error: String, hint: Option<String> },
}

/// A step's outcome over mathematical values.
pub enum OutcomeView {
    Succeeded,
    Skipped(SkipReason),
    Failed(Seq<char>, Option<Seq<char>>),
}

impl View for StepOutcome {
    type V = OutcomeView;

    open spec fn view(&self) -> OutcomeView {
        match self {
            StepOutcome::Succeeded => OutcomeView::Succeeded,
            StepOutcome::Skipped(r) => OutcomeView::Skipped(*r),
            StepOutcome::Failed { error, hint } => OutcomeView::Failed(error@, opt_view(*hint)),
        }
    }
}

/// The generated directory, and the settings that gate the steps.
#[derive(Debug, Clone)]
pub struct PipelineSettings {
    /// The generated project's directory: every command runs there, and the
    /// editor opens it.
    pub directory: String,
    pub git_init: bool,
    /// Overrides `git_init`: no repository at all.
    pub no_git: bool,
    pub auto_install_deps: bool,
    pub auto_setup_hooks: bool,
    pub open_editor: Option<String>,
}

impl PipelineSettings {
    /// The gates that a settings document and the no-git flag give, over the
    /// generated directory.
    pub fn from_config(config: &Config, no_git: bool, directory: &str) -> (r: PipelineSettings)
        ensures
            r.directory@ == directory@,
            r.git_init == config@.git_init,
            r.no_git == no_git,
            r.auto_install_deps == config@.auto_install_deps,
            r.auto_setup_hooks == config@.auto_setup_hooks,
            r.open_editor == config.post_generation.open_editor,
    {
        PipelineSettings {
            directory: String::from_str(directory),
            git_init: config.user.git_init,
            no_git,
            auto_install_deps: config.post_generation.auto_install_deps,
            auto_setup_hooks: config.post_generation.auto_setup_hooks,
            open_editor: copy_opt(&config.post_generation.open_editor),
        }
    }
}

/// A command for the caller to run.
#[derive(Debug, Clone)]
pub struct Invocation {
    pub step: PostStep,
    pub program: String,
    pub args: Vec<String>,
    /// The directory to run it in.
    pub cwd: String,
    /// Start it and do not wait for it.
    pub detach: bool,
    pub step_message: String,
    pub success_message: String,
    pub hint: Option<String>,
}

/// A command over mathematical values.
pub struct InvocationView {
    pub step: PostStep,
    pub program: Seq<char>,
    pub args: Seq<Seq<char>>,
    pub cwd: Seq<char>,
    pub detach: bool,
    pub step_message: Seq<char>,
    pub success_message: Seq<char>,
    pub hint: Option<Seq<char>>,
}

impl View for Invocation {
    type V = InvocationView;

    open spec fn view(&self) -> InvocationView {
        InvocationView {
            step: self.step,
            program: self.program@,
            args: crate::text::views(self.args@),
            cwd: self.cwd@,
            detach: self.detach,
            step_message: self.step_message@,
            success_message: self.success_message@,
            hint: opt_view(self.hint),
        }
    }
}

/// What the caller does next.
pub enum Action {
    Run(Invocation),
    Finish,
}

/// The number of steps.
pub const STEP_COUNT: usize = 4;

/// Whether the step at `i` is skipped, and why; `None` when it runs.
/// `git_ready` tells whether git init has succeeded.
pub open spec fn gate(s: PipelineSettings, i: int, git_ready: bool) -> Option<SkipReason> {
    if i == 0 {
        if s.no_git {
            Some(SkipReason::Overridden)
        } else if !s.git_init {
            Some(SkipReason::Disabled)
        } else {
            None
        }
    } else if i == 1 {
        if s.auto_install_deps {
            None
        } else {
            Some(SkipReason::Disabled)
        }
    } else if i == 2 {
        if !git_ready {
            Some(SkipReason::GitNotInitialized)
        } else if !s.auto_setup_hooks {
            Some(SkipReason::Disabled)
        } else {
            None
        }
    } else {
        if s.open_editor is Some {
            None
        } else {
            Some(SkipReason::Disabled)
        }
    }
}

/// The command of the step at `i`.
pub open spec fn invocation_view(s: PipelineSettings, i: int) -> InvocationView {
    if i == 0 {
        InvocationView {
            step: PostStep::GitInit,
            program: "git"@,
            args: seq!["init"@],
            cwd: s.directory@,
            detach: false,
            step_message: "Initializing git repository..."@,
            success_message: "Git repository initialized!"@,
            hint: None,
        }
    } else if i == 1 {
        InvocationView {
            step: PostStep::InstallDeps,
            program: "mise"@,
            args: seq!["install"@],
            cwd: s.directory@,
            detach: false,
            step_message: "Installing dependencies with mise..."@,
            success_message: "Dependencies installed!"@,
            hint: Some("You can run 'mise install' manually in the project directory"@),
        }
    } else if i == 2 {
        InvocationView {
            step: PostStep::SetupHooks,
            program: "hk"@,
            args: seq!["install"@],
            cwd: s.directory@,
            detach: false,
            step_message: "Setting up git hooks with hk..."@,
            success_message: "Git hooks installed!"@,
            hint: Some("You can run 'hk install' manually in the project directory"@),
        }
    } else {
        let e = opt_view(s.open_editor)->0;
        InvocationView {
            step: PostStep::OpenEditor,
            program: e,
            args: seq![s.directory@],
            cwd: s.directory@,
            detach: true,
            step_message: "Opening project in "@ + e + "..."@,
            success_message: "Project opened in "@ + e + "!"@,
            hint: None,
        }
    }
}

/// The pipeline's state: how many steps are done, whether git init succeeded,
/// and the outcome of each step done.
pub struct PipelineView {
    pub settings: PipelineSettings,
    pub stage: int,
    pub git_ready: bool,
    pub outcomes: Seq<OutcomeView>,
}

/// The state holds together: one outcome per step done, and git is ready
/// exactly when git init succeeded.
pub open spec fn wf_view(v: PipelineView) -> bool {
    &&& 0 <= v.stage <= STEP_COUNT
    &&& v.outcomes.len() == v.stage
    &&& v.git_ready == (v.stage > 0 && v.outcomes[0] is Succeeded)
}

/// The pipeline waits for the status of the command of its current step.
pub open spec fn waiting(v: PipelineView) -> bool {
    0 <= v.stage < STEP_COUNT && gate(v.settings, v.stage, v.git_ready) is None
}

/// The outcome of a command that ended with `status`.
pub open spec fn outcome_of(inv: InvocationView, status: CommandStatus) -> OutcomeView {
    let text = if inv.step == PostStep::OpenEditor {
        editor_failure_text(inv.program, status)
    } else {
        failure_text(inv.program, status)
    };
    match text {
        None => OutcomeView::Succeeded,
        Some(t) => OutcomeView::Failed(t, inv.hint),
    }
}

/// The warning for an editor that did not start; `None` for one that did.
pub open spec fn editor_failure_text(editor: Seq<char>, status: CommandStatus) -> Option<Seq<char>> {
    match status {
        CommandStatus::SpawnFailed(e) => Some("Could not open "@ + editor + ": "@ + e@),
        _ => failure_text(editor, status),
    }
}

/// Interprets how the editor launch ended: `Ok` if it started, otherwise the
/// warning to show.
fn editor_result(editor: &str, status: &CommandStatus) -> (r: Result<(), String>)
    ensures
        r is Ok <==> status is Success,
        r is Err ==> Some(r->Err_0@) == editor_failure_text(editor@, *status),
{
    match status {
        CommandStatus::SpawnFailed(e) => Err(cat3(&crate::text::cat("Could not open ", editor), ": ", e.as_str())),
        _ => run_post_generation_command(editor, status),
    }
}

/// The state after the current step's command ended with `status`.
pub open spec fn record_view(v: PipelineView, status: CommandStatus) -> PipelineView {
    PipelineView {
        stage: v.stage + 1,
        git_ready: v.git_ready || (v.stage == 0 && status is Success),
        outcomes: v.outcomes.push(outcome_of(invocation_view(v.settings, v.stage), status)),
        ..v
    }
}

/// The state after passing over every skipped step, up to the next step that
/// runs or to the end.
pub open spec fn skip_to(v: PipelineView) -> PipelineView
    decreases STEP_COUNT - v.stage,
{
    if v.stage < 0 || v.stage >= STEP_COUNT || gate(v.settings, v.stage, v.git_ready) is None {
        v
    } else {
        skip_to(
            PipelineView {
                stage: v.stage + 1,
                outcomes: v.outcomes.push(
                    OutcomeView::Skipped(gate(v.settings, v.stage, v.git_ready)->0),
                ),
                ..v
            },
        )
    }
}

/// One move of the pipeline: record the status handed back, if a command was
/// awaited, then pass over skipped steps.
pub open spec fn advance_view(v: PipelineView, last: Option<CommandStatus>) -> PipelineView {
    let recorded = if waiting(v) && last is Some {
        record_view(v, last->0)
    } else {
        v
    };
    skip_to(recorded)
}

/// The post-generation pipeline over one generated directory.
#[derive(Debug)]
pub struct Pipeline {
    settings: PipelineSettings,
    stage: usize,
    git_ready: bool,
    outcomes: Vec<StepOutcome>,
}

/// The outcomes' views.
pub open spec fn outcome_views(v: Seq<StepOutcome>) -> Seq<OutcomeView> {
    v.map_values(|o: StepOutcome| o@)
}

impl View for Pipeline {
    type V = PipelineView;

    closed spec fn view(&self) -> PipelineView {
        PipelineView {
            settings: self.settings,
            stage: self.stage as int,
            git_ready: self.git_ready,
            outcomes: outcome_views(self.outcomes@),
        }
    }
}

/// Whether the step at `i` is skipped, and why.
fn gate_exec(s: &PipelineSettings, i: usize, git_ready: bool) -> (r: Option<SkipReason>)
    ensures
        r == gate(*s, i as int, git_ready),
{
    if i == 0 {
        if s.no_git {
            Some(SkipReason::Overridden)
        } else if !s.git_init {
            Some(SkipReason::Disabled)
        } else {
            None
        }
    } else if i == 1 {
        if s.auto_install_deps {
            None
        } else {
            Some(SkipReason::Disabled)
        }
    } else if i == 2 {
        if !git_ready {
            Some(SkipReason::GitNotInitialized)
        } else if !s.auto_setup_hooks {
            Some(SkipReason::Disabled)
        } else {
            None
        }
    } else {
        match &s.open_editor {
            Some(_) => None,
            None => Some(SkipReason::Disabled),
        }
    }
}

/// A command with one argument.
fn command(
    step: PostStep,
    program: &str,
    arg: &str,
    cwd: &str,
    step_message: &str,
    success_message: &str,
    hint: Option<&str>,
) -> (r: Invocation)
    ensures
        r@ == (InvocationView {
            step,
            program: program@,
            args: seq![arg@],
            cwd: cwd@,
            detach: false,
            step_message: step_message@,
            success_message: success_message@,
            hint: match hint {
                Some(h) => Some(h@),
                None => None,
            },
        }),
{
    let mut args: Vec<String> = Vec::new();
    args.push(String::from_str(arg));
    let hint = match hint {
        Some(h) => Some(String::from_str(h)),
        None => None,
    };
    let r = Invocation {
        step,
        program: String::from_str(program),
        args,
        cwd: String::from_str(cwd),
        detach: false,
        step_message: String::from_str(step_message),
        success_message: String::from_str(success_message),
        hint,
    };
    assert(crate::text::views(r.args@) =~= seq![arg@]);
    r
}

/// The command of the step at `i`.
fn invocation(s: &PipelineSettings, i: usize) -> (r: Invocation)
    requires
        i < STEP_COUNT,
        i == 3 ==> s.open_editor is Some,
    ensures
        r@ == invocation_view(*s, i as int),
{
    if i == 0 {
        command(
            PostStep::GitInit,
            "git",
            "init",
            s.directory.as_str(),
            "Initializing git repository...",
            "Git repository initialized!",
            None,
        )
    } else if i == 1 {
        command(
            PostStep::InstallDeps,
            "mise",
            "install",
            s.directory.as_str(),
            "Installing dependencies with mise...",
            "Dependencies installed!",
            Some("You can run 'mise install' manually in the project directory"),
        )
    } else if i == 2 {
        command(
            PostStep::SetupHooks,
            "hk",
            "install",
            s.directory.as_str(),
            "Setting up git hooks with hk...",
            "Git hooks installed!",
            Some("You can run 'hk install' manually in the project directory"),
        )
    } else {
        let editor = match &s.open_editor {
            Some(e) => e.as_str(),
            None => "",
        };
        let mut args: Vec<String> = Vec::new();
        args.push(s.directory.clone());
        let r = Invocation {
            step: PostStep::OpenEditor,
            program: String::from_str(editor),
            args,
            cwd: s.directory.clone(),
            detach: true,
            step_message: cat3("Opening project in ", editor, "..."),
            success_message: cat3("Project opened in ", editor, "!"),
            hint: None,
        };
        assert(crate::text::views(r.args@) =~= seq![s.directory@]);
        r
    }
}

impl Pipeline {
    /// A pipeline with no step done yet.
    pub fn new(settings: PipelineSettings) -> (r: Pipeline)
        ensures
            r@ == (PipelineView { settings, stage: 0, git_ready: false, outcomes: seq![] }),
            wf_view(r@),
    {
        let r = Pipeline { settings, stage: 0, git_ready: false, outcomes: Vec::new() };
        assert(outcome_views(r.outcomes@) =~= seq![]);
        r
    }

    /// Records how the awaited command ended, if one was awaited and `last`
    /// holds its status, then passes over every skipped step. Returns the
    /// command of the next step to run, or `Finish` once every step is done.
    pub fn advance(&mut self, last: Option<CommandStatus>) -> (r: Action)
        requires
            wf_view(old(self)@),
        ensures
            wf_view(final(self)@),
            final(self)@ == advance_view(old(self)@, last),
            (r is Finish) <==> final(self)@.stage == STEP_COUNT,
            r is Run ==> waiting(final(self)@) && r->Run_0@ == invocation_view(
                final(self)@.settings,
                final(self)@.stage,
            ),
    {
        let ghost v0 = self@;
        if let Some(status) = &last {
            if self.stage < STEP_COUNT && gate_exec(&self.settings, self.stage, self.git_ready).is_none() {
                let inv = invocation(&self.settings, self.stage);
                let result = if self.stage == 3 {
                    editor_result(inv.program.as_str(), status)
                } else {
                    run_post_generation_command(inv.program.as_str(), status)
                };
                let outcome = match result {
                    Ok(()) => StepOutcome::Succeeded,
                    Err(error) => StepOutcome::Failed { error, hint: inv.hint },
                };
                let succeeded = match status {
                    CommandStatus::Success => true,
                    _ => false,
                };
                let ghost before = self.outcomes@;
                self.outcomes.push(outcome);
                self.git_ready = self.git_ready || (self.stage == 0 && succeeded);
                self.stage = self.stage + 1;
                assert(outcome_views(self.outcomes@) =~= outcome_views(before).push(outcome@));
                assert(self@ == record_view(v0, *status));
            }
        }
        assert(skip_to(self@) == advance_view(old(self)@, last));
        while self.stage < STEP_COUNT
            invariant
                wf_view(self@),
                skip_to(self@) == advance_view(old(self)@, last),
            decreases STEP_COUNT - self.stage,
        {
            match gate_exec(&self.settings, self.stage, self.git_ready) {
                None => {
                    assert(skip_to(self@) == self@);
                    return Action::Run(invocation(&self.settings, self.stage));
                },
                Some(reason) => {
                    let ghost before = self.outcomes@;
                    self.outcomes.push(StepOutcome::Skipped(reason));
                    self.stage = self.stage + 1;
                    assert(outcome_views(self.outcomes@) =~= outcome_views(before).push(
                        OutcomeView::Skipped(reason),
                    ));
                },
            }
        }
        Action::Finish
    }

    /// The outcome of each step done so far, in order.
    pub fn outcomes(&self) -> (r: &Vec<StepOutcome>)
        ensures
            outcome_views(r@) == self@.outcomes,
    {
        &self.outcomes
    }
}

/// The lines that report a step's outcome: the success message, or the warning
/// and the hint; nothing for a skipped step.
pub fn outcome_lines(success_message: &str, outcome: &StepOutcome) -> (r: Vec<Line>)
    ensures
        lines_view(r@) == match outcome@ {
            OutcomeView::Succeeded => seq![success_view(success_message@)],
            OutcomeView::Skipped(_) => seq![],
            OutcomeView::Failed(e, h) => match h {
                Some(h) => seq![warning_view(e), info_view(h)],
                None => seq![warning_view(e)],
            },
        },
{
    let mut r: Vec<Line> = Vec::new();
    match outcome {
        StepOutcome::Succeeded => push_line(&mut r, success(success_message)),
        StepOutcome::Skipped(_) => {},
        StepOutcome::Failed { error, hint } => {
            push_line(&mut r, warning(error.as_str()));
            if let Some(h) = hint {
                push_line(&mut r, info(h.as_str()));
            }
        },
    }
    assert(lines_view(r@) =~= match outcome@ {
        OutcomeView::Succeeded => seq![success_view(success_message@)],
        OutcomeView::Skipped(_) => seq![],
        OutcomeView::Failed(e, h) => match h {
            Some(h) => seq![warning_view(e), info_view(h)],
            None => seq![warning_view(e)],
        },
    });
    r
}

/// Hook setup never runs without a repository: once git init has been skipped
/// or has failed, the next move records hook setup as skipped for want of git,
/// whatever came of the dependency install and whatever hook setup's own
/// setting says.
pub proof fn lemma_hooks_need_git(v: PipelineView, status: CommandStatus)
    requires
        wf_view(v),
        1 <= v.stage <= 2,
        !(v.outcomes[0] is Succeeded),
    ensures
        advance_view(v, Some(status)).stage >= 3,
        advance_view(v, Some(status)).outcomes[2] == OutcomeView::Skipped(
            SkipReason::GitNotInitialized,
        ),
{
    let recorded = if waiting(v) {
        record_view(v, status)
    } else {
        v
    };
    let v2 = if recorded.stage == 1 {
        PipelineView {
            stage: 2,
            outcomes: recorded.outcomes.push(
                OutcomeView::Skipped(gate(recorded.settings, 1, recorded.git_ready)->0),
            ),
            ..recorded
        }
    } else {
        recorded
    };
    assert(!v2.git_ready);
    assert(skip_to(recorded) == skip_to(v2));
    let v3 = PipelineView {
        stage: 3,
        outcomes: v2.outcomes.push(OutcomeView::Skipped(SkipReason::GitNotInitialized)),
        ..v2
    };
    assert(skip_to(v2) == skip_to(v3));
    lemma_skip_to_keeps(v3);
}

/// A failed dependency install does not keep hook setup from running: with git
/// initialized and hook setup on, whatever status the install ends with, hook
/// setup is the next command.
pub proof fn lemma_install_failure_isolated(v: PipelineView, status: CommandStatus)
    requires
        wf_view(v),
        v.stage == 1,
        waiting(v),
        v.outcomes[0] is Succeeded,
        v.settings.auto_setup_hooks,
    ensures
        advance_view(v, Some(status)).stage == 2,
        waiting(advance_view(v, Some(status))),
        advance_view(v, Some(status)).outcomes[1] == outcome_of(
            invocation_view(v.settings, 1),
            status,
        ),
{
    let w = record_view(v, status);
    assert(w.git_ready);
    assert(skip_to(w) == w);
}

/// Passing over skipped steps keeps the outcomes already recorded and never
/// moves back.
proof fn lemma_skip_to_keeps(v: PipelineView)
    requires
        0 <= v.stage,
    ensures
        skip_to(v).stage >= v.stage,
        skip_to(v).outcomes.len() >= v.outcomes.len(),
        forall|i: int|
            0 <= i < v.outcomes.len() ==> #[trigger] skip_to(v).outcomes[i] == v.outcomes[i],
    decreases STEP_COUNT - v.stage,
{
    if v.stage < 0 || v.stage >= STEP_COUNT || gate(v.settings, v.stage, v.git_ready) is None {
    } else {
        let n = PipelineView {
            stage: v.stage + 1,
            outcomes: v.outcomes.push(OutcomeView::Skipped(gate(v.settings, v.stage, v.git_ready)->0)),
            ..v
        };
        lemma_skip_to_keeps(n);
        assert forall|i: int| 0 <= i < v.outcomes.len() implies #[trigger] skip_to(v).outcomes[i]
            == v.outcomes[i] by {
            assert(n.outcomes[i] == v.outcomes[i]);
        }
    }
}

} // verus!
