//! The orchestrator: which steps run, in which order, and how a run ends.
//!
//! A run is a small state machine. The caller performs what the machine asks
//! for (asking the user, running a step) and reports back what happened;
//! the machine decides what comes next.

use vstd::prelude::*;
use vstd::string::StringExecFns;
use crate::command::CommandSpec;
use crate::config::{Config, ConfigBundle};
use crate::error::SetupError;
use crate::steps::dotfiles;
use crate::steps::git;
use crate::steps::git::GitWork;
use crate::steps::homebrew;
use crate::steps::ssh;
use crate::steps::ssh::SshWork;
use crate::steps::system;
use crate::steps::system::SystemTask;
use crate::steps::{StepContext, StepKind};
use crate::style::{bold, decorates, spaced, styled_pair, yellow};
use crate::sudo::SudoHelper;
use crate::text::{join, joined, lemma_texts_push, texts};

verus! {

/// The steps that run when the user names none: the system step always,
/// then the package manager iff it is enabled, dotfiles iff at least one
/// mapping is configured, SSH iff an SSH block is present, git iff git is
/// explicitly enabled; in that order.
pub open spec fn default_plan(config: Config) -> Seq<StepKind> {
    seq![StepKind::System] + (if config.homebrew.enable {
        seq![StepKind::Homebrew]
    } else {
        Seq::empty()
    }) + (if config.user.dotfiles@.len() > 0 {
        seq![StepKind::Dotfiles]
    } else {
        Seq::empty()
    }) + (if config.user.ssh is Some {
        seq![StepKind::Ssh]
    } else {
        Seq::empty()
    }) + (if config.user.git is Some && config.user.git->0.enable {
        seq![StepKind::Git]
    } else {
        Seq::empty()
    })
}

/// The steps of a run: an explicit list that is not empty is taken as it
/// is, in its order and with its repetitions; otherwise the default steps.
pub open spec fn effective_steps(config: Config, requested: Option<Seq<StepKind>>) -> Seq<
    StepKind,
> {
    match requested {
        Some(list) => if list.len() > 0 {
            list
        } else {
            default_plan(config)
        },
        None => default_plan(config),
    }
}

/// The display names of `kinds`, in order.
pub open spec fn step_names(kinds: Seq<StepKind>) -> Seq<Seq<char>> {
    Seq::new(kinds.len(), |i: int| kinds[i].name())
}

/// The question that asks the user whether to run steps whose names, joined
/// and styled, are `names`.
pub open spec fn prompt_text(names: Seq<char>) -> Seq<char> {
    "Run all steps ("@ + names + ")?"@
}

/// The question that asks the user whether to run steps whose names, joined
/// and styled, are `names`.
pub fn confirm_prompt(names: &str) -> (prompt: String)
    ensures
        prompt@ == prompt_text(names@),
{
    let mut prompt = String::from_str("Run all steps (");
    prompt.append(names);
    prompt.append(")?");
    prompt
}

/// What a step decided when it began, by the kind of the step.
#[derive(Debug)]
pub enum StepPlan {
    System(Vec<SystemTask>),
    Homebrew(Option<CommandSpec>),
    Dotfiles(bool),
    Ssh(Option<SshWork>),
    Git(Option<GitWork>),
}

/// Whether `plan` is what the step `kind` decides, from the context before
/// it to the context after it.
pub open spec fn step_decided(
    kind: StepKind,
    before: StepContext,
    after: StepContext,
    plan: StepPlan,
) -> bool {
    match kind {
        StepKind::System => plan is System && system::decided(before, after, plan->System_0),
        StepKind::Homebrew => plan is Homebrew && homebrew::decided(
            before,
            after,
            plan->Homebrew_0,
        ),
        StepKind::Dotfiles => plan is Dotfiles && dotfiles::decided(
            before,
            after,
            plan->Dotfiles_0,
        ),
        StepKind::Ssh => plan is Ssh && ssh::decided(before, after, plan->Ssh_0),
        StepKind::Git => plan is Git && git::decided(before, after, plan->Git_0),
    }
}

/// Where a run stands.
#[derive(Copy, Clone, Debug, PartialEq, Eq, Structural)]
pub enum RunState {
    /// Nothing has happened yet.
    Idle,
    /// The user is being asked whether to go ahead.
    Confirming,
    /// The step at this position of the list is running.
    Running(usize),
    /// Every step ran and succeeded, or there was none to run.
    Succeeded,
    /// The user declined, or a step failed.
    Aborted,
}

/// What the caller reports to a run.
#[derive(Debug)]
pub enum RunEvent {
    /// The run is to begin.
    Start,
    /// The user answered the confirmation: `true` to go ahead.
    Confirmed(bool),
    /// The running step returned success.
    StepSucceeded,
    /// The running step failed.
    StepFailed(SetupError),
}

/// What a run asks of the caller.
#[derive(Debug)]
pub enum RunAction {
    /// There is no step to run: say so and end with success.
    NothingToDo,
    /// Show the steps and ask the user for a yes or no.
    Confirm,
    /// Build a fresh context for this step, show it as running, and run it.
    Execute(StepKind),
    /// The last step succeeded: show it as completed and end with success.
    Succeed,
    /// The user declined: end cleanly, without an error.
    Stop,
    /// The running step failed: show it as failed and end with this error.
    /// No further step runs.
    Abort(SetupError),
    /// The event does not belong to the state the run is in; nothing changed.
    Unexpected,
}

/// A run as a mathematical value: its steps and where it stands.
pub struct RunModel {
    pub steps: Seq<StepKind>,
    pub state: RunState,
}

/// A run that has not begun.
pub open spec fn idle(steps: Seq<StepKind>) -> RunModel {
    RunModel { steps, state: RunState::Idle }
}

/// The transition function of a run: the state after `event`, and what the
/// caller has to do next.
pub open spec fn transition(run: RunModel, event: RunEvent) -> (RunModel, RunAction) {
    match (run.state, event) {
        (RunState::Idle, RunEvent::Start) => if run.steps.len() == 0 {
            (RunModel { state: RunState::Succeeded, ..run }, RunAction::NothingToDo)
        } else {
            (RunModel { state: RunState::Confirming, ..run }, RunAction::Confirm)
        },
        (RunState::Confirming, RunEvent::Confirmed(go)) => if !go {
            (RunModel { state: RunState::Aborted, ..run }, RunAction::Stop)
        } else if run.steps.len() == 0 {
            (RunModel { state: RunState::Succeeded, ..run }, RunAction::Succeed)
        } else {
            (RunModel { state: RunState::Running(0), ..run }, RunAction::Execute(run.steps[0]))
        },
        (RunState::Running(at), RunEvent::StepSucceeded) => if at + 1 < run.steps.len() {
            (
                RunModel { state: RunState::Running((at + 1) as usize), ..run },
                RunAction::Execute(run.steps[at + 1]),
            )
        } else {
            (RunModel { state: RunState::Succeeded, ..run }, RunAction::Succeed)
        },
        (RunState::Running(_), RunEvent::StepFailed(err)) => (
            RunModel { state: RunState::Aborted, ..run },
            RunAction::Abort(err),
        ),
        _ => (run, RunAction::Unexpected),
    }
}

impl RunAction {
    /// Whether the action ends the run.
    pub open spec fn is_final(self) -> bool {
        self is NothingToDo || self is Succeed || self is Stop || self is Abort
    }

    /// The exit code the process ends with after this action: zero unless a
    /// step failed.
    pub open spec fn exit_status(self) -> int {
        if self is Abort {
            1
        } else {
            0
        }
    }

    /// The exit code to end the process with, where the action ends the
    /// run: zero on full success, where there was nothing to do and where
    /// the user declined; one where a step failed.
    pub fn exit_code(&self) -> (code: Option<i32>)
        ensures
            code is Some <==> self.is_final(),
            code is Some ==> code->0 == self.exit_status(),
    {
        match self {
            RunAction::NothingToDo | RunAction::Succeed | RunAction::Stop => Some(0),
            RunAction::Abort(_) => Some(1),
            RunAction::Confirm | RunAction::Execute(_) | RunAction::Unexpected => None,
        }
    }
}

/// A run of a list of steps.
#[derive(Debug)]
pub struct Run {
    steps: Vec<StepKind>,
    state: RunState,
}

impl Run {
    /// The run as a mathematical value.
    pub closed spec fn model(&self) -> RunModel {
        RunModel { steps: self.steps@, state: self.state }
    }

    /// A run of `steps` that has not begun.
    pub fn new(steps: Vec<StepKind>) -> (run: Run)
        ensures
            run.model() == idle(steps@),
    {
        Run { steps, state: RunState::Idle }
    }

    /// The steps of the run, in the order in which they run.
    pub fn steps(&self) -> (steps: &Vec<StepKind>)
        ensures
            steps@ == self.model().steps,
    {
        &self.steps
    }

    /// Where the run stands.
    pub fn state(&self) -> (state: RunState)
        ensures
            state == self.model().state,
    {
        self.state
    }

    /// Takes in `event` and says what to do next, as `transition` has it.
    pub fn advance(&mut self, event: RunEvent) -> (action: RunAction)
        ensures
            (final(self).model(), action) == transition(old(self).model(), event),
    {
        match (self.state, event) {
            (RunState::Idle, RunEvent::Start) => {
                if self.steps.len() == 0 {
                    self.state = RunState::Succeeded;
                    RunAction::NothingToDo
                } else {
                    self.state = RunState::Confirming;
                    RunAction::Confirm
                }
            },
            (RunState::Confirming, RunEvent::Confirmed(go)) => {
                if !go {
                    self.state = RunState::Aborted;
                    RunAction::Stop
                } else if self.steps.len() == 0 {
                    self.state = RunState::Succeeded;
                    RunAction::Succeed
                } else {
                    self.state = RunState::Running(0);
                    RunAction::Execute(self.steps[0])
                }
            },
            (RunState::Running(at), RunEvent::StepSucceeded) => {
                if at < self.steps.len() && at + 1 < self.steps.len() {
                    self.state = RunState::Running(at + 1);
                    RunAction::Execute(self.steps[at + 1])
                } else {
                    self.state = RunState::Succeeded;
                    RunAction::Succeed
                }
            },
            (RunState::Running(_), RunEvent::StepFailed(err)) => {
                self.state = RunState::Aborted;
                RunAction::Abort(err)
            },
            _ => RunAction::Unexpected,
        }
    }
}

/// The orchestrator: a configuration and the directory it was loaded from.
#[derive(Debug)]
pub struct Runner {
    config: Config,
    root: String,
}

impl Runner {
    /// The configuration the runner works from.
    pub closed spec fn config_model(&self) -> Config {
        self.config
    }

    /// The directory against which relative paths are resolved.
    pub closed spec fn root_model(&self) -> String {
        self.root
    }

    /// The runner for a loaded configuration.
    pub fn new(bundle: ConfigBundle) -> (runner: Runner)
        ensures
            runner.config_model() == bundle.config,
            runner.root_model() == bundle.root,
    {
        Runner { config: bundle.config, root: bundle.root }
    }

    /// The configuration the runner works from.
    pub fn config(&self) -> (config: &Config)
        ensures
            *config == self.config_model(),
    {
        &self.config
    }

    /// The directory against which relative paths are resolved.
    pub fn root(&self) -> (root: &String)
        ensures
            *root == self.root_model(),
    {
        &self.root
    }

    /// A fresh context for one step of a run of this runner, around the
    /// ticket manager of the run.
    pub fn context<'a>(&'a self, sudo: &'a mut SudoHelper) -> (ctx: StepContext<'a>)
        ensures
            *ctx.cfg == self.config_model(),
            ctx.root@ == self.root_model()@,
            *ctx.sudo == *old(sudo),
            *final(sudo) == *final(ctx.sudo),
            ctx.progress.message@ == Seq::<char>::empty(),
            ctx.progress.lines@.len() == 0,
    {
        StepContext::new(&self.config, self.root.as_str(), sudo)
    }

    /// Begins the step `kind` in its context: the step of that kind
    /// decides what it has to do.
    pub fn run_step(kind: StepKind, ctx: &mut StepContext<'_>) -> (plan: StepPlan)
        ensures
            step_decided(kind, *old(ctx), *final(ctx), plan),
            *final(final(ctx).sudo) == *final(old(ctx).sudo),
    {
        match kind {
            StepKind::System => StepPlan::System(system::run(ctx)),
            StepKind::Homebrew => StepPlan::Homebrew(homebrew::run(ctx)),
            StepKind::Dotfiles => StepPlan::Dotfiles(dotfiles::run(ctx)),
            StepKind::Ssh => StepPlan::Ssh(ssh::run(ctx)),
            StepKind::Git => StepPlan::Git(git::run(ctx)),
        }
    }

    /// The question to confirm a run of `kinds` with: their display names,
    /// joined by commas and in bold where the terminal shows styles, in
    /// `Run all steps (..)?`. With no step there is nothing to ask, which
    /// counts as a yes.
    pub fn confirm_steps(kinds: &Vec<StepKind>) -> (prompt: Option<String>)
        ensures
            prompt is None <==> kinds@.len() == 0,
            prompt is Some ==> exists|names: Seq<char>|
                decorates(names, joined(step_names(kinds@), ", "@)) && prompt->0@ == prompt_text(
                    names,
                ),
    {
        if kinds.len() == 0 {
            return None;
        }
        let mut names: Vec<String> = Vec::new();
        let mut i: usize = 0;
        assert(texts(names@) =~= step_names(kinds@).take(0));
        while i < kinds.len()
            invariant
                i <= kinds.len(),
                texts(names@) == step_names(kinds@).take(i as int),
            decreases kinds.len() - i,
        {
            let ghost before = names@;
            let name = String::from_str(kinds[i].display_name());
            names.push(name);
            proof {
                lemma_texts_push(before, name);
                assert(step_names(kinds@).take(i + 1) =~= step_names(kinds@).take(i as int).push(
                    kinds@[i as int].name(),
                ));
            }
            i += 1;
        }
        proof {
            assert(step_names(kinds@).take(kinds.len() as int) =~= step_names(kinds@));
        }
        let plain = join(&names, ", ");
        let styled = bold(plain.as_str());
        Some(confirm_prompt(styled.as_str()))
    }

    /// The notice that there is no step to run.
    pub fn nothing_to_do_notice() -> (out: String)
        ensures
            exists|mark: Seq<char>|
                decorates(mark, "↷"@) && out@ == mark + " "@ + "No steps to run"@,
    {
        let mark = yellow("↷");
        spaced(mark.as_str(), "No steps to run")
    }

    /// The notice that the user declined the run.
    pub fn stop_notice() -> (out: String)
        ensures
            styled_pair(out@, "↷"@, "Stop all steps"@),
    {
        let mark = yellow("↷");
        let words = yellow("Stop all steps");
        spaced(mark.as_str(), words.as_str())
    }

    /// The steps that run when the user names none.
    pub fn default_steps(&self) -> (steps: Vec<StepKind>)
        ensures
            steps@ == default_plan(self.config_model()),
    {
        let mut steps: Vec<StepKind> = Vec::new();
        steps.push(StepKind::System);
        if self.config.homebrew.enable {
            steps.push(StepKind::Homebrew);
        }
        if self.config.user.dotfiles.len() > 0 {
            steps.push(StepKind::Dotfiles);
        }
        if self.config.user.ssh.is_some() {
            steps.push(StepKind::Ssh);
        }
        let git_enabled = match &self.config.user.git {
            Some(git) => git.enable,
            None => false,
        };
        if git_enabled {
            steps.push(StepKind::Git);
        }
        proof {
            assert(steps@ =~= default_plan(self.config_model()));
        }
        steps
    }

    /// Begins a run. An explicit list that is not empty is run as it is, in
    /// its order and with its repetitions; otherwise the default steps run.
    /// Hands back the run, after its first transition, and what to do
    /// first: with no step at all the run is over, otherwise the user is to
    /// be asked for confirmation.
    pub fn run(&self, requested: Option<Vec<StepKind>>) -> (begun: (Run, RunAction))
        ensures
            (begun.0.model(), begun.1) == transition(
                idle(
                    effective_steps(
                        self.config_model(),
                        match requested {
                            Some(list) => Some(list@),
                            None => None,
                        },
                    ),
                ),
                RunEvent::Start,
            ),
    {
        let steps = match requested {
            Some(list) => if list.len() > 0 {
                list
            } else {
                self.default_steps()
            },
            None => self.default_steps(),
        };
        let mut run = Run::new(steps);
        let action = run.advance(RunEvent::Start);
        (run, action)
    }
}


/// What a whole run came to: the steps that were run, in the order in which
/// they ran, and the action that ended it.
pub struct Played {
    pub executed: Seq<StepKind>,
    pub end: RunAction,
}

/// How far a run is from its end at most, in transitions.
pub open spec fn distance(run: RunModel) -> nat {
    match run.state {
        RunState::Idle => run.steps.len() + 2,
        RunState::Confirming => run.steps.len() + 1,
        RunState::Running(at) => if at < run.steps.len() {
            (run.steps.len() - at) as nat
        } else {
            0
        },
        _ => 0,
    }
}

/// A run played to its end by a caller that does what it is asked: it
/// answers the confirmation with `go`, runs each step it is told to run and
/// reports what came of it. `failure(k)` is what the step run in `k`-th
/// place, counted from zero, fails with, if it fails. `executed` holds the
/// steps run so far.
pub open spec fn play(
    run: RunModel,
    action: RunAction,
    go: bool,
    failure: spec_fn(int) -> Option<SetupError>,
    executed: Seq<StepKind>,
) -> Played
    decreases distance(run), (if action is Confirm || action is Execute {
            1nat
        } else {
            0nat
        }),
    when run.steps.len() <= usize::MAX
{
    match action {
        RunAction::Confirm => {
            let next = transition(run, RunEvent::Confirmed(go));
            play(next.0, next.1, go, failure, executed)
        },
        RunAction::Execute(kind) => {
            let event = match failure(executed.len() as int) {
                Some(err) => RunEvent::StepFailed(err),
                None => RunEvent::StepSucceeded,
            };
            let next = transition(run, event);
            play(next.0, next.1, go, failure, executed.push(kind))
        },
        _ => Played { executed, end: action },
    }
}

/// A whole run of `steps`, from its beginning.
pub open spec fn whole_run(
    steps: Seq<StepKind>,
    go: bool,
    failure: spec_fn(int) -> Option<SetupError>,
) -> Played {
    let first = transition(idle(steps), RunEvent::Start);
    play(first.0, first.1, go, failure, Seq::empty())
}

proof fn lemma_play_to_success(
    steps: Seq<StepKind>,
    at: int,
    go: bool,
    failure: spec_fn(int) -> Option<SetupError>,
)
    requires
        0 <= at < steps.len() <= usize::MAX,
        forall|k: int| at <= k < steps.len() ==> (#[trigger] failure(k)) is None,
    ensures
        play(
            RunModel { steps, state: RunState::Running(at as usize) },
            RunAction::Execute(steps[at]),
            go,
            failure,
            steps.take(at),
        ) == (Played { executed: steps, end: RunAction::Succeed }),
    decreases steps.len() - at,
{
    reveal_with_fuel(play, 2);
    assert(steps.take(at).push(steps[at]) =~= steps.take(at + 1));
    if at + 1 < steps.len() {
        lemma_play_to_success(steps, at + 1, go, failure);
    } else {
        assert(steps.take(at + 1) =~= steps);
    }
}

proof fn lemma_play_to_failure(
    steps: Seq<StepKind>,
    at: int,
    failing: int,
    go: bool,
    failure: spec_fn(int) -> Option<SetupError>,
)
    requires
        0 <= at <= failing < steps.len() <= usize::MAX,
        forall|k: int| at <= k < failing ==> (#[trigger] failure(k)) is None,
        failure(failing) is Some,
    ensures
        play(
            RunModel { steps, state: RunState::Running(at as usize) },
            RunAction::Execute(steps[at]),
            go,
            failure,
            steps.take(at),
        ) == (Played {
            executed: steps.take(failing + 1),
            end: RunAction::Abort(failure(failing)->0),
        }),
    decreases failing - at,
{
    reveal_with_fuel(play, 2);
    assert(steps.take(at).push(steps[at]) =~= steps.take(at + 1));
    if at < failing {
        lemma_play_to_failure(steps, at + 1, failing, go, failure);
    }
}

/// Whatever the steps, a run whose confirmation is declined runs none of
/// them and ends cleanly, with exit status zero.
pub proof fn law_declined_run_executes_nothing(
    steps: Seq<StepKind>,
    failure: spec_fn(int) -> Option<SetupError>,
)
    requires
        steps.len() <= usize::MAX,
    ensures
        whole_run(steps, false, failure).executed == Seq::<StepKind>::empty(),
        whole_run(steps, false, failure).end.is_final(),
        whole_run(steps, false, failure).end.exit_status() == 0,
{
    reveal_with_fuel(play, 2);
}

/// A confirmed run in which no step fails runs every step of its list, in
/// the order of the list and as often as the list names it, and ends with
/// success.
pub proof fn law_confirmed_run_executes_in_order(
    steps: Seq<StepKind>,
    failure: spec_fn(int) -> Option<SetupError>,
)
    requires
        steps.len() <= usize::MAX,
        forall|k: int| 0 <= k < steps.len() ==> (#[trigger] failure(k)) is None,
    ensures
        whole_run(steps, true, failure).executed == steps,
        whole_run(steps, true, failure).end.is_final(),
        whole_run(steps, true, failure).end.exit_status() == 0,
{
    reveal_with_fuel(play, 2);
    if steps.len() > 0 {
        lemma_play_to_success(steps, 0, true, failure);
        assert(steps.take(0) =~= Seq::<StepKind>::empty());
    } else {
        assert(steps =~= Seq::<StepKind>::empty());
    }
}

/// A list that the user gives explicitly, and that is not empty, is the
/// list of the run: a confirmed run without failures runs exactly that
/// list, repetitions included.
pub proof fn law_explicit_list_runs_verbatim(
    config: Config,
    list: Seq<StepKind>,
    failure: spec_fn(int) -> Option<SetupError>,
)
    requires
        0 < list.len() <= usize::MAX,
        forall|k: int| 0 <= k < list.len() ==> (#[trigger] failure(k)) is None,
    ensures
        whole_run(effective_steps(config, Some(list)), true, failure).executed == list,
{
    law_confirmed_run_executes_in_order(list, failure);
}

/// Fail-fast: in a confirmed run, the steps before the first failing one
/// run to completion, the failing one is run and ends the run with its
/// error and a non-zero exit status, and no step after it runs.
pub proof fn law_first_failure_aborts_the_rest(
    steps: Seq<StepKind>,
    failing: int,
    failure: spec_fn(int) -> Option<SetupError>,
)
    requires
        0 <= failing < steps.len() <= usize::MAX,
        forall|k: int| 0 <= k < failing ==> (#[trigger] failure(k)) is None,
        failure(failing) is Some,
    ensures
        whole_run(steps, true, failure).executed == steps.take(failing + 1),
        whole_run(steps, true, failure).end == RunAction::Abort(failure(failing)->0),
        whole_run(steps, true, failure).end.exit_status() != 0,
{
    reveal_with_fuel(play, 2);
    lemma_play_to_failure(steps, 0, failing, true, failure);
    assert(steps.take(0) =~= Seq::<StepKind>::empty());
}

/// With nothing optional configured, the default steps are the system step
/// alone.
pub proof fn law_bare_configuration_runs_system_only(config: Config)
    requires
        !config.homebrew.enable,
        config.user.dotfiles@.len() == 0,
        config.user.ssh is None,
        config.user.git is None || !config.user.git->0.enable,
    ensures
        effective_steps(config, None) == seq![StepKind::System],
{
    assert(default_plan(config) =~= seq![StepKind::System]);
}

/// With everything optional configured, the default steps are all five, in
/// their fixed order.
pub proof fn law_full_configuration_runs_all_steps(config: Config)
    requires
        config.homebrew.enable,
        config.user.dotfiles@.len() > 0,
        config.user.ssh is Some,
        config.user.git is Some && config.user.git->0.enable,
    ensures
        effective_steps(config, None) == seq![
            StepKind::System,
            StepKind::Homebrew,
            StepKind::Dotfiles,
            StepKind::Ssh,
            StepKind::Git,
        ],
{
    assert(default_plan(config) =~= seq![
        StepKind::System,
        StepKind::Homebrew,
        StepKind::Dotfiles,
        StepKind::Ssh,
        StepKind::Git,
    ]);
}

} // verus!
