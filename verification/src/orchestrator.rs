//! A whole run of the launch command, as a state machine.
//!
//! A [`Launcher`] tells the caller what to do, one list of actions at a
//! time, and takes in what came of it as an [`Event`]. It resolves the
//! release, looks into the install root, installs or updates if that is due,
//! and starts XIVLauncher last. The progress window is open exactly while an
//! installation is under way.

use crate::install::{
    directive_of, next_phase, Directive, DirectiveView, ErrorClass, InstallError, InstallPhase,
    Installer, InstallerView, Outcome, XIVLAUNCHER_BIN_FILENAME,
    XIVLAUNCHER_VERSIONDATA_LOCAL_FILENAME,
};
use crate::launch::{
    child_launch, update_decision, ChildLaunch, ChildLaunchView, LaunchCommand, LaunchCommandView,
    ReleaseSource, ReleaseSourceView, UpdateDecision,
};
use crate::release::{ReleaseAssetInfo, ReleaseAssetInfoView, ReleaseError};
use vstd::prelude::*;

verus! {

/// Why a run ended without XIVLauncher having run.
#[derive(Debug, Clone, Copy, PartialEq, Eq, Structural)]
pub enum LaunchError {
    /// No release could be resolved.
    Release(ReleaseError),
    /// The install root could not be looked into.
    InstallRootUnreadable,
    /// The installation failed.
    Install(InstallError),
    /// XIVLauncher could not be started or waited for.
    ChildProcess,
}

impl LaunchError {
    /// The kind of failure this error belongs to.
    pub open spec fn spec_class(self) -> ErrorClass {
        match self {
            LaunchError::Release(_) => ErrorClass::ReleaseResolution,
            LaunchError::InstallRootUnreadable => ErrorClass::DirectoryMutation,
            LaunchError::Install(e) => e.spec_class(),
            LaunchError::ChildProcess => ErrorClass::ChildProcess,
        }
    }

    /// The kind of failure this error belongs to.
    #[verifier::when_used_as_spec(spec_class)]
    pub fn class(self) -> (r: ErrorClass)
        ensures
            r == self.spec_class(),
    {
        match self {
            LaunchError::Release(_) => ErrorClass::ReleaseResolution,
            LaunchError::InstallRootUnreadable => ErrorClass::DirectoryMutation,
            LaunchError::Install(e) => e.class(),
            LaunchError::ChildProcess => ErrorClass::ChildProcess,
        }
    }
}

/// What was found in the install root.
#[derive(Debug, PartialEq, Eq)]
pub struct InstallProbe {
    /// Whether the XIVLauncher executable lies directly below the root.
    pub exe_present: bool,
    /// What the version marker holds, unless it is missing or cannot be read.
    pub marker: Option<String>,
}

/// Mathematical value of an [`InstallProbe`].
pub struct InstallProbeView {
    pub exe_present: bool,
    pub marker: Option<Seq<char>>,
}

impl View for InstallProbe {
    type V = InstallProbeView;

    open spec fn view(&self) -> InstallProbeView {
        InstallProbeView { exe_present: self.exe_present, marker: self.marker.deep_view() }
    }
}

/// What the caller reports back.
#[derive(Debug, PartialEq, Eq)]
pub enum Event {
    /// The release was resolved, or could not be.
    Resolved(Result<ReleaseAssetInfo, ReleaseError>),
    /// The install root was looked into; `None` where that failed.
    Probed(Option<InstallProbe>),
    /// The operation of the installation had this outcome.
    Performed(Outcome),
    /// XIVLauncher was started and has exited (`true`), or could not be
    /// started or waited for (`false`).
    ChildExited(bool),
}

/// Mathematical value of an [`Event`].
pub enum EventView {
    Resolved(Result<ReleaseAssetInfoView, ReleaseError>),
    Probed(Option<InstallProbeView>),
    Performed(Outcome),
    ChildExited(bool),
}

impl View for Event {
    type V = EventView;

    open spec fn view(&self) -> EventView {
        match self {
            Event::Resolved(Ok(release)) => EventView::Resolved(Ok(release@)),
            Event::Resolved(Err(e)) => EventView::Resolved(Err(*e)),
            Event::Probed(Some(probe)) => EventView::Probed(Some(probe@)),
            Event::Probed(None) => EventView::Probed(None),
            Event::Performed(outcome) => EventView::Performed(*outcome),
            Event::ChildExited(ok) => EventView::ChildExited(*ok),
        }
    }
}

/// What the caller is asked to do.
#[derive(Debug, PartialEq, Eq)]
pub enum Action {
    /// Ask `source` for the latest release and its asset called `asset`, and
    /// report the release.
    ResolveRelease { source: ReleaseSource, asset: String },
    /// Report whether `executable` lies below the install root and what the
    /// file `marker` there holds.
    Probe { executable: String, marker: String },
    /// Open the progress window.
    OpenProgress,
    /// Show the directive's text in the progress window and perform its
    /// operation.
    Perform(Directive),
    /// Close the progress window.
    CloseProgress,
    /// Start XIVLauncher and wait until it exits.
    Launch(ChildLaunch),
    /// The run is over: XIVLauncher has run.
    Finish,
    /// The run is over: it failed.
    Fail(LaunchError),
}

/// Mathematical value of an [`Action`].
pub enum ActionView {
    ResolveRelease { source: ReleaseSourceView, asset: Seq<char> },
    Probe { executable: Seq<char>, marker: Seq<char> },
    OpenProgress,
    Perform(DirectiveView),
    CloseProgress,
    Launch(ChildLaunchView),
    Finish,
    Fail(LaunchError),
}

impl View for Action {
    type V = ActionView;

    open spec fn view(&self) -> ActionView {
        match self {
            Action::ResolveRelease { source, asset } => ActionView::ResolveRelease {
                source: source@,
                asset: asset@,
            },
            Action::Probe { executable, marker } => ActionView::Probe {
                executable: executable@,
                marker: marker@,
            },
            Action::OpenProgress => ActionView::OpenProgress,
            Action::Perform(directive) => ActionView::Perform(directive@),
            Action::CloseProgress => ActionView::CloseProgress,
            Action::Launch(child) => ActionView::Launch(child@),
            Action::Finish => ActionView::Finish,
            Action::Fail(e) => ActionView::Fail(*e),
        }
    }
}

/// The values of a list of actions, in order.
pub open spec fn actions_view(actions: Vec<Action>) -> Seq<ActionView> {
    actions@.map_values(|a: Action| a@)
}

/// Where a run stands.
#[derive(Debug, PartialEq, Eq)]
pub enum Stage {
    /// The release is being resolved.
    Resolving,
    /// The install root is being looked into.
    Probing(ReleaseAssetInfo),
    /// An installation is under way and the progress window is open.
    Installing(Installer),
    /// XIVLauncher is running.
    Launching,
    /// XIVLauncher has run.
    Finished,
    /// The run failed.
    Failed(LaunchError),
}

/// Mathematical value of a [`Stage`].
pub enum StageView {
    Resolving,
    Probing(ReleaseAssetInfoView),
    Installing(InstallerView),
    Launching,
    Finished,
    Failed(LaunchError),
}

impl View for Stage {
    type V = StageView;

    open spec fn view(&self) -> StageView {
        match self {
            Stage::Resolving => StageView::Resolving,
            Stage::Probing(release) => StageView::Probing(release@),
            Stage::Installing(installer) => StageView::Installing(installer@),
            Stage::Launching => StageView::Launching,
            Stage::Finished => StageView::Finished,
            Stage::Failed(e) => StageView::Failed(*e),
        }
    }
}

/// Mathematical value of a [`Launcher`].
pub struct LauncherView {
    pub command: LaunchCommandView,
    pub ld_preload: Option<Seq<char>>,
    pub stage: StageView,
}

/// How the run starts XIVLauncher.
pub open spec fn launch_of(state: LauncherView) -> ActionView {
    ActionView::Launch(
        child_launch(
            state.command.use_fallback_secret_provider,
            state.command.run_as_steam_compat_tool,
            state.ld_preload,
        ),
    )
}

/// The first action of every run.
pub open spec fn first_actions(command: LaunchCommandView) -> Seq<ActionView> {
    seq![
        ActionView::ResolveRelease {
            source: command.release_source,
            asset: command.xlcore_release_asset,
        },
    ]
}

/// The stage that follows and the actions to take, for each stage and event.
///
/// A release that cannot be resolved and an install root that cannot be
/// looked into end the run before anything is installed. An installation
/// begins with the progress window being opened. When the installation ends,
/// the window is closed, and only then is XIVLauncher started or the failure
/// reported. An event that does not answer what the stage asked for changes
/// nothing.
pub open spec fn launch_step(state: LauncherView, event: EventView) -> (StageView, Seq<ActionView>) {
    match (state.stage, event) {
        (StageView::Resolving, EventView::Resolved(Ok(release))) => (
            StageView::Probing(release),
            seq![ActionView::Probe { executable: "XIVLauncher.Core"@, marker: "versiondata"@ }],
        ),
        (StageView::Resolving, EventView::Resolved(Err(e))) => (
            StageView::Failed(LaunchError::Release(e)),
            seq![ActionView::Fail(LaunchError::Release(e))],
        ),
        (StageView::Probing(_), EventView::Probed(None)) => (
            StageView::Failed(LaunchError::InstallRootUnreadable),
            seq![ActionView::Fail(LaunchError::InstallRootUnreadable)],
        ),
        (StageView::Probing(release), EventView::Probed(Some(probe))) => match update_decision(
            probe.exe_present,
            state.command.skip_update,
            probe.marker,
            release.version,
        ) {
            UpdateDecision::Launch => (StageView::Launching, seq![launch_of(state)]),
            UpdateDecision::Install { is_update } => {
                let installer = InstallerView {
                    release,
                    source: state.command.aria_source,
                    is_update,
                    phase: InstallPhase::FetchRelease,
                };
                (
                    StageView::Installing(installer),
                    seq![ActionView::OpenProgress, ActionView::Perform(directive_of(installer))],
                )
            },
        },
        (StageView::Installing(installer), EventView::Performed(outcome)) => {
            let next = InstallerView {
                phase: next_phase(installer.source, installer.phase, outcome),
                ..installer
            };
            match next.phase {
                InstallPhase::Done => (
                    StageView::Launching,
                    seq![
                        ActionView::Perform(directive_of(next)),
                        ActionView::CloseProgress,
                        launch_of(state),
                    ],
                ),
                InstallPhase::Failed(e) => (
                    StageView::Failed(LaunchError::Install(e)),
                    seq![ActionView::CloseProgress, ActionView::Fail(LaunchError::Install(e))],
                ),
                _ => (StageView::Installing(next), seq![ActionView::Perform(directive_of(next))]),
            }
        },
        (StageView::Launching, EventView::ChildExited(ok)) => if ok {
            (StageView::Finished, seq![ActionView::Finish])
        } else {
            (
                StageView::Failed(LaunchError::ChildProcess),
                seq![ActionView::Fail(LaunchError::ChildProcess)],
            )
        },
        (stage, _) => (stage, Seq::<ActionView>::empty()),
    }
}

/// One run of the launch command.
#[derive(Debug, PartialEq, Eq)]
pub struct Launcher {
    command: LaunchCommand,
    ld_preload: Option<String>,
    stage: Stage,
}

impl View for Launcher {
    type V = LauncherView;

    closed spec fn view(&self) -> LauncherView {
        LauncherView {
            command: self.command@,
            ld_preload: self.ld_preload.deep_view(),
            stage: self.stage@,
        }
    }
}

fn one(a: Action) -> (r: Vec<Action>)
    ensures
        actions_view(r) == seq![a@],
{
    let mut r: Vec<Action> = Vec::new();
    r.push(a);
    r
}

fn two(a: Action, b: Action) -> (r: Vec<Action>)
    ensures
        actions_view(r) == seq![a@, b@],
{
    let mut r: Vec<Action> = Vec::new();
    r.push(a);
    r.push(b);
    r
}

fn three(a: Action, b: Action, c: Action) -> (r: Vec<Action>)
    ensures
        actions_view(r) == seq![a@, b@, c@],
{
    let mut r: Vec<Action> = Vec::new();
    r.push(a);
    r.push(b);
    r.push(c);
    r
}

fn none() -> (r: Vec<Action>)
    ensures
        actions_view(r) == Seq::<ActionView>::empty(),
{
    Vec::new()
}

impl Launcher {
    /// Begins a run of `command`. `ld_preload` is the value that the
    /// variable `LD_PRELOAD` has for the wrapper, if it has one.
    pub fn start(command: LaunchCommand, ld_preload: Option<String>) -> (r: (Launcher, Vec<Action>))
        ensures
            r.0@ == (LauncherView {
                command: command@,
                ld_preload: ld_preload.deep_view(),
                stage: StageView::Resolving,
            }),
            actions_view(r.1) == first_actions(command@),
    {
        let source = match &command.release_source {
            ReleaseSource::Repository { owner, name } => ReleaseSource::Repository {
                owner: owner.clone(),
                name: name.clone(),
            },
            ReleaseSource::Web { base_url } => ReleaseSource::Web { base_url: base_url.clone() },
        };
        let asset = command.xlcore_release_asset.clone();
        let actions = one(Action::ResolveRelease { source, asset });
        (Launcher { command, ld_preload, stage: Stage::Resolving }, actions)
    }

    /// Whether the run is over, well or not.
    pub fn is_over(&self) -> (r: bool)
        ensures
            r == (self@.stage is Finished || self@.stage is Failed),
    {
        match &self.stage {
            Stage::Finished => true,
            Stage::Failed(_) => true,
            _ => false,
        }
    }

    /// The error that the run failed with, if it failed.
    pub fn error(&self) -> (r: Option<LaunchError>)
        ensures
            r == match self@.stage {
                StageView::Failed(e) => Some(e),
                _ => None,
            },
    {
        match &self.stage {
            Stage::Failed(e) => Some(*e),
            _ => None,
        }
    }

    /// Takes in what the caller reports and tells what to do next.
    pub fn step(self, event: Event) -> (r: (Launcher, Vec<Action>))
        ensures
            r.0@ == (LauncherView { stage: launch_step(self@, event@).0, ..self@ }),
            actions_view(r.1) == launch_step(self@, event@).1,
    {
        let Launcher { command, ld_preload, stage } = self;
        let (stage, actions) = match stage {
            Stage::Resolving => match event {
                Event::Resolved(Ok(release)) => (
                    Stage::Probing(release),
                    one(
                        Action::Probe {
                            executable: XIVLAUNCHER_BIN_FILENAME.to_owned(),
                            marker: XIVLAUNCHER_VERSIONDATA_LOCAL_FILENAME.to_owned(),
                        },
                    ),
                ),
                Event::Resolved(Err(e)) => (
                    Stage::Failed(LaunchError::Release(e)),
                    one(Action::Fail(LaunchError::Release(e))),
                ),
                _ => (Stage::Resolving, none()),
            },
            Stage::Probing(release) => match event {
                Event::Probed(None) => (
                    Stage::Failed(LaunchError::InstallRootUnreadable),
                    one(Action::Fail(LaunchError::InstallRootUnreadable)),
                ),
                Event::Probed(Some(probe)) => match command.decide(
                    probe.exe_present,
                    &probe.marker,
                    release.version.as_str(),
                ) {
                    UpdateDecision::Launch => (
                        Stage::Launching,
                        one(Action::Launch(command.child_launch(&ld_preload))),
                    ),
                    UpdateDecision::Install { is_update } => {
                        let installer = Installer::new(
                            release,
                            command.aria_source.clone(),
                            is_update,
                        );
                        let first = installer.directive();
                        (
                            Stage::Installing(installer),
                            two(Action::OpenProgress, Action::Perform(first)),
                        )
                    },
                },
                _ => (Stage::Probing(release), none()),
            },
            Stage::Installing(installer) => match event {
                Event::Performed(outcome) => {
                    let mut installer = installer;
                    installer.advance(outcome);
                    let directive = installer.directive();
                    match installer.phase() {
                        InstallPhase::Done => (
                            Stage::Launching,
                            three(
                                Action::Perform(directive),
                                Action::CloseProgress,
                                Action::Launch(command.child_launch(&ld_preload)),
                            ),
                        ),
                        InstallPhase::Failed(e) => (
                            Stage::Failed(LaunchError::Install(e)),
                            two(Action::CloseProgress, Action::Fail(LaunchError::Install(e))),
                        ),
                        _ => (Stage::Installing(installer), one(Action::Perform(directive))),
                    }
                },
                _ => (Stage::Installing(installer), none()),
            },
            Stage::Launching => match event {
                Event::ChildExited(true) => (Stage::Finished, one(Action::Finish)),
                Event::ChildExited(false) => (
                    Stage::Failed(LaunchError::ChildProcess),
                    one(Action::Fail(LaunchError::ChildProcess)),
                ),
                _ => (Stage::Launching, none()),
            },
            Stage::Finished => (Stage::Finished, none()),
            Stage::Failed(e) => (Stage::Failed(e), none()),
        };
        (Launcher { command, ld_preload, stage }, actions)
    }
}

/// XIVLauncher is started only once the installation is settled: either the
/// install root was found current, or an installation has just completed and
/// the progress window was closed. The start is then the last action, and
/// the run waits for XIVLauncher.
pub proof fn lemma_launch_only_when_settled(state: LauncherView, event: EventView, i: int)
    requires
        0 <= i < launch_step(state, event).1.len(),
        launch_step(state, event).1[i] is Launch,
    ensures
        i == launch_step(state, event).1.len() - 1,
        launch_step(state, event).0 is Launching,
        launch_step(state, event).1[i] == launch_of(state),
        match state.stage {
            StageView::Probing(release) => event matches EventView::Probed(Some(probe))
                && update_decision(
                probe.exe_present,
                state.command.skip_update,
                probe.marker,
                release.version,
            ) == UpdateDecision::Launch,
            StageView::Installing(installer) => event matches EventView::Performed(outcome)
                && next_phase(installer.source, installer.phase, outcome) == InstallPhase::Done
                && i == 2 && launch_step(state, event).1[1] == ActionView::CloseProgress,
            _ => false,
        },
{
}

/// The progress window is opened exactly when an installation begins and
/// closed exactly when it ends, be it completed or failed; nothing of an
/// installation is performed before the window is opened or after it is
/// closed.
pub proof fn lemma_window_frames_installation(state: LauncherView, event: EventView)
    ensures
        ({
            let (stage, actions) = launch_step(state, event);
            &&& actions.contains(ActionView::OpenProgress) <==> (!(state.stage is Installing)
                && stage is Installing)
            &&& actions.contains(ActionView::CloseProgress) <==> (state.stage is Installing
                && !(stage is Installing))
            &&& forall|i: int, j: int|
                0 <= i < actions.len() && 0 <= j < actions.len() && actions[i] is Perform
                    && actions[j] == ActionView::OpenProgress ==> j < i
            &&& forall|i: int, j: int|
                0 <= i < actions.len() && 0 <= j < actions.len() && actions[i] is Perform
                    && actions[j] == ActionView::CloseProgress ==> i < j
            &&& forall|i: int|
                0 <= i < actions.len() && actions[i] is Perform ==> state.stage is Installing
                    || stage is Installing
        }),
{
}

/// A run that has failed or finished asks for nothing more, and a release
/// that cannot be resolved ends the run before the install root is looked
/// into or touched.
pub proof fn lemma_ended_run_stays_ended(state: LauncherView, event: EventView)
    ensures
        (state.stage is Failed || state.stage is Finished) ==> launch_step(state, event) == (
            state.stage,
            Seq::<ActionView>::empty(),
        ),
        state.stage is Resolving ==> (event matches EventView::Resolved(Err(e)) ==> launch_step(
            state,
            event,
        ) == (
            StageView::Failed(LaunchError::Release(e)),
            seq![ActionView::Fail(LaunchError::Release(e))],
        )),
{
}

/// A failed installation ends the run with the installation's error, and
/// XIVLauncher is not started.
pub proof fn lemma_failed_installation_ends_run(
    state: LauncherView,
    installer: InstallerView,
    outcome: Outcome,
    e: InstallError,
)
    requires
        state.stage == StageView::Installing(installer),
        next_phase(installer.source, installer.phase, outcome) == InstallPhase::Failed(e),
    ensures
        launch_step(state, EventView::Performed(outcome)) == (
            StageView::Failed(LaunchError::Install(e)),
            seq![ActionView::CloseProgress, ActionView::Fail(LaunchError::Install(e))],
        ),
        LaunchError::Install(e).spec_class() == e.spec_class(),
{
}

} // verus!
