//! The application that the bridge serves, and its one-time bootstrap.

use vstd::prelude::*;
use crate::resolver::{
    locked_app_path, locked_app_url, spec_file_url, spec_locked_app_path,
    spec_locked_url_from, ResolveError, ResolveErrorView,
};
use crate::trigger::{
    spec_configs, spec_dispatch, spec_routes, Dispatch, PgEventTrigger, PgEventTriggerConfig,
    PgEventTriggerConfigView,
};
use crate::value::Row;

verus! {

/// Where the bundle comes from and where the execution engine keeps its
/// own persistent state.
#[derive(Debug, PartialEq, Eq)]
pub struct App {
    reference: String,
    state_dir: String,
}

impl App {
    /// The bundle reference, as a sequence of characters.
    pub closed spec fn spec_reference(&self) -> Seq<char> {
        self.reference@
    }

    /// The state directory, as a sequence of characters.
    pub closed spec fn spec_state_dir(&self) -> Seq<char> {
        self.state_dir@
    }

    /// The application whose bundle is named by `reference` and whose
    /// engine keeps its state under `state_dir`.
    pub fn new(reference: &str, state_dir: &str) -> (app: Self)
        ensures
            app.spec_reference() == reference@,
            app.spec_state_dir() == state_dir@,
    {
        Self { reference: reference.to_owned(), state_dir: state_dir.to_owned() }
    }

    /// The reference that names the bundle.
    pub fn reference(&self) -> (res: &str)
        ensures
            res@ == self.spec_reference(),
    {
        self.reference.as_str()
    }

    /// The directory handed through to the execution engine.
    pub fn state_dir(&self) -> (res: &str)
        ensures
            res@ == self.spec_state_dir(),
    {
        self.state_dir.as_str()
    }
}

/// The application once it runs: the router that was derived from its
/// per-component settings. The engine and the task driver that belong to
/// it are held by the driver of the bootstrap.
pub struct RunningApp {
    trigger: PgEventTrigger,
}

impl RunningApp {
    /// The routes of the running application: table name to component id.
    pub closed spec fn routes(&self) -> Map<Seq<char>, Seq<char>> {
        self.trigger.routes()
    }

    /// The running application of a trigger.
    pub fn new(trigger: PgEventTrigger) -> (running: Self)
        ensures
            running.routes() == trigger.routes(),
    {
        RunningApp { trigger }
    }

    /// The trigger that routes this application's row events.
    pub fn trigger(&self) -> (trigger: &PgEventTrigger)
        ensures
            trigger.routes() == self.routes(),
    {
        &self.trigger
    }

    /// Decides what is to be done with a row event on `table`: see
    /// [`PgEventTrigger::handle_pg_event`].
    pub fn handle_pg_event(&self, table: &str, row: Row) -> (dispatch: Dispatch)
        ensures
            dispatch@ == spec_dispatch(self.routes(), table@, row@),
    {
        self.trigger.handle_pg_event(table, row)
    }
}

/// Why the engine could not be built: it refused the locked application
/// description, or its construction failed.
#[derive(Debug, PartialEq, Eq)]
pub struct EngineBuildError {
    pub message: String,
}

impl View for EngineBuildError {
    type V = Seq<char>;

    open spec fn view(&self) -> Seq<char> {
        self.message@
    }
}

impl Clone for EngineBuildError {
    fn clone(&self) -> (res: Self)
        ensures
            res@ == self@,
    {
        EngineBuildError { message: self.message.clone() }
    }
}

/// Why the application could not be brought up.
#[derive(Debug, PartialEq, Eq)]
pub enum BootstrapError {
    /// The bundle could not be fetched or made ready.
    Resolve(ResolveError),
    /// The engine could not be built.
    EngineBuild(EngineBuildError),
}

/// Mathematical model of a [`BootstrapError`].
pub enum BootstrapErrorView {
    Resolve(ResolveErrorView),
    EngineBuild(Seq<char>),
}

impl View for BootstrapError {
    type V = BootstrapErrorView;

    open spec fn view(&self) -> BootstrapErrorView {
        match self {
            BootstrapError::Resolve(e) => BootstrapErrorView::Resolve(e@),
            BootstrapError::EngineBuild(e) => BootstrapErrorView::EngineBuild(e@),
        }
    }
}

impl Clone for BootstrapError {
    fn clone(&self) -> (res: Self)
        ensures
            res@ == self@,
    {
        match self {
            BootstrapError::Resolve(e) => BootstrapError::Resolve(e.clone()),
            BootstrapError::EngineBuild(e) => BootstrapError::EngineBuild(e.clone()),
        }
    }
}

/// How far the bootstrap has come. Each state but the last two names the
/// work that the driver is to do next.
pub enum Bootstrap {
    /// A working directory is to be made.
    NeedWorkingDir,
    /// The bundle is to be fetched into the working directory.
    NeedBundle { working_dir: String },
    /// The locked application description is to be written.
    NeedLockFile { working_dir: String },
    /// The engine is to be built from the locked application description.
    NeedEngine { working_dir: String, locked_url: String },
    /// The application runs.
    Ready(RunningApp),
    /// The bootstrap failed, for good.
    Failed(BootstrapError),
}

/// Mathematical model of a [`Bootstrap`] state.
pub enum BootstrapView {
    NeedWorkingDir,
    NeedBundle { working_dir: Seq<char> },
    NeedLockFile { working_dir: Seq<char> },
    NeedEngine { working_dir: Seq<char>, locked_url: Seq<char> },
    Ready(Map<Seq<char>, Seq<char>>),
    Failed(BootstrapErrorView),
}

impl View for Bootstrap {
    type V = BootstrapView;

    open spec fn view(&self) -> BootstrapView {
        match self {
            Bootstrap::NeedWorkingDir => BootstrapView::NeedWorkingDir,
            Bootstrap::NeedBundle { working_dir } => BootstrapView::NeedBundle {
                working_dir: working_dir@,
            },
            Bootstrap::NeedLockFile { working_dir } => BootstrapView::NeedLockFile {
                working_dir: working_dir@,
            },
            Bootstrap::NeedEngine { working_dir, locked_url } => BootstrapView::NeedEngine {
                working_dir: working_dir@,
                locked_url: locked_url@,
            },
            Bootstrap::Ready(running) => BootstrapView::Ready(running.routes()),
            Bootstrap::Failed(e) => BootstrapView::Failed(e@),
        }
    }
}

/// What the driver reports back after a piece of outside work.
#[derive(Debug, PartialEq, Eq)]
pub enum BootstrapEvent {
    WorkingDirCreated(String),
    WorkingDirFailed(String),
    BundleFetched,
    FetchFailed(String),
    LockFileWritten,
    WriteFailed(String),
    /// The engine was built; it reports the per-component settings.
    EngineBuilt(Vec<PgEventTriggerConfig>),
    EngineFailed(String),
}

/// Mathematical model of a [`BootstrapEvent`].
pub enum BootstrapEventView {
    WorkingDirCreated(Seq<char>),
    WorkingDirFailed(Seq<char>),
    BundleFetched,
    FetchFailed(Seq<char>),
    LockFileWritten,
    WriteFailed(Seq<char>),
    EngineBuilt(Seq<PgEventTriggerConfigView>),
    EngineFailed(Seq<char>),
}

impl View for BootstrapEvent {
    type V = BootstrapEventView;

    open spec fn view(&self) -> BootstrapEventView {
        match self {
            BootstrapEvent::WorkingDirCreated(d) => BootstrapEventView::WorkingDirCreated(d@),
            BootstrapEvent::WorkingDirFailed(m) => BootstrapEventView::WorkingDirFailed(m@),
            BootstrapEvent::BundleFetched => BootstrapEventView::BundleFetched,
            BootstrapEvent::FetchFailed(m) => BootstrapEventView::FetchFailed(m@),
            BootstrapEvent::LockFileWritten => BootstrapEventView::LockFileWritten,
            BootstrapEvent::WriteFailed(m) => BootstrapEventView::WriteFailed(m@),
            BootstrapEvent::EngineBuilt(configs) => BootstrapEventView::EngineBuilt(
                spec_configs(configs@),
            ),
            BootstrapEvent::EngineFailed(m) => BootstrapEventView::EngineFailed(m@),
        }
    }
}

/// The work that a bootstrap state asks of the driver.
#[derive(Debug, PartialEq, Eq)]
pub enum BootstrapAction {
    /// Make a fresh working directory.
    CreateWorkingDir,
    /// Fetch the bundle named by `reference` into `working_dir`.
    FetchBundle { reference: String, working_dir: String },
    /// Write the locked application description to `locked_path`.
    WriteLockFile { locked_path: String },
    /// Build the engine from `locked_url`, with `working_dir` for the
    /// bundle's files and `state_dir` for the engine's own state.
    BuildEngine { locked_url: String, working_dir: String, state_dir: String },
    /// Nothing is left to do: the bootstrap is over.
    Done,
}

/// Mathematical model of a [`BootstrapAction`].
pub enum BootstrapActionView {
    CreateWorkingDir,
    FetchBundle { reference: Seq<char>, working_dir: Seq<char> },
    WriteLockFile { locked_path: Seq<char> },
    BuildEngine { locked_url: Seq<char>, working_dir: Seq<char>, state_dir: Seq<char> },
    Done,
}

impl View for BootstrapAction {
    type V = BootstrapActionView;

    open spec fn view(&self) -> BootstrapActionView {
        match self {
            BootstrapAction::CreateWorkingDir => BootstrapActionView::CreateWorkingDir,
            BootstrapAction::FetchBundle { reference, working_dir } => {
                BootstrapActionView::FetchBundle {
                    reference: reference@,
                    working_dir: working_dir@,
                }
            },
            BootstrapAction::WriteLockFile { locked_path } => BootstrapActionView::WriteLockFile {
                locked_path: locked_path@,
            },
            BootstrapAction::BuildEngine { locked_url, working_dir, state_dir } => {
                BootstrapActionView::BuildEngine {
                    locked_url: locked_url@,
                    working_dir: working_dir@,
                    state_dir: state_dir@,
                }
            },
            BootstrapAction::Done => BootstrapActionView::Done,
        }
    }
}

/// The state that follows `state` when the driver reports `event`.
///
/// Each state goes on with the success of the work it asked for and
/// fails with its failure. Any other event leaves the state as it is;
/// `Ready` and `Failed` are left by no event.
pub open spec fn spec_step(state: BootstrapView, event: BootstrapEventView) -> BootstrapView {
    match (state, event) {
        (BootstrapView::NeedWorkingDir, BootstrapEventView::WorkingDirCreated(d)) => {
            BootstrapView::NeedBundle { working_dir: d }
        },
        (BootstrapView::NeedWorkingDir, BootstrapEventView::WorkingDirFailed(m)) => {
            BootstrapView::Failed(BootstrapErrorView::Resolve(ResolveErrorView::WorkingDir(m)))
        },
        (BootstrapView::NeedBundle { working_dir }, BootstrapEventView::BundleFetched) => {
            BootstrapView::NeedLockFile { working_dir }
        },
        (BootstrapView::NeedBundle { .. }, BootstrapEventView::FetchFailed(m)) => {
            BootstrapView::Failed(BootstrapErrorView::Resolve(ResolveErrorView::Fetch(m)))
        },
        (BootstrapView::NeedLockFile { working_dir }, BootstrapEventView::LockFileWritten) => {
            let path = spec_locked_app_path(working_dir);
            match spec_locked_url_from(path, spec_file_url(path)) {
                Ok(locked_url) => BootstrapView::NeedEngine { working_dir, locked_url },
                Err(e) => BootstrapView::Failed(BootstrapErrorView::Resolve(e)),
            }
        },
        (BootstrapView::NeedLockFile { .. }, BootstrapEventView::WriteFailed(m)) => {
            BootstrapView::Failed(BootstrapErrorView::Resolve(ResolveErrorView::Write(m)))
        },
        (BootstrapView::NeedEngine { .. }, BootstrapEventView::EngineBuilt(configs)) => {
            BootstrapView::Ready(spec_routes(configs))
        },
        (BootstrapView::NeedEngine { .. }, BootstrapEventView::EngineFailed(m)) => {
            BootstrapView::Failed(BootstrapErrorView::EngineBuild(m))
        },
        _ => state,
    }
}

/// The work that `state` asks of the driver of `app`'s bootstrap.
pub open spec fn spec_action(
    reference: Seq<char>,
    state_dir: Seq<char>,
    state: BootstrapView,
) -> BootstrapActionView {
    match state {
        BootstrapView::NeedWorkingDir => BootstrapActionView::CreateWorkingDir,
        BootstrapView::NeedBundle { working_dir } => BootstrapActionView::FetchBundle {
            reference,
            working_dir,
        },
        BootstrapView::NeedLockFile { working_dir } => BootstrapActionView::WriteLockFile {
            locked_path: spec_locked_app_path(working_dir),
        },
        BootstrapView::NeedEngine { working_dir, locked_url } => BootstrapActionView::BuildEngine {
            locked_url,
            working_dir,
            state_dir,
        },
        BootstrapView::Ready(_) => BootstrapActionView::Done,
        BootstrapView::Failed(_) => BootstrapActionView::Done,
    }
}

impl Bootstrap {
    /// The state in which every bootstrap starts.
    pub fn start() -> (state: Self)
        ensures
            state@ == BootstrapView::NeedWorkingDir,
    {
        Bootstrap::NeedWorkingDir
    }

    /// The work that this state asks of the driver.
    pub fn action(&self, app: &App) -> (action: BootstrapAction)
        ensures
            action@ == spec_action(app.spec_reference(), app.spec_state_dir(), self@),
    {
        match self {
            Bootstrap::NeedWorkingDir => BootstrapAction::CreateWorkingDir,
            Bootstrap::NeedBundle { working_dir } => BootstrapAction::FetchBundle {
                reference: app.reference.clone(),
                working_dir: working_dir.clone(),
            },
            Bootstrap::NeedLockFile { working_dir } => BootstrapAction::WriteLockFile {
                locked_path: locked_app_path(working_dir.as_str()),
            },
            Bootstrap::NeedEngine { working_dir, locked_url } => BootstrapAction::BuildEngine {
                locked_url: locked_url.clone(),
                working_dir: working_dir.clone(),
                state_dir: app.state_dir.clone(),
            },
            Bootstrap::Ready(_) => BootstrapAction::Done,
            Bootstrap::Failed(_) => BootstrapAction::Done,
        }
    }

    /// What the bootstrap came to, once it is over: the running
    /// application or the failure. Nothing while work is still asked for.
    pub fn outcome(self) -> (res: Option<Result<RunningApp, BootstrapError>>)
        ensures
            match res {
                Some(Ok(running)) => self@ == BootstrapView::Ready(running.routes()),
                Some(Err(e)) => self@ == BootstrapView::Failed(e@),
                None => !(self@ is Ready) && !(self@ is Failed),
            },
    {
        match self {
            Bootstrap::Ready(running) => Some(Ok(running)),
            Bootstrap::Failed(e) => Some(Err(e)),
            _ => None,
        }
    }

    /// The state that follows this one when the driver reports `event`.
    pub fn step(self, event: BootstrapEvent) -> (next: Self)
        ensures
            next@ == spec_step(self@, event@),
    {
        match self {
            Bootstrap::NeedWorkingDir => match event {
                BootstrapEvent::WorkingDirCreated(working_dir) => Bootstrap::NeedBundle {
                    working_dir,
                },
                BootstrapEvent::WorkingDirFailed(m) => Bootstrap::Failed(
                    BootstrapError::Resolve(ResolveError::WorkingDir(m)),
                ),
                _ => Bootstrap::NeedWorkingDir,
            },
            Bootstrap::NeedBundle { working_dir } => match event {
                BootstrapEvent::BundleFetched => Bootstrap::NeedLockFile { working_dir },
                BootstrapEvent::FetchFailed(m) => Bootstrap::Failed(
                    BootstrapError::Resolve(ResolveError::Fetch(m)),
                ),
                _ => Bootstrap::NeedBundle { working_dir },
            },
            Bootstrap::NeedLockFile { working_dir } => match event {
                BootstrapEvent::LockFileWritten => match locked_app_url(working_dir.as_str()) {
                    Ok(locked_url) => Bootstrap::NeedEngine { working_dir, locked_url },
                    Err(e) => Bootstrap::Failed(BootstrapError::Resolve(e)),
                },
                BootstrapEvent::WriteFailed(m) => Bootstrap::Failed(
                    BootstrapError::Resolve(ResolveError::Write(m)),
                ),
                _ => Bootstrap::NeedLockFile { working_dir },
            },
            Bootstrap::NeedEngine { working_dir, locked_url } => match event {
                BootstrapEvent::EngineBuilt(configs) => Bootstrap::Ready(
                    RunningApp::new(PgEventTrigger::new(&configs)),
                ),
                BootstrapEvent::EngineFailed(message) => Bootstrap::Failed(
                    BootstrapError::EngineBuild(EngineBuildError { message }),
                ),
                _ => Bootstrap::NeedEngine { working_dir, locked_url },
            },
            Bootstrap::Ready(running) => Bootstrap::Ready(running),
            Bootstrap::Failed(e) => Bootstrap::Failed(e),
        }
    }
}

/// One turn of the bootstrap of `app`: takes the event that the driver
/// reports, moves to the state that follows, and says what the driver is
/// to do next.
///
/// The driver starts from [`Bootstrap::start`], does what
/// [`Bootstrap::action`] asks, and calls `run` with each outcome until
/// the action is `Done`. The application runs exactly when the working
/// directory, the bundle, the lock file and the engine succeeded one
/// after the other; the first failure ends the bootstrap for good.
pub fn run(app: &App, state: Bootstrap, event: BootstrapEvent) -> (res: (
    Bootstrap,
    BootstrapAction,
))
    ensures
        res.0@ == spec_step(state@, event@),
        res.1@ == spec_action(app.spec_reference(), app.spec_state_dir(), res.0@),
{
    let next = state.step(event);
    let action = next.action(app);
    (next, action)
}

/// The state that a sequence of events leads to, reported one after the
/// other.
pub open spec fn spec_steps(state: BootstrapView, events: Seq<BootstrapEventView>) -> BootstrapView
    decreases events.len(),
{
    if events.len() == 0 {
        state
    } else {
        spec_step(spec_steps(state, events.drop_last()), events.last())
    }
}

/// No step of the bootstrap is skipped: a state is entered from the
/// state before it only, and only by the success of the work that the
/// state before it asked for. The router of a running application is
/// built from the settings that the engine reported.
pub proof fn lemma_bootstrap_goes_in_order(state: BootstrapView, event: BootstrapEventView)
    ensures
        spec_step(state, event) is NeedWorkingDir ==> state is NeedWorkingDir,
        spec_step(state, event) is NeedBundle ==> state is NeedBundle || (state is NeedWorkingDir
            && event is WorkingDirCreated),
        spec_step(state, event) is NeedLockFile ==> state is NeedLockFile || (state is NeedBundle
            && event is BundleFetched),
        spec_step(state, event) is NeedEngine ==> state is NeedEngine || (state is NeedLockFile
            && event is LockFileWritten),
        spec_step(state, event) is Ready ==> state is Ready || (state is NeedEngine
            && event is EngineBuilt && spec_step(state, event) == BootstrapView::Ready(
            spec_routes(event->EngineBuilt_0),
        )),
{
}

/// The end of a bootstrap is final: whatever is reported afterwards, a
/// running application stays the one it is and a failure stays the
/// failure it is.
pub proof fn lemma_bootstrap_end_is_final(state: BootstrapView, events: Seq<BootstrapEventView>)
    requires
        state is Ready || state is Failed,
    ensures
        spec_steps(state, events) == state,
    decreases events.len(),
{
    if events.len() > 0 {
        lemma_bootstrap_end_is_final(state, events.drop_last());
    }
}

/// How many pieces of outside work a state has behind it; none that
/// counts for a failure.
pub open spec fn spec_stage(state: BootstrapView) -> int {
    match state {
        BootstrapView::NeedWorkingDir => 0,
        BootstrapView::NeedBundle { .. } => 1,
        BootstrapView::NeedLockFile { .. } => 2,
        BootstrapView::NeedEngine { .. } => 3,
        BootstrapView::Ready(_) => 4,
        BootstrapView::Failed(_) => 0,
    }
}

/// Whether `event` reports the success of the piece of work that leads
/// into stage `stage`.
pub open spec fn spec_leads_into(event: BootstrapEventView, stage: int) -> bool {
    ||| stage == 1 && event is WorkingDirCreated
    ||| stage == 2 && event is BundleFetched
    ||| stage == 3 && event is LockFileWritten
    ||| stage == 4 && event is EngineBuilt
}

/// Whether the first `n` events hold, one after the other, the successes
/// that lead into the stages up to `stage`.
pub open spec fn spec_succeeded_in_order(
    events: Seq<BootstrapEventView>,
    n: int,
    stage: int,
) -> bool
    decreases stage,
{
    if stage <= 0 {
        true
    } else {
        exists|i: int|
            0 <= i < n && i < events.len() && spec_leads_into(#[trigger] events[i], stage)
                && spec_succeeded_in_order(events, i, stage - 1)
    }
}

/// What holds of the first events of a sequence holds of them in every
/// sequence that begins with it.
proof fn lemma_succeeded_in_longer(
    shorter: Seq<BootstrapEventView>,
    longer: Seq<BootstrapEventView>,
    n: int,
    stage: int,
)
    requires
        shorter.len() <= longer.len(),
        forall|i: int| 0 <= i < shorter.len() ==> shorter[i] == longer[i],
        spec_succeeded_in_order(shorter, n, stage),
    ensures
        spec_succeeded_in_order(longer, n, stage),
    decreases stage,
{
    if stage > 0 {
        let i = choose|i: int|
            0 <= i < n && i < shorter.len() && spec_leads_into(#[trigger] shorter[i], stage)
                && spec_succeeded_in_order(shorter, i, stage - 1);
        lemma_succeeded_in_longer(shorter, longer, i, stage - 1);
    }
}

/// The bootstrap stands where the reported successes brought it: the
/// state after a sequence of events has behind it, in that sequence and
/// in their order, the success of every piece of work before it. A
/// running application has all four behind it: working directory,
/// bundle, lock file, engine.
pub proof fn lemma_bootstrap_succeeds_step_by_step(events: Seq<BootstrapEventView>)
    ensures
        spec_succeeded_in_order(
            events,
            events.len() as int,
            spec_stage(spec_steps(BootstrapView::NeedWorkingDir, events)),
        ),
    decreases events.len(),
{
    if events.len() > 0 {
        let before = events.drop_last();
        let state = spec_steps(BootstrapView::NeedWorkingDir, before);
        lemma_bootstrap_succeeds_step_by_step(before);
        lemma_bootstrap_goes_in_order(state, events.last());
        lemma_succeeded_in_longer(before, events, before.len() as int, spec_stage(state));
    }
}

} // verus!
