//! The session coordinator: one live session tied to one watch-and-rebuild pipeline.
//!
//! A session runs two tasks side by side. The liveness task reads the inbound half
//! and ends when the stream closes or a read fails. The watch task awaits a change,
//! has the stylesheet built, and sends a reload frame when the build succeeded.
//! Whichever task ends first, the other is cancelled and the session closes.
//!
//! The coordinator decides; it performs nothing. [`ServerHandler::step`] takes what
//! has happened and says what to do next.
use crate::invoker::{
    plan, spec_plan, BuildConfig, BuildConfigView, BuildOutcome, BuildOutcomeView, BuildPlan,
    BuildPlanView,
};
use crate::watcher::{ChangeEvent, ChangeEventView, ChangeKind};
use vstd::prelude::*;

verus! {

/// The text of the only frame a session ever sends.
pub const RELOAD_FRAME: &'static str = "reload";

/// Where a session stands.
#[derive(Clone, Copy, Debug, PartialEq, Eq, Structural)]
pub enum SessionPhase {
    /// Both tasks are running.
    Active,
    /// One task has ended; the other is being cancelled.
    Closing,
    /// The session is over and its resources are released.
    Closed,
}

/// The two tasks of a session.
#[derive(Clone, Copy, Debug, PartialEq, Eq, Structural)]
pub enum Task {
    Liveness,
    Watch,
}

/// Where the watch task stands.
#[derive(Clone, Copy, Debug, PartialEq, Eq, Structural)]
pub enum WatchStage {
    /// It awaits the next change.
    AwaitingChange,
    /// A build is in flight.
    Building,
    /// The reload frame is being sent.
    Sending,
}

/// What one read of the inbound half gave.
#[derive(Clone, Copy, Debug, PartialEq, Eq, Structural)]
pub enum Inbound {
    /// A frame; its content is of no interest.
    Frame,
    /// The transport failed to read.
    ReadError,
    /// The stream is closed.
    StreamClosed,
}

/// What has happened in a session.
#[derive(Debug)]
pub enum SessionEvent {
    /// The inbound half was read.
    Inbound(Inbound),
    /// The watcher signalled a change.
    Change(ChangeEvent),
    /// The build that was started has ended.
    BuildFinished(BuildOutcome),
    /// The reload frame was handed to the transport; `delivered` says whether the
    /// transport took it.
    ReloadSent { delivered: bool },
    /// The source of changes is gone: the watch task has ended.
    WatchEnded,
    /// The task that was to be cancelled has been cancelled.
    Cancelled,
}

/// Mathematical value of a [`SessionEvent`].
pub ghost enum SessionEventView {
    Inbound(Inbound),
    Change(ChangeEventView),
    BuildFinished(BuildOutcomeView),
    ReloadSent { delivered: bool },
    WatchEnded,
    Cancelled,
}

impl View for SessionEvent {
    type V = SessionEventView;

    open spec fn view(&self) -> SessionEventView {
        match self {
            SessionEvent::Inbound(read) => SessionEventView::Inbound(*read),
            SessionEvent::Change(event) => SessionEventView::Change(event@),
            SessionEvent::BuildFinished(outcome) => SessionEventView::BuildFinished(outcome@),
            SessionEvent::ReloadSent { delivered } => SessionEventView::ReloadSent {
                delivered: *delivered,
            },
            SessionEvent::WatchEnded => SessionEventView::WatchEnded,
            SessionEvent::Cancelled => SessionEventView::Cancelled,
        }
    }
}

/// What is to be done next in a session.
#[derive(Debug)]
pub enum SessionAction {
    /// Nothing; go on awaiting what happens.
    Continue,
    /// Carry out the build and report how it ended.
    StartBuild(BuildPlan),
    /// Send the reload frame on the outbound half and report whether it was taken.
    SendReload,
    /// Cancel the task, whatever it is doing, and report when that is done.
    Cancel(Task),
    /// Release what the session holds.
    Release,
}

/// Mathematical value of a [`SessionAction`].
pub ghost enum SessionActionView {
    Continue,
    StartBuild(BuildPlanView),
    SendReload,
    Cancel(Task),
    Release,
}

impl View for SessionAction {
    type V = SessionActionView;

    open spec fn view(&self) -> SessionActionView {
        match self {
            SessionAction::Continue => SessionActionView::Continue,
            SessionAction::StartBuild(plan) => SessionActionView::StartBuild(plan@),
            SessionAction::SendReload => SessionActionView::SendReload,
            SessionAction::Cancel(task) => SessionActionView::Cancel(*task),
            SessionAction::Release => SessionActionView::Release,
        }
    }
}

/// The coordinator of one session.
#[derive(Debug)]
pub struct ServerHandler {
    phase: SessionPhase,
    watch: WatchStage,
    config: BuildConfig,
}

/// Mathematical value of a [`ServerHandler`].
pub ghost struct ServerHandlerView {
    pub phase: SessionPhase,
    pub watch: WatchStage,
    pub config: BuildConfigView,
}

impl View for ServerHandler {
    type V = ServerHandlerView;

    closed spec fn view(&self) -> ServerHandlerView {
        ServerHandlerView { phase: self.phase, watch: self.watch, config: self.config@ }
    }
}

/// A session as it is established: active, its watch task awaiting a change.
pub open spec fn spec_established(config: BuildConfigView) -> ServerHandlerView {
    ServerHandlerView { phase: SessionPhase::Active, watch: WatchStage::AwaitingChange, config }
}

/// The session one task of which has just ended.
pub open spec fn spec_closing(state: ServerHandlerView) -> ServerHandlerView {
    ServerHandlerView { phase: SessionPhase::Closing, ..state }
}

/// The session with its watch task at `watch`.
pub open spec fn spec_watching(state: ServerHandlerView, watch: WatchStage) -> ServerHandlerView {
    ServerHandlerView { watch, ..state }
}

/// The step of an active session.
///
/// - A frame read changes nothing. A failed read or a closed stream ends the
///   liveness task: the watch task is cancelled.
/// - A change that reports a modification starts a build, if the watch task awaits
///   one; any other change is passed over.
/// - A build that succeeded has the reload frame sent; one that failed sends the
///   watch task back to awaiting.
/// - A reload frame that was delivered sends the watch task back to awaiting; one
///   that was not counts as the end of the liveness task.
/// - The end of the watch task has the liveness task cancelled.
/// - What does not fit the stage of the watch task is passed over.
pub open spec fn spec_active_step(state: ServerHandlerView, event: SessionEventView) -> (
    ServerHandlerView,
    SessionActionView,
) {
    match event {
        SessionEventView::Inbound(read) => if read == Inbound::Frame {
            (state, SessionActionView::Continue)
        } else {
            (spec_closing(state), SessionActionView::Cancel(Task::Watch))
        },
        SessionEventView::Change(change) => if state.watch == WatchStage::AwaitingChange
            && change.kind == ChangeKind::Modified {
            (
                spec_watching(state, WatchStage::Building),
                SessionActionView::StartBuild(spec_plan(state.config)),
            )
        } else {
            (state, SessionActionView::Continue)
        },
        SessionEventView::BuildFinished(outcome) => if state.watch != WatchStage::Building {
            (state, SessionActionView::Continue)
        } else if outcome.succeeded {
            (spec_watching(state, WatchStage::Sending), SessionActionView::SendReload)
        } else {
            (spec_watching(state, WatchStage::AwaitingChange), SessionActionView::Continue)
        },
        SessionEventView::ReloadSent { delivered } => if state.watch != WatchStage::Sending {
            (state, SessionActionView::Continue)
        } else if delivered {
            (spec_watching(state, WatchStage::AwaitingChange), SessionActionView::Continue)
        } else {
            (spec_closing(state), SessionActionView::Cancel(Task::Watch))
        },
        SessionEventView::WatchEnded => (
            spec_closing(state),
            SessionActionView::Cancel(Task::Liveness),
        ),
        SessionEventView::Cancelled => (state, SessionActionView::Continue),
    }
}

/// The step of a session: the state it moves to and what is to be done.
///
/// An active session steps as [`spec_active_step`] says. A closing session waits
/// for the cancellation to be done, then closes and releases what it holds; it
/// passes over everything else. A closed session passes over everything.
pub open spec fn spec_step(state: ServerHandlerView, event: SessionEventView) -> (
    ServerHandlerView,
    SessionActionView,
) {
    match state.phase {
        SessionPhase::Active => spec_active_step(state, event),
        SessionPhase::Closing => if event is Cancelled {
            (ServerHandlerView { phase: SessionPhase::Closed, ..state }, SessionActionView::Release)
        } else {
            (state, SessionActionView::Continue)
        },
        SessionPhase::Closed => (state, SessionActionView::Continue),
    }
}

/// The session after `events` have happened, in order, starting from `state`.
pub open spec fn session_after(
    state: ServerHandlerView,
    events: Seq<SessionEventView>,
) -> ServerHandlerView
    decreases events.len(),
{
    if events.len() == 0 {
        state
    } else {
        session_after(spec_step(state, events[0]).0, events.drop_first())
    }
}

/// What is to be done, step by step, as `events` happen from `state`.
pub open spec fn session_actions(
    state: ServerHandlerView,
    events: Seq<SessionEventView>,
) -> Seq<SessionActionView>
    decreases events.len(),
{
    if events.len() == 0 {
        Seq::empty()
    } else {
        seq![spec_step(state, events[0]).1] + session_actions(
            spec_step(state, events[0]).0,
            events.drop_first(),
        )
    }
}

/// How many times the session enters `Closed` as `events` happen from `state`.
pub open spec fn session_closures(state: ServerHandlerView, events: Seq<SessionEventView>) -> nat
    decreases events.len(),
{
    if events.len() == 0 {
        0
    } else {
        let next = spec_step(state, events[0]).0;
        let entered: nat = if state.phase != SessionPhase::Closed && next.phase
            == SessionPhase::Closed {
            1
        } else {
            0
        };
        entered + session_closures(next, events.drop_first())
    }
}

/// An action that makes the pipeline work: a build or a reload frame.
pub open spec fn is_pipeline_work(action: SessionActionView) -> bool {
    action is StartBuild || action is SendReload
}

/// Once a session is no longer active it never becomes active again, and nothing
/// that happens makes it build or send.
pub proof fn lemma_no_work_once_closing(state: ServerHandlerView, events: Seq<SessionEventView>)
    requires
        state.phase != SessionPhase::Active,
    ensures
        session_after(state, events).phase != SessionPhase::Active,
        session_actions(state, events).len() == events.len(),
        forall|i: int|
            0 <= i < events.len() ==> !is_pipeline_work(
                #[trigger] session_actions(state, events)[i],
            ),
    decreases events.len(),
{
    if events.len() > 0 {
        let next = spec_step(state, events[0]).0;
        let later = session_actions(next, events.drop_first());
        lemma_no_work_once_closing(next, events.drop_first());
        assert forall|i: int| 0 <= i < events.len() implies !is_pipeline_work(
            #[trigger] session_actions(state, events)[i],
        ) by {
            if i > 0 {
                assert(session_actions(state, events)[i] == later[i - 1]);
            }
        }
    }
}

/// A closed session stays closed: it is entered no further time.
pub proof fn lemma_closed_is_terminal(state: ServerHandlerView, events: Seq<SessionEventView>)
    requires
        state.phase == SessionPhase::Closed,
    ensures
        session_after(state, events) == state,
        session_closures(state, events) == 0,
    decreases events.len(),
{
    if events.len() > 0 {
        lemma_closed_is_terminal(state, events.drop_first());
    }
}

/// Whatever happens, a session enters `Closed` at most once; and it has entered it
/// exactly once if it was not closed to begin with and is closed in the end.
pub proof fn lemma_closes_at_most_once(state: ServerHandlerView, events: Seq<SessionEventView>)
    ensures
        session_closures(state, events) <= 1,
        session_closures(state, events) == 1 <==> state.phase != SessionPhase::Closed
            && session_after(state, events).phase == SessionPhase::Closed,
    decreases events.len(),
{
    if events.len() > 0 {
        let next = spec_step(state, events[0]).0;
        if next.phase == SessionPhase::Closed {
            lemma_closed_is_terminal(next, events.drop_first());
        } else {
            lemma_closes_at_most_once(next, events.drop_first());
        }
    }
}

/// When the liveness task of an active session ends first, by a failed read or a
/// closed stream, the very step that learns of it has the watch task cancelled,
/// whatever that task is doing, a build in flight included. Nothing that happens
/// later makes the session build or send.
pub proof fn lemma_liveness_end_cancels_watch(
    state: ServerHandlerView,
    read: Inbound,
    later: Seq<SessionEventView>,
)
    requires
        state.phase == SessionPhase::Active,
        read != Inbound::Frame,
    ensures
        spec_step(state, SessionEventView::Inbound(read)).1 == SessionActionView::Cancel(
            Task::Watch,
        ),
        spec_step(state, SessionEventView::Inbound(read)).0.phase == SessionPhase::Closing,
        session_actions(spec_step(state, SessionEventView::Inbound(read)).0, later).len()
            == later.len(),
        forall|i: int|
            0 <= i < later.len() ==> !is_pipeline_work(
                #[trigger] session_actions(
                    spec_step(state, SessionEventView::Inbound(read)).0,
                    later,
                )[i],
            ),
{
    lemma_no_work_once_closing(spec_step(state, SessionEventView::Inbound(read)).0, later);
}

/// When the watch task of an active session ends first, the very step that learns
/// of it has the liveness task cancelled. Once the cancellation is done the session
/// is closed, and whatever happens later it has entered `Closed` exactly once.
pub proof fn lemma_watch_end_closes_once(state: ServerHandlerView, later: Seq<SessionEventView>)
    requires
        state.phase == SessionPhase::Active,
    ensures
        spec_step(state, SessionEventView::WatchEnded).1 == SessionActionView::Cancel(
            Task::Liveness,
        ),
        session_after(
            state,
            seq![SessionEventView::WatchEnded, SessionEventView::Cancelled] + later,
        ).phase == SessionPhase::Closed,
        session_closures(
            state,
            seq![SessionEventView::WatchEnded, SessionEventView::Cancelled] + later,
        ) == 1,
{
    let events = seq![SessionEventView::WatchEnded, SessionEventView::Cancelled] + later;
    let closing = spec_step(state, SessionEventView::WatchEnded).0;
    let closed = spec_step(closing, SessionEventView::Cancelled).0;
    let rest = events.drop_first();
    assert(rest.drop_first() =~= later);
    assert(session_after(closing, rest) == session_after(closed, later));
    lemma_closed_is_terminal(closed, later);
    lemma_closes_at_most_once(state, events);
}

/// A build that succeeds takes an established session round once: the change
/// starts the build that the settings plan, the success has the reload frame sent,
/// and once the frame is delivered the session is as it was, ready for the next
/// change. Exactly one build is started and exactly one frame is sent.
pub proof fn lemma_successful_build_cycle(
    config: BuildConfigView,
    change: ChangeEventView,
    outcome: BuildOutcomeView,
)
    requires
        change.kind == ChangeKind::Modified,
        outcome.succeeded,
    ensures
        ({
            let events = seq![
                SessionEventView::Change(change),
                SessionEventView::BuildFinished(outcome),
                SessionEventView::ReloadSent { delivered: true },
            ];
            &&& session_actions(spec_established(config), events) == seq![
                SessionActionView::StartBuild(spec_plan(config)),
                SessionActionView::SendReload,
                SessionActionView::Continue,
            ]
            &&& session_after(spec_established(config), events) == spec_established(config)
        }),
{
    reveal_with_fuel(session_actions, 4);
    reveal_with_fuel(session_after, 4);
}

/// A build that fails sends nothing and leaves an established session as it was,
/// ready for the next change: the change starts the build, the failure is passed
/// over.
pub proof fn lemma_failed_build_cycle(
    config: BuildConfigView,
    change: ChangeEventView,
    outcome: BuildOutcomeView,
)
    requires
        change.kind == ChangeKind::Modified,
        !outcome.succeeded,
    ensures
        ({
            let events = seq![
                SessionEventView::Change(change),
                SessionEventView::BuildFinished(outcome),
            ];
            &&& session_actions(spec_established(config), events) == seq![
                SessionActionView::StartBuild(spec_plan(config)),
                SessionActionView::Continue,
            ]
            &&& session_after(spec_established(config), events) == spec_established(config)
        }),
{
    reveal_with_fuel(session_actions, 3);
    reveal_with_fuel(session_after, 3);
}

/// How many builds are started as `events` happen from `state`.
pub open spec fn builds_started(state: ServerHandlerView, events: Seq<SessionEventView>) -> nat
    decreases events.len(),
{
    if events.len() == 0 {
        0
    } else {
        let (next, action) = spec_step(state, events[0]);
        let started: nat = if action is StartBuild {
            1
        } else {
            0
        };
        started + builds_started(next, events.drop_first())
    }
}

/// How many of `events` report the end of a build.
pub open spec fn builds_finished(events: Seq<SessionEventView>) -> nat
    decreases events.len(),
{
    if events.len() == 0 {
        0
    } else {
        let finished: nat = if events[0] is BuildFinished {
            1
        } else {
            0
        };
        finished + builds_finished(events.drop_first())
    }
}

/// Builds do not overlap: while a build is in flight no other is started before its
/// end is reported, so that at no time more builds have been started than have
/// ended, but for the one in flight.
pub proof fn lemma_builds_do_not_overlap(state: ServerHandlerView, events: Seq<SessionEventView>)
    ensures
        state.watch == WatchStage::Building ==> builds_started(state, events) <= builds_finished(
            events,
        ),
        builds_started(state, events) <= builds_finished(events) + 1,
    decreases events.len(),
{
    if events.len() > 0 {
        lemma_builds_do_not_overlap(spec_step(state, events[0]).0, events.drop_first());
    }
}

impl ServerHandler {
    /// The coordinator of a session that has just been established.
    pub fn new(config: BuildConfig) -> (handler: ServerHandler)
        ensures
            handler@ == spec_established(config@),
    {
        ServerHandler { phase: SessionPhase::Active, watch: WatchStage::AwaitingChange, config }
    }

    /// Where the session stands.
    pub fn phase(&self) -> (phase: SessionPhase)
        ensures
            phase == self@.phase,
    {
        self.phase
    }

    /// Where the watch task stands.
    pub fn watch_stage(&self) -> (stage: WatchStage)
        ensures
            stage == self@.watch,
    {
        self.watch
    }

    /// The build settings of the session.
    pub fn config(&self) -> (config: &BuildConfig)
        ensures
            config@ == self@.config,
    {
        &self.config
    }

    /// Takes what has happened and says what is to be done next.
    pub fn step(&mut self, event: SessionEvent) -> (action: SessionAction)
        ensures
            (final(self)@, action@) == spec_step(old(self)@, event@),
    {
        match self.phase {
            SessionPhase::Active => self.active_step(event),
            SessionPhase::Closing => match event {
                SessionEvent::Cancelled => {
                    self.phase = SessionPhase::Closed;
                    SessionAction::Release
                },
                _ => SessionAction::Continue,
            },
            SessionPhase::Closed => SessionAction::Continue,
        }
    }

    /// The step of an active session.
    fn active_step(&mut self, event: SessionEvent) -> (action: SessionAction)
        requires
            old(self)@.phase == SessionPhase::Active,
        ensures
            (final(self)@, action@) == spec_active_step(old(self)@, event@),
    {
        match event {
            SessionEvent::Inbound(read) => match read {
                Inbound::Frame => SessionAction::Continue,
                _ => {
                    self.phase = SessionPhase::Closing;
                    SessionAction::Cancel(Task::Watch)
                },
            },
            SessionEvent::Change(change) => {
                if self.watch == WatchStage::AwaitingChange && change.kind == ChangeKind::Modified {
                    self.watch = WatchStage::Building;
                    SessionAction::StartBuild(plan(&self.config))
                } else {
                    SessionAction::Continue
                }
            },
            SessionEvent::BuildFinished(outcome) => {
                if self.watch != WatchStage::Building {
                    SessionAction::Continue
                } else if outcome.succeeded {
                    self.watch = WatchStage::Sending;
                    SessionAction::SendReload
                } else {
                    self.watch = WatchStage::AwaitingChange;
                    SessionAction::Continue
                }
            },
            SessionEvent::ReloadSent { delivered } => {
                if self.watch != WatchStage::Sending {
                    SessionAction::Continue
                } else if delivered {
                    self.watch = WatchStage::AwaitingChange;
                    SessionAction::Continue
                } else {
                    self.phase = SessionPhase::Closing;
                    SessionAction::Cancel(Task::Watch)
                }
            },
            SessionEvent::WatchEnded => {
                self.phase = SessionPhase::Closing;
                SessionAction::Cancel(Task::Liveness)
            },
            SessionEvent::Cancelled => SessionAction::Continue,
        }
    }
}

} // verus!
