//! The daemon's schedule: take the marker, then tick by tick reload the list,
//! work through its entries in order, and sleep; or do so once and stop.
//!
//! A [`ReconciliationLoop`] neither reads a list, nor sleeps, nor exits. It
//! names what the embedding program is to do next and is told how it went.

use vstd::prelude::*;
use crate::instance::{GuardAction, InstanceError};
use crate::reconciler::ReconciliationOutcome;

verus! {

/// The pause between two ticks of a daemon that was given no other, in
/// seconds.
pub const DEFAULT_INTERVAL_SECS: u64 = 60;

/// Whether the daemon stops after one tick.
#[derive(Clone, Copy, Debug, PartialEq, Eq, Structural)]
pub enum RunMode {
    /// One tick, then exit.
    Oneshot,
    /// Tick after tick, until asked to stop.
    Continuous,
}

/// What a daemon is started with.
#[derive(Clone, Copy, Debug, PartialEq, Eq, Structural)]
pub struct LoopConfig {
    pub mode: RunMode,
    /// The pause between two ticks, in seconds.
    pub interval_secs: u64,
}

impl LoopConfig {
    /// A daemon in `mode` with the default pause between ticks.
    pub fn new(mode: RunMode) -> (config: LoopConfig)
        ensures
            config == (LoopConfig { mode, interval_secs: DEFAULT_INTERVAL_SECS }),
    {
        LoopConfig { mode, interval_secs: DEFAULT_INTERVAL_SECS }
    }
}

/// How the process ends.
#[derive(Clone, Copy, Debug, PartialEq, Eq, Structural)]
pub enum ExitStatus {
    /// A single tick without a failed entry, or a daemon that was asked to
    /// stop.
    Clean,
    /// A single tick in which at least one entry failed.
    EntriesFailed,
    /// Another daemon holds the marker.
    AlreadyRunning,
    /// The list could not be loaded for the single tick.
    LoadFailed,
    /// The marker could not be used.
    MarkerUnusable,
}

impl ExitStatus {
    /// The status code of the process: zero for a clean end, and a different
    /// number for each way to fail.
    pub open spec fn code_spec(&self) -> i32 {
        match self {
            ExitStatus::Clean => 0,
            ExitStatus::EntriesFailed => 1,
            ExitStatus::AlreadyRunning => 2,
            ExitStatus::LoadFailed => 3,
            ExitStatus::MarkerUnusable => 4,
        }
    }

    #[verifier::when_used_as_spec(code_spec)]
    pub fn code(&self) -> (code: i32)
        ensures
            code == self.code_spec(),
    {
        match self {
            ExitStatus::Clean => 0,
            ExitStatus::EntriesFailed => 1,
            ExitStatus::AlreadyRunning => 2,
            ExitStatus::LoadFailed => 3,
            ExitStatus::MarkerUnusable => 4,
        }
    }
}

/// The status of a daemon that could not take the marker.
pub open spec fn refusal_status(error: InstanceError) -> ExitStatus {
    match error {
        InstanceError::AlreadyRunning => ExitStatus::AlreadyRunning,
        InstanceError::MarkerUnusable => ExitStatus::MarkerUnusable,
    }
}

/// The status of a single tick that came to its end.
pub open spec fn tick_status(any_failed: bool) -> ExitStatus {
    if any_failed {
        ExitStatus::EntriesFailed
    } else {
        ExitStatus::Clean
    }
}

/// What the embedding program reports to the loop.
#[derive(Clone, Copy, Debug, PartialEq, Eq, Structural)]
pub enum LoopEvent {
    /// The marker is locked and holds the identifier of this process.
    GuardAcquired,
    GuardRefused(InstanceError),
    /// The list was read anew and has this many entries.
    ListLoaded(usize),
    /// The list could not be read.
    LoadFailed,
    /// The work on the entry that was asked for ended like this.
    EntryDone(ReconciliationOutcome),
    /// The pause is over.
    SleepElapsed,
    /// The process was asked to end. It is reported in place of doing what
    /// the loop asked for last, or as soon as a pause is cut short.
    TerminationRequested,
    /// The marker was given up.
    GuardReleased,
}

impl LoopEvent {
    /// What a guard that asks for no further step on the marker means to the
    /// loop: the marker is held, was refused, or was given up. A guard that
    /// still asks for a step means nothing yet.
    pub open spec fn of_guard_spec(settled: GuardAction) -> Option<LoopEvent> {
        match settled {
            GuardAction::Proceed => Some(LoopEvent::GuardAcquired),
            GuardAction::Refuse(error) => Some(LoopEvent::GuardRefused(error)),
            GuardAction::Finished => Some(LoopEvent::GuardReleased),
            _ => None,
        }
    }

    #[verifier::when_used_as_spec(of_guard_spec)]
    pub fn of_guard(settled: GuardAction) -> (event: Option<LoopEvent>)
        ensures
            event == LoopEvent::of_guard_spec(settled),
    {
        match settled {
            GuardAction::Proceed => Some(LoopEvent::GuardAcquired),
            GuardAction::Refuse(error) => Some(LoopEvent::GuardRefused(error)),
            GuardAction::Finished => Some(LoopEvent::GuardReleased),
            _ => None,
        }
    }
}

/// What the loop asks the embedding program to do.
#[derive(Clone, Copy, Debug, PartialEq, Eq, Structural)]
pub enum LoopAction {
    /// Acquire the marker.
    AcquireGuard,
    /// Read the list anew.
    LoadList,
    /// Find a gateway for the entry at this place of the list just read, and
    /// reconcile the entry against it.
    ProcessEntry(usize),
    /// Pause for this many seconds, or until the process is asked to end.
    Sleep(u64),
    /// Give up the marker.
    ReleaseGuard,
    /// Exit with this status.
    Exit(ExitStatus),
}

/// Where within a tick the loop stands.
#[derive(Clone, Copy, Debug, PartialEq, Eq, Structural)]
pub enum TickStage {
    /// The list is being read.
    Loading,
    /// The entry at `next` of a list of `entries` is being worked on;
    /// `any_failed` says whether an entry before it failed.
    Entry { next: usize, entries: usize, any_failed: bool },
    /// All entries are done, or the list could not be read; the pause before
    /// the next tick is under way.
    Sleeping,
}

/// Where the loop stands.
#[derive(Clone, Copy, Debug, PartialEq, Eq, Structural)]
pub enum LoopPhase {
    /// The marker is being acquired.
    Starting,
    /// The tick with this number, counted from zero, is under way.
    Running { tick: u64, stage: TickStage },
    /// The marker is being given up before the process exits with `status`.
    Stopping { status: ExitStatus },
    Stopped { status: ExitStatus },
}

/// The number of the tick after `tick`. The count stays at its largest value
/// once it has reached it.
pub open spec fn tick_after(tick: u64) -> u64 {
    if tick < u64::MAX {
        (tick + 1) as u64
    } else {
        tick
    }
}

impl LoopPhase {
    /// What the embedding program is to do in this phase.
    pub open spec fn action(self, config: LoopConfig) -> LoopAction {
        match self {
            LoopPhase::Starting => LoopAction::AcquireGuard,
            LoopPhase::Running { stage: TickStage::Loading, .. } => LoopAction::LoadList,
            LoopPhase::Running { stage: TickStage::Entry { next, .. }, .. } => LoopAction::ProcessEntry(
                next,
            ),
            LoopPhase::Running { stage: TickStage::Sleeping, .. } => LoopAction::Sleep(
                config.interval_secs,
            ),
            LoopPhase::Stopping { .. } => LoopAction::ReleaseGuard,
            LoopPhase::Stopped { status } => LoopAction::Exit(status),
        }
    }

    /// The phase once a tick has no entry left to work on: a single tick is
    /// followed by the end, with a status that tells whether an entry failed,
    /// any other tick by the pause.
    pub open spec fn after_tick(config: LoopConfig, tick: u64, any_failed: bool) -> LoopPhase {
        match config.mode {
            RunMode::Oneshot => LoopPhase::Stopping { status: tick_status(any_failed) },
            RunMode::Continuous => LoopPhase::Running { tick, stage: TickStage::Sleeping },
        }
    }

    /// The phase after an event.
    ///
    /// A daemon that is refused the marker stops at once, having nothing to
    /// give up. A failed entry does not keep the entries after it from being
    /// worked on. A list that cannot be read ends a single tick with a
    /// failure, and is passed over until the next tick otherwise. A request
    /// to end is obeyed wherever a tick stands: no further entry is worked
    /// on, and the marker is given up before the process exits. An event that
    /// does not answer what was asked for changes nothing.
    pub open spec fn after(self, config: LoopConfig, event: LoopEvent) -> LoopPhase {
        match self {
            LoopPhase::Starting => match event {
                LoopEvent::GuardAcquired => LoopPhase::Running { tick: 0, stage: TickStage::Loading },
                LoopEvent::GuardRefused(error) => LoopPhase::Stopped { status: refusal_status(error) },
                LoopEvent::TerminationRequested => LoopPhase::Stopped { status: ExitStatus::Clean },
                _ => self,
            },
            LoopPhase::Running { tick, stage } => match (stage, event) {
                (_, LoopEvent::TerminationRequested) => LoopPhase::Stopping {
                    status: match (config.mode, stage) {
                        (RunMode::Oneshot, TickStage::Entry { any_failed, .. }) => tick_status(
                            any_failed,
                        ),
                        _ => ExitStatus::Clean,
                    },
                },
                (TickStage::Loading, LoopEvent::ListLoaded(entries)) => if entries == 0 {
                    LoopPhase::after_tick(config, tick, false)
                } else {
                    LoopPhase::Running {
                        tick,
                        stage: TickStage::Entry { next: 0, entries, any_failed: false },
                    }
                },
                (TickStage::Loading, LoopEvent::LoadFailed) => match config.mode {
                    RunMode::Oneshot => LoopPhase::Stopping { status: ExitStatus::LoadFailed },
                    RunMode::Continuous => LoopPhase::Running { tick, stage: TickStage::Sleeping },
                },
                (
                    TickStage::Entry { next, entries, any_failed },
                    LoopEvent::EntryDone(outcome),
                ) => {
                    let failed = any_failed || outcome.is_failure_spec();
                    if next + 1 < entries {
                        LoopPhase::Running {
                            tick,
                            stage: TickStage::Entry {
                                next: (next + 1) as usize,
                                entries,
                                any_failed: failed,
                            },
                        }
                    } else {
                        LoopPhase::after_tick(config, tick, failed)
                    }
                },
                (TickStage::Sleeping, LoopEvent::SleepElapsed) => LoopPhase::Running {
                    tick: tick_after(tick),
                    stage: TickStage::Loading,
                },
                _ => self,
            },
            LoopPhase::Stopping { status } => match event {
                LoopEvent::GuardReleased => LoopPhase::Stopped { status },
                _ => self,
            },
            LoopPhase::Stopped { .. } => self,
        }
    }
}

/// A loop, as contracts see it.
pub struct LoopState {
    pub config: LoopConfig,
    pub phase: LoopPhase,
}

/// The schedule of one daemon process.
pub struct ReconciliationLoop {
    config: LoopConfig,
    phase: LoopPhase,
}

impl View for ReconciliationLoop {
    type V = LoopState;

    closed spec fn view(&self) -> LoopState {
        LoopState { config: self.config, phase: self.phase }
    }
}

impl ReconciliationLoop {
    /// A daemon that has yet to take the marker.
    pub fn new(config: LoopConfig) -> (started: ReconciliationLoop)
        ensures
            started@ == (LoopState { config, phase: LoopPhase::Starting }),
    {
        ReconciliationLoop { config, phase: LoopPhase::Starting }
    }

    pub fn phase(&self) -> (now: LoopPhase)
        ensures
            now == self@.phase,
    {
        self.phase
    }

    pub fn config(&self) -> (held: LoopConfig)
        ensures
            held == self@.config,
    {
        self.config
    }

    /// What the embedding program is to do now.
    pub fn action(&self) -> (now: LoopAction)
        ensures
            now == self@.phase.action(self@.config),
    {
        match self.phase {
            LoopPhase::Starting => LoopAction::AcquireGuard,
            LoopPhase::Running { tick: _, stage } => match stage {
                TickStage::Loading => LoopAction::LoadList,
                TickStage::Entry { next, entries: _, any_failed: _ } => LoopAction::ProcessEntry(next),
                TickStage::Sleeping => LoopAction::Sleep(self.config.interval_secs),
            },
            LoopPhase::Stopping { status: _ } => LoopAction::ReleaseGuard,
            LoopPhase::Stopped { status } => LoopAction::Exit(status),
        }
    }

    /// Takes in an event and says what to do next.
    pub fn on_event(&mut self, event: LoopEvent) -> (next: LoopAction)
        ensures
            final(self)@.phase == old(self)@.phase.after(old(self)@.config, event),
            final(self)@.config == old(self)@.config,
            next == final(self)@.phase.action(final(self)@.config),
    {
        let phase = match self.phase {
            LoopPhase::Starting => match event {
                LoopEvent::GuardAcquired => LoopPhase::Running { tick: 0, stage: TickStage::Loading },
                LoopEvent::GuardRefused(error) => LoopPhase::Stopped {
                    status: match error {
                        InstanceError::AlreadyRunning => ExitStatus::AlreadyRunning,
                        InstanceError::MarkerUnusable => ExitStatus::MarkerUnusable,
                    },
                },
                LoopEvent::TerminationRequested => LoopPhase::Stopped { status: ExitStatus::Clean },
                _ => LoopPhase::Starting,
            },
            LoopPhase::Running { tick, stage } => match event {
                LoopEvent::TerminationRequested => {
                    let status = match (self.config.mode, stage) {
                        (
                            RunMode::Oneshot,
                            TickStage::Entry { next: _, entries: _, any_failed },
                        ) => ReconciliationLoop::status_of_tick(any_failed),
                        _ => ExitStatus::Clean,
                    };
                    LoopPhase::Stopping { status }
                },
                LoopEvent::ListLoaded(entries) => match stage {
                    TickStage::Loading => {
                        if entries == 0 {
                            self.end_of_tick(tick, false)
                        } else {
                            LoopPhase::Running {
                                tick,
                                stage: TickStage::Entry { next: 0, entries, any_failed: false },
                            }
                        }
                    },
                    _ => self.phase,
                },
                LoopEvent::LoadFailed => match stage {
                    TickStage::Loading => match self.config.mode {
                        RunMode::Oneshot => LoopPhase::Stopping { status: ExitStatus::LoadFailed },
                        RunMode::Continuous => LoopPhase::Running { tick, stage: TickStage::Sleeping },
                    },
                    _ => self.phase,
                },
                LoopEvent::EntryDone(outcome) => match stage {
                    TickStage::Entry { next, entries, any_failed } => {
                        let failed = any_failed || outcome.is_failure();
                        if next < entries && next + 1 < entries {
                            LoopPhase::Running {
                                tick,
                                stage: TickStage::Entry { next: next + 1, entries, any_failed: failed },
                            }
                        } else {
                            self.end_of_tick(tick, failed)
                        }
                    },
                    _ => self.phase,
                },
                LoopEvent::SleepElapsed => match stage {
                    TickStage::Sleeping => {
                        let following: u64 = if tick < u64::MAX {
                            tick + 1
                        } else {
                            tick
                        };
                        LoopPhase::Running { tick: following, stage: TickStage::Loading }
                    },
                    _ => self.phase,
                },
                _ => self.phase,
            },
            LoopPhase::Stopping { status } => match event {
                LoopEvent::GuardReleased => LoopPhase::Stopped { status },
                _ => self.phase,
            },
            LoopPhase::Stopped { status: _ } => self.phase,
        };
        self.phase = phase;
        self.action()
    }

    fn status_of_tick(any_failed: bool) -> (status: ExitStatus)
        ensures
            status == tick_status(any_failed),
    {
        if any_failed {
            ExitStatus::EntriesFailed
        } else {
            ExitStatus::Clean
        }
    }

    fn end_of_tick(&self, tick: u64, any_failed: bool) -> (phase: LoopPhase)
        ensures
            phase == LoopPhase::after_tick(self@.config, tick, any_failed),
    {
        match self.config.mode {
            RunMode::Oneshot => LoopPhase::Stopping {
                status: ReconciliationLoop::status_of_tick(any_failed),
            },
            RunMode::Continuous => LoopPhase::Running { tick, stage: TickStage::Sleeping },
        }
    }
}

impl LoopPhase {
    /// The phase after the entries that were asked for, one after the other,
    /// ended as `outcomes` says.
    pub open spec fn after_outcomes(
        self,
        config: LoopConfig,
        outcomes: Seq<ReconciliationOutcome>,
    ) -> LoopPhase
        decreases outcomes.len(),
    {
        if outcomes.len() == 0 {
            self
        } else {
            self.after_outcomes(config, outcomes.drop_last()).after(
                config,
                LoopEvent::EntryDone(outcomes.last()),
            )
        }
    }

    /// Whether the process holds the marker in this phase.
    pub open spec fn holds_marker(self) -> bool {
        self is Running || self is Stopping
    }
}

/// Whether one of the outcomes is a failure.
pub open spec fn any_failure(outcomes: Seq<ReconciliationOutcome>) -> bool {
    exists|i: int| 0 <= i < outcomes.len() && (#[trigger] outcomes[i]).is_failure_spec()
}

/// A tick works through the list it loaded entry by entry, in the order of the
/// list, whatever the outcomes are: after any number of them the entry at the
/// next place is asked for. After the last, a single tick ends with a status
/// that is a failure exactly if an entry failed, and any other tick goes on to
/// its pause.
pub proof fn lemma_tick_works_through_the_list(
    config: LoopConfig,
    tick: u64,
    entries: usize,
    outcomes: Seq<ReconciliationOutcome>,
)
    requires
        0 < entries,
        outcomes.len() <= entries,
    ensures
        ({
            let loaded = (LoopPhase::Running { tick, stage: TickStage::Loading }).after(
                config,
                LoopEvent::ListLoaded(entries),
            );
            let end = loaded.after_outcomes(config, outcomes);
            if outcomes.len() < entries {
                &&& end == (LoopPhase::Running {
                    tick,
                    stage: TickStage::Entry {
                        next: outcomes.len() as usize,
                        entries,
                        any_failed: any_failure(outcomes),
                    },
                })
                &&& end.action(config) == LoopAction::ProcessEntry(outcomes.len() as usize)
            } else {
                end == LoopPhase::after_tick(config, tick, any_failure(outcomes))
            }
        }),
    decreases outcomes.len(),
{
    if outcomes.len() > 0 {
        let earlier = outcomes.drop_last();
        lemma_tick_works_through_the_list(config, tick, entries, earlier);
        let done = earlier.len() as int;
        assert(any_failure(outcomes) == (any_failure(earlier) || outcomes.last().is_failure_spec())) by {
            if any_failure(outcomes) {
                let i = choose|i: int|
                    0 <= i < outcomes.len() && (#[trigger] outcomes[i]).is_failure_spec();
                if i < done {
                    assert(earlier[i].is_failure_spec());
                }
            }
        }
    }
}

/// A daemon that runs once never pauses and never starts a second tick: from
/// any phase it can be in, every event leads to a phase it can be in.
pub proof fn lemma_oneshot_is_a_single_tick(config: LoopConfig, phase: LoopPhase, event: LoopEvent)
    requires
        config.mode is Oneshot,
        single_tick(phase),
    ensures
        single_tick(phase.after(config, event)),
        single_tick(LoopPhase::Starting),
{
}

/// Whether the phase is one of a daemon in its first tick that has not paused.
pub open spec fn single_tick(phase: LoopPhase) -> bool {
    phase matches LoopPhase::Running { tick, stage } ==> tick == 0 && !(stage is Sleeping)
}

/// A daemon that runs on never stops by itself: only a request to end, or a
/// marker that it is refused, makes it stop; and each pause is followed by a
/// tick that loads the list anew.
pub proof fn lemma_continuous_runs_until_asked(config: LoopConfig, phase: LoopPhase, event: LoopEvent)
    requires
        config.mode is Continuous,
    ensures
        phase is Running && !(phase.after(config, event) is Running) ==> event
            is TerminationRequested && phase.after(config, event) == (LoopPhase::Stopping {
            status: ExitStatus::Clean,
        }),
        phase matches LoopPhase::Running { tick, stage: TickStage::Sleeping } ==> phase.after(
            config,
            LoopEvent::SleepElapsed,
        ) == (LoopPhase::Running { tick: tick_after(tick), stage: TickStage::Loading }),
{
}

/// The marker is held from the moment it was acquired until it was given up,
/// and the process exits only without it: a request to end is obeyed in every
/// phase of a tick, and what follows it is the release of the marker.
pub proof fn lemma_marker_is_released_before_exit(config: LoopConfig, phase: LoopPhase, event: LoopEvent)
    ensures
        !phase.holds_marker() && phase.after(config, event).holds_marker() ==> phase is Starting
            && event is GuardAcquired,
        phase.holds_marker() && !phase.after(config, event).holds_marker() ==> phase is Stopping
            && event is GuardReleased,
        phase is Running ==> phase.after(config, LoopEvent::TerminationRequested) is Stopping,
        phase.after(config, event) is Stopping ==> phase.after(config, event).action(config)
            == LoopAction::ReleaseGuard,
        phase is Stopped ==> phase.after(config, event) == phase,
{
}

/// The status code is zero for a clean end only, and two different ways to
/// end have different codes.
pub proof fn lemma_exit_codes_tell_apart(one: ExitStatus, other: ExitStatus)
    ensures
        one.code_spec() == 0 <==> one is Clean,
        one.code_spec() == other.code_spec() <==> one == other,
{
}

} // verus!
