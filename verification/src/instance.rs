//! At most one daemon at a time: the rules of the marker file that a running
//! daemon keeps locked, with its process identifier written inside.
//!
//! An [`InstanceGuard`] touches no file. It names the step to take on the
//! marker, is told how the step ended, and names the next one.

use vstd::prelude::*;

verus! {

/// Why the daemon may not run.
#[derive(Clone, Copy, Debug, PartialEq, Eq, Structural)]
pub enum InstanceError {
    /// Another process holds the lock on the marker.
    AlreadyRunning,
    /// The marker could not be opened, locked or written.
    MarkerUnusable,
}

/// How a step on the marker ended, or what its owner asks for.
#[derive(Clone, Copy, Debug, PartialEq, Eq, Structural)]
pub enum GuardEvent {
    /// The marker was opened and its lock taken.
    LockAcquired,
    /// The lock is held by another process.
    LockHeldElsewhere,
    /// The step failed for a reason of the file system.
    IoFailed,
    /// The identifier was written.
    Written,
    /// The lock was given up.
    Unlocked,
    /// The owner is about to exit.
    ReleaseRequested,
}

/// The step to take on the marker, or where the guard stands.
#[derive(Clone, Copy, Debug, PartialEq, Eq, Structural)]
pub enum GuardAction {
    /// Open the marker, creating it if absent, and try once to lock it
    /// exclusively, without waiting.
    TryLock,
    /// Empty the marker and write the guard's identifier text into it.
    WriteIdentifier,
    /// The lock is held and the identifier written: the daemon may run.
    Proceed,
    /// Give up the lock.
    Unlock,
    /// The daemon may not run.
    Refuse(InstanceError),
    /// The lock was given up; nothing is left to do.
    Finished,
}

/// How far a guard has come.
#[derive(Clone, Copy, Debug, PartialEq, Eq, Structural)]
pub enum GuardPhase {
    Locking,
    Writing,
    Held,
    /// The identifier could not be written; the lock is being given up.
    Abandoning,
    Releasing,
    Released,
    Refused(InstanceError),
}

impl GuardPhase {
    /// What the embedding program is to do in this phase.
    pub open spec fn action(self) -> GuardAction {
        match self {
            GuardPhase::Locking => GuardAction::TryLock,
            GuardPhase::Writing => GuardAction::WriteIdentifier,
            GuardPhase::Held => GuardAction::Proceed,
            GuardPhase::Abandoning => GuardAction::Unlock,
            GuardPhase::Releasing => GuardAction::Unlock,
            GuardPhase::Released => GuardAction::Finished,
            GuardPhase::Refused(error) => GuardAction::Refuse(error),
        }
    }

    /// The phase after an event. A lock held elsewhere refuses at once: no
    /// phase waits for it or tries again. An event that does not answer the
    /// step under way changes nothing.
    pub open spec fn after(self, event: GuardEvent) -> GuardPhase {
        match (self, event) {
            (GuardPhase::Locking, GuardEvent::LockAcquired) => GuardPhase::Writing,
            (GuardPhase::Locking, GuardEvent::LockHeldElsewhere) => GuardPhase::Refused(
                InstanceError::AlreadyRunning,
            ),
            (GuardPhase::Locking, GuardEvent::IoFailed) => GuardPhase::Refused(
                InstanceError::MarkerUnusable,
            ),
            (GuardPhase::Writing, GuardEvent::Written) => GuardPhase::Held,
            (GuardPhase::Writing, GuardEvent::IoFailed) => GuardPhase::Abandoning,
            (GuardPhase::Writing, GuardEvent::ReleaseRequested) => GuardPhase::Releasing,
            (GuardPhase::Held, GuardEvent::ReleaseRequested) => GuardPhase::Releasing,
            (GuardPhase::Abandoning, GuardEvent::Unlocked) => GuardPhase::Refused(
                InstanceError::MarkerUnusable,
            ),
            (GuardPhase::Abandoning, GuardEvent::IoFailed) => GuardPhase::Refused(
                InstanceError::MarkerUnusable,
            ),
            (GuardPhase::Releasing, GuardEvent::Unlocked) => GuardPhase::Released,
            (GuardPhase::Releasing, GuardEvent::IoFailed) => GuardPhase::Released,
            _ => self,
        }
    }

    /// Whether the process holds the lock on the marker in this phase.
    pub open spec fn holds_lock(self) -> bool {
        self is Writing || self is Held || self is Abandoning || self is Releasing
    }
}

/// The decimal digits of `n` as ASCII, without leading zeros.
pub open spec fn decimal_text(n: nat) -> Seq<u8>
    decreases n,
{
    if n < 10 {
        seq![(48 + n) as u8]
    } else {
        decimal_text(n / 10).push((48 + n % 10) as u8)
    }
}

/// The number that a text of ASCII decimal digits stands for.
pub open spec fn decimal_value(text: Seq<u8>) -> nat
    decreases text.len(),
{
    if text.len() == 0 {
        0
    } else {
        (10 * decimal_value(text.drop_last()) + (text.last() - 48)) as nat
    }
}

/// The text of a number holds digits only, starts with a zero only for zero
/// itself, and reads back as the number.
pub proof fn lemma_decimal_text_reads_back(n: nat)
    ensures
        decimal_text(n).len() >= 1,
        forall|i: int| 0 <= i < decimal_text(n).len() ==> 48 <= #[trigger] decimal_text(n)[i] <= 57,
        decimal_text(n)[0] == 48 <==> n == 0,
        decimal_value(decimal_text(n)) == n,
    decreases n,
{
    if n < 10 {
        assert(decimal_text(n).drop_last() =~= Seq::<u8>::empty());
        assert(decimal_value(Seq::<u8>::empty()) == 0);
    } else {
        lemma_decimal_text_reads_back(n / 10);
        let head = decimal_text(n / 10);
        assert(decimal_text(n).drop_last() =~= head);
    }
}

/// Appends the decimal digits of `n` to `out`.
fn push_decimal(n: u32, out: &mut Vec<u8>)
    ensures
        final(out)@ == old(out)@ + decimal_text(n as nat),
    decreases n,
{
    if n >= 10 {
        push_decimal(n / 10, out);
    }
    let digit: u8 = (n % 10) as u8;
    out.push(48 + digit);
}

/// A guard, as contracts see it.
pub struct GuardState {
    /// The identifier of the process that the guard works for.
    pub pid: u32,
    pub phase: GuardPhase,
}

/// The guard of one process over the marker.
pub struct InstanceGuard {
    pid: u32,
    phase: GuardPhase,
}

impl View for InstanceGuard {
    type V = GuardState;

    closed spec fn view(&self) -> GuardState {
        GuardState { pid: self.pid, phase: self.phase }
    }
}

impl InstanceGuard {
    /// Starts to acquire the marker for the process `pid`. The first step is
    /// the attempt to lock.
    pub fn acquire(pid: u32) -> (guard: InstanceGuard)
        ensures
            guard@ == (GuardState { pid, phase: GuardPhase::Locking }),
    {
        InstanceGuard { pid, phase: GuardPhase::Locking }
    }

    pub fn phase(&self) -> (now: GuardPhase)
        ensures
            now == self@.phase,
    {
        self.phase
    }

    /// What the embedding program is to do now.
    pub fn action(&self) -> (now: GuardAction)
        ensures
            now == self@.phase.action(),
    {
        match self.phase {
            GuardPhase::Locking => GuardAction::TryLock,
            GuardPhase::Writing => GuardAction::WriteIdentifier,
            GuardPhase::Held => GuardAction::Proceed,
            GuardPhase::Abandoning => GuardAction::Unlock,
            GuardPhase::Releasing => GuardAction::Unlock,
            GuardPhase::Released => GuardAction::Finished,
            GuardPhase::Refused(error) => GuardAction::Refuse(error),
        }
    }

    /// The text that goes into the marker: the process identifier in decimal.
    pub fn identifier(&self) -> (text: Vec<u8>)
        ensures
            text@ == decimal_text(self@.pid as nat),
    {
        let mut text: Vec<u8> = Vec::new();
        push_decimal(self.pid, &mut text);
        text
    }

    /// Takes in an event and says what to do next.
    pub fn on_event(&mut self, event: GuardEvent) -> (next: GuardAction)
        ensures
            final(self)@.phase == old(self)@.phase.after(event),
            final(self)@.pid == old(self)@.pid,
            next == final(self)@.phase.action(),
    {
        let phase = match (self.phase, event) {
            (GuardPhase::Locking, GuardEvent::LockAcquired) => GuardPhase::Writing,
            (GuardPhase::Locking, GuardEvent::LockHeldElsewhere) => GuardPhase::Refused(
                InstanceError::AlreadyRunning,
            ),
            (GuardPhase::Locking, GuardEvent::IoFailed) => GuardPhase::Refused(
                InstanceError::MarkerUnusable,
            ),
            (GuardPhase::Writing, GuardEvent::Written) => GuardPhase::Held,
            (GuardPhase::Writing, GuardEvent::IoFailed) => GuardPhase::Abandoning,
            (GuardPhase::Writing, GuardEvent::ReleaseRequested) => GuardPhase::Releasing,
            (GuardPhase::Held, GuardEvent::ReleaseRequested) => GuardPhase::Releasing,
            (GuardPhase::Abandoning, GuardEvent::Unlocked) => GuardPhase::Refused(
                InstanceError::MarkerUnusable,
            ),
            (GuardPhase::Abandoning, GuardEvent::IoFailed) => GuardPhase::Refused(
                InstanceError::MarkerUnusable,
            ),
            (GuardPhase::Releasing, GuardEvent::Unlocked) => GuardPhase::Released,
            (GuardPhase::Releasing, GuardEvent::IoFailed) => GuardPhase::Released,
            (phase, _) => phase,
        };
        self.phase = phase;
        self.action()
    }

    /// Asks the guard to give up the marker. A guard that holds the lock
    /// answers with the step that gives it up.
    pub fn release(&mut self) -> (next: GuardAction)
        ensures
            final(self)@.phase == old(self)@.phase.after(GuardEvent::ReleaseRequested),
            final(self)@.pid == old(self)@.pid,
            next == final(self)@.phase.action(),
    {
        self.on_event(GuardEvent::ReleaseRequested)
    }
}

/// The marker file as the guards of all processes see it. Nothing here runs:
/// the model says how a file system that keeps its locks answers.
pub struct Marker {
    /// The process that holds the lock, if any does.
    pub holder: Option<u32>,
    /// What the file holds.
    pub contents: Seq<u8>,
}

impl Marker {
    /// How the marker answers a step taken for the process `pid`, and the
    /// marker afterwards. The lock is given to whoever asks while nobody
    /// holds it, and to nobody else. What is no step on the marker is not
    /// answered.
    pub open spec fn answer(self, pid: u32, step: GuardAction) -> (GuardEvent, Marker) {
        match step {
            GuardAction::TryLock => if self.holder is None {
                (GuardEvent::LockAcquired, Marker { holder: Some(pid), contents: self.contents })
            } else {
                (GuardEvent::LockHeldElsewhere, self)
            },
            GuardAction::WriteIdentifier => (
                GuardEvent::Written,
                Marker { holder: self.holder, contents: decimal_text(pid as nat) },
            ),
            GuardAction::Unlock => (
                GuardEvent::Unlocked,
                Marker { holder: None, contents: self.contents },
            ),
            _ => (GuardEvent::IoFailed, self),
        }
    }

    /// The guard and the marker after the guard has taken the step it asks
    /// for. A guard that asks for no step on the marker leaves both as they
    /// are.
    pub open spec fn after_step_of(self, guard: GuardState) -> (GuardState, Marker) {
        let step = guard.phase.action();
        if step is TryLock || step is WriteIdentifier || step is Unlock {
            let (event, next) = self.answer(guard.pid, step);
            (GuardState { pid: guard.pid, phase: guard.phase.after(event) }, next)
        } else {
            (guard, self)
        }
    }

    /// Whether the marker knows of each of two guards that holds the lock.
    pub open spec fn accounts_for(self, one: GuardState, other: GuardState) -> bool {
        &&& one.phase.holds_lock() ==> self.holder == Some(one.pid)
        &&& other.phase.holds_lock() ==> self.holder == Some(other.pid)
    }
}

impl GuardPhase {
    /// How many steps on the marker can still follow without a word from the
    /// owner.
    pub open spec fn steps_left(self) -> nat {
        match self {
            GuardPhase::Locking => 3,
            GuardPhase::Writing => 2,
            GuardPhase::Abandoning => 1,
            GuardPhase::Releasing => 1,
            _ => 0,
        }
    }
}

/// A guard that has taken its steps on a marker until none was left to take.
pub struct GuardRun {
    pub phase: GuardPhase,
    pub marker: Marker,
    /// The steps that were taken, in order.
    pub steps: Seq<GuardAction>,
}

/// Lets the guard of the process `pid` take its steps on the marker, from
/// `phase` on, until it holds the lock, is refused or has let go.
pub open spec fn run_guard(phase: GuardPhase, pid: u32, marker: Marker, steps: Seq<GuardAction>) -> GuardRun
    decreases phase.steps_left(),
{
    if phase.steps_left() == 0 {
        GuardRun { phase, marker, steps }
    } else {
        let (event, next) = marker.answer(pid, phase.action());
        run_guard(phase.after(event), pid, next, steps.push(phase.action()))
    }
}

/// A whole acquisition of the marker for the process `pid`.
pub open spec fn acquire_against(marker: Marker, pid: u32) -> GuardRun {
    run_guard(GuardPhase::Locking, pid, marker, Seq::empty())
}

/// What follows when the owner of a guard in `phase` asks it to let go.
pub open spec fn release_against(phase: GuardPhase, marker: Marker, pid: u32) -> GuardRun {
    run_guard(phase.after(GuardEvent::ReleaseRequested), pid, marker, Seq::empty())
}

/// Acquiring a marker that nobody holds succeeds: the lock is taken with one
/// attempt, and the marker then holds the identifier of the caller.
pub proof fn lemma_free_marker_is_acquired(marker: Marker, pid: u32)
    requires
        marker.holder is None,
    ensures
        acquire_against(marker, pid).phase == GuardPhase::Held,
        acquire_against(marker, pid).steps == seq![GuardAction::TryLock, GuardAction::WriteIdentifier],
        acquire_against(marker, pid).marker == (Marker {
            holder: Some(pid),
            contents: decimal_text(pid as nat),
        }),
{
    reveal_with_fuel(run_guard, 4);
}

/// Acquiring a marker that is held fails with `AlreadyRunning` after the one
/// attempt to lock: nothing waits, nothing is tried again, and the marker is
/// left as it was.
pub proof fn lemma_held_marker_refuses(marker: Marker, pid: u32)
    requires
        marker.holder is Some,
    ensures
        acquire_against(marker, pid).phase == GuardPhase::Refused(InstanceError::AlreadyRunning),
        acquire_against(marker, pid).steps == seq![GuardAction::TryLock],
        acquire_against(marker, pid).marker == marker,
{
    reveal_with_fuel(run_guard, 3);
}

/// Of two acquisitions in a row of a marker that was free, the first succeeds
/// and the second is refused; the marker goes on holding the identifier of the
/// first.
pub proof fn lemma_second_acquisition_is_refused(marker: Marker, first: u32, second: u32)
    requires
        marker.holder is None,
    ensures
        ({
            let held = acquire_against(marker, first);
            let refused = acquire_against(held.marker, second);
            &&& held.phase == GuardPhase::Held
            &&& refused.phase == GuardPhase::Refused(InstanceError::AlreadyRunning)
            &&& refused.steps == seq![GuardAction::TryLock]
            &&& refused.marker == held.marker
            &&& refused.marker.holder == Some(first)
            &&& refused.marker.contents == decimal_text(first as nat)
        }),
{
    lemma_free_marker_is_acquired(marker, first);
    lemma_held_marker_refuses(acquire_against(marker, first).marker, second);
}

/// A guard that holds the lock gives it up with one step when it is asked to,
/// and the marker can then be acquired again.
pub proof fn lemma_release_frees_the_marker(marker: Marker, pid: u32, later: u32)
    requires
        marker.holder is None,
    ensures
        ({
            let held = acquire_against(marker, pid);
            let released = release_against(held.phase, held.marker, pid);
            &&& released.phase == GuardPhase::Released
            &&& released.steps == seq![GuardAction::Unlock]
            &&& released.marker.holder is None
            &&& acquire_against(released.marker, later).phase == GuardPhase::Held
        }),
{
    lemma_free_marker_is_acquired(marker, pid);
    reveal_with_fuel(run_guard, 3);
    let held = acquire_against(marker, pid);
    lemma_free_marker_is_acquired(release_against(held.phase, held.marker, pid).marker, later);
}

/// A guard holds the lock from the moment it is given to it until it has let
/// go, and at no other time; only the answer that the lock is held elsewhere
/// leads to `AlreadyRunning`.
pub proof fn lemma_lock_is_held_between_acquire_and_unlock(phase: GuardPhase, event: GuardEvent)
    ensures
        !phase.holds_lock() && phase.after(event).holds_lock() ==> phase is Locking && event
            is LockAcquired,
        phase.holds_lock() && !phase.after(event).holds_lock() ==> event is Unlocked || event
            is IoFailed,
        phase.after(event) == GuardPhase::Refused(InstanceError::AlreadyRunning) && phase
            != phase.after(event) ==> phase is Locking && event is LockHeldElsewhere,
        phase is Locking && event is LockHeldElsewhere ==> phase.after(event).action()
            == GuardAction::Refuse(InstanceError::AlreadyRunning),
{
}

/// Two processes never hold the lock at once. Of two guards that work for
/// different processes on one marker, at most one holds the lock, and this
/// stays so whichever step one of them takes next and whenever its owner asks
/// it to let go. It is so at the start, when neither has taken a step.
pub proof fn lemma_at_most_one_guard_holds(one: GuardState, other: GuardState, marker: Marker)
    requires
        one.pid != other.pid,
        marker.accounts_for(one, other),
    ensures
        !(one.phase.holds_lock() && other.phase.holds_lock()),
        marker.after_step_of(one).1.accounts_for(marker.after_step_of(one).0, other),
        marker.accounts_for(
            GuardState { pid: one.pid, phase: one.phase.after(GuardEvent::ReleaseRequested) },
            other,
        ),
        marker.accounts_for(
            GuardState { pid: one.pid, phase: GuardPhase::Locking },
            GuardState { pid: other.pid, phase: GuardPhase::Locking },
        ),
{
}

} // verus!
