//! The work on one entry of the list, from its address text to its outcome:
//! find the gateway, then reconcile the mapping against it.
//!
//! An [`EntryRun`] is the whole of that work as far as it is decided here. It
//! names each piece of outside work in turn (reading an address, searching
//! for a gateway, calling the gateway) and is told how it went.

use vstd::prelude::*;
use crate::address::{Ipv4Address, LocalSocketV4};
use crate::locator::{
    explicit_start, scan_start, Locator, LocatorAction, LocatorState, ParsedAddress,
};
use crate::reconciler::{
    entry_outcome, entry_outcome_spec, request_for, FailureReason, GatewayFailure, MappingRequest,
    ReconcileAction, ReconcilePhase, ReconciliationOutcome, Reconciler,
};
use crate::Options;

verus! {

/// How a piece of outside work for an entry ended.
#[derive(Clone, Copy, Debug, PartialEq, Eq)]
pub enum EntryEvent {
    /// What reading the entry's address text, with a colon and the entry's
    /// port appended, as a socket address gave.
    Parsed(ParsedAddress),
    /// Whether a gateway answered the search.
    Probed(bool),
    /// How the gateway that was found answered the call.
    Replied(Result<(), GatewayFailure>),
}

/// The piece of outside work to do for an entry, or its outcome.
#[derive(Clone, Copy, Debug, PartialEq, Eq, Structural)]
pub enum EntryAction {
    /// Read the entry's address text, with a colon and the entry's port
    /// appended, as a socket address.
    ParseAddress,
    /// Search for a gateway, bound to this local socket.
    Probe(LocalSocketV4),
    /// Ask the gateway that answered the last search to add the mapping that
    /// the run's request describes.
    AddPort,
    /// Ask that gateway to remove whatever mapping it holds for the request's
    /// protocol and external port.
    RemovePort,
    Finish(ReconciliationOutcome),
}

/// How far the work on an entry has come, as contracts see it.
pub enum EntryStage {
    /// The address text is being read.
    Parsing,
    /// A gateway is being searched for.
    Locating(LocatorState),
    /// The mapping is being reconciled against the gateway that was found.
    Reconciling { request: MappingRequest, phase: ReconcilePhase },
    Done(ReconciliationOutcome),
}

/// The stage that follows from where the search for a gateway stands: the
/// search goes on, or the reconciliation starts with the socket that was
/// found, or the entry has failed.
pub open spec fn stage_of_search(entry: Options, search: LocatorState) -> EntryStage {
    match search.action() {
        LocatorAction::Probe(_) => EntryStage::Locating(search),
        LocatorAction::Found(socket) => EntryStage::Reconciling {
            request: request_for(entry, socket),
            phase: ReconcilePhase::FirstAdd,
        },
        LocatorAction::Failed(error) => EntryStage::Done(
            ReconciliationOutcome::Failed(FailureReason::Discovery(error)),
        ),
    }
}

/// The stage that follows from where the reconciliation stands.
pub open spec fn stage_of_reconciliation(request: MappingRequest, phase: ReconcilePhase) -> EntryStage {
    match phase {
        ReconcilePhase::Finished(result) => EntryStage::Done(
            entry_outcome_spec(Ok(request.internal), result),
        ),
        _ => EntryStage::Reconciling { request, phase },
    }
}

/// The stage in which the work on an entry starts. An entry that names its
/// address has it read first; any other starts with a scan over `found`, the
/// candidate addresses of the host.
pub open spec fn first_stage(entry: Options, found: Seq<Ipv4Address>) -> EntryStage {
    if entry.has_explicit_address() {
        EntryStage::Parsing
    } else {
        stage_of_search(entry, scan_start(found, entry.port))
    }
}

impl EntryStage {
    /// What the embedding program is to do in this stage.
    pub open spec fn action(self) -> EntryAction {
        match self {
            EntryStage::Parsing => EntryAction::ParseAddress,
            EntryStage::Locating(search) => match search.action() {
                LocatorAction::Probe(bind) => EntryAction::Probe(bind),
                LocatorAction::Found(_) => EntryAction::AddPort,
                LocatorAction::Failed(error) => EntryAction::Finish(
                    ReconciliationOutcome::Failed(FailureReason::Discovery(error)),
                ),
            },
            EntryStage::Reconciling { request, phase } => match phase.action() {
                ReconcileAction::AddPort => EntryAction::AddPort,
                ReconcileAction::RemovePort => EntryAction::RemovePort,
                ReconcileAction::Finish(result) => EntryAction::Finish(
                    entry_outcome_spec(Ok(request.internal), result),
                ),
            },
            EntryStage::Done(outcome) => EntryAction::Finish(outcome),
        }
    }

    /// The stage after an event. An event that does not answer what was asked
    /// for changes nothing.
    pub open spec fn after(self, entry: Options, event: EntryEvent) -> EntryStage {
        match (self, event) {
            (EntryStage::Parsing, EntryEvent::Parsed(parsed)) => stage_of_search(
                entry,
                explicit_start(parsed, entry.port),
            ),
            (EntryStage::Locating(search), EntryEvent::Probed(answered)) => stage_of_search(
                entry,
                search.after_probe(answered),
            ),
            (
                EntryStage::Reconciling { request, phase },
                EntryEvent::Replied(reply),
            ) => stage_of_reconciliation(request, phase.after_reply(reply)),
            _ => self,
        }
    }
}

/// The work on an entry, as contracts see it.
pub struct EntryState {
    pub entry: Options,
    pub stage: EntryStage,
}

enum Stage {
    Parsing,
    Locating(Locator),
    Reconciling(Reconciler),
    Done(ReconciliationOutcome),
}

/// The work on one entry of the list.
pub struct EntryRun {
    entry: Options,
    stage: Stage,
}

impl View for EntryRun {
    type V = EntryState;

    closed spec fn view(&self) -> EntryState {
        EntryState {
            entry: self.entry,
            stage: match self.stage {
                Stage::Parsing => EntryStage::Parsing,
                Stage::Locating(locator) => EntryStage::Locating(locator@),
                Stage::Reconciling(reconciler) => EntryStage::Reconciling {
                    request: reconciler@.request,
                    phase: reconciler@.phase,
                },
                Stage::Done(outcome) => EntryStage::Done(outcome),
            },
        }
    }
}

impl EntryRun {
    /// Starts the work on `entry`, given the candidate addresses to scan where
    /// the entry names none.
    pub fn start_over(entry: Options, found: Vec<Ipv4Address>) -> (started: (EntryRun, EntryAction))
        ensures
            started.0@ == (EntryState { entry, stage: first_stage(entry, found@) }),
            started.1 == started.0@.stage.action(),
    {
        if entry.explicit_address().is_some() {
            (EntryRun { entry, stage: Stage::Parsing }, EntryAction::ParseAddress)
        } else {
            let (locator, action) = Locator::scanning(found, entry.port);
            EntryRun::searching(entry, locator, action)
        }
    }

    /// The run in which the search stands at `locator`, whose action is
    /// `action`.
    fn searching(entry: Options, locator: Locator, action: LocatorAction) -> (next: (
        EntryRun,
        EntryAction,
    ))
        requires
            action == locator@.action(),
        ensures
            next.0@ == (EntryState { entry, stage: stage_of_search(entry, locator@) }),
            next.1 == next.0@.stage.action(),
    {
        match action {
            LocatorAction::Probe(bind) => (
                EntryRun { entry, stage: Stage::Locating(locator) },
                EntryAction::Probe(bind),
            ),
            LocatorAction::Found(socket) => {
                let reconciler = Reconciler::new(&entry, socket);
                (EntryRun { entry, stage: Stage::Reconciling(reconciler) }, EntryAction::AddPort)
            },
            LocatorAction::Failed(error) => {
                let outcome = ReconciliationOutcome::Failed(FailureReason::Discovery(error));
                (EntryRun { entry, stage: Stage::Done(outcome) }, EntryAction::Finish(outcome))
            },
        }
    }

    /// The entry that is worked on.
    pub fn entry(&self) -> (held: &Options)
        ensures
            *held == self@.entry,
    {
        &self.entry
    }

    /// What an addition hands to the gateway, once a gateway was found.
    pub fn request(&self) -> (held: Option<&MappingRequest>)
        ensures
            match self@.stage {
                EntryStage::Reconciling { request, .. } => held == Some(&request),
                _ => held is None,
            },
    {
        match &self.stage {
            Stage::Reconciling(reconciler) => Some(reconciler.request()),
            _ => None,
        }
    }

    /// What the embedding program is to do now.
    pub fn action(&self) -> (now: EntryAction)
        ensures
            now == self@.stage.action(),
    {
        match &self.stage {
            Stage::Parsing => EntryAction::ParseAddress,
            Stage::Locating(locator) => match locator.action() {
                LocatorAction::Probe(bind) => EntryAction::Probe(bind),
                LocatorAction::Found(_) => EntryAction::AddPort,
                LocatorAction::Failed(error) => EntryAction::Finish(
                    ReconciliationOutcome::Failed(FailureReason::Discovery(error)),
                ),
            },
            Stage::Reconciling(reconciler) => match reconciler.action() {
                ReconcileAction::AddPort => EntryAction::AddPort,
                ReconcileAction::RemovePort => EntryAction::RemovePort,
                ReconcileAction::Finish(result) => EntryAction::Finish(
                    entry_outcome(Ok(reconciler.request().internal), result),
                ),
            },
            Stage::Done(outcome) => EntryAction::Finish(*outcome),
        }
    }

    /// The run in which the reconciliation stands at `reconciler`, whose
    /// action is `action`.
    fn reconciling(entry: Options, reconciler: Reconciler, action: ReconcileAction) -> (next: (
        EntryRun,
        EntryAction,
    ))
        requires
            action == reconciler@.phase.action(),
        ensures
            next.0@ == (EntryState {
                entry,
                stage: stage_of_reconciliation(reconciler@.request, reconciler@.phase),
            }),
            next.1 == next.0@.stage.action(),
    {
        match action {
            ReconcileAction::AddPort => (
                EntryRun { entry, stage: Stage::Reconciling(reconciler) },
                EntryAction::AddPort,
            ),
            ReconcileAction::RemovePort => (
                EntryRun { entry, stage: Stage::Reconciling(reconciler) },
                EntryAction::RemovePort,
            ),
            ReconcileAction::Finish(result) => {
                let outcome = entry_outcome(Ok(reconciler.request().internal), result);
                (EntryRun { entry, stage: Stage::Done(outcome) }, EntryAction::Finish(outcome))
            },
        }
    }

    /// Takes in how the piece of outside work that was asked for ended, and
    /// says what to do next.
    pub fn on_event(self, event: EntryEvent) -> (next: (EntryRun, EntryAction))
        ensures
            next.0@ == (EntryState { entry: self@.entry, stage: self@.stage.after(self@.entry, event) }),
            next.1 == next.0@.stage.action(),
    {
        let EntryRun { entry, stage } = self;
        match (stage, event) {
            (Stage::Parsing, EntryEvent::Parsed(parsed)) => {
                let (locator, action) = Locator::bound_to(parsed, entry.port);
                EntryRun::searching(entry, locator, action)
            },
            (Stage::Locating(locator), EntryEvent::Probed(answered)) => {
                let mut locator = locator;
                let action = locator.on_probe(answered);
                EntryRun::searching(entry, locator, action)
            },
            (Stage::Reconciling(reconciler), EntryEvent::Replied(reply)) => {
                let mut reconciler = reconciler;
                let action = reconciler.on_reply(reply);
                EntryRun::reconciling(entry, reconciler, action)
            },
            (stage, _) => {
                let unchanged = EntryRun { entry, stage };
                let action = unchanged.action();
                (unchanged, action)
            },
        }
    }
}

impl EntryStage {
    /// What holds of every stage that the work on `entry` can be in: an
    /// address is only read where the entry names one; a search under way
    /// has an address to search for and carries the entry's port; and the
    /// request that goes to the gateway is the entry's own, with the same
    /// port on both sides, for as long as the reconciliation is not over.
    pub open spec fn fits(self, entry: Options) -> bool {
        match self {
            EntryStage::Parsing => entry.has_explicit_address(),
            EntryStage::Locating(search) => search matches LocatorState::Probing { pending, port, .. }
                && pending.len() > 0 && port == entry.port,
            EntryStage::Reconciling { request, phase } => {
                &&& request == request_for(entry, request.internal)
                &&& request.internal.port == entry.port
                &&& !(phase is Finished)
            },
            EntryStage::Done(_) => true,
        }
    }
}

/// The work on an entry starts in a stage that fits the entry, and every event
/// leads from a stage that fits to one that does. So whatever happens outside,
/// the gateway is only ever asked for the mapping that the entry declares:
/// its protocol, its port towards the same port of the local address that the
/// gateway was found from, its lease and its comment; and it is asked for
/// nothing before a gateway was found, and nothing after the outcome is known.
pub proof fn lemma_the_gateway_is_asked_for_the_entry(
    entry: Options,
    found: Seq<Ipv4Address>,
    stage: EntryStage,
    event: EntryEvent,
)
    requires
        stage.fits(entry),
    ensures
        first_stage(entry, found).fits(entry),
        stage.after(entry, event).fits(entry),
        stage.action() is AddPort || stage.action() is RemovePort <==> stage is Reconciling,
        stage.action() is Probe <==> stage is Locating,
        stage.action() is Finish <==> stage is Done,
        stage is Done ==> stage.after(entry, event) == stage,
{
}

} // verus!
