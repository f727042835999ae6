//! Applying one mapping to a gateway, with one removal and one retry when the
//! gateway answers that the port is taken.
//!
//! A [`Reconciler`] never talks to the gateway itself. It names the call to
//! make, is told how the gateway answered, and names the next call or the
//! result.

use vstd::prelude::*;
use crate::address::LocalSocketV4;
use crate::locator::DiscoveryError;
use crate::{Options, PortMappingProtocol};

verus! {

/// Why a gateway refused a call, or that the call did not get through.
#[derive(Clone, Copy, Debug, PartialEq, Eq, Structural)]
pub enum GatewayFailure {
    ActionNotAuthorized,
    InternalPortZeroInvalid,
    ExternalPortZeroInvalid,
    /// The external port is mapped to another internal socket.
    PortInUse,
    SamePortValuesRequired,
    OnlyPermanentLeasesSupported,
    DescriptionTooLong,
    NoSuchPortMapping,
    /// The request failed on the way, or the answer was none of the above.
    RequestFailed,
}

/// The call to the gateway that failed.
#[derive(Clone, Copy, Debug, PartialEq, Eq, Structural)]
pub enum MappingStage {
    /// The first attempt to add the mapping.
    Add,
    /// The removal of the mapping that was in the way.
    Remove,
    /// The second attempt to add the mapping, after the removal.
    Retry,
}

/// A mapping that could not be applied.
#[derive(Clone, Copy, Debug, PartialEq, Eq, Structural)]
pub struct MappingError {
    pub stage: MappingStage,
    pub failure: GatewayFailure,
}

/// Why nothing was applied for an entry.
#[derive(Clone, Copy, Debug, PartialEq, Eq, Structural)]
pub enum FailureReason {
    Discovery(DiscoveryError),
    Mapping(MappingError),
}

/// How the work on one entry ended.
#[derive(Clone, Copy, Debug, PartialEq, Eq, Structural)]
pub enum ReconciliationOutcome {
    /// The gateway took the mapping at the first attempt.
    Applied,
    /// The gateway took the mapping after the one in its way was removed.
    AppliedAfterConflictResolution,
    Failed(FailureReason),
}

impl ReconciliationOutcome {
    pub open spec fn is_failure_spec(&self) -> bool {
        self is Failed
    }

    #[verifier::when_used_as_spec(is_failure_spec)]
    pub fn is_failure(&self) -> (failed: bool)
        ensures
            failed == self.is_failure_spec(),
    {
        match self {
            ReconciliationOutcome::Failed(_) => true,
            _ => false,
        }
    }
}

/// What is handed to the gateway when a mapping is added.
#[derive(Debug)]
pub struct MappingRequest {
    pub protocol: PortMappingProtocol,
    pub external_port: u16,
    /// Where the gateway forwards to.
    pub internal: LocalSocketV4,
    /// In seconds.
    pub lease_duration: u32,
    pub description: String,
}

/// The request that applies `entry` with `internal` as the socket to forward
/// to.
pub open spec fn request_for(entry: Options, internal: LocalSocketV4) -> MappingRequest {
    MappingRequest {
        protocol: entry.protocol,
        external_port: entry.port,
        internal,
        lease_duration: entry.duration,
        description: entry.comment,
    }
}

/// The call to make, or the result.
#[derive(Clone, Copy, Debug, PartialEq, Eq)]
pub enum ReconcileAction {
    /// Add the mapping that the reconciler's request describes.
    AddPort,
    /// Remove whatever mapping the gateway holds for the request's protocol
    /// and external port.
    RemovePort,
    Finish(Result<ReconciliationOutcome, MappingError>),
}

/// How far a reconciliation has come.
#[derive(Clone, Copy, Debug, PartialEq, Eq)]
pub enum ReconcilePhase {
    /// The first attempt to add the mapping is under way.
    FirstAdd,
    /// The port was taken; the removal of the mapping in the way is under way.
    Removal,
    /// The second attempt to add the mapping is under way.
    RetryAdd,
    Finished(Result<ReconciliationOutcome, MappingError>),
}

impl ReconcilePhase {
    /// What the embedding program is to do in this phase.
    pub open spec fn action(self) -> ReconcileAction {
        match self {
            ReconcilePhase::FirstAdd => ReconcileAction::AddPort,
            ReconcilePhase::Removal => ReconcileAction::RemovePort,
            ReconcilePhase::RetryAdd => ReconcileAction::AddPort,
            ReconcilePhase::Finished(result) => ReconcileAction::Finish(result),
        }
    }

    /// The phase after the gateway has answered the call under way. Only a
    /// first attempt that finds the port taken leads to a removal, and only a
    /// removal that succeeds to a second attempt; every other failure ends
    /// the work. A finished reconciliation stays as it is.
    pub open spec fn after_reply(self, reply: Result<(), GatewayFailure>) -> ReconcilePhase {
        match self {
            ReconcilePhase::FirstAdd => match reply {
                Ok(_) => ReconcilePhase::Finished(Ok(ReconciliationOutcome::Applied)),
                Err(GatewayFailure::PortInUse) => ReconcilePhase::Removal,
                Err(failure) => ReconcilePhase::Finished(
                    Err(MappingError { stage: MappingStage::Add, failure }),
                ),
            },
            ReconcilePhase::Removal => match reply {
                Ok(_) => ReconcilePhase::RetryAdd,
                Err(failure) => ReconcilePhase::Finished(
                    Err(MappingError { stage: MappingStage::Remove, failure }),
                ),
            },
            ReconcilePhase::RetryAdd => match reply {
                Ok(_) => ReconcilePhase::Finished(
                    Ok(ReconciliationOutcome::AppliedAfterConflictResolution),
                ),
                Err(failure) => ReconcilePhase::Finished(
                    Err(MappingError { stage: MappingStage::Retry, failure }),
                ),
            },
            ReconcilePhase::Finished(_) => self,
        }
    }

    /// How many calls to the gateway can still follow.
    pub open spec fn calls_left(self) -> nat {
        match self {
            ReconcilePhase::FirstAdd => 3,
            ReconcilePhase::Removal => 2,
            ReconcilePhase::RetryAdd => 1,
            ReconcilePhase::Finished(_) => 0,
        }
    }
}

/// A reconciliation, as contracts see it.
pub struct ReconcilerState {
    pub request: MappingRequest,
    pub phase: ReconcilePhase,
}

/// The reconciliation of one mapping against one gateway.
pub struct Reconciler {
    request: MappingRequest,
    phase: ReconcilePhase,
}

impl View for Reconciler {
    type V = ReconcilerState;

    closed spec fn view(&self) -> ReconcilerState {
        ReconcilerState { request: self.request, phase: self.phase }
    }
}

impl Reconciler {
    /// Starts the reconciliation of `entry`, with `internal` as the socket to
    /// forward to. The first call to make is the addition of the mapping.
    pub fn new(entry: &Options, internal: LocalSocketV4) -> (started: Reconciler)
        ensures
            started@.request == request_for(*entry, internal),
            started@.phase == ReconcilePhase::FirstAdd,
    {
        Reconciler {
            request: MappingRequest {
                protocol: entry.protocol,
                external_port: entry.port,
                internal,
                lease_duration: entry.duration,
                description: entry.comment.clone(),
            },
            phase: ReconcilePhase::FirstAdd,
        }
    }

    /// What every addition of this reconciliation hands to the gateway. A
    /// removal names its protocol and external port.
    pub fn request(&self) -> (held: &MappingRequest)
        ensures
            *held == self@.request,
    {
        &self.request
    }

    pub fn phase(&self) -> (now: ReconcilePhase)
        ensures
            now == self@.phase,
    {
        self.phase
    }

    /// What the embedding program is to do now.
    pub fn action(&self) -> (now: ReconcileAction)
        ensures
            now == self@.phase.action(),
    {
        match self.phase {
            ReconcilePhase::FirstAdd => ReconcileAction::AddPort,
            ReconcilePhase::Removal => ReconcileAction::RemovePort,
            ReconcilePhase::RetryAdd => ReconcileAction::AddPort,
            ReconcilePhase::Finished(result) => ReconcileAction::Finish(result),
        }
    }

    /// Takes in how the gateway answered the call that was asked for, and says
    /// what to do next.
    pub fn on_reply(&mut self, reply: Result<(), GatewayFailure>) -> (next: ReconcileAction)
        ensures
            final(self)@.phase == old(self)@.phase.after_reply(reply),
            final(self)@.request == old(self)@.request,
            next == final(self)@.phase.action(),
    {
        let phase = match self.phase {
            ReconcilePhase::FirstAdd => match reply {
                Ok(_) => ReconcilePhase::Finished(Ok(ReconciliationOutcome::Applied)),
                Err(GatewayFailure::PortInUse) => ReconcilePhase::Removal,
                Err(failure) => ReconcilePhase::Finished(
                    Err(MappingError { stage: MappingStage::Add, failure }),
                ),
            },
            ReconcilePhase::Removal => match reply {
                Ok(_) => ReconcilePhase::RetryAdd,
                Err(failure) => ReconcilePhase::Finished(
                    Err(MappingError { stage: MappingStage::Remove, failure }),
                ),
            },
            ReconcilePhase::RetryAdd => match reply {
                Ok(_) => ReconcilePhase::Finished(
                    Ok(ReconciliationOutcome::AppliedAfterConflictResolution),
                ),
                Err(failure) => ReconcilePhase::Finished(
                    Err(MappingError { stage: MappingStage::Retry, failure }),
                ),
            },
            ReconcilePhase::Finished(result) => ReconcilePhase::Finished(result),
        };
        self.phase = phase;
        self.action()
    }
}

/// The outcome of an entry from how its two steps ended: the search for a
/// gateway and, where one was found, the reconciliation against it.
pub open spec fn entry_outcome_spec(
    located: Result<LocalSocketV4, DiscoveryError>,
    reconciled: Result<ReconciliationOutcome, MappingError>,
) -> ReconciliationOutcome {
    match located {
        Err(error) => ReconciliationOutcome::Failed(FailureReason::Discovery(error)),
        Ok(_) => match reconciled {
            Ok(outcome) => outcome,
            Err(error) => ReconciliationOutcome::Failed(FailureReason::Mapping(error)),
        },
    }
}

/// Folds how the two steps of an entry ended into its outcome. Where no
/// gateway was found, `reconciled` is not looked at.
#[verifier::when_used_as_spec(entry_outcome_spec)]
pub fn entry_outcome(
    located: Result<LocalSocketV4, DiscoveryError>,
    reconciled: Result<ReconciliationOutcome, MappingError>,
) -> (outcome: ReconciliationOutcome)
    ensures
        outcome == entry_outcome_spec(located, reconciled),
{
    match located {
        Err(error) => ReconciliationOutcome::Failed(FailureReason::Discovery(error)),
        Ok(_) => match reconciled {
            Ok(outcome) => outcome,
            Err(error) => ReconciliationOutcome::Failed(FailureReason::Mapping(error)),
        },
    }
}

/// Whatever the gateway answers, every answer brings the end nearer, so no
/// reconciliation makes more than three calls. A removal only follows a first
/// attempt that found the port taken, a second attempt only a removal that
/// succeeded, and nothing follows a second attempt. Success names the way it
/// came about.
pub proof fn lemma_at_most_one_retry(phase: ReconcilePhase, reply: Result<(), GatewayFailure>)
    ensures
        phase.calls_left() <= 3,
        !(phase is Finished) ==> phase.after_reply(reply).calls_left() < phase.calls_left(),
        phase.after_reply(reply) is Removal <==> phase is FirstAdd && reply == Err::<
            (),
            GatewayFailure,
        >(GatewayFailure::PortInUse),
        phase.after_reply(reply) is RetryAdd <==> phase is Removal && reply is Ok,
        phase.after_reply(reply) !is FirstAdd,
        phase is RetryAdd ==> phase.after_reply(reply) is Finished,
        !(phase is Finished) && reply is Ok ==> (phase.after_reply(reply) matches ReconcilePhase::Finished(
            result,
        ) ==> result == Ok::<ReconciliationOutcome, MappingError>(
            if phase is FirstAdd {
                ReconciliationOutcome::Applied
            } else {
                ReconciliationOutcome::AppliedAfterConflictResolution
            },
        )),
        !(phase is Finished) ==> (phase.after_reply(reply) matches ReconcilePhase::Finished(result)
            ==> (result is Err <==> reply is Err)),
{
}

} // verus!
