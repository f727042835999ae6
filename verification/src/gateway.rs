//! A gateway's mapping table as a mathematical map, and what a reconciliation
//! does to a gateway that keeps its table faithfully.
//!
//! Nothing here runs. The model says how a well-behaved gateway answers: it
//! holds at most one internal socket per protocol and external port, takes a
//! mapping whose port is free or already leads to the same socket, refuses one
//! whose port leads elsewhere, and removes what it is asked to remove. The
//! laws below are proved of every such table.

use vstd::prelude::*;
use crate::address::LocalSocketV4;
use crate::reconciler::{
    GatewayFailure, MappingError, MappingRequest, ReconcileAction, ReconcilePhase,
    ReconciliationOutcome,
};
use crate::PortMappingProtocol;

verus! {

/// The mapping table of a gateway: the internal socket that each protocol and
/// external port leads to.
pub struct MappingTable {
    pub entries: Map<(PortMappingProtocol, u16), LocalSocketV4>,
}

impl MappingTable {
    /// Whether the table leads the request's port to a socket other than the
    /// request's.
    pub open spec fn conflicts_with(self, request: MappingRequest) -> bool {
        let key = (request.protocol, request.external_port);
        self.entries.contains_key(key) && self.entries[key] != request.internal
    }

    /// Whether the table leads the request's port to the request's socket.
    pub open spec fn holds(self, request: MappingRequest) -> bool {
        let key = (request.protocol, request.external_port);
        self.entries.contains_key(key) && self.entries[key] == request.internal
    }

    /// The table with the request's port leading to the request's socket.
    pub open spec fn with(self, request: MappingRequest) -> MappingTable {
        MappingTable {
            entries: self.entries.insert(
                (request.protocol, request.external_port),
                request.internal,
            ),
        }
    }

    /// How the gateway answers the addition of a mapping, and its table
    /// afterwards.
    pub open spec fn answer_add(self, request: MappingRequest) -> (
        Result<(), GatewayFailure>,
        MappingTable,
    ) {
        if request.external_port == 0 {
            (Err(GatewayFailure::ExternalPortZeroInvalid), self)
        } else if request.internal.port == 0 {
            (Err(GatewayFailure::InternalPortZeroInvalid), self)
        } else if self.conflicts_with(request) {
            (Err(GatewayFailure::PortInUse), self)
        } else {
            (Ok(()), self.with(request))
        }
    }

    /// How the gateway answers the removal of the mapping of a protocol and
    /// external port, and its table afterwards.
    pub open spec fn answer_remove(self, protocol: PortMappingProtocol, port: u16) -> (
        Result<(), GatewayFailure>,
        MappingTable,
    ) {
        if self.entries.contains_key((protocol, port)) {
            (Ok(()), MappingTable { entries: self.entries.remove((protocol, port)) })
        } else {
            (Err(GatewayFailure::NoSuchPortMapping), self)
        }
    }
}

/// A reconciliation that has run to its end against a gateway.
pub struct GatewayRun {
    /// The gateway's table afterwards.
    pub table: MappingTable,
    /// The calls that were made, in order.
    pub calls: Seq<ReconcileAction>,
    pub result: Result<ReconciliationOutcome, MappingError>,
}

/// Runs a reconciliation from `phase` to its end: each call that the phase
/// asks for is answered by the gateway from its table.
pub open spec fn run_from(
    phase: ReconcilePhase,
    request: MappingRequest,
    table: MappingTable,
    calls: Seq<ReconcileAction>,
) -> GatewayRun
    decreases phase.calls_left(),
{
    match phase {
        ReconcilePhase::Finished(result) => GatewayRun { table, calls, result },
        ReconcilePhase::Removal => {
            let (reply, next) = table.answer_remove(request.protocol, request.external_port);
            run_from(phase.after_reply(reply), request, next, calls.push(phase.action()))
        },
        _ => {
            let (reply, next) = table.answer_add(request);
            run_from(phase.after_reply(reply), request, next, calls.push(phase.action()))
        },
    }
}

/// A whole reconciliation of `request` against a gateway with this table.
pub open spec fn reconcile_against(table: MappingTable, request: MappingRequest) -> GatewayRun {
    run_from(ReconcilePhase::FirstAdd, request, table, Seq::empty())
}

/// Where the port is free, or already leads to the socket asked for, the
/// mapping is applied with a single addition, and afterwards the table leads
/// the port to that socket and is otherwise unchanged.
pub proof fn lemma_free_port_is_applied(table: MappingTable, request: MappingRequest)
    requires
        request.external_port != 0,
        request.internal.port != 0,
        !table.conflicts_with(request),
    ensures
        reconcile_against(table, request).result == Ok::<ReconciliationOutcome, MappingError>(
            ReconciliationOutcome::Applied,
        ),
        reconcile_against(table, request).calls == seq![ReconcileAction::AddPort],
        reconcile_against(table, request).table == table.with(request),
        reconcile_against(table, request).table.holds(request),
{
    reveal_with_fuel(run_from, 3);
}

/// Where the port leads to another socket, the mapping is applied after the
/// conflict is resolved: one addition that is refused, one removal, one
/// addition again, and no call more. Afterwards the table leads the port to
/// the socket asked for and is otherwise unchanged.
pub proof fn lemma_taken_port_is_overwritten(table: MappingTable, request: MappingRequest)
    requires
        request.external_port != 0,
        request.internal.port != 0,
        table.conflicts_with(request),
    ensures
        reconcile_against(table, request).result == Ok::<ReconciliationOutcome, MappingError>(
            ReconciliationOutcome::AppliedAfterConflictResolution,
        ),
        reconcile_against(table, request).calls == seq![
            ReconcileAction::AddPort,
            ReconcileAction::RemovePort,
            ReconcileAction::AddPort,
        ],
        reconcile_against(table, request).table == table.with(request),
        reconcile_against(table, request).table.holds(request),
{
    reveal_with_fuel(run_from, 5);
    let key = (request.protocol, request.external_port);
    assert(table.entries.remove(key).insert(key, request.internal) =~= table.entries.insert(
        key,
        request.internal,
    ));
}

/// Reconciling a mapping that the table already holds applies it, and doing so
/// again applies it again: both times with a single addition, and the table
/// stays as it was.
pub proof fn lemma_reconcile_is_idempotent(table: MappingTable, request: MappingRequest)
    requires
        request.external_port != 0,
        request.internal.port != 0,
        table.holds(request),
    ensures
        ({
            let first = reconcile_against(table, request);
            let second = reconcile_against(first.table, request);
            &&& first.result == Ok::<ReconciliationOutcome, MappingError>(
                ReconciliationOutcome::Applied,
            )
            &&& second.result == first.result
            &&& first.calls == seq![ReconcileAction::AddPort]
            &&& second.calls == first.calls
            &&& first.table == table
            &&& second.table == table
        }),
{
    lemma_free_port_is_applied(table, request);
    let key = (request.protocol, request.external_port);
    assert(table.entries.insert(key, request.internal) =~= table.entries);
    lemma_free_port_is_applied(table.with(request), request);
}

/// Whatever the table held, once a reconciliation has succeeded the next one
/// of the same mapping is applied at the first attempt and changes nothing.
pub proof fn lemma_success_is_a_steady_state(table: MappingTable, request: MappingRequest)
    requires
        reconcile_against(table, request).result is Ok,
    ensures
        ({
            let first = reconcile_against(table, request);
            let second = reconcile_against(first.table, request);
            &&& first.table.holds(request)
            &&& second.result == Ok::<ReconciliationOutcome, MappingError>(
                ReconciliationOutcome::Applied,
            )
            &&& second.calls == seq![ReconcileAction::AddPort]
            &&& second.table == first.table
        }),
{
    reveal_with_fuel(run_from, 5);
    if table.conflicts_with(request) {
        lemma_taken_port_is_overwritten(table, request);
    } else {
        lemma_free_port_is_applied(table, request);
    }
    lemma_reconcile_is_idempotent(table.with(request), request);
}

} // verus!
