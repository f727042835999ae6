//! A host and its gateway as a mathematical model, and what the work on an
//! entry comes to when both behave.
//!
//! Nothing here runs. The model joins the answers that the searches for a
//! gateway get with the table that the gateway keeps, lets the work on an
//! entry run against them from its first stage to its outcome, and the laws
//! say what that outcome is.

use vstd::prelude::*;
use crate::address::{Ipv4Address, LocalSocketV4};
use crate::entry::{first_stage, EntryEvent, EntryStage};
use crate::gateway::{
    lemma_free_port_is_applied, lemma_taken_port_is_overwritten, reconcile_against, run_from,
    MappingTable,
};
use crate::locator::{exhausted, is_first_answer, DiscoveryError, LocatorState, ParsedAddress};
use crate::reconciler::{
    entry_outcome_spec, request_for, FailureReason, MappingRequest, ReconcileAction, ReconcilePhase,
    ReconciliationOutcome,
};
use crate::Options;

verus! {

/// What lies outside the work on one entry.
pub struct World {
    /// What reading the address text of the entry gives.
    pub parsed: ParsedAddress,
    /// How the searches that are still to be made end, in order. A search
    /// beyond the last of them is not answered.
    pub answers: Seq<bool>,
    /// The table of the gateway that answers.
    pub table: MappingTable,
}

impl World {
    /// How the next search ends.
    pub open spec fn next_answer(self) -> bool {
        self.answers.len() > 0 && self.answers[0]
    }

    /// The world after the next search.
    pub open spec fn after_search(self) -> World {
        World {
            parsed: self.parsed,
            answers: if self.answers.len() > 0 {
                self.answers.drop_first()
            } else {
                self.answers
            },
            table: self.table,
        }
    }

    /// The world with another table.
    pub open spec fn with_table(self, table: MappingTable) -> World {
        World { parsed: self.parsed, answers: self.answers, table }
    }
}

/// The work on an entry that has run to its outcome.
pub struct Worked {
    pub outcome: ReconciliationOutcome,
    pub world: World,
}

impl EntryStage {
    /// A bound on the pieces of outside work that can still follow.
    pub open spec fn work_left(self) -> nat {
        match self {
            EntryStage::Parsing => 7,
            EntryStage::Locating(LocatorState::Probing { pending, .. }) => 5 + pending.len(),
            EntryStage::Locating(LocatorState::Settled(_)) => 5,
            EntryStage::Reconciling { phase, .. } => 1 + phase.calls_left(),
            EntryStage::Done(_) => 0,
        }
    }
}

/// Lets the work on `entry` run from `stage` to its outcome: each piece of
/// outside work that a stage asks for ends as the world says.
pub open spec fn work_against(stage: EntryStage, entry: Options, world: World) -> Worked
    decreases stage.work_left(),
{
    match stage {
        EntryStage::Done(outcome) => Worked { outcome, world },
        EntryStage::Parsing => work_against(
            stage.after(entry, EntryEvent::Parsed(world.parsed)),
            entry,
            world,
        ),
        EntryStage::Locating(_) => work_against(
            stage.after(entry, EntryEvent::Probed(world.next_answer())),
            entry,
            world.after_search(),
        ),
        EntryStage::Reconciling { request, phase } => {
            let (reply, table) = if phase is Removal {
                world.table.answer_remove(request.protocol, request.external_port)
            } else {
                world.table.answer_add(request)
            };
            work_against(stage.after(entry, EntryEvent::Replied(reply)), entry, world.with_table(table))
        },
    }
}

/// A whole piece of work on `entry`, on a host whose interfaces offer the
/// addresses `found`.
pub open spec fn work_on(entry: Options, found: Seq<Ipv4Address>, world: World) -> Worked {
    work_against(first_stage(entry, found), entry, world)
}

/// Once a gateway is found, the work on the entry is the reconciliation of
/// the entry's mapping against that gateway's table.
pub proof fn lemma_work_ends_as_the_reconciliation(
    entry: Options,
    request: MappingRequest,
    phase: ReconcilePhase,
    world: World,
    calls: Seq<ReconcileAction>,
)
    requires
        !(phase is Finished),
    ensures
        ({
            let worked = work_against(EntryStage::Reconciling { request, phase }, entry, world);
            let run = run_from(phase, request, world.table, calls);
            &&& worked.outcome == entry_outcome_spec(Ok(request.internal), run.result)
            &&& worked.world == world.with_table(run.table)
        }),
    decreases phase.calls_left(),
{
    let (reply, table) = if phase is Removal {
        world.table.answer_remove(request.protocol, request.external_port)
    } else {
        world.table.answer_add(request)
    };
    let next = phase.after_reply(reply);
    if next is Finished {
        reveal_with_fuel(work_against, 2);
        reveal_with_fuel(run_from, 2);
    } else {
        lemma_work_ends_as_the_reconciliation(
            entry,
            request,
            next,
            world.with_table(table),
            calls.push(phase.action()),
        );
    }
}

/// The search part of the work: with a first answer at `at`, the work goes on
/// as the reconciliation against the gateway found from the address at `at`.
proof fn lemma_work_finds_the_first_gateway(
    entry: Options,
    pending: Seq<Ipv4Address>,
    explicit: bool,
    world: World,
    at: int,
)
    requires
        0 <= at < pending.len(),
        is_first_answer(world.answers, at),
    ensures
        work_against(
            EntryStage::Locating(LocatorState::Probing { pending, explicit, port: entry.port }),
            entry,
            world,
        ) == work_against(
            EntryStage::Reconciling {
                request: request_for(entry, LocalSocketV4 { ip: pending[at], port: entry.port }),
                phase: ReconcilePhase::FirstAdd,
            },
            entry,
            World { parsed: world.parsed, answers: world.answers.skip(at + 1), table: world.table },
        ),
    decreases at,
{
    if at > 0 {
        let later = world.after_search();
        assert(is_first_answer(later.answers, at - 1));
        lemma_work_finds_the_first_gateway(entry, pending.drop_first(), explicit, later, at - 1);
        assert(later.answers.skip(at) =~= world.answers.skip(at + 1));
    }
}

/// The search part of the work where no search is answered: the entry fails
/// with the error of a search that ran out of addresses, and the gateway's
/// table is not touched.
proof fn lemma_work_without_an_answer_fails(
    entry: Options,
    pending: Seq<Ipv4Address>,
    explicit: bool,
    world: World,
)
    requires
        pending.len() > 0,
        forall|i: int| 0 <= i < world.answers.len() && i < pending.len() ==> !world.answers[i],
    ensures
        work_against(
            EntryStage::Locating(LocatorState::Probing { pending, explicit, port: entry.port }),
            entry,
            world,
        ).outcome == ReconciliationOutcome::Failed(
            FailureReason::Discovery(exhausted(explicit)),
        ),
        work_against(
            EntryStage::Locating(LocatorState::Probing { pending, explicit, port: entry.port }),
            entry,
            world,
        ).world.table == world.table,
    decreases pending.len(),
{
    if pending.len() > 1 {
        let later = world.after_search();
        lemma_work_without_an_answer_fails(entry, pending.drop_first(), explicit, later);
    } else {
        reveal_with_fuel(work_against, 2);
    }
}

/// An entry that names no address, on a host where the first search that is
/// answered is the one bound to the candidate at `at`: the mapping is applied
/// through the gateway found from that candidate, at once where the port is
/// free and after the conflict is resolved where it leads elsewhere; the
/// table then leads the entry's port to the same port of that candidate, and
/// is otherwise unchanged.
pub proof fn lemma_entry_is_applied_through_the_first_gateway(
    entry: Options,
    found: Seq<Ipv4Address>,
    world: World,
    at: int,
)
    requires
        !entry.has_explicit_address(),
        entry.port != 0,
        0 <= at < found.len(),
        is_first_answer(world.answers, at),
    ensures
        ({
            let request = request_for(entry, LocalSocketV4 { ip: found[at], port: entry.port });
            let worked = work_on(entry, found, world);
            &&& worked.outcome == if world.table.conflicts_with(request) {
                ReconciliationOutcome::AppliedAfterConflictResolution
            } else {
                ReconciliationOutcome::Applied
            }
            &&& worked.world.table == world.table.with(request)
            &&& worked.world.table.holds(request)
        }),
{
    let request = request_for(entry, LocalSocketV4 { ip: found[at], port: entry.port });
    lemma_work_finds_the_first_gateway(entry, found, false, world, at);
    let rest = World { parsed: world.parsed, answers: world.answers.skip(at + 1), table: world.table };
    lemma_work_ends_as_the_reconciliation(
        entry,
        request,
        ReconcilePhase::FirstAdd,
        rest,
        Seq::empty(),
    );
    if world.table.conflicts_with(request) {
        lemma_taken_port_is_overwritten(world.table, request);
    } else {
        lemma_free_port_is_applied(world.table, request);
    }
}

/// An entry that names no address, on a host where no search is answered or
/// no interface offers an address: the entry fails with
/// `NoInterfaceReachable`, and no gateway's table is touched.
pub proof fn lemma_entry_fails_where_no_gateway_answers(
    entry: Options,
    found: Seq<Ipv4Address>,
    world: World,
)
    requires
        !entry.has_explicit_address(),
        forall|i: int| 0 <= i < world.answers.len() && i < found.len() ==> !world.answers[i],
    ensures
        work_on(entry, found, world).outcome == ReconciliationOutcome::Failed(
            FailureReason::Discovery(DiscoveryError::NoInterfaceReachable),
        ),
        work_on(entry, found, world).world.table == world.table,
{
    if found.len() > 0 {
        lemma_work_without_an_answer_fails(entry, found, false, world);
    } else {
        reveal_with_fuel(work_against, 2);
    }
}

/// An entry that names its address: an address that reads as IPv4 is searched
/// from once, and the mapping is applied through the gateway that answers,
/// towards that address; without an answer the entry fails with `NoGateway`.
/// An address that reads as IPv6 fails the entry with `NotIPv4`, one that does
/// not read at all with `AddressParse`, both without a search. No failure
/// touches a table.
pub proof fn lemma_entry_with_an_address(entry: Options, found: Seq<Ipv4Address>, world: World)
    requires
        entry.has_explicit_address(),
        entry.port != 0,
    ensures
        ({
            let worked = work_on(entry, found, world);
            match world.parsed {
                ParsedAddress::V4(ip) => {
                    let request = request_for(entry, LocalSocketV4 { ip, port: entry.port });
                    if world.next_answer() {
                        &&& worked.outcome == if world.table.conflicts_with(request) {
                            ReconciliationOutcome::AppliedAfterConflictResolution
                        } else {
                            ReconciliationOutcome::Applied
                        }
                        &&& worked.world.table == world.table.with(request)
                    } else {
                        &&& worked.outcome == ReconciliationOutcome::Failed(
                            FailureReason::Discovery(DiscoveryError::NoGateway),
                        )
                        &&& worked.world.table == world.table
                    }
                },
                ParsedAddress::V6 => {
                    &&& worked.outcome == ReconciliationOutcome::Failed(
                        FailureReason::Discovery(DiscoveryError::NotIPv4),
                    )
                    &&& worked.world == world
                },
                ParsedAddress::Malformed => {
                    &&& worked.outcome == ReconciliationOutcome::Failed(
                        FailureReason::Discovery(DiscoveryError::AddressParse),
                    )
                    &&& worked.world == world
                },
            }
        }),
{
    reveal_with_fuel(work_against, 3);
    match world.parsed {
        ParsedAddress::V4(ip) => {
            let request = request_for(entry, LocalSocketV4 { ip, port: entry.port });
            if world.next_answer() {
                lemma_work_finds_the_first_gateway(entry, seq![ip], true, world, 0);
                let rest = World {
                    parsed: world.parsed,
                    answers: world.answers.skip(1),
                    table: world.table,
                };
                lemma_work_ends_as_the_reconciliation(
                    entry,
                    request,
                    ReconcilePhase::FirstAdd,
                    rest,
                    Seq::empty(),
                );
                if world.table.conflicts_with(request) {
                    lemma_taken_port_is_overwritten(world.table, request);
                } else {
                    lemma_free_port_is_applied(world.table, request);
                }
            } else {
                lemma_work_without_an_answer_fails(entry, seq![ip], true, world);
            }
        },
        _ => {},
    }
}

} // verus!
