use std::collections::HashMap;

use upnp_daemon::address::{Ipv4Address, LocalSocketV4};
use upnp_daemon::daemon::{ExitStatus, LoopAction, LoopConfig, LoopEvent, ReconciliationLoop, RunMode};
use upnp_daemon::entry::{EntryAction, EntryEvent, EntryRun};
use upnp_daemon::instance::{GuardAction, GuardEvent, InstanceGuard};
use upnp_daemon::interfaces::{candidates, InterfaceAddr, NetInterface};
use upnp_daemon::locator::ParsedAddress;
use upnp_daemon::reconciler::{GatewayFailure, MappingRequest, ReconciliationOutcome};
use upnp_daemon::{Options, PortMappingProtocol};

/// A host, a gateway and a marker file that behave as they should.
struct World {
    interfaces: Vec<NetInterface>,
    /// The local addresses from which the gateway can be found.
    served: Vec<Ipv4Address>,
    table: HashMap<(PortMappingProtocol, u16), LocalSocketV4>,
    probes: Vec<LocalSocketV4>,
    calls: Vec<EntryAction>,
    holder: Option<u32>,
    marker: Vec<u8>,
}

impl World {
    fn new(interfaces: Vec<NetInterface>, served: Vec<Ipv4Address>) -> World {
        World {
            interfaces,
            served,
            table: HashMap::new(),
            probes: Vec::new(),
            calls: Vec::new(),
            holder: None,
            marker: Vec::new(),
        }
    }

    fn add(&mut self, request: &MappingRequest) -> Result<(), GatewayFailure> {
        let key = (request.protocol, request.external_port);
        match self.table.get(&key) {
            Some(held) if *held != request.internal => Err(GatewayFailure::PortInUse),
            _ => {
                self.table.insert(key, request.internal);
                Ok(())
            }
        }
    }

    fn remove(&mut self, request: &MappingRequest) -> Result<(), GatewayFailure> {
        match self.table.remove(&(request.protocol, request.external_port)) {
            Some(_) => Ok(()),
            None => Err(GatewayFailure::NoSuchPortMapping),
        }
    }

    /// Does for `entry` what the run asks for, until the run names the outcome.
    fn work(&mut self, entry: Options) -> ReconciliationOutcome {
        let (mut run, mut action) = EntryRun::start_over(entry, candidates(&self.interfaces));
        loop {
            let event = match action {
                EntryAction::ParseAddress => EntryEvent::Parsed(match run.entry().address.as_deref() {
                    Some("192.168.0.10") => ParsedAddress::V4(Ipv4Address::new(192, 168, 0, 10)),
                    Some("[::1]") => ParsedAddress::V6,
                    _ => ParsedAddress::Malformed,
                }),
                EntryAction::Probe(bind) => {
                    self.probes.push(bind);
                    EntryEvent::Probed(self.served.contains(&bind.ip))
                }
                EntryAction::AddPort => {
                    self.calls.push(action);
                    EntryEvent::Replied(self.add(run.request().expect("a gateway was found")))
                }
                EntryAction::RemovePort => {
                    self.calls.push(action);
                    EntryEvent::Replied(self.remove(run.request().expect("a gateway was found")))
                }
                EntryAction::Finish(outcome) => return outcome,
            };
            (run, action) = run.on_event(event);
        }
    }

    /// Takes the steps on the marker that the guard asks for, until it asks
    /// for none.
    fn settle(&mut self, guard: &mut InstanceGuard, pid: u32) -> GuardAction {
        let mut action = guard.action();
        loop {
            let event = match action {
                GuardAction::TryLock => {
                    if self.holder.is_none() {
                        self.holder = Some(pid);
                        GuardEvent::LockAcquired
                    } else {
                        GuardEvent::LockHeldElsewhere
                    }
                }
                GuardAction::WriteIdentifier => {
                    self.marker = guard.identifier();
                    GuardEvent::Written
                }
                GuardAction::Unlock => {
                    self.holder = None;
                    GuardEvent::Unlocked
                }
                settled => return settled,
            };
            action = guard.on_event(event);
        }
    }

    /// Runs a daemon process over the lists that the loads give, one per
    /// tick, and asks it to end once they are used up.
    fn daemon(
        &mut self,
        pid: u32,
        mode: RunMode,
        mut lists: Vec<Vec<Options>>,
    ) -> (ExitStatus, Vec<ReconciliationOutcome>) {
        lists.reverse();
        let mut outcomes = Vec::new();
        let mut current: Vec<Option<Options>> = Vec::new();
        let mut schedule = ReconciliationLoop::new(LoopConfig::new(mode));
        let mut guard = InstanceGuard::acquire(pid);
        let mut action = schedule.action();
        loop {
            let event = match action {
                LoopAction::AcquireGuard => {
                    LoopEvent::of_guard(self.settle(&mut guard, pid)).expect("the guard has settled")
                }
                LoopAction::LoadList => match lists.pop() {
                    Some(list) => {
                        current = list.into_iter().map(Some).collect();
                        LoopEvent::ListLoaded(current.len())
                    }
                    None => LoopEvent::TerminationRequested,
                },
                LoopAction::ProcessEntry(at) => {
                    let entry = current[at].take().expect("each entry is asked for once");
                    let outcome = self.work(entry);
                    outcomes.push(outcome);
                    LoopEvent::EntryDone(outcome)
                }
                LoopAction::Sleep(seconds) => {
                    assert_eq!(seconds, 60);
                    LoopEvent::SleepElapsed
                }
                LoopAction::ReleaseGuard => {
                    guard.release();
                    assert_eq!(self.settle(&mut guard, pid), GuardAction::Finished);
                    LoopEvent::GuardReleased
                }
                LoopAction::Exit(status) => return (status, outcomes),
            };
            action = schedule.on_event(event);
        }
    }
}

fn declared(address: Option<&str>, port: u16, protocol: PortMappingProtocol, comment: &str) -> Options {
    Options {
        address: address.map(String::from),
        port,
        protocol,
        duration: 60,
        comment: String::from(comment),
    }
}

fn home() -> World {
    let lan = Ipv4Address::new(192, 168, 1, 5);
    World::new(
        vec![
            NetInterface { addr: InterfaceAddr::V4(Ipv4Address::new(127, 0, 0, 1)) },
            NetInterface { addr: InterfaceAddr::V6([0, 0, 0, 0, 0, 0, 0, 1]) },
            NetInterface { addr: InterfaceAddr::V4(lan) },
        ],
        vec![lan, Ipv4Address::new(192, 168, 0, 10)],
    )
}

#[test]
fn one_entry_on_one_interface_is_applied_and_the_tick_is_clean() {
    let mut world = home();
    let list = vec![declared(Some(""), 12345, PortMappingProtocol::UDP, "Test 1")];
    let (status, outcomes) = world.daemon(4242, RunMode::Oneshot, vec![list]);
    assert_eq!(outcomes, vec![ReconciliationOutcome::Applied]);
    assert_eq!(status, ExitStatus::Clean);
    assert_eq!(status.code(), 0);
    let lan = Ipv4Address::new(192, 168, 1, 5);
    assert_eq!(world.probes, vec![LocalSocketV4::new(lan, 0)]);
    assert_eq!(world.calls, vec![EntryAction::AddPort]);
    assert_eq!(
        world.table.get(&(PortMappingProtocol::UDP, 12345)),
        Some(&LocalSocketV4::new(lan, 12345))
    );
    assert_eq!(world.marker, b"4242".to_vec());
    assert_eq!(world.holder, None);
}

#[test]
fn a_port_mapped_elsewhere_is_taken_over() {
    let mut world = home();
    let elsewhere = LocalSocketV4::new(Ipv4Address::new(192, 168, 1, 77), 8080);
    world.table.insert((PortMappingProtocol::TCP, 80), elsewhere);
    world.table.insert((PortMappingProtocol::UDP, 80), elsewhere);
    let list = vec![declared(None, 80, PortMappingProtocol::TCP, "web")];
    let (status, outcomes) = world.daemon(1, RunMode::Oneshot, vec![list]);
    assert_eq!(outcomes, vec![ReconciliationOutcome::AppliedAfterConflictResolution]);
    assert_eq!(status, ExitStatus::Clean);
    assert_eq!(
        world.calls,
        vec![EntryAction::AddPort, EntryAction::RemovePort, EntryAction::AddPort]
    );
    assert_eq!(
        world.table.get(&(PortMappingProtocol::TCP, 80)),
        Some(&LocalSocketV4::new(Ipv4Address::new(192, 168, 1, 5), 80))
    );
    assert_eq!(world.table.get(&(PortMappingProtocol::UDP, 80)), Some(&elsewhere));
}

#[test]
fn a_second_process_exits_at_once_and_the_first_goes_on() {
    let mut world = home();
    let mut first_guard = InstanceGuard::acquire(100);
    let mut first = ReconciliationLoop::new(LoopConfig::new(RunMode::Continuous));
    assert_eq!(first.action(), LoopAction::AcquireGuard);
    assert_eq!(world.settle(&mut first_guard, 100), GuardAction::Proceed);
    assert_eq!(first.on_event(LoopEvent::GuardAcquired), LoopAction::LoadList);
    assert_eq!(first.on_event(LoopEvent::ListLoaded(2)), LoopAction::ProcessEntry(0));

    let (status, outcomes) = world.daemon(
        200,
        RunMode::Continuous,
        vec![vec![declared(None, 80, PortMappingProtocol::TCP, "web")]],
    );
    assert_eq!(status, ExitStatus::AlreadyRunning);
    assert_eq!(status.code(), 2);
    assert!(outcomes.is_empty());
    assert!(world.probes.is_empty());
    assert!(world.table.is_empty());
    assert_eq!(world.holder, Some(100));
    assert_eq!(world.marker, b"100".to_vec());

    let outcome = world.work(declared(None, 12345, PortMappingProtocol::UDP, "Test 1"));
    assert_eq!(outcome, ReconciliationOutcome::Applied);
    assert_eq!(first.on_event(LoopEvent::EntryDone(outcome)), LoopAction::ProcessEntry(1));
    let outcome = world.work(declared(Some("192.168.0.10"), 12346, PortMappingProtocol::TCP, "Test 2"));
    assert_eq!(outcome, ReconciliationOutcome::Applied);
    assert_eq!(first.on_event(LoopEvent::EntryDone(outcome)), LoopAction::Sleep(60));
    assert_eq!(
        world.table.get(&(PortMappingProtocol::TCP, 12346)),
        Some(&LocalSocketV4::new(Ipv4Address::new(192, 168, 0, 10), 12346))
    );
}

#[test]
fn the_marker_can_be_taken_again_after_a_daemon_has_ended() {
    let mut world = home();
    let (status, _) = world.daemon(10, RunMode::Oneshot, vec![Vec::new()]);
    assert_eq!(status, ExitStatus::Clean);
    assert_eq!(world.holder, None);
    let (status, _) = world.daemon(11, RunMode::Oneshot, vec![Vec::new()]);
    assert_eq!(status, ExitStatus::Clean);
    assert_eq!(world.marker, b"11".to_vec());
}

#[test]
fn a_daemon_reads_the_list_anew_each_tick_until_it_is_asked_to_end() {
    let mut world = home();
    let ticks = vec![
        vec![declared(None, 1000, PortMappingProtocol::TCP, "a")],
        vec![
            declared(Some("no address"), 1001, PortMappingProtocol::TCP, "b"),
            declared(Some("192.168.0.10"), 1002, PortMappingProtocol::UDP, "c"),
        ],
        Vec::new(),
    ];
    let (status, outcomes) = world.daemon(5, RunMode::Continuous, ticks);
    assert_eq!(status, ExitStatus::Clean);
    assert_eq!(outcomes.len(), 3);
    assert_eq!(outcomes[0], ReconciliationOutcome::Applied);
    assert!(outcomes[1].is_failure());
    assert_eq!(outcomes[2], ReconciliationOutcome::Applied);
    assert_eq!(world.table.len(), 2);
    assert_eq!(world.holder, None);
}

#[test]
fn a_single_tick_with_a_failed_entry_ends_with_a_failure() {
    let mut world = home();
    let list = vec![
        declared(Some("[::1]"), 1001, PortMappingProtocol::TCP, "b"),
        declared(None, 1002, PortMappingProtocol::UDP, "c"),
    ];
    let (status, outcomes) = world.daemon(5, RunMode::Oneshot, vec![list]);
    assert_eq!(status, ExitStatus::EntriesFailed);
    assert_eq!(status.code(), 1);
    assert!(outcomes[0].is_failure());
    assert_eq!(outcomes[1], ReconciliationOutcome::Applied);
}

#[test]
fn a_host_without_a_served_interface_fails_every_scan() {
    let mut world = World::new(
        vec![
            NetInterface { addr: InterfaceAddr::V4(Ipv4Address::new(10, 0, 0, 2)) },
            NetInterface { addr: InterfaceAddr::V4(Ipv4Address::new(10, 0, 0, 3)) },
        ],
        Vec::new(),
    );
    let outcome = world.work(declared(None, 80, PortMappingProtocol::TCP, "web"));
    assert!(outcome.is_failure());
    assert_eq!(
        world.probes,
        vec![
            LocalSocketV4::new(Ipv4Address::new(10, 0, 0, 2), 0),
            LocalSocketV4::new(Ipv4Address::new(10, 0, 0, 3), 0),
        ]
    );
    assert!(world.calls.is_empty());
}
