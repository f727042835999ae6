use upnp_daemon::address::{Ipv4Address, LocalSocketV4};
use upnp_daemon::entry::{EntryAction, EntryEvent, EntryRun};
use upnp_daemon::locator::{DiscoveryError, ParsedAddress};
use upnp_daemon::reconciler::{
    FailureReason, GatewayFailure, MappingError, MappingStage, ReconciliationOutcome,
};
use upnp_daemon::{run, Options, PortMappingProtocol};

fn declared(address: Option<&str>, port: u16) -> Options {
    Options {
        address: address.map(String::from),
        port,
        protocol: PortMappingProtocol::TCP,
        duration: 60,
        comment: String::from("Test 2"),
    }
}

fn socket(a: u8, b: u8, c: u8, d: u8, port: u16) -> LocalSocketV4 {
    LocalSocketV4::new(Ipv4Address::new(a, b, c, d), port)
}

#[test]
fn an_entry_with_an_address_has_it_read_first() {
    let found = vec![Ipv4Address::new(10, 0, 0, 2)];
    let (run, action) = EntryRun::start_over(declared(Some("192.168.0.10"), 12346), found);
    assert_eq!(action, EntryAction::ParseAddress);
    assert_eq!(run.entry().port, 12346);
    assert!(run.request().is_none());
    let parsed = ParsedAddress::V4(Ipv4Address::new(192, 168, 0, 10));
    let (run, action) = run.on_event(EntryEvent::Parsed(parsed));
    assert_eq!(action, EntryAction::Probe(socket(192, 168, 0, 10, 12346)));
    let (run, action) = run.on_event(EntryEvent::Probed(true));
    assert_eq!(action, EntryAction::AddPort);
    let request = run.request().expect("a gateway was found");
    assert_eq!(request.internal, socket(192, 168, 0, 10, 12346));
    assert_eq!(request.external_port, 12346);
    assert_eq!(request.protocol, PortMappingProtocol::TCP);
    assert_eq!(request.lease_duration, 60);
    assert_eq!(request.description, "Test 2");
    let (_, action) = run.on_event(EntryEvent::Replied(Ok(())));
    assert_eq!(action, EntryAction::Finish(ReconciliationOutcome::Applied));
}

#[test]
fn an_entry_without_an_address_scans_the_candidates() {
    let found = vec![Ipv4Address::new(10, 0, 0, 2), Ipv4Address::new(192, 168, 1, 5)];
    let (run, action) = EntryRun::start_over(declared(None, 80), found);
    assert_eq!(action, EntryAction::Probe(socket(10, 0, 0, 2, 0)));
    let (run, action) = run.on_event(EntryEvent::Probed(false));
    assert_eq!(action, EntryAction::Probe(socket(192, 168, 1, 5, 0)));
    let (run, action) = run.on_event(EntryEvent::Probed(true));
    assert_eq!(action, EntryAction::AddPort);
    assert_eq!(run.request().map(|request| request.internal), Some(socket(192, 168, 1, 5, 80)));
    let (run, action) = run.on_event(EntryEvent::Replied(Err(GatewayFailure::PortInUse)));
    assert_eq!(action, EntryAction::RemovePort);
    let (run, action) = run.on_event(EntryEvent::Replied(Ok(())));
    assert_eq!(action, EntryAction::AddPort);
    let (run, action) = run.on_event(EntryEvent::Replied(Ok(())));
    assert_eq!(action, EntryAction::Finish(ReconciliationOutcome::AppliedAfterConflictResolution));
    assert!(run.request().is_none());
    let (_, action) = run.on_event(EntryEvent::Probed(true));
    assert_eq!(action, EntryAction::Finish(ReconciliationOutcome::AppliedAfterConflictResolution));
}

#[test]
fn an_entry_with_an_empty_address_scans_too() {
    let found = vec![Ipv4Address::new(10, 0, 0, 2)];
    let (_, action) = EntryRun::start_over(declared(Some(""), 80), found);
    assert_eq!(action, EntryAction::Probe(socket(10, 0, 0, 2, 0)));
}

#[test]
fn an_entry_fails_where_no_candidate_is_left() {
    let (_, action) = EntryRun::start_over(declared(None, 80), Vec::new());
    let unreachable = ReconciliationOutcome::Failed(FailureReason::Discovery(
        DiscoveryError::NoInterfaceReachable,
    ));
    assert_eq!(action, EntryAction::Finish(unreachable));

    let (run, _) = EntryRun::start_over(declared(None, 80), vec![Ipv4Address::new(10, 0, 0, 2)]);
    let (_, action) = run.on_event(EntryEvent::Probed(false));
    assert_eq!(action, EntryAction::Finish(unreachable));
}

#[test]
fn an_address_that_cannot_be_read_fails_the_entry() {
    let (run, _) = EntryRun::start_over(declared(Some("no address"), 80), Vec::new());
    let (_, action) = run.on_event(EntryEvent::Parsed(ParsedAddress::Malformed));
    assert_eq!(
        action,
        EntryAction::Finish(ReconciliationOutcome::Failed(FailureReason::Discovery(
            DiscoveryError::AddressParse
        )))
    );

    let (run, _) = EntryRun::start_over(declared(Some("[::1]"), 80), Vec::new());
    let (_, action) = run.on_event(EntryEvent::Parsed(ParsedAddress::V6));
    assert_eq!(
        action,
        EntryAction::Finish(ReconciliationOutcome::Failed(FailureReason::Discovery(
            DiscoveryError::NotIPv4
        )))
    );
}

#[test]
fn an_address_without_a_gateway_fails_the_entry() {
    let (run, _) = EntryRun::start_over(declared(Some("192.168.0.10"), 80), Vec::new());
    let parsed = ParsedAddress::V4(Ipv4Address::new(192, 168, 0, 10));
    let (run, _) = run.on_event(EntryEvent::Parsed(parsed));
    let (_, action) = run.on_event(EntryEvent::Probed(false));
    assert_eq!(
        action,
        EntryAction::Finish(ReconciliationOutcome::Failed(FailureReason::Discovery(
            DiscoveryError::NoGateway
        )))
    );
}

#[test]
fn a_gateway_that_refuses_fails_the_entry() {
    let (run, _) = EntryRun::start_over(declared(None, 80), vec![Ipv4Address::new(10, 0, 0, 2)]);
    let (run, _) = run.on_event(EntryEvent::Probed(true));
    let (run, action) = run.on_event(EntryEvent::Replied(Err(GatewayFailure::ActionNotAuthorized)));
    let refused = ReconciliationOutcome::Failed(FailureReason::Mapping(MappingError {
        stage: MappingStage::Add,
        failure: GatewayFailure::ActionNotAuthorized,
    }));
    assert_eq!(action, EntryAction::Finish(refused));
    assert_eq!(run.action(), EntryAction::Finish(refused));
}

#[test]
fn entry_events_that_answer_nothing_are_passed_over() {
    let (run, _) = EntryRun::start_over(declared(Some("192.168.0.10"), 80), Vec::new());
    let (run, action) = run.on_event(EntryEvent::Probed(true));
    assert_eq!(action, EntryAction::ParseAddress);
    let (run, action) = run.on_event(EntryEvent::Replied(Ok(())));
    assert_eq!(action, EntryAction::ParseAddress);
    let parsed = ParsedAddress::V4(Ipv4Address::new(192, 168, 0, 10));
    let (run, _) = run.on_event(EntryEvent::Parsed(parsed));
    let (run, action) = run.on_event(EntryEvent::Replied(Ok(())));
    assert_eq!(action, EntryAction::Probe(socket(192, 168, 0, 10, 80)));
    let (run, action) = run.on_event(EntryEvent::Parsed(ParsedAddress::Malformed));
    assert_eq!(action, EntryAction::Probe(socket(192, 168, 0, 10, 80)));
    let (run, _) = run.on_event(EntryEvent::Probed(true));
    let (_, action) = run.on_event(EntryEvent::Probed(false));
    assert_eq!(action, EntryAction::AddPort);
}

#[test]
fn an_entry_on_this_host_starts_with_a_search_or_fails() {
    let (started, action) = run(declared(None, 4711));
    match action {
        EntryAction::Probe(bind) => {
            assert_eq!(bind.port, 0);
            assert_ne!(bind.ip.a, 127);
        }
        EntryAction::Finish(outcome) => assert_eq!(
            outcome,
            ReconciliationOutcome::Failed(FailureReason::Discovery(
                DiscoveryError::NoInterfaceReachable
            ))
        ),
        other => panic!("unexpected first action {:?}", other),
    }
    assert_eq!(started.action(), action);
    assert_eq!(started.entry().port, 4711);

    let (_, action) = run(declared(Some("192.168.0.10"), 4711));
    assert_eq!(action, EntryAction::ParseAddress);
}
