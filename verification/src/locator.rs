//! Finding a gateway: which local sockets a search is bound to, in which order,
//! and when to give up.
//!
//! A [`Locator`] never searches itself. It names the socket the next search is
//! to be bound to, is told whether a gateway answered, and either names the next
//! socket or settles. The gateway that answered the last search is the one that
//! goes with the socket it settles on.

use vstd::prelude::*;
use crate::address::{Ipv4Address, LocalSocketV4};
use crate::interfaces::{candidates, candidates_of, host_candidates, NetInterface};

verus! {

/// Why no gateway was found.
#[derive(Clone, Copy, Debug, PartialEq, Eq, Structural)]
pub enum DiscoveryError {
    /// No gateway answered a search bound to the address that was asked for.
    NoGateway,
    /// The address text is no socket address.
    AddressParse,
    /// The address text is a socket address, but not an IPv4 one.
    NotIPv4,
    /// No interface could be searched from, or no gateway answered on any.
    NoInterfaceReachable,
}

/// What reading an address text, with a port appended, as a socket address
/// gave.
#[derive(Clone, Copy, Debug, PartialEq, Eq, Structural)]
pub enum ParsedAddress {
    V4(Ipv4Address),
    V6,
    Malformed,
}

/// What a locator asks for or reports.
#[derive(Clone, Copy, Debug, PartialEq, Eq, Structural)]
pub enum LocatorAction {
    /// Search for a gateway, bound to this local socket, and report whether
    /// one answered.
    Probe(LocalSocketV4),
    /// The gateway that answered the last search serves this local socket.
    Found(LocalSocketV4),
    Failed(DiscoveryError),
}

/// The state of a search, as contracts see it.
pub enum LocatorState {
    /// A search bound to the first of `pending` is under way; the rest follow
    /// in order if it fails.
    Probing { pending: Seq<Ipv4Address>, explicit: bool, port: u16 },
    Settled(Result<LocalSocketV4, DiscoveryError>),
}

/// The error of a search that ran out of addresses.
pub open spec fn exhausted(explicit: bool) -> DiscoveryError {
    if explicit {
        DiscoveryError::NoGateway
    } else {
        DiscoveryError::NoInterfaceReachable
    }
}

/// The socket a search for `ip` is bound to: the mapping's port goes with an
/// address that was asked for, port 0 with one taken from an interface.
pub open spec fn bind_socket(ip: Ipv4Address, explicit: bool, port: u16) -> LocalSocketV4 {
    LocalSocketV4 { ip, port: if explicit { port } else { 0 } }
}

/// Where a search for a given address starts.
pub open spec fn explicit_start(parsed: ParsedAddress, port: u16) -> LocatorState {
    match parsed {
        ParsedAddress::V4(ip) => LocatorState::Probing { pending: seq![ip], explicit: true, port },
        ParsedAddress::V6 => LocatorState::Settled(Err(DiscoveryError::NotIPv4)),
        ParsedAddress::Malformed => LocatorState::Settled(Err(DiscoveryError::AddressParse)),
    }
}

/// Where a scan over candidate addresses starts.
pub open spec fn scan_start(found: Seq<Ipv4Address>, port: u16) -> LocatorState {
    if found.len() == 0 {
        LocatorState::Settled(Err(DiscoveryError::NoInterfaceReachable))
    } else {
        LocatorState::Probing { pending: found, explicit: false, port }
    }
}

impl LocatorState {
    /// What the embedding program is to do in this state.
    pub open spec fn action(self) -> LocatorAction {
        match self {
            LocatorState::Probing { pending, explicit, port } => if pending.len() == 0 {
                LocatorAction::Failed(exhausted(explicit))
            } else {
                LocatorAction::Probe(bind_socket(pending[0], explicit, port))
            },
            LocatorState::Settled(Ok(socket)) => LocatorAction::Found(socket),
            LocatorState::Settled(Err(error)) => LocatorAction::Failed(error),
        }
    }

    /// The state after the search under way has ended, with or without an
    /// answer. A settled search stays as it is.
    pub open spec fn after_probe(self, answered: bool) -> LocatorState {
        match self {
            LocatorState::Probing { pending, explicit, port } => if pending.len() == 0 {
                LocatorState::Settled(Err(exhausted(explicit)))
            } else if answered {
                LocatorState::Settled(Ok(LocalSocketV4 { ip: pending[0], port }))
            } else if pending.len() == 1 {
                LocatorState::Settled(Err(exhausted(explicit)))
            } else {
                LocatorState::Probing { pending: pending.drop_first(), explicit, port }
            },
            LocatorState::Settled(result) => self,
        }
    }

    /// The state after the searches have ended as `answers` says, one answer
    /// per search, in order, for as long as a search is under way.
    pub open spec fn after_probes(self, answers: Seq<bool>) -> LocatorState
        decreases answers.len(),
    {
        if answers.len() == 0 || self is Settled {
            self
        } else {
            self.after_probe(answers[0]).after_probes(answers.drop_first())
        }
    }

    /// How many searches are made until the state settles or the answers run
    /// out.
    pub open spec fn probes_made(self, answers: Seq<bool>) -> nat
        decreases answers.len(),
    {
        if answers.len() == 0 || self is Settled {
            0
        } else {
            1 + self.after_probe(answers[0]).probes_made(answers.drop_first())
        }
    }
}

/// A search for a gateway in progress.
pub struct Locator {
    targets: Vec<Ipv4Address>,
    cursor: usize,
    explicit: bool,
    port: u16,
    settled: Option<Result<LocalSocketV4, DiscoveryError>>,
}

impl View for Locator {
    type V = LocatorState;

    closed spec fn view(&self) -> LocatorState {
        match self.settled {
            Some(result) => LocatorState::Settled(result),
            None => if self.cursor < self.targets.len() {
                LocatorState::Probing {
                    pending: self.targets@.skip(self.cursor as int),
                    explicit: self.explicit,
                    port: self.port,
                }
            } else {
                LocatorState::Settled(Err(exhausted(self.explicit)))
            },
        }
    }
}

impl Locator {
    /// Starts a search for the gateway that serves the address an entry asks
    /// for. `parsed` is what reading the entry's address text with `port`
    /// appended gave.
    pub fn bound_to(parsed: ParsedAddress, port: u16) -> (started: (Locator, LocatorAction))
        ensures
            started.0@ == explicit_start(parsed, port),
            started.1 == started.0@.action(),
    {
        let mut targets: Vec<Ipv4Address> = Vec::new();
        let settled = match parsed {
            ParsedAddress::V4(ip) => {
                targets.push(ip);
                None
            },
            ParsedAddress::V6 => Some(Err(DiscoveryError::NotIPv4)),
            ParsedAddress::Malformed => Some(Err(DiscoveryError::AddressParse)),
        };
        let locator = Locator { targets, cursor: 0, explicit: true, port, settled };
        proof {
            if parsed is V4 {
                assert(locator.targets@.skip(0) =~= seq![parsed->V4_0]);
            }
        }
        let action = locator.action();
        (locator, action)
    }

    /// Starts a scan over candidate addresses, tried in the order given.
    pub fn scanning(found: Vec<Ipv4Address>, port: u16) -> (started: (Locator, LocatorAction))
        ensures
            started.0@ == scan_start(found@, port),
            started.1 == started.0@.action(),
    {
        let locator = Locator { targets: found, cursor: 0, explicit: false, port, settled: None };
        assert(locator.targets@.skip(0) =~= locator.targets@);
        let action = locator.action();
        (locator, action)
    }

    /// Starts a scan over the interfaces given: loopback and non-IPv4
    /// interfaces are left out, the others are tried in the order listed.
    pub fn over_interfaces(interfaces: &Vec<NetInterface>, port: u16) -> (started: (
        Locator,
        LocatorAction,
    ))
        ensures
            started.0@ == scan_start(candidates_of(interfaces@), port),
            started.1 == started.0@.action(),
    {
        Locator::scanning(candidates(interfaces), port)
    }

    /// Starts a scan over the interfaces this host has at the moment. Whatever
    /// they are, the scan is one over addresses that are no loopbacks.
    pub fn over_host(port: u16) -> (started: (Locator, LocatorAction))
        ensures
            exists|found: Seq<Ipv4Address>|
                {
                    &&& started.0@ == #[trigger] scan_start(found, port)
                    &&& forall|i: int| 0 <= i < found.len() ==> !(#[trigger] found[i]).is_loopback_spec()
                },
            started.1 == started.0@.action(),
    {
        Locator::scanning(host_candidates(), port)
    }

    /// What the embedding program is to do now.
    pub fn action(&self) -> (now: LocatorAction)
        ensures
            now == self@.action(),
    {
        match self.settled {
            Some(Ok(socket)) => LocatorAction::Found(socket),
            Some(Err(error)) => LocatorAction::Failed(error),
            None => {
                if self.cursor < self.targets.len() {
                    let ip = self.targets[self.cursor];
                    let bound: u16 = if self.explicit {
                        self.port
                    } else {
                        0
                    };
                    LocatorAction::Probe(LocalSocketV4 { ip, port: bound })
                } else if self.explicit {
                    LocatorAction::Failed(DiscoveryError::NoGateway)
                } else {
                    LocatorAction::Failed(DiscoveryError::NoInterfaceReachable)
                }
            },
        }
    }

    /// Takes in how the search that was asked for ended, and says what to do
    /// next. The first answer settles the search; a search without an answer
    /// moves on to the next address, and settles on an error after the last.
    pub fn on_probe(&mut self, answered: bool) -> (next: LocatorAction)
        ensures
            final(self)@ == old(self)@.after_probe(answered),
            next == final(self)@.action(),
    {
        if self.settled.is_none() && self.cursor < self.targets.len() {
            if answered {
                let ip = self.targets[self.cursor];
                self.settled = Some(Ok(LocalSocketV4 { ip, port: self.port }));
            } else {
                proof {
                    let pending = self.targets@.skip(self.cursor as int);
                    assert(self.targets@.skip(self.cursor + 1) =~= pending.drop_first());
                }
                self.cursor = self.cursor + 1;
            }
        }
        self.action()
    }
}

/// Whether the search at `i` is the first that a gateway answers.
pub open spec fn is_first_answer(answers: Seq<bool>, i: int) -> bool {
    &&& 0 <= i < answers.len()
    &&& answers[i]
    &&& forall|j: int| 0 <= j < i ==> !answers[j]
}

/// Whether a search that starts in `start`, over the addresses `found`, ends
/// as it should when its searches end as `answers` says: settled on the first
/// address whose search was answered, with the mapping's port, after one
/// search for it and each address before it; or, where no search was answered,
/// settled on the error, after one search for each address.
pub open spec fn settles_on_first_answer(
    start: LocatorState,
    found: Seq<Ipv4Address>,
    explicit: bool,
    port: u16,
    answers: Seq<bool>,
) -> bool {
    match start.after_probes(answers) {
        LocatorState::Settled(Ok(socket)) => exists|i: int|
            {
                &&& 0 <= i < found.len()
                &&& #[trigger] is_first_answer(answers, i)
                &&& socket == (LocalSocketV4 { ip: found[i], port })
                &&& start.probes_made(answers) == i + 1
            },
        LocatorState::Settled(Err(error)) => {
            &&& error == exhausted(explicit)
            &&& forall|i: int| 0 <= i < found.len() ==> !answers[i]
            &&& start.probes_made(answers) == found.len()
        },
        LocatorState::Probing { .. } => false,
    }
}

/// Where a search over `pending` ends when every one of its searches ends as
/// `answers` says.
proof fn lemma_probing_settles(pending: Seq<Ipv4Address>, explicit: bool, port: u16, answers: Seq<bool>)
    requires
        0 < pending.len() <= answers.len(),
    ensures
        settles_on_first_answer(
            LocatorState::Probing { pending, explicit, port },
            pending,
            explicit,
            port,
            answers,
        ),
    decreases pending.len(),
{
    let start = LocatorState::Probing { pending, explicit, port };
    let rest = answers.drop_first();
    if answers[0] {
        assert(start.after_probe(true).after_probes(rest) == start.after_probe(true));
        assert(start.after_probe(true).probes_made(rest) == 0);
        assert(is_first_answer(answers, 0));
    } else if pending.len() == 1 {
        assert(start.after_probe(false).probes_made(rest) == 0);
    } else {
        let later = pending.drop_first();
        lemma_probing_settles(later, explicit, port, rest);
        let end = start.after_probes(answers);
        match end {
            LocatorState::Settled(Ok(socket)) => {
                let i = choose|i: int|
                    0 <= i < later.len() && is_first_answer(rest, i) && socket == (LocalSocketV4 {
                        ip: later[i],
                        port,
                    }) && (LocatorState::Probing { pending: later, explicit, port }).probes_made(rest) == i + 1;
                assert(is_first_answer(answers, i + 1)) by {
                    assert forall|j: int| 0 <= j < i + 1 implies !answers[j] by {
                        if j > 0 {
                            assert(answers[j] == rest[j - 1]);
                        }
                    }
                }
            },
            LocatorState::Settled(Err(error)) => {
                assert forall|j: int| 0 <= j < pending.len() implies !answers[j] by {
                    if j > 0 {
                        assert(answers[j] == rest[j - 1]);
                    }
                }
            },
            LocatorState::Probing { .. } => {},
        }
    }
}

/// A scan returns the first candidate address whose search a gateway answers,
/// with the mapping's port, and searches for no address after it. It fails
/// with `NoInterfaceReachable` when there is no candidate or no search is
/// answered. `answers` holds, for each candidate in order, how a search bound
/// to it would end.
pub proof fn lemma_scan_returns_first_reachable(found: Seq<Ipv4Address>, port: u16, answers: Seq<bool>)
    requires
        answers.len() >= found.len(),
    ensures
        settles_on_first_answer(scan_start(found, port), found, false, port, answers),
{
    if found.len() > 0 {
        lemma_probing_settles(found, false, port, answers);
    }
}

/// A scan over interfaces returns the address of the first interface that is
/// no loopback, carries an IPv4 address and has its search answered.
/// `answers` holds, for each such interface in order, how a search bound to
/// its address would end.
pub proof fn lemma_scan_skips_ineligible_interfaces(
    interfaces: Seq<NetInterface>,
    port: u16,
    answers: Seq<bool>,
)
    requires
        answers.len() >= candidates_of(interfaces).len(),
    ensures
        settles_on_first_answer(
            scan_start(candidates_of(interfaces), port),
            candidates_of(interfaces),
            false,
            port,
            answers,
        ),
        scan_start(candidates_of(interfaces), port).after_probes(answers) matches LocatorState::Settled(
            Ok(socket),
        ) ==> exists|k: int|
            0 <= k < interfaces.len() && (#[trigger] interfaces[k]).candidate_spec() == Some(socket.ip)
                && !interfaces[k].is_loopback_spec() && interfaces[k].addr is V4,
{
    let found = candidates_of(interfaces);
    lemma_scan_returns_first_reachable(found, port, answers);
    if let LocatorState::Settled(Ok(socket)) = scan_start(found, port).after_probes(answers) {
        let i = choose|i: int|
            0 <= i < found.len() && is_first_answer(answers, i) && socket == (LocalSocketV4 {
                ip: found[i],
                port,
            });
        interfaces.lemma_filter_map_contains(
            |interface: NetInterface| interface.candidate_spec(),
            socket.ip,
        );
    }
}

/// A search for an address that was asked for makes one search, bound to that
/// address and the mapping's port, and fails with `NoGateway` when no gateway
/// answers it.
pub proof fn lemma_explicit_search_is_one_probe(ip: Ipv4Address, port: u16, answered: bool)
    ensures
        explicit_start(ParsedAddress::V4(ip), port).action() == LocatorAction::Probe(
            LocalSocketV4 { ip, port },
        ),
        explicit_start(ParsedAddress::V4(ip), port).after_probe(answered) == LocatorState::Settled(
            if answered {
                Ok(LocalSocketV4 { ip, port })
            } else {
                Err(DiscoveryError::NoGateway)
            },
        ),
{
}

} // verus!
