//! The host's network interfaces, and which of them a gateway search may be
//! bound to.

use vstd::prelude::*;
use crate::address::Ipv4Address;

verus! {

/// The address an interface carries.
#[derive(Clone, Copy, Debug, PartialEq, Eq)]
pub enum InterfaceAddr {
    V4(Ipv4Address),
    /// An IPv6 address, by its eight 16-bit segments.
    V6([u16; 8]),
}

/// One interface of the host, as far as discovery looks at it.
#[derive(Clone, Copy, Debug, PartialEq, Eq)]
pub struct NetInterface {
    pub addr: InterfaceAddr,
}

/// The segments of `::1`.
pub open spec fn ipv6_loopback_segments() -> Seq<u16> {
    seq![0u16, 0u16, 0u16, 0u16, 0u16, 0u16, 0u16, 1u16]
}

impl NetInterface {
    /// An IPv4 interface is a loopback when its first octet is 127, an IPv6
    /// interface when its address is `::1`.
    pub open spec fn is_loopback_spec(&self) -> bool {
        match self.addr {
            InterfaceAddr::V4(ip) => ip.is_loopback_spec(),
            InterfaceAddr::V6(segments) => segments@ == ipv6_loopback_segments(),
        }
    }

    #[verifier::when_used_as_spec(is_loopback_spec)]
    pub fn is_loopback(&self) -> (looped: bool)
        ensures
            looped == self.is_loopback_spec(),
    {
        match &self.addr {
            InterfaceAddr::V4(ip) => ip.is_loopback(),
            InterfaceAddr::V6(segments) => {
                let looped = segments[0] == 0 && segments[1] == 0 && segments[2] == 0
                    && segments[3] == 0 && segments[4] == 0 && segments[5] == 0
                    && segments[6] == 0 && segments[7] == 1;
                proof {
                    if looped {
                        assert(segments@ =~= ipv6_loopback_segments());
                    }
                }
                looped
            },
        }
    }

    /// The address a gateway search may be bound to on this interface: its
    /// IPv4 address, unless the interface is a loopback. IPv6 interfaces offer
    /// none.
    pub open spec fn candidate_spec(&self) -> Option<Ipv4Address> {
        match self.addr {
            InterfaceAddr::V4(ip) => if self.is_loopback_spec() {
                None
            } else {
                Some(ip)
            },
            InterfaceAddr::V6(_) => None,
        }
    }

    #[verifier::when_used_as_spec(candidate_spec)]
    pub fn candidate(&self) -> (bind: Option<Ipv4Address>)
        ensures
            bind == self.candidate_spec(),
    {
        match &self.addr {
            InterfaceAddr::V4(ip) => {
                if ip.is_loopback() {
                    None
                } else {
                    Some(*ip)
                }
            },
            InterfaceAddr::V6(_) => None,
        }
    }
}

/// The addresses a search may be bound to, in the order of the interfaces that
/// carry them.
pub open spec fn candidates_of(interfaces: Seq<NetInterface>) -> Seq<Ipv4Address> {
    interfaces.filter_map(|interface: NetInterface| interface.candidate_spec())
}

/// Picks the bindable addresses out of an interface list, keeping their order.
pub fn candidates(interfaces: &Vec<NetInterface>) -> (found: Vec<Ipv4Address>)
    ensures
        found@ == candidates_of(interfaces@),
{
    let ghost pick = |interface: NetInterface| interface.candidate_spec();
    let mut found: Vec<Ipv4Address> = Vec::new();
    let mut i: usize = 0;
    while i < interfaces.len()
        invariant
            i <= interfaces.len(),
            pick == |interface: NetInterface| interface.candidate_spec(),
            found@ == interfaces@.take(i as int).filter_map(pick),
        decreases interfaces.len() - i,
    {
        proof {
            interfaces@.lemma_filter_map_take_succ(pick, i as int);
        }
        match interfaces[i].candidate() {
            Some(ip) => {
                found.push(ip);
            },
            None => {},
        }
        i += 1;
    }
    assert(interfaces@.take(i as int) =~= interfaces@);
    found
}

/// Asks `get_if_addrs::get_if_addrs` for the interfaces of this host and keeps
/// of each its address: the octets of an IPv4 address, the segments of an IPv6
/// one. `None` when the operating system refuses the query. Nothing is claimed
/// of what the list holds: it is whatever the host has at the moment.
#[verifier::external_body]
fn host_interfaces() -> (listed: Option<Vec<NetInterface>>) {
    match get_if_addrs::get_if_addrs() {
        Ok(list) => Some(list.iter().map(|interface| match &interface.addr {
            get_if_addrs::IfAddr::V4(v4) => {
                let o = v4.ip.octets();
                NetInterface { addr: InterfaceAddr::V4(Ipv4Address { a: o[0], b: o[1], c: o[2], d: o[3] }) }
            },
            get_if_addrs::IfAddr::V6(v6) => NetInterface { addr: InterfaceAddr::V6(v6.ip.segments()) },
        }).collect()),
        Err(_) => None,
    }
}

/// The addresses of this host that a gateway search may be bound to, in the
/// order in which the host lists its interfaces. A host whose interfaces
/// cannot be listed offers none.
pub fn host_candidates() -> (found: Vec<Ipv4Address>)
    ensures
        forall|i: int| 0 <= i < found.len() ==> !(#[trigger] found[i]).is_loopback_spec(),
{
    let listed = host_interfaces();
    proof {
        if listed is Some {
            lemma_candidates_are_not_loopbacks(listed->0@);
        }
    }
    candidates_of_listing(&listed)
}

/// What a listing of the host's interfaces offers: the candidates of the
/// interfaces listed, in their order, and nothing where the host could not
/// list its interfaces.
pub open spec fn offered_by(listed: Option<Vec<NetInterface>>) -> Seq<Ipv4Address> {
    match listed {
        Some(interfaces) => candidates_of(interfaces@),
        None => Seq::empty(),
    }
}

/// Picks the bindable addresses out of what the query for the host's
/// interfaces gave, whatever it gave.
pub fn candidates_of_listing(listed: &Option<Vec<NetInterface>>) -> (found: Vec<Ipv4Address>)
    ensures
        found@ == offered_by(*listed),
{
    match listed {
        Some(interfaces) => candidates(interfaces),
        None => Vec::new(),
    }
}

/// No loopback address is ever offered as a candidate.
pub proof fn lemma_candidates_are_not_loopbacks(interfaces: Seq<NetInterface>)
    ensures
        forall|i: int| 0 <= i < candidates_of(interfaces).len() ==> !(#[trigger] candidates_of(interfaces)[i]).is_loopback_spec(),
    decreases interfaces.len(),
{
    if interfaces.len() > 0 {
        lemma_candidates_are_not_loopbacks(interfaces.drop_last());
        let earlier = candidates_of(interfaces.drop_last());
        assert(candidates_of(interfaces) == match interfaces.last().candidate_spec() {
            Some(ip) => earlier + seq![ip],
            None => earlier,
        });
    }
}

} // verus!
