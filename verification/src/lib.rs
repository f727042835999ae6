//! The decision core of a daemon that keeps declared port forwardings alive on
//! whatever UPnP gateway the host can reach.
//!
//! Every talk with the network, the file system or the clock is left to the
//! embedding program. This crate holds what has to be decided in between: which
//! local address a gateway search is bound to, what to do when a gateway answers
//! that a port is taken, who may run, and what the daemon does next. Each of
//! these is a small state machine that is handed the result of the last piece of
//! outside work and names the next one.

use vstd::prelude::*;
use crate::address::Ipv4Address;
use crate::entry::{first_stage, EntryAction, EntryRun};
use crate::interfaces::host_candidates;

pub mod address;
pub mod daemon;
pub mod entry;
pub mod gateway;
pub mod instance;
pub mod interfaces;
pub mod locator;
pub mod reconciler;
pub mod world;

verus! {

/// The transport protocol a mapping forwards.
#[derive(Clone, Copy, Debug, PartialEq, Eq, Hash, Structural)]
pub enum PortMappingProtocol {
    TCP,
    UDP,
}

/// One declared port forwarding, as it was read for the current pass.
#[derive(Debug)]
pub struct Options {
    /// The local IPv4 address to forward to. Absent or empty: every connected
    /// interface is tried until a gateway answers.
    pub address: Option<String>,
    /// The port, external and internal alike.
    pub port: u16,
    pub protocol: PortMappingProtocol,
    /// Lease duration in seconds. Gateways may ignore it.
    pub duration: u32,
    /// Stored with the mapping in the gateway.
    pub comment: String,
}

impl Options {
    /// Whether the entry names the address to forward to. An empty text names
    /// none.
    pub open spec fn has_explicit_address(&self) -> bool {
        self.address matches Some(text) && text@.len() > 0
    }

    /// The address text of the entry, where it names one.
    pub fn explicit_address(&self) -> (chosen: Option<&str>)
        ensures
            chosen is Some <==> self.has_explicit_address(),
            chosen matches Some(text) ==> text@ == self.address->0@,
    {
        match &self.address {
            Some(text) => {
                if text.as_str().is_empty() {
                    None
                } else {
                    Some(text.as_str())
                }
            },
            None => None,
        }
    }
}

/// Starts the work on one entry on this host, and names the first piece of
/// outside work to do for it. An entry that names its address has it read
/// first. For any other a scan starts over the addresses that the interfaces
/// of the host offer at the moment, whatever they are; none of them is a
/// loopback.
pub fn run(options: Options) -> (started: (EntryRun, EntryAction))
    ensures
        started.0@.entry == options,
        exists|found: Seq<Ipv4Address>|
            {
                &&& started.0@.stage == #[trigger] first_stage(options, found)
                &&& forall|i: int| 0 <= i < found.len() ==> !(#[trigger] found[i]).is_loopback_spec()
            },
        started.1 == started.0@.stage.action(),
{
    let found = if options.explicit_address().is_some() {
        Vec::new()
    } else {
        host_candidates()
    };
    EntryRun::start_over(options, found)
}

} // verus!
