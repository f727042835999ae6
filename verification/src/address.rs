//! IPv4 addresses and sockets as plain values.

use vstd::prelude::*;

verus! {

/// An IPv4 address, by its four octets in the order they are written.
#[derive(Clone, Copy, Debug, PartialEq, Eq, Hash, Structural)]
pub struct Ipv4Address {
    pub a: u8,
    pub b: u8,
    pub c: u8,
    pub d: u8,
}

impl Ipv4Address {
    pub fn new(a: u8, b: u8, c: u8, d: u8) -> (ip: Ipv4Address)
        ensures
            ip == (Ipv4Address { a, b, c, d }),
    {
        Ipv4Address { a, b, c, d }
    }

    /// The octets in written order.
    pub fn octets(&self) -> (parts: [u8; 4])
        ensures
            parts@ == seq![self.a, self.b, self.c, self.d],
    {
        let parts: [u8; 4] = [self.a, self.b, self.c, self.d];
        parts
    }

    /// Whether the address lies in `127.0.0.0/8`.
    pub open spec fn is_loopback_spec(&self) -> bool {
        self.a == 127
    }

    #[verifier::when_used_as_spec(is_loopback_spec)]
    pub fn is_loopback(&self) -> (looped: bool)
        ensures
            looped == self.is_loopback_spec(),
    {
        self.a == 127
    }
}

/// A local IPv4 socket: the address a search is bound to, or the internal end
/// of a mapping.
#[derive(Clone, Copy, Debug, PartialEq, Eq, Hash, Structural)]
pub struct LocalSocketV4 {
    pub ip: Ipv4Address,
    pub port: u16,
}

impl LocalSocketV4 {
    pub fn new(ip: Ipv4Address, port: u16) -> (socket: LocalSocketV4)
        ensures
            socket == (LocalSocketV4 { ip, port }),
    {
        LocalSocketV4 { ip, port }
    }

    /// The same address with another port.
    pub fn with_port(&self, port: u16) -> (socket: LocalSocketV4)
        ensures
            socket == (LocalSocketV4 { ip: self.ip, port }),
    {
        LocalSocketV4 { ip: self.ip, port }
    }
}

} // verus!
