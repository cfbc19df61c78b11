//! The key under which a client's request quota is tracked: the source socket
//! address of the connection, an IPv4 address together with the remote port.
//! Every distinct (address, port) pair gets its own independent quota.

use vstd::prelude::*;

verus! {

/// A client identity: the IPv4 source address (in its numeric big-endian
/// form) and the remote port of the connection the request arrived on.
#[derive(Clone, Copy, PartialEq, Eq, Structural, Debug)]
pub struct ClientIdentity {
    pub ip: u32,
    pub port: u16,
}

impl ClientIdentity {
    /// The 48-bit ledger key packing address and port; injective, so two
    /// distinct identities never share a ledger entry.
    pub open spec fn key_spec(self) -> u64 {
        ((self.ip as int) * 0x10000 + (self.port as int)) as u64
    }

    pub fn new(ip: u32, port: u16) -> (id: ClientIdentity)
        ensures
            id.ip == ip,
            id.port == port,
    {
        ClientIdentity { ip, port }
    }

    /// Builds an identity from the dotted-quad octets of an IPv4 address.
    pub fn from_octets(a: u8, b: u8, c: u8, d: u8, port: u16) -> (id: ClientIdentity)
        ensures
            id.ip == (a as int) * 0x1000000 + (b as int) * 0x10000 + (c as int) * 0x100 + (
            d as int),
            id.port == port,
    {
        let ip: u32 = (a as u32) * 0x1000000 + (b as u32) * 0x10000 + (c as u32) * 0x100 + (
        d as u32);
        ClientIdentity { ip, port }
    }

    pub fn key(&self) -> (k: u64)
        ensures
            k == self.key_spec(),
    {
        (self.ip as u64) * 0x10000 + (self.port as u64)
    }
}

/// Distinct identities map to distinct ledger keys, so per-identity
/// bookkeeping in the ledger is per-identity in fact.
pub proof fn lemma_key_injective(a: ClientIdentity, b: ClientIdentity)
    requires
        a.key_spec() == b.key_spec(),
    ensures
        a == b,
{
    assert(a.ip == b.ip && a.port == b.port) by (nonlinear_arith)
        requires
            (a.ip as u64) * 0x10000 + (a.port as u64) == (b.ip as u64) * 0x10000 + (b.port as u64),
            a.port < 0x10000,
            b.port < 0x10000,
    ;
}

} // verus!
