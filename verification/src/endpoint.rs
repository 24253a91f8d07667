use vstd::prelude::*;

verus! {

/// A socket address held as plain integers, so that it can key the tables of
/// the library and be compared in contracts.
///
/// An IPv4 address `a.b.c.d:p` is `v6: false`, `ip` the 32-bit value of the
/// address, `flowinfo` and `scope_id` zero. An IPv6 address keeps all four
/// fields that take part in its equality.
#[derive(Clone, Copy, Debug, PartialEq, Eq, Hash, Structural)]
pub struct Endpoint {
    pub v6: bool,
    pub ip: u128,
    pub port: u16,
    pub flowinfo: u32,
    pub scope_id: u32,
}

impl Endpoint {
    /// The endpoint of an IPv4 socket address.
    pub fn v4(ip: u32, port: u16) -> (e: Endpoint)
        ensures
            e == (Endpoint { v6: false, ip: ip as u128, port, flowinfo: 0, scope_id: 0 }),
    {
        Endpoint { v6: false, ip: ip as u128, port, flowinfo: 0, scope_id: 0 }
    }

    /// The endpoint of an IPv6 socket address.
    pub fn v6(ip: u128, port: u16, flowinfo: u32, scope_id: u32) -> (e: Endpoint)
        ensures
            e == (Endpoint { v6: true, ip, port, flowinfo, scope_id }),
    {
        Endpoint { v6: true, ip, port, flowinfo, scope_id }
    }
}

} // verus!
