use vstd::prelude::*;

use crate::endpoint::Endpoint;

verus! {

/// One socket that the kernel's socket diagnostics reported, as far as the
/// client reads it.
#[derive(Clone, Copy, Debug)]
pub struct SocketRow {
    /// Whether the socket is a UDP socket (else it is a TCP socket).
    pub udp: bool,
    /// The address the socket is bound to.
    pub local: Endpoint,
    /// The socket's inode.
    pub inode: u64,
}

/// The UDP sockets among `rows`, by local address, with their inodes. Where
/// two rows share a local address, the later one counts.
pub open spec fn udp_sockets(rows: Seq<SocketRow>) -> Map<Endpoint, u64>
    decreases rows.len(),
{
    if rows.len() == 0 {
        Map::empty()
    } else {
        let before = udp_sockets(rows.drop_last());
        let row = rows.last();
        if row.udp {
            before.insert(row.local, row.inode)
        } else {
            before
        }
    }
}

/// The sockets held in a socket-table map, by local address.
pub uninterp spec fn sockets_held(m: papaya::HashMap<Endpoint, u64>) -> Map<Endpoint, u64>;

/// `papaya::HashMap::new`, for the socket table: a map that holds nothing.
#[verifier::external_body]
fn sockets_new() -> (fresh: papaya::HashMap<Endpoint, u64>)
    ensures
        sockets_held(fresh) =~= Map::empty(),
{
    papaya::HashMap::new()
}

/// `papaya::HashMapRef::get`, for the socket table: the inode held under
/// `key`, if any.
#[verifier::external_body]
fn sockets_get(m: &papaya::HashMap<Endpoint, u64>, key: &Endpoint) -> (r: Option<u64>)
    ensures
        r == (if sockets_held(*m).contains_key(*key) { Some(sockets_held(*m)[*key]) } else { None }),
{
    m.pin().get(key).copied()
}

/// `papaya::HashMapRef::insert`, for the socket table: the map afterwards
/// holds `inode` under `key`, and nothing else changes.
#[verifier::external_body]
fn sockets_insert(m: &mut papaya::HashMap<Endpoint, u64>, key: Endpoint, inode: u64)
    ensures
        sockets_held(*final(m)) == sockets_held(*old(m)).insert(key, inode),
{
    m.pin().insert(key, inode);
}

/// The UDP sockets of the machine at one moment, by local address.
pub struct SocketTable {
    sockets: papaya::HashMap<Endpoint, u64>,
}

impl View for SocketTable {
    type V = Map<Endpoint, u64>;

    closed spec fn view(&self) -> Map<Endpoint, u64> {
        sockets_held(self.sockets)
    }
}

impl SocketTable {
    /// The table of the UDP sockets among `rows`; TCP rows are left out, and
    /// of two rows with one local address the later one counts.
    pub fn from_rows(rows: &[SocketRow]) -> (table: SocketTable)
        ensures
            table@ == udp_sockets(rows@),
    {
        let mut sockets = sockets_new();
        let n = rows.len();
        for i in 0..n
            invariant
                n == rows@.len(),
                sockets_held(sockets) == udp_sockets(rows@.take(i as int)),
        {
            let row = rows[i];
            proof {
                assert(rows@.take(i + 1).drop_last() =~= rows@.take(i as int));
            }
            if row.udp {
                sockets_insert(&mut sockets, row.local, row.inode);
            }
        }
        proof {
            assert(rows@.take(n as int) =~= rows@);
        }
        SocketTable { sockets }
    }

    /// The inode of the UDP socket bound to `local`, if there is one.
    pub fn inode_of(&self, local: &Endpoint) -> (r: Option<u64>)
        ensures
            r == (if self@.contains_key(*local) { Some(self@[*local]) } else { None }),
    {
        sockets_get(&self.sockets, local)
    }
}

} // verus!
