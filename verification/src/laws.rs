//! Properties that hold across the operations of the library.
use vstd::prelude::*;

use crate::endpoint::Endpoint;
use crate::handshake::{ascii_bytes, header_text, header_verdict, HandshakeRejection, NetworkType};
use crate::registry::{
    after_idle_sweep, after_socket_sweep, fresh_connection, numbered_below, revised, revised_at,
    route_of, Connection, Revision,
};
use crate::pump::{frame_step, Frame, PumpStep};
use crate::socket_table::{udp_sockets, SocketRow};

verus! {

/// The value a client puts in the `network-type` header for TCP or UDP is
/// read back by the server as the same transport.
pub proof fn law_header_round_trip(nt: NetworkType)
    requires
        !(nt is Unset),
    ensures
        header_verdict(ascii_bytes(header_text(nt))) == Ok::<NetworkType, HandshakeRejection>(nt),
{
    assert(ascii_bytes(header_text(NetworkType::Tcp)) =~= seq![116u8, 99u8, 112u8]);
    assert(ascii_bytes(header_text(NetworkType::Udp)) =~= seq![117u8, 100u8, 112u8]);
}

/// A handshake the server accepts names TCP or UDP, never an unset type.
pub proof fn law_accepted_handshake_names_a_transport(value: Seq<u8>)
    ensures
        header_verdict(value) matches Ok(nt) ==> !(nt is Unset),
{
}

/// Once a tunnel is opened for an address, datagrams from that address go
/// into it, and datagrams from every other address go where they went before.
pub proof fn law_route_after_open(held: Map<Endpoint, Connection>, from: Endpoint, other: Endpoint, id: u64, now: u64)
    ensures
        route_of(held.insert(from, fresh_connection(id, now)), from) == Some(id),
        other != from ==> route_of(held.insert(from, fresh_connection(id, now)), other) == route_of(held, other),
{
}

/// When a tunnel is replaced by a new one for the same address, activity of
/// the replaced tunnel no longer reaches the registry, while activity of the
/// new one does.
pub proof fn law_replaced_tunnel_is_not_refreshed(
    held: Map<Endpoint, Connection>,
    next: u64,
    from: Endpoint,
    opened_at: u64,
    now: u64,
)
    requires
        numbered_below(held, next),
        held.contains_key(from),
    ensures
        ({
            let after = held.insert(from, fresh_connection(next, opened_at));
            &&& revised_at(after, from, Revision::Refresh { id: held[from].id, now }) == after
            &&& revised_at(after, from, Revision::Refresh { id: next, now })[from].last_seen == now
        }),
{
    let after = held.insert(from, fresh_connection(next, opened_at));
    assert(revised_at(after, from, Revision::Refresh { id: held[from].id, now }) =~= after);
}

/// After a look at the socket table, every tunnel left has a UDP socket bound
/// to its address and knows that socket's inode; it keeps its number and the
/// time it was last active.
pub proof fn law_socket_sweep_leaves_bound_tunnels(held: Map<Endpoint, Connection>, sockets: Map<Endpoint, u64>)
    ensures
        forall|k: Endpoint| #[trigger] after_socket_sweep(held, sockets).contains_key(k) ==> {
            &&& held.contains_key(k)
            &&& sockets.contains_key(k)
            &&& after_socket_sweep(held, sockets)[k].inode == Some(sockets[k])
            &&& after_socket_sweep(held, sockets)[k].id == held[k].id
            &&& after_socket_sweep(held, sockets)[k].last_seen == held[k].last_seen
        },
{
}

/// A tunnel is ended by a look at the socket table exactly when no UDP socket
/// is bound to its address any more, or the socket there has another inode
/// than the one the tunnel knew.
pub proof fn law_socket_sweep_ends_exactly_gone_or_rebound(held: Map<Endpoint, Connection>, sockets: Map<Endpoint, u64>, k: Endpoint)
    requires
        held.contains_key(k),
    ensures
        !after_socket_sweep(held, sockets).contains_key(k) <==> (!sockets.contains_key(k) || (held[k].inode matches Some(i) && i != sockets[k])),
{
}

/// A second look at an unchanged socket table ends nothing more.
pub proof fn law_socket_sweep_is_idempotent(held: Map<Endpoint, Connection>, sockets: Map<Endpoint, u64>)
    ensures
        after_socket_sweep(after_socket_sweep(held, sockets), sockets) == after_socket_sweep(held, sockets),
{
    assert(after_socket_sweep(after_socket_sweep(held, sockets), sockets) =~= after_socket_sweep(held, sockets));
}

/// After idle tunnels are ended, every tunnel left was active within the
/// timeout, and is held unchanged.
pub proof fn law_idle_sweep_leaves_active_tunnels(held: Map<Endpoint, Connection>, now: u64, timeout: u64)
    requires
        timeout <= now,
    ensures
        forall|k: Endpoint| #[trigger] after_idle_sweep(held, now, timeout).contains_key(k) ==> {
            &&& held.contains_key(k)
            &&& after_idle_sweep(held, now, timeout)[k] == held[k]
            &&& held[k].last_seen >= now - timeout
        },
{
}

/// Ending idle tunnels twice at one time ends nothing more, and ending them
/// later ends at least the tunnels that an earlier sweep would have ended.
pub proof fn law_idle_sweep_is_idempotent_and_monotone(held: Map<Endpoint, Connection>, earlier: u64, later: u64, timeout: u64)
    requires
        timeout <= earlier <= later,
    ensures
        after_idle_sweep(after_idle_sweep(held, later, timeout), later, timeout) == after_idle_sweep(held, later, timeout),
        forall|k: Endpoint| #[trigger] after_idle_sweep(held, later, timeout).contains_key(k)
            ==> after_idle_sweep(held, earlier, timeout).contains_key(k),
{
    assert(after_idle_sweep(after_idle_sweep(held, later, timeout), later, timeout) =~= after_idle_sweep(held, later, timeout));
}

/// The socket table holds the last UDP row reported for an address; a TCP
/// row leaves it unchanged.
pub proof fn law_socket_table_last_udp_row_counts(rows: Seq<SocketRow>, row: SocketRow)
    ensures
        row.udp ==> udp_sockets(rows.push(row)).contains_key(row.local)
            && udp_sockets(rows.push(row))[row.local] == row.inode,
        !row.udp ==> udp_sockets(rows.push(row)) == udp_sockets(rows),
{
    assert(rows.push(row).drop_last() =~= rows);
}

/// A pump from a WebSocket passes on every binary payload whole, whatever
/// its length; it stops at a close and drops every other frame.
pub proof fn law_binary_frames_are_forwarded_whole(payload: Vec<u8>)
    ensures
        frame_step(Frame::Binary(payload)) == PumpStep::Forward(payload),
        frame_step(Frame::Binary(payload)) matches PumpStep::Forward(out) && out@ == payload@ && out@.len() == payload@.len(),
        frame_step(Frame::Close) is Finish,
        frame_step(Frame::Other) is Skip,
{
}

/// An idle sweep keeps exactly the tunnels active within the timeout:
/// a tunnel last seen at or after `now - timeout` stays, one seen before
/// it goes.
pub proof fn law_idle_sweep_keeps_exactly_the_active(held: Map<Endpoint, Connection>, now: u64, timeout: u64, k: Endpoint)
    requires
        timeout <= now,
    ensures
        held.contains_key(k) && held[k].last_seen >= now - timeout ==> after_idle_sweep(held, now, timeout).contains_key(k)
            && after_idle_sweep(held, now, timeout)[k] == held[k],
        held.contains_key(k) && held[k].last_seen < now - timeout ==> !after_idle_sweep(held, now, timeout).contains_key(k),
        !held.contains_key(k) ==> !after_idle_sweep(held, now, timeout).contains_key(k),
{
}

/// A refresh naming a tunnel's own number sets its last-seen time to the
/// given time, whatever the tunnel's inode, and keeps everything else; a
/// refresh naming another number leaves it as it is; a bind sets the inode
/// and keeps the rest.
pub proof fn law_revisions_of_a_tunnel(c: Connection, now: u64, other: u64, inode: u64)
    ensures
        revised(c, Revision::Refresh { id: c.id, now }) == (Connection { id: c.id, inode: c.inode, last_seen: now }),
        other != c.id ==> revised(c, Revision::Refresh { id: other, now }) == c,
        revised(c, Revision::Bind(inode)) == (Connection { id: c.id, inode: Some(inode), last_seen: c.last_seen }),
{
}

/// A refresh of the tunnel held for an address, under its own number, sets
/// that tunnel's last-seen time and changes nothing else in the registry;
/// under any other number it changes nothing.
pub proof fn law_touch_refreshes_only_the_named_tunnel(held: Map<Endpoint, Connection>, from: Endpoint, id: u64, now: u64, k: Endpoint)
    ensures
        held.contains_key(from) && held[from].id == id ==> revised_at(held, from, Revision::Refresh { id, now })[from]
            == (Connection { id, inode: held[from].inode, last_seen: now }),
        !(held.contains_key(from) && held[from].id == id) ==> revised_at(held, from, Revision::Refresh { id, now }) == held,
        revised_at(held, from, Revision::Refresh { id, now }).contains_key(k) == held.contains_key(k),
        k != from && held.contains_key(k) ==> revised_at(held, from, Revision::Refresh { id, now })[k] == held[k],
{
    if !(held.contains_key(from) && held[from].id == id) {
        if held.contains_key(from) {
            assert(held.insert(from, held[from]) =~= held);
        }
    }
}

/// A tunnel just opened at `now` has not seen its socket yet and was last
/// active at `now`, whatever `now` is.
pub proof fn law_fresh_tunnel(id: u64, now: u64)
    ensures
        fresh_connection(id, now) == (Connection { id, inode: None, last_seen: now }),
        fresh_connection(id, now).last_seen == now,
{
}

/// A datagram from an address goes into the tunnel the registry holds for
/// it, whatever that tunnel's inode or last-seen time; from an address
/// without a tunnel it goes nowhere.
pub proof fn law_route_names_the_held_tunnel(held: Map<Endpoint, Connection>, from: Endpoint)
    ensures
        held.contains_key(from) ==> route_of(held, from) == Some(held[from].id),
        !held.contains_key(from) ==> route_of(held, from) is None,
{
}

/// A look at the socket table keeps a tunnel exactly when a UDP socket is
/// bound to its address and the tunnel either had not seen its socket or saw
/// the same inode; a kept tunnel then knows the socket's inode and keeps its
/// number and last-seen time.
pub proof fn law_socket_sweep_keeps_exactly_live_sockets(held: Map<Endpoint, Connection>, sockets: Map<Endpoint, u64>, k: Endpoint)
    ensures
        after_socket_sweep(held, sockets).contains_key(k) <==> (held.contains_key(k) && sockets.contains_key(k)
            && (held[k].inode is None || held[k].inode == Some(sockets[k]))),
        after_socket_sweep(held, sockets).contains_key(k) ==> after_socket_sweep(held, sockets)[k] == (Connection {
            id: held[k].id,
            inode: Some(sockets[k]),
            last_seen: held[k].last_seen,
        }),
{
}

/// The server accepts exactly the header values `tcp` and `udp`, as TCP and
/// UDP, and refuses every other value as invalid.
pub proof fn law_header_values_accepted(value: Seq<u8>)
    ensures
        value == seq![116u8, 99u8, 112u8] ==> header_verdict(value) == Ok::<NetworkType, HandshakeRejection>(NetworkType::Tcp),
        value == seq![117u8, 100u8, 112u8] ==> header_verdict(value) == Ok::<NetworkType, HandshakeRejection>(NetworkType::Udp),
        value != seq![116u8, 99u8, 112u8] && value != seq![117u8, 100u8, 112u8] ==> header_verdict(value)
            == Err::<NetworkType, HandshakeRejection>(HandshakeRejection::InvalidValue),
        ascii_bytes(header_text(NetworkType::Tcp)) == seq![116u8, 99u8, 112u8],
        ascii_bytes(header_text(NetworkType::Udp)) == seq![117u8, 100u8, 112u8],
{
    assert(ascii_bytes(header_text(NetworkType::Tcp)) =~= seq![116u8, 99u8, 112u8]);
    assert(ascii_bytes(header_text(NetworkType::Udp)) =~= seq![117u8, 100u8, 112u8]);
}

/// With no rows the socket table is empty, and a UDP row's address is in the
/// table of any list that ends with it.
pub proof fn law_socket_table_of_rows(rows: Seq<SocketRow>, row: SocketRow, k: Endpoint)
    ensures
        udp_sockets(Seq::<SocketRow>::empty()) == Map::<Endpoint, u64>::empty(),
        udp_sockets(rows.push(row)).contains_key(k) <==> ((row.udp && k == row.local) || udp_sockets(rows).contains_key(k)),
        k != row.local && udp_sockets(rows).contains_key(k) ==> udp_sockets(rows.push(row))[k] == udp_sockets(rows)[k],
{
    assert(rows.push(row).drop_last() =~= rows);
    assert(udp_sockets(Seq::<SocketRow>::empty()) =~= Map::<Endpoint, u64>::empty());
}

} // verus!
