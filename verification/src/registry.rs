use vstd::prelude::*;

use crate::endpoint::Endpoint;
use crate::socket_table::SocketTable;

verus! {

/// The concurrent hash map of the `papaya` crate, which keeps the client's
/// tunnels and the socket table that the kernel reports.
#[verifier::external_type_specification]
#[verifier::external_body]
#[verifier::reject_recursive_types(K)]
#[verifier::reject_recursive_types(V)]
#[verifier::reject_recursive_types(S)]
pub struct ExPapayaHashMap<K, V, S>(papaya::HashMap<K, V, S>);

/// What the client knows of one UDP tunnel.
#[derive(Clone, Copy, Debug, PartialEq, Eq, Structural)]
pub struct Connection {
    /// The number under which the program keeps the tunnel's task and channels.
    pub id: u64,
    /// The inode of the local socket, once the socket table has shown it.
    pub inode: Option<u64>,
    /// When the tunnel last carried a message, in milliseconds since the epoch.
    pub last_seen: u64,
}

/// A change made to one tunnel in place.
#[derive(Clone, Copy, Debug)]
pub enum Revision {
    /// The socket table showed the local socket with this inode.
    Bind(u64),
    /// The tunnel numbered `id` carried a message at `now`.
    Refresh { id: u64, now: u64 },
}

/// The tunnel `c` after `rev`. A refresh reaches only the tunnel it names.
pub open spec fn revised(c: Connection, rev: Revision) -> Connection {
    match rev {
        Revision::Bind(inode) => Connection { id: c.id, inode: Some(inode), last_seen: c.last_seen },
        Revision::Refresh { id, now } => if c.id == id {
            Connection { id: c.id, inode: c.inode, last_seen: now }
        } else {
            c
        },
    }
}

impl Connection {
    /// This tunnel after `rev` (see [`revised`]).
    pub fn revise(&self, rev: Revision) -> (r: Connection)
        ensures
            r == revised(*self, rev),
    {
        match rev {
            Revision::Bind(inode) => Connection { id: self.id, inode: Some(inode), last_seen: self.last_seen },
            Revision::Refresh { id, now } => if self.id == id {
                Connection { id: self.id, inode: self.inode, last_seen: now }
            } else {
                *self
            },
        }
    }
}

/// The tunnels held in a registry map, by local address.
pub uninterp spec fn tunnels_held(m: papaya::HashMap<Endpoint, Connection>) -> Map<Endpoint, Connection>;

/// `papaya::HashMap::new`: a map that holds nothing.
#[verifier::external_body]
fn tunnels_new() -> (fresh: papaya::HashMap<Endpoint, Connection>)
    ensures
        tunnels_held(fresh) =~= Map::empty(),
{
    papaya::HashMap::new()
}

/// `papaya::HashMapRef::get`: the value that the map holds under `key`, if any.
#[verifier::external_body]
fn tunnels_get(m: &papaya::HashMap<Endpoint, Connection>, key: &Endpoint) -> (r: Option<Connection>)
    ensures
        r == (if tunnels_held(*m).contains_key(*key) { Some(tunnels_held(*m)[*key]) } else { None }),
{
    m.pin().get(key).copied()
}

/// `papaya::HashMapRef::insert`: the map afterwards holds `value` under
/// `key`, in place of what it held there before, and nothing else changes.
#[verifier::external_body]
fn tunnels_insert(m: &mut papaya::HashMap<Endpoint, Connection>, key: Endpoint, value: Connection)
    ensures
        tunnels_held(*final(m)) == tunnels_held(*old(m)).insert(key, value),
{
    m.pin().insert(key, value);
}

/// `papaya::HashMapRef::remove`: the map afterwards holds nothing under
/// `key`, and the value it held there, if any, is returned.
#[verifier::external_body]
fn tunnels_remove(m: &mut papaya::HashMap<Endpoint, Connection>, key: &Endpoint) -> (r: Option<Connection>)
    ensures
        tunnels_held(*final(m)) == tunnels_held(*old(m)).remove(*key),
        r == (if tunnels_held(*old(m)).contains_key(*key) { Some(tunnels_held(*old(m))[*key]) } else { None }),
{
    m.pin().remove(key).copied()
}

/// `papaya::HashMapRef::update`: where the map holds a value under `key`,
/// it afterwards holds that value revised by `rev`; where it holds none,
/// nothing changes. The update function handed over is [`Connection::revise`].
#[verifier::external_body]
fn tunnels_update(m: &mut papaya::HashMap<Endpoint, Connection>, key: Endpoint, rev: Revision)
    ensures
        tunnels_held(*final(m)) == (if tunnels_held(*old(m)).contains_key(key) {
            tunnels_held(*old(m)).insert(key, revised(tunnels_held(*old(m))[key], rev))
        } else {
            tunnels_held(*old(m))
        }),
{
    m.pin().update(key, |c| c.revise(rev));
}

/// `papaya::HashMapRef::iter`, collected: every entry of the map, each once,
/// in an order that the contract leaves open.
#[verifier::external_body]
fn tunnels_entries(m: &papaya::HashMap<Endpoint, Connection>) -> (entries: Vec<(Endpoint, Connection)>)
    ensures
        lists_map(entries@, tunnels_held(*m)),
{
    m.pin().iter().map(|(k, v)| (*k, *v)).collect()
}

/// `entries` lists the map `m`: each of its entries once, and nothing else.
pub open spec fn lists_map(entries: Seq<(Endpoint, Connection)>, m: Map<Endpoint, Connection>) -> bool {
    &&& forall|i: int| 0 <= i < entries.len() ==>
        m.contains_key(#[trigger] entries[i].0) && m[entries[i].0] == entries[i].1
    &&& forall|k: Endpoint| m.contains_key(k) ==> exists|i: int| 0 <= i < entries.len() && #[trigger] entries[i].0 == k
    &&& forall|i: int, j: int| 0 <= i < j < entries.len() ==> entries[i].0 != entries[j].0
}

/// The tunnel the client routes a datagram from `from` into, if there is one.
pub open spec fn route_of(held: Map<Endpoint, Connection>, from: Endpoint) -> Option<u64> {
    if held.contains_key(from) { Some(held[from].id) } else { None }
}

/// A tunnel just opened under number `id` at time `now`.
pub open spec fn fresh_connection(id: u64, now: u64) -> Connection {
    Connection { id, inode: None, last_seen: now }
}

/// `held` after the tunnel at `from` is revised by `rev`, where there is one.
pub open spec fn revised_at(held: Map<Endpoint, Connection>, from: Endpoint, rev: Revision) -> Map<Endpoint, Connection> {
    if held.contains_key(from) { held.insert(from, revised(held[from], rev)) } else { held }
}

/// Every tunnel is numbered below `next`, and no two tunnels share a number.
pub open spec fn numbered_below(held: Map<Endpoint, Connection>, next: u64) -> bool {
    &&& forall|k: Endpoint| #[trigger] held.contains_key(k) ==> held[k].id < next
    &&& forall|k1: Endpoint, k2: Endpoint|
        #[trigger] held.contains_key(k1) && #[trigger] held.contains_key(k2) && k1 != k2
            ==> held[k1].id != held[k2].id
}

/// What a look at the socket table makes of the tunnel `c` at `local`: it
/// ends where no UDP socket is bound to `local` any more, or where the socket
/// there has another inode than the one first seen (it was bound anew); a
/// tunnel whose socket was not seen yet learns its inode; else it stays.
pub open spec fn socket_verdict(c: Connection, local: Endpoint, sockets: Map<Endpoint, u64>) -> Option<Connection> {
    if !sockets.contains_key(local) {
        None
    } else {
        match c.inode {
            Some(inode) => if inode == sockets[local] { Some(c) } else { None },
            None => Some(revised(c, Revision::Bind(sockets[local]))),
        }
    }
}

/// The tunnels left after a look at the socket table.
pub open spec fn after_socket_sweep(held: Map<Endpoint, Connection>, sockets: Map<Endpoint, u64>) -> Map<Endpoint, Connection> {
    Map::new(
        |k: Endpoint| held.contains_key(k) && socket_verdict(held[k], k, sockets) is Some,
        |k: Endpoint| socket_verdict(held[k], k, sockets)->0,
    )
}

/// A tunnel is idle at `now` where it carried nothing for longer than
/// `timeout` milliseconds.
pub open spec fn is_idle(c: Connection, now: u64, timeout: u64) -> bool {
    c.last_seen < now - timeout
}

/// The tunnels left after the idle ones are ended.
pub open spec fn after_idle_sweep(held: Map<Endpoint, Connection>, now: u64, timeout: u64) -> Map<Endpoint, Connection> {
    Map::new(
        |k: Endpoint| held.contains_key(k) && !is_idle(held[k], now, timeout),
        |k: Endpoint| held[k],
    )
}

/// `removed` lists the tunnels of `before` that `after` no longer holds, each
/// once, with what `before` held for them.
pub open spec fn lists_removed(
    removed: Seq<(Endpoint, Connection)>,
    before: Map<Endpoint, Connection>,
    after: Map<Endpoint, Connection>,
) -> bool {
    &&& forall|i: int| 0 <= i < removed.len() ==> {
        &&& before.contains_key(#[trigger] removed[i].0)
        &&& before[removed[i].0] == removed[i].1
        &&& !after.contains_key(removed[i].0)
    }
    &&& forall|k: Endpoint| before.contains_key(k) && !after.contains_key(k)
        ==> exists|i: int| 0 <= i < removed.len() && #[trigger] removed[i].0 == k
    &&& forall|i: int, j: int| 0 <= i < j < removed.len() ==> removed[i].0 != removed[j].0
}

/// A tunnel opened for a datagram that no open tunnel took.
#[derive(Clone, Copy, Debug, PartialEq, Eq, Structural)]
pub struct Opened {
    /// The new tunnel's number.
    pub id: u64,
    /// The number of the tunnel it replaces, where the address had one.
    pub replaced: Option<u64>,
}

/// The client's UDP tunnels: at most one per local address, each under a
/// number that no other tunnel ever had.
pub struct UdpRegistry {
    tunnels: papaya::HashMap<Endpoint, Connection>,
    next_id: u64,
}

impl View for UdpRegistry {
    type V = Map<Endpoint, Connection>;

    closed spec fn view(&self) -> Map<Endpoint, Connection> {
        tunnels_held(self.tunnels)
    }
}

impl UdpRegistry {
    /// The number the next tunnel opened will have.
    pub closed spec fn next_id(&self) -> u64 {
        self.next_id
    }

    /// Tunnel numbers are below [`Self::next_id`] and distinct.
    pub open spec fn wf(&self) -> bool {
        numbered_below(self@, self.next_id())
    }

    /// The number the next tunnel opened will have.
    pub fn next_number(&self) -> (n: u64)
        ensures
            n == self.next_id(),
    {
        self.next_id
    }

    /// A registry without tunnels.
    pub fn new() -> (r: UdpRegistry)
        ensures
            r@ == Map::<Endpoint, Connection>::empty(),
            r.next_id() == 0,
            r.wf(),
    {
        UdpRegistry { tunnels: tunnels_new(), next_id: 0 }
    }

    /// The tunnel that a datagram from `from` goes into, if one is open.
    pub fn route(&self, from: &Endpoint) -> (r: Option<u64>)
        ensures
            r == route_of(self@, *from),
            self@.contains_key(*from) ==> r == Some(self@[*from].id),
            !self@.contains_key(*from) ==> r is None,
    {
        match tunnels_get(&self.tunnels, from) {
            Some(c) => Some(c.id),
            None => None,
        }
    }

    /// What the registry holds for `from`, if anything.
    pub fn connection(&self, from: &Endpoint) -> (r: Option<Connection>)
        ensures
            r == (if self@.contains_key(*from) { Some(self@[*from]) } else { None }),
    {
        tunnels_get(&self.tunnels, from)
    }

    /// Opens a tunnel for `from` at time `now`, in place of any tunnel it had,
    /// and returns the new tunnel's number.
    pub fn open(&mut self, from: Endpoint, now: u64) -> (id: u64)
        requires
            old(self).wf(),
            old(self).next_id() < u64::MAX,
        ensures
            id == old(self).next_id(),
            final(self).next_id() == id + 1,
            final(self)@ == old(self)@.insert(from, fresh_connection(id, now)),
            final(self)@.contains_key(from),
            final(self)@[from] == (Connection { id, inode: None, last_seen: now }),
            forall|k: Endpoint| k != from ==> #[trigger] final(self)@.contains_key(k) == old(self)@.contains_key(k),
            forall|k: Endpoint| k != from && #[trigger] old(self)@.contains_key(k) ==> final(self)@[k] == old(self)@[k],
            final(self).wf(),
    {
        let id = self.next_id;
        tunnels_insert(&mut self.tunnels, from, Connection { id, inode: None, last_seen: now });
        self.next_id = id + 1;
        id
    }

    /// Settles a datagram from `from` at time `now`, once the program has
    /// tried to pass it to the tunnel that [`Self::route`] named, if any:
    /// where that tunnel took it, nothing changes; else a new tunnel is opened
    /// for `from` (in place of the one that did not take it), and the
    /// datagram goes into the new tunnel.
    pub fn settle(&mut self, from: Endpoint, delivered: bool, now: u64) -> (opened: Option<Opened>)
        requires
            old(self).wf(),
            old(self).next_id() < u64::MAX,
        ensures
            delivered ==> opened is None && final(self)@ == old(self)@ && final(self).next_id() == old(self).next_id(),
            !delivered ==> {
                &&& opened == Some(Opened { id: old(self).next_id(), replaced: route_of(old(self)@, from) })
                &&& final(self)@ == old(self)@.insert(from, fresh_connection(old(self).next_id(), now))
                &&& final(self).next_id() == old(self).next_id() + 1
                &&& final(self)@.contains_key(from)
                &&& final(self)@[from] == (Connection { id: old(self).next_id(), inode: None, last_seen: now })
                &&& opened matches Some(o) && o.id == old(self).next_id() && o.replaced == (if old(self)@.contains_key(from) {
                    Some(old(self)@[from].id)
                } else {
                    None
                })
            },
            final(self).wf(),
    {
        if delivered {
            None
        } else {
            let replaced = self.route(&from);
            let id = self.open(from, now);
            Some(Opened { id, replaced })
        }
    }

    /// Records that the tunnel numbered `id`, opened for `from`, carried a
    /// message at `now`. A tunnel that has since been replaced or ended is
    /// not in the registry under that number, and nothing changes then.
    pub fn touch(&mut self, from: Endpoint, id: u64, now: u64)
        requires
            old(self).wf(),
        ensures
            final(self)@ == revised_at(old(self)@, from, Revision::Refresh { id, now }),
            old(self)@.contains_key(from) && old(self)@[from].id == id ==> final(self)@[from] == (Connection {
                id,
                inode: old(self)@[from].inode,
                last_seen: now,
            }),
            !(old(self)@.contains_key(from) && old(self)@[from].id == id) ==> final(self)@ == old(self)@,
            forall|k: Endpoint| #[trigger] final(self)@.contains_key(k) == old(self)@.contains_key(k),
            forall|k: Endpoint| k != from && #[trigger] old(self)@.contains_key(k) ==> final(self)@[k] == old(self)@[k],
            final(self).next_id() == old(self).next_id(),
            final(self).wf(),
    {
        tunnels_update(&mut self.tunnels, from, Revision::Refresh { id, now });
        proof {
            assert(self@ =~= revised_at(old(self)@, from, Revision::Refresh { id, now }));
        }
    }

    /// Looks at the socket table and ends each tunnel whose local socket is
    /// gone or was bound anew (its inode changed); a tunnel whose socket is
    /// seen for the first time learns its inode. Returns the tunnels ended,
    /// for their tasks to be told to close.
    pub fn sweep_unbound(&mut self, table: &SocketTable) -> (removed: Vec<(Endpoint, Connection)>)
        requires
            old(self).wf(),
        ensures
            final(self)@ == after_socket_sweep(old(self)@, table@),
            forall|k: Endpoint| #[trigger] final(self)@.contains_key(k) <==> (old(self)@.contains_key(k)
                && table@.contains_key(k) && (old(self)@[k].inode is None || old(self)@[k].inode == Some(table@[k]))),
            forall|k: Endpoint| #[trigger] final(self)@.contains_key(k) ==> final(self)@[k] == (Connection {
                id: old(self)@[k].id,
                inode: Some(table@[k]),
                last_seen: old(self)@[k].last_seen,
            }),
            forall|i: int| 0 <= i < removed@.len() ==> {
                &&& old(self)@.contains_key(#[trigger] removed@[i].0)
                &&& removed@[i].1 == old(self)@[removed@[i].0]
                &&& !final(self)@.contains_key(removed@[i].0)
            },
            forall|k: Endpoint| old(self)@.contains_key(k) && !final(self)@.contains_key(k)
                ==> exists|i: int| 0 <= i < removed@.len() && #[trigger] removed@[i].0 == k,
            forall|i: int, j: int| 0 <= i < j < removed@.len() ==> removed@[i].0 != removed@[j].0,
            final(self).next_id() == old(self).next_id(),
            final(self).wf(),
            lists_removed(removed@, old(self)@, final(self)@),
    {
        let ghost held = self@;
        let ghost sockets = table@;
        let entries = tunnels_entries(&self.tunnels);
        let mut removed: Vec<(Endpoint, Connection)> = Vec::new();
        let ghost mut done: Set<Endpoint> = Set::empty();
        let n = entries.len();
        for i in 0..n
            invariant
                n == entries@.len(),
                lists_map(entries@, held),
                held == old(self)@,
                sockets == table@,
                self.next_id == old(self).next_id(),
                old(self).wf(),
                forall|k: Endpoint| done.contains(k) <==> exists|j: int| 0 <= j < i && #[trigger] entries@[j].0 == k,
                self@ == Map::new(
                    |k: Endpoint| held.contains_key(k) && (done.contains(k) ==> socket_verdict(held[k], k, sockets) is Some),
                    |k: Endpoint| if done.contains(k) { socket_verdict(held[k], k, sockets)->0 } else { held[k] },
                ),
                forall|j: int| 0 <= j < removed@.len() ==> {
                    &&& held.contains_key(#[trigger] removed@[j].0)
                    &&& held[removed@[j].0] == removed@[j].1
                    &&& done.contains(removed@[j].0)
                    &&& socket_verdict(held[removed@[j].0], removed@[j].0, sockets) is None
                },
                forall|k: Endpoint| held.contains_key(k) && done.contains(k) && socket_verdict(held[k], k, sockets) is None
                    ==> exists|j: int| 0 <= j < removed@.len() && #[trigger] removed@[j].0 == k,
                forall|a: int, b: int| 0 <= a < b < removed@.len() ==> removed@[a].0 != removed@[b].0,
        {
            let (local, c) = entries[i];
            proof {
                assert(entries@[i as int].0 == local);
                assert(!done.contains(local)) by {
                    if done.contains(local) {
                        let j = choose|j: int| 0 <= j < i && #[trigger] entries@[j].0 == local;
                        assert(entries@[j].0 != entries@[i as int].0);
                    }
                }
                assert(held.contains_key(local) && held[local] == c);
            }
            let ghost before = self@;
            let ghost removed_before = removed@;
            let end = match table.inode_of(&local) {
                None => true,
                Some(inode) => match c.inode {
                    Some(seen) => seen != inode,
                    None => {
                        tunnels_update(&mut self.tunnels, local, Revision::Bind(inode));
                        false
                    },
                },
            };
            if end {
                tunnels_remove(&mut self.tunnels, &local);
                removed.push((local, c));
            }
            proof {
                let done2 = done.insert(local);
                assert forall|k: Endpoint| done2.contains(k) <==> exists|j: int| 0 <= j < i + 1 && #[trigger] entries@[j].0 == k by {
                    if done2.contains(k) && k != local {
                        let j = choose|j: int| 0 <= j < i && #[trigger] entries@[j].0 == k;
                    }
                    if exists|j: int| 0 <= j < i + 1 && #[trigger] entries@[j].0 == k {
                        let j = choose|j: int| 0 <= j < i + 1 && #[trigger] entries@[j].0 == k;
                        if j < i {
                            assert(done.contains(k));
                        }
                    }
                }
                assert(end <==> socket_verdict(held[local], local, sockets) is None);
                assert(self@ =~= Map::new(
                    |k: Endpoint| held.contains_key(k) && (done2.contains(k) ==> socket_verdict(held[k], k, sockets) is Some),
                    |k: Endpoint| if done2.contains(k) { socket_verdict(held[k], k, sockets)->0 } else { held[k] },
                ));
                assert forall|k: Endpoint| held.contains_key(k) && done2.contains(k) && socket_verdict(held[k], k, sockets) is None
                    implies exists|j: int| 0 <= j < removed@.len() && #[trigger] removed@[j].0 == k by {
                    if k == local {
                        assert(removed@[removed@.len() - 1].0 == k);
                    } else {
                        let j = choose|j: int| 0 <= j < removed_before.len() && #[trigger] removed_before[j].0 == k;
                        assert(removed@[j].0 == k);
                    }
                }
                done = done2;
            }
        }
        proof {
            assert forall|k: Endpoint| held.contains_key(k) implies done.contains(k) by {
                let j = choose|j: int| 0 <= j < entries@.len() && #[trigger] entries@[j].0 == k;
            }
            assert(self@ =~= after_socket_sweep(held, sockets));
        }
        removed
    }


    /// Ends each tunnel that carried nothing for longer than `timeout`
    /// milliseconds before `now`. Returns the tunnels ended, for their tasks
    /// to be told to close.
    pub fn sweep_idle(&mut self, now: u64, timeout: u64) -> (removed: Vec<(Endpoint, Connection)>)
        requires
            old(self).wf(),
            timeout <= now,
        ensures
            final(self)@ == after_idle_sweep(old(self)@, now, timeout),
            forall|k: Endpoint| #[trigger] final(self)@.contains_key(k) <==> (old(self)@.contains_key(k)
                && old(self)@[k].last_seen >= now - timeout),
            forall|k: Endpoint| #[trigger] final(self)@.contains_key(k) ==> final(self)@[k] == old(self)@[k],
            forall|i: int| 0 <= i < removed@.len() ==> {
                &&& old(self)@.contains_key(#[trigger] removed@[i].0)
                &&& removed@[i].1 == old(self)@[removed@[i].0]
                &&& removed@[i].1.last_seen < now - timeout
            },
            forall|k: Endpoint| old(self)@.contains_key(k) && !final(self)@.contains_key(k)
                ==> exists|i: int| 0 <= i < removed@.len() && #[trigger] removed@[i].0 == k,
            forall|i: int, j: int| 0 <= i < j < removed@.len() ==> removed@[i].0 != removed@[j].0,
            final(self).next_id() == old(self).next_id(),
            final(self).wf(),
            lists_removed(removed@, old(self)@, final(self)@),
    {
        let ghost held = self@;
        let entries = tunnels_entries(&self.tunnels);
        let mut removed: Vec<(Endpoint, Connection)> = Vec::new();
        let ghost mut done: Set<Endpoint> = Set::empty();
        let horizon = now - timeout;
        let n = entries.len();
        for i in 0..n
            invariant
                n == entries@.len(),
                lists_map(entries@, held),
                held == old(self)@,
                horizon == now - timeout,
                self.next_id == old(self).next_id(),
                old(self).wf(),
                forall|k: Endpoint| done.contains(k) <==> exists|j: int| 0 <= j < i && #[trigger] entries@[j].0 == k,
                self@ == Map::new(
                    |k: Endpoint| held.contains_key(k) && (done.contains(k) ==> !is_idle(held[k], now, timeout)),
                    |k: Endpoint| held[k],
                ),
                forall|j: int| 0 <= j < removed@.len() ==> {
                    &&& held.contains_key(#[trigger] removed@[j].0)
                    &&& held[removed@[j].0] == removed@[j].1
                    &&& done.contains(removed@[j].0)
                    &&& is_idle(held[removed@[j].0], now, timeout)
                },
                forall|k: Endpoint| held.contains_key(k) && done.contains(k) && is_idle(held[k], now, timeout)
                    ==> exists|j: int| 0 <= j < removed@.len() && #[trigger] removed@[j].0 == k,
                forall|a: int, b: int| 0 <= a < b < removed@.len() ==> removed@[a].0 != removed@[b].0,
        {
            let (local, c) = entries[i];
            proof {
                assert(entries@[i as int].0 == local);
                assert(!done.contains(local)) by {
                    if done.contains(local) {
                        let j = choose|j: int| 0 <= j < i && #[trigger] entries@[j].0 == local;
                        assert(entries@[j].0 != entries@[i as int].0);
                    }
                }
                assert(held.contains_key(local) && held[local] == c);
            }
            let ghost removed_before = removed@;
            if c.last_seen < horizon {
                tunnels_remove(&mut self.tunnels, &local);
                removed.push((local, c));
            }
            proof {
                let done2 = done.insert(local);
                assert forall|k: Endpoint| done2.contains(k) <==> exists|j: int| 0 <= j < i + 1 && #[trigger] entries@[j].0 == k by {
                    if done2.contains(k) && k != local {
                        let j = choose|j: int| 0 <= j < i && #[trigger] entries@[j].0 == k;
                    }
                    if exists|j: int| 0 <= j < i + 1 && #[trigger] entries@[j].0 == k {
                        let j = choose|j: int| 0 <= j < i + 1 && #[trigger] entries@[j].0 == k;
                        if j < i {
                            assert(done.contains(k));
                        }
                    }
                }
                assert(self@ =~= Map::new(
                    |k: Endpoint| held.contains_key(k) && (done2.contains(k) ==> !is_idle(held[k], now, timeout)),
                    |k: Endpoint| held[k],
                ));
                assert forall|k: Endpoint| held.contains_key(k) && done2.contains(k) && is_idle(held[k], now, timeout)
                    implies exists|j: int| 0 <= j < removed@.len() && #[trigger] removed@[j].0 == k by {
                    if k == local {
                        assert(removed@[removed@.len() - 1].0 == k);
                    } else {
                        let j = choose|j: int| 0 <= j < removed_before.len() && #[trigger] removed_before[j].0 == k;
                        assert(removed@[j].0 == k);
                    }
                }
                done = done2;
            }
        }
        proof {
            assert forall|k: Endpoint| held.contains_key(k) implies done.contains(k) by {
                let j = choose|j: int| 0 <= j < entries@.len() && #[trigger] entries@[j].0 == k;
            }
            assert(self@ =~= after_idle_sweep(held, now, timeout));
        }
        removed
    }

}

} // verus!
