use tow::endpoint::Endpoint;
use tow::registry::{Connection, Opened, Revision, UdpRegistry};
use tow::socket_table::{SocketRow, SocketTable};
use tow::trace::TraceError;

fn local(port: u16) -> Endpoint {
    Endpoint::v4(0x7f00_0001, port)
}

#[test]
fn endpoints_of_both_families() {
    let a = Endpoint::v4(0x0a00_0001, 53);
    assert_eq!(a, Endpoint { v6: false, ip: 0x0a00_0001, port: 53, flowinfo: 0, scope_id: 0 });
    let b = Endpoint::v6(1, 53, 0, 0);
    assert!(b.v6);
    assert_ne!(a, b);
}

#[test]
fn route_after_open() {
    let mut reg = UdpRegistry::new();
    assert_eq!(reg.route(&local(1000)), None);
    let first = reg.open(local(1000), 50);
    let second = reg.open(local(2000), 60);
    assert_eq!(first, 0);
    assert_eq!(second, 1);
    assert_eq!(reg.route(&local(1000)), Some(0));
    assert_eq!(reg.route(&local(2000)), Some(1));
    assert_eq!(reg.route(&local(3000)), None);
    assert_eq!(
        reg.connection(&local(1000)),
        Some(Connection { id: 0, inode: None, last_seen: 50 })
    );
}

#[test]
fn reopening_replaces_the_tunnel() {
    let mut reg = UdpRegistry::new();
    let old_id = reg.open(local(1000), 10);
    let new_id = reg.open(local(1000), 20);
    assert_ne!(old_id, new_id);
    assert_eq!(reg.route(&local(1000)), Some(new_id));
    reg.touch(local(1000), old_id, 99);
    assert_eq!(reg.connection(&local(1000)).unwrap().last_seen, 20);
    reg.touch(local(1000), new_id, 99);
    assert_eq!(reg.connection(&local(1000)).unwrap().last_seen, 99);
}

#[test]
fn touch_of_an_unknown_address_changes_nothing() {
    let mut reg = UdpRegistry::new();
    let id = reg.open(local(1000), 10);
    reg.touch(local(4000), id, 99);
    assert_eq!(reg.connection(&local(1000)).unwrap().last_seen, 10);
    assert_eq!(reg.connection(&local(4000)), None);
}

#[test]
fn revision_of_a_connection() {
    let c = Connection { id: 3, inode: None, last_seen: 5 };
    assert_eq!(c.revise(Revision::Bind(77)), Connection { id: 3, inode: Some(77), last_seen: 5 });
    assert_eq!(c.revise(Revision::Refresh { id: 3, now: 9 }), Connection { id: 3, inode: None, last_seen: 9 });
    assert_eq!(c.revise(Revision::Refresh { id: 4, now: 9 }), c);
}

#[test]
fn socket_table_keeps_udp_rows_and_the_last_one() {
    let rows = vec![
        SocketRow { udp: true, local: local(1), inode: 10 },
        SocketRow { udp: false, local: local(2), inode: 20 },
        SocketRow { udp: true, local: local(1), inode: 11 },
        SocketRow { udp: true, local: local(3), inode: 30 },
    ];
    let table = SocketTable::from_rows(&rows);
    assert_eq!(table.inode_of(&local(1)), Some(11));
    assert_eq!(table.inode_of(&local(2)), None);
    assert_eq!(table.inode_of(&local(3)), Some(30));
    assert_eq!(table.inode_of(&local(4)), None);
}

fn sorted_ids(removed: &[(Endpoint, Connection)]) -> Vec<u64> {
    let mut ids: Vec<u64> = removed.iter().map(|(_, c)| c.id).collect();
    ids.sort();
    ids
}

#[test]
fn socket_sweep_binds_keeps_and_ends() {
    let mut reg = UdpRegistry::new();
    let gone = reg.open(local(1), 0);
    let fresh = reg.open(local(2), 0);
    let rebound = reg.open(local(3), 0);
    let stable = reg.open(local(4), 0);
    let first = SocketTable::from_rows(&[
        SocketRow { udp: true, local: local(3), inode: 30 },
        SocketRow { udp: true, local: local(4), inode: 40 },
        SocketRow { udp: true, local: local(1), inode: 10 },
    ]);
    let removed = reg.sweep_unbound(&first);
    assert_eq!(sorted_ids(&removed), vec![fresh]);
    assert_eq!(reg.connection(&local(3)).unwrap().inode, Some(30));

    let second = SocketTable::from_rows(&[
        SocketRow { udp: true, local: local(3), inode: 31 },
        SocketRow { udp: true, local: local(4), inode: 40 },
        SocketRow { udp: false, local: local(1), inode: 10 },
    ]);
    let removed = reg.sweep_unbound(&second);
    assert_eq!(sorted_ids(&removed), vec![gone, rebound]);
    assert_eq!(reg.route(&local(4)), Some(stable));
    assert_eq!(reg.route(&local(1)), None);
    assert_eq!(reg.route(&local(3)), None);

    let again = reg.sweep_unbound(&second);
    assert!(again.is_empty());
    assert_eq!(reg.connection(&local(4)), Some(Connection { id: stable, inode: Some(40), last_seen: 0 }));
}

#[test]
fn idle_sweep_ends_quiet_tunnels() {
    let mut reg = UdpRegistry::new();
    let quiet = reg.open(local(1), 1_000);
    let busy = reg.open(local(2), 1_000);
    let edge = reg.open(local(3), 1_000);
    reg.touch(local(2), busy, 9_000);
    reg.touch(local(3), edge, 5_000);
    let removed = reg.sweep_idle(10_000, 5_000);
    assert_eq!(sorted_ids(&removed), vec![quiet]);
    assert_eq!(reg.route(&local(2)), Some(busy));
    assert_eq!(reg.route(&local(3)), Some(edge));
    assert!(reg.sweep_idle(10_000, 5_000).is_empty());
    assert_eq!(sorted_ids(&reg.sweep_idle(20_000, 5_000)), vec![busy, edge]);
}

#[test]
fn idle_sweep_with_timeout_equal_to_now() {
    let mut reg = UdpRegistry::new();
    reg.open(local(1), 0);
    assert!(reg.sweep_idle(500, 500).is_empty());
}

#[test]
fn trace_error_passes_results_on() {
    let ok: anyhow::Result<u8> = Ok(3);
    assert_eq!(ok.err_warn().unwrap(), 3);
    let err: anyhow::Result<u8> = Err(anyhow::Error::msg("boom"));
    let back = err.err_error().err_trace();
    assert_eq!(back.unwrap_err().to_string(), "boom");
}

#[test]
fn settle_keeps_a_tunnel_that_took_the_datagram() {
    let mut reg = UdpRegistry::new();
    let id = reg.open(local(1000), 5);
    assert_eq!(reg.settle(local(1000), true, 50), None);
    assert_eq!(reg.route(&local(1000)), Some(id));
    assert_eq!(reg.next_number(), 1);
}

#[test]
fn settle_opens_a_tunnel_for_a_new_address() {
    let mut reg = UdpRegistry::new();
    assert_eq!(reg.settle(local(1000), false, 50), Some(Opened { id: 0, replaced: None }));
    assert_eq!(reg.connection(&local(1000)), Some(Connection { id: 0, inode: None, last_seen: 50 }));
    assert_eq!(reg.next_number(), 1);
}

#[test]
fn settle_replaces_a_tunnel_that_refused_the_datagram() {
    let mut reg = UdpRegistry::new();
    let old = reg.open(local(1000), 5);
    assert_eq!(reg.settle(local(1000), false, 60), Some(Opened { id: 1, replaced: Some(old) }));
    assert_eq!(reg.route(&local(1000)), Some(1));
}
