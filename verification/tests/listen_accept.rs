//! Listen-table behavior against a real protocol-engine socket set:
//! queueing on SYN, duplicate idempotence, backlog capacity, non-blocking
//! accept, and listener close.

use netcore::addr::SocketAddrV4;
use netcore::common::NetError;
use netcore::listen_table::ListenTable;
use netcore::sockets::new_socket_set;

fn addr(ip: u32, port: u16) -> SocketAddrV4 {
    SocketAddrV4::new(ip, port)
}

const LISTEN_IP: u32 = 0x0A000001; // 10.0.0.1
const REMOTE_IP: u32 = 0x0A000002; // 10.0.0.2

#[test]
fn syn_queues_exactly_one_and_duplicates_are_idempotent() {
    let mut table = ListenTable::new();
    let mut sockets = new_socket_set();
    let local = addr(0, 8080);
    table.listen(local, 4).expect("bind");
    assert_eq!(table.pending_count(local), Some(0));

    let src = addr(REMOTE_IP, 5000);
    let dst = addr(LISTEN_IP, 8080);
    table.incoming_tcp_packet(src, dst, &mut sockets);
    assert_eq!(table.pending_count(local), Some(1));
    assert_eq!(sockets.iter().count(), 1);

    // A retransmitted SYN from the same remote adds nothing.
    table.incoming_tcp_packet(src, dst, &mut sockets);
    assert_eq!(table.pending_count(local), Some(1));
    assert_eq!(sockets.iter().count(), 1);

    // A different remote port is a different connection.
    table.incoming_tcp_packet(addr(REMOTE_IP, 5001), dst, &mut sockets);
    assert_eq!(table.pending_count(local), Some(2));
    assert_eq!(sockets.iter().count(), 2);
}

#[test]
fn unmatched_syn_is_ignored() {
    let mut table = ListenTable::new();
    let mut sockets = new_socket_set();
    table.listen(addr(0, 8080), 4).expect("bind");
    // Wrong port: no listener, nothing happens.
    table.incoming_tcp_packet(addr(REMOTE_IP, 5000), addr(LISTEN_IP, 81), &mut sockets);
    assert_eq!(table.pending_count(addr(0, 8080)), Some(0));
    assert_eq!(sockets.iter().count(), 0);
}

#[test]
fn exact_match_is_preferred_over_wildcard() {
    let mut table = ListenTable::new();
    let mut sockets = new_socket_set();
    let exact = addr(LISTEN_IP, 80);
    let wild = addr(0, 80);
    table.listen(wild, 4).expect("bind wildcard");
    table.listen(exact, 4).expect("bind exact");

    table.incoming_tcp_packet(addr(REMOTE_IP, 4000), addr(LISTEN_IP, 80), &mut sockets);
    assert_eq!(table.pending_count(exact), Some(1));
    assert_eq!(table.pending_count(wild), Some(0));

    // A destination only the wildcard covers goes to the wildcard.
    table.incoming_tcp_packet(addr(REMOTE_IP, 4001), addr(0x0A000009, 80), &mut sockets);
    assert_eq!(table.pending_count(exact), Some(1));
    assert_eq!(table.pending_count(wild), Some(1));
}

#[test]
fn backlog_capacity_is_respected() {
    let mut table = ListenTable::new();
    let mut sockets = new_socket_set();
    let local = addr(0, 8080);
    let k = 3usize;
    table.listen(local, k).expect("bind");
    let dst = addr(LISTEN_IP, 8080);
    for n in 0..(k + 1) {
        table.incoming_tcp_packet(addr(REMOTE_IP, 6000 + n as u16), dst, &mut sockets);
    }
    // The (k+1)th SYN was dropped without socket-set growth.
    assert_eq!(table.pending_count(local), Some(k));
    assert_eq!(sockets.iter().count(), k);
}

#[test]
fn accept_reports_would_block_and_never_blocks() {
    let mut table = ListenTable::new();
    let mut sockets = new_socket_set();
    let local = addr(0, 8080);
    table.listen(local, 4).expect("bind");

    // Empty queue: would block.
    match table.accept(local, &sockets) {
        Err(NetError::WouldBlock) => {},
        _ => panic!("accept on an empty queue must report WouldBlock"),
    }

    // All-pending queue: the pre-created socket has not completed its
    // handshake (it is still listening), so accept still would block.
    table.incoming_tcp_packet(addr(REMOTE_IP, 5000), addr(LISTEN_IP, 8080), &mut sockets);
    assert_eq!(table.pending_count(local), Some(1));
    match table.accept(local, &sockets) {
        Err(NetError::WouldBlock) => {},
        _ => panic!("accept on an all-pending queue must report WouldBlock"),
    }
    // The pending connection stays queued for a later retry.
    assert_eq!(table.pending_count(local), Some(1));

    // Accepting on an address nobody listens on is invalid input.
    match table.accept(addr(0, 9999), &sockets) {
        Err(NetError::InvalidInput) => {},
        _ => panic!("accept on an unbound address must be rejected"),
    }
}

#[test]
fn closing_a_listener_removes_queued_sockets() {
    let mut table = ListenTable::new();
    let mut sockets = new_socket_set();
    let local = addr(0, 8080);
    table.listen(local, 4).expect("bind");
    let dst = addr(LISTEN_IP, 8080);
    table.incoming_tcp_packet(addr(REMOTE_IP, 5000), dst, &mut sockets);
    table.incoming_tcp_packet(addr(REMOTE_IP, 5001), dst, &mut sockets);
    assert_eq!(table.pending_count(local), Some(2));
    assert_eq!(sockets.iter().count(), 2);

    table.unlisten(local, &mut sockets).expect("close listener");
    // Both queued, un-accepted sockets are gone from the set.
    assert_eq!(sockets.iter().count(), 0);
    // The listener itself is gone too.
    assert_eq!(table.pending_count(local), None);
    match table.accept(local, &sockets) {
        Err(NetError::InvalidInput) => {},
        _ => panic!("accept after close must be rejected"),
    }
    match table.unlisten(local, &mut sockets) {
        Err(NetError::InvalidInput) => {},
        _ => panic!("closing twice must be rejected"),
    }
}

#[test]
fn other_listeners_survive_a_close() {
    let mut table = ListenTable::new();
    let mut sockets = new_socket_set();
    let a = addr(0, 8080);
    let b = addr(0, 9090);
    table.listen(a, 4).expect("bind a");
    table.listen(b, 4).expect("bind b");
    table.incoming_tcp_packet(addr(REMOTE_IP, 5000), addr(LISTEN_IP, 8080), &mut sockets);
    table.incoming_tcp_packet(addr(REMOTE_IP, 5001), addr(LISTEN_IP, 9090), &mut sockets);
    table.unlisten(a, &mut sockets).expect("close a");
    assert_eq!(table.pending_count(b), Some(1));
    assert_eq!(sockets.iter().count(), 1);
}

#[test]
fn listen_rejects_zero_port_and_duplicates() {
    let mut table = ListenTable::new();
    match table.listen(addr(0, 0), 4) {
        Err(NetError::InvalidInput) => {},
        _ => panic!("port zero must be rejected"),
    }
    table.listen(addr(0, 8080), 4).expect("bind");
    match table.listen(addr(0, 8080), 8) {
        Err(NetError::AddrInUse) => {},
        _ => panic!("a double bind must be rejected"),
    }
    // The same port on a distinct exact address is a different listener.
    table.listen(addr(LISTEN_IP, 8080), 4).expect("bind exact beside wildcard");
}
