//! The boundary to the protocol engine's socket storage: smoltcp's
//! `SocketSet`, the engine-owned collection of live socket state, keyed by
//! opaque handles.
//!
//! The set's contents are abstracted as the set of slot identities that
//! currently hold a TCP socket created by this layer (`tcp_handle_ids`); the
//! trusted wrappers below say over that abstraction what each engine call
//! does, as smoltcp's source shows it.

use vstd::prelude::*;

use smoltcp::iface::{SocketHandle, SocketSet};
use smoltcp::socket::tcp;
use smoltcp::wire::IpAddress;
use smoltcp::wire::IpListenEndpoint;

verus! {

#[verifier::external_type_specification]
#[verifier::external_body]
pub struct ExSocketSet<'a>(SocketSet<'a>);

#[verifier::external_type_specification]
#[verifier::external_body]
pub struct ExSocketHandle(SocketHandle);

#[verifier::external_type_specification]
#[verifier::external_body]
pub struct ExTcpSocket<'a>(tcp::Socket<'a>);

/// The identity of the socket-set slot a handle names. Two handles to the
/// same slot have the same identity; the engine reuses a slot only after the
/// socket in it was removed.
pub uninterp spec fn handle_id(h: SocketHandle) -> nat;

/// The slot identities of the TCP sockets currently live in a set.
pub uninterp spec fn tcp_handle_ids(s: SocketSet<'static>) -> Set<nat>;

/// Whether the set's storage is owned (a `Vec`) and can grow. `add` panics
/// on full borrowed (fixed-size) storage, so it is only called on sets known
/// to be owned.
pub uninterp spec fn owned_storage(s: SocketSet<'static>) -> bool;

/// Whether the engine reports the socket in the slot `h` names as having
/// completed its handshake (state Established). A pure function of the set's
/// value and the handle: the engine advances a socket's state only by
/// mutating the set.
pub uninterp spec fn established_in(s: SocketSet<'static>, h: SocketHandle) -> bool;

/// Relies on smoltcp's `SocketSet::new`: a set created over empty owned
/// storage holds no sockets, and owned storage can grow.
#[verifier::external_body]
pub fn new_socket_set() -> (s: SocketSet<'static>)
    ensures
        tcp_handle_ids(s) == Set::<nat>::empty(),
        owned_storage(s),
{
    SocketSet::new(Vec::new())
}

/// Relies on smoltcp's `tcp::Socket::new` and `tcp::Socket::listen`: a fresh
/// socket is closed, and `listen` on a closed socket succeeds exactly when
/// the port is nonzero (a zero port is unaddressable). `new` panics on a
/// receive capacity over 1 GiB (the window-scaling bound of RFC 1323), so
/// the requires excludes that.
#[verifier::external_body]
pub fn new_listening_tcp_socket(
    a0: u8,
    a1: u8,
    a2: u8,
    a3: u8,
    port: u16,
    rx_capacity: usize,
    tx_capacity: usize,
) -> (r: Option<tcp::Socket<'static>>)
    requires
        rx_capacity >= 1,
        rx_capacity <= 0x4000_0000,
        tx_capacity >= 1,
    ensures
        r is Some <==> port != 0,
{
    let rx_buffer = tcp::SocketBuffer::new(vec![0u8; rx_capacity]);
    let tx_buffer = tcp::SocketBuffer::new(vec![0u8; tx_capacity]);
    let mut socket = tcp::Socket::new(rx_buffer, tx_buffer);
    let endpoint = IpListenEndpoint { addr: Some(IpAddress::v4(a0, a1, a2, a3)), port };
    match socket.listen(endpoint) {
        Ok(()) => Some(socket),
        Err(_) => None,
    }
}

/// Relies on smoltcp's `SocketSet::add`: the socket is stored in a currently
/// free slot and the returned handle names that slot. `add` panics only on
/// full borrowed storage, which the requires excludes; adding keeps the
/// storage owned.
#[verifier::external_body]
pub fn socket_set_add_tcp(
    sockets: &mut SocketSet<'static>,
    socket: tcp::Socket<'static>,
) -> (h: SocketHandle)
    requires
        owned_storage(*old(sockets)),
    ensures
        !tcp_handle_ids(*old(sockets)).contains(handle_id(h)),
        tcp_handle_ids(*final(sockets)) == tcp_handle_ids(*old(sockets)).insert(handle_id(h)),
        owned_storage(*final(sockets)),
{
    sockets.add(socket)
}

/// Relies on smoltcp's `SocketSet::remove`: the slot the handle names is
/// emptied, and the storage kind is untouched. `remove` panics on a handle
/// whose slot is empty, so the handle must name a live socket.
#[verifier::external_body]
pub fn socket_set_remove(sockets: &mut SocketSet<'static>, h: SocketHandle)
    requires
        tcp_handle_ids(*old(sockets)).contains(handle_id(h)),
    ensures
        tcp_handle_ids(*final(sockets)) == tcp_handle_ids(*old(sockets)).remove(handle_id(h)),
        owned_storage(*final(sockets)) == owned_storage(*old(sockets)),
{
    let _ = sockets.remove(h);
}

/// Relies on smoltcp's `SocketSet::get` and `tcp::Socket::state`: whether
/// the engine reports this socket's handshake as completed — a pure read of
/// the set's value, named `established_in`. `get` panics on an empty slot or
/// a non-TCP socket, so the handle must name a live TCP socket.
#[verifier::external_body]
pub fn socket_is_established(sockets: &SocketSet<'static>, h: SocketHandle) -> (r: bool)
    requires
        tcp_handle_ids(*sockets).contains(handle_id(h)),
    ensures
        r == established_in(*sockets, h),
{
    sockets.get::<tcp::Socket>(h).state() == tcp::State::Established
}

} // verus!
