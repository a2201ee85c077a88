//! The listen table: the process-wide registry of bound listening addresses.
//!
//! The protocol engine needs a socket to exist, bound and listening, before
//! a packet for the connection arrives; the application wants to call
//! `accept` lazily. This table bridges the two: the device bridge's snoop
//! hook reports every new-connection SYN here, and the table eagerly
//! materializes a listening socket in the engine's socket set and queues its
//! handle for a later `accept`.

use vstd::prelude::*;

use smoltcp::iface::{SocketHandle, SocketSet};

use crate::addr::{ipv4_octets, SocketAddrV4};
use crate::common::{NetError, TCP_RX_BUF_LEN, TCP_TX_BUF_LEN};
use crate::sockets::{
    established_in, handle_id, new_listening_tcp_socket, owned_storage, socket_is_established,
    socket_set_add_tcp, socket_set_remove, tcp_handle_ids,
};

verus! {

/// A connection pre-created at SYN time, waiting to be retrieved by
/// `accept`: the engine handle of its socket and the remote endpoint the
/// SYN came from.
#[derive(Clone, Copy)]
pub struct PendingConn {
    pub handle: SocketHandle,
    pub remote: SocketAddrV4,
}

/// One bound listener: its local address (`ip == 0` for a port-only
/// wildcard), its backlog capacity, and the queue of pre-created
/// connections awaiting `accept`, oldest first.
pub struct ListenEntry {
    pub local: SocketAddrV4,
    pub backlog: usize,
    pub queue: Vec<PendingConn>,
}

impl ListenEntry {
    /// The slot identities of the queued connections' sockets.
    pub open spec fn queue_ids(&self) -> Seq<nat> {
        self.queue@.map(|k: int, c: PendingConn| handle_id(c.handle))
    }

    /// Whether some queued connection already came from this remote
    /// endpoint (a duplicate SYN).
    pub open spec fn has_remote(&self, remote: SocketAddrV4) -> bool {
        exists|k: int| 0 <= k < self.queue@.len() && self.queue@[k].remote == remote
    }

    /// A sane listener: bound to a real port, queue within its backlog.
    pub open spec fn entry_wf(&self) -> bool {
        &&& self.local.port != 0
        &&& self.queue@.len() <= self.backlog
    }
}

/// Whether an entry is hit by a lookup for `dst`: exactly, or through the
/// port-only wildcard.
pub open spec fn entry_hit(e: ListenEntry, dst: SocketAddrV4, wild: bool) -> bool {
    if wild {
        e.local.ip == 0 && e.local.port == dst.port
    } else {
        e.local == dst
    }
}

/// Index of the first entry at or after `i` hit by a lookup for `dst`.
pub open spec fn first_hit_from(
    s: Seq<ListenEntry>,
    dst: SocketAddrV4,
    wild: bool,
    i: int,
) -> Option<int>
    decreases s.len() - i,
{
    if i < 0 || i >= s.len() {
        None
    } else if entry_hit(s[i], dst, wild) {
        Some(i)
    } else {
        first_hit_from(s, dst, wild, i + 1)
    }
}

/// The listener a SYN for `dst` is delivered to: an exact match preferred,
/// a port-only wildcard as fallback.
pub open spec fn find_listener(s: Seq<ListenEntry>, dst: SocketAddrV4) -> Option<int> {
    match first_hit_from(s, dst, false, 0) {
        Some(i) => Some(i),
        None => first_hit_from(s, dst, true, 0),
    }
}

/// The identity of the socket queued at position `k` of entry `i`.
pub open spec fn id_at(s: Seq<ListenEntry>, i: int, k: int) -> nat {
    handle_id(s[i].queue@[k].handle)
}

/// Whether `(i, k)` names a queued connection.
pub open spec fn valid_pos(s: Seq<ListenEntry>, i: int, k: int) -> bool {
    &&& 0 <= i < s.len()
    &&& 0 <= k < s[i].queue@.len()
}

/// What `incoming_tcp_packet` does, stated over the table's entries and the
/// socket set's contents: nothing without a matching listener or when the
/// listener is full or the SYN is a duplicate; otherwise exactly one fresh
/// socket is created and queued on the matched listener.
pub open spec fn incoming_post(
    pre: Seq<ListenEntry>,
    post: Seq<ListenEntry>,
    pre_ids: Set<nat>,
    post_ids: Set<nat>,
    src: SocketAddrV4,
    dst: SocketAddrV4,
) -> bool {
    match find_listener(pre, dst) {
        None => post == pre && post_ids == pre_ids,
        Some(i) => {
            if pre[i].queue@.len() >= pre[i].backlog || pre[i].has_remote(src) {
                post == pre && post_ids == pre_ids
            } else {
                &&& post.len() == pre.len()
                &&& forall|j: int| 0 <= j < pre.len() && j != i ==> post[j] == pre[j]
                &&& post[i].local == pre[i].local
                &&& post[i].backlog == pre[i].backlog
                &&& post[i].queue@.len() == pre[i].queue@.len() + 1
                &&& post[i].queue@.drop_last() == pre[i].queue@
                &&& post[i].queue@.last().remote == src
                &&& !pre_ids.contains(handle_id(post[i].queue@.last().handle))
                &&& post_ids == pre_ids.insert(handle_id(post[i].queue@.last().handle))
            }
        },
    }
}

/// The accept decision, taken on the engine's answer about a listener's
/// front connection: hand the connection out exactly when there is one and
/// the engine reports its handshake completed; in every other case the
/// caller would block. This layer never blocks a thread itself.
pub fn accept_decision(front: Option<PendingConn>, established: bool) -> (r: Result<
    PendingConn,
    NetError,
>)
    ensures
        r is Ok <==> (front is Some && established),
        r matches Ok(c) ==> front == Some(c),
        r is Err ==> r == Result::<PendingConn, NetError>::Err(NetError::WouldBlock),
{
    match front {
        Some(c) => {
            if established {
                Ok(c)
            } else {
                Err(NetError::WouldBlock)
            }
        },
        None => Err(NetError::WouldBlock),
    }
}

/// The registry of bound listeners.
pub struct ListenTable {
    entries: Vec<ListenEntry>,
}

impl View for ListenTable {
    type V = Seq<ListenEntry>;

    closed spec fn view(&self) -> Seq<ListenEntry> {
        self.entries@
    }
}

impl ListenTable {
    /// Well-formedness against the socket set whose contents are `ids`:
    /// every entry is sane, every queued handle names a live socket, and no
    /// two queued connections share a socket.
    pub open spec fn wf(&self, ids: Set<nat>) -> bool {
        &&& forall|i: int| 0 <= i < self@.len() ==> (#[trigger] self@[i]).entry_wf()
        &&& forall|i: int, k: int|
            valid_pos(self@, i, k) ==> ids.contains(#[trigger] id_at(self@, i, k))
        &&& forall|i: int, k: int, j: int, l: int|
            #![trigger id_at(self@, i, k), id_at(self@, j, l)]
            valid_pos(self@, i, k) && valid_pos(self@, j, l) && (i != j || k != l)
                ==> id_at(self@, i, k) != id_at(self@, j, l)
    }

    pub fn new() -> (r: Self)
        ensures
            r@ =~= Seq::<ListenEntry>::empty(),
            forall|ids: Set<nat>| #[trigger] r.wf(ids),
    {
        ListenTable { entries: Vec::new() }
    }

    /// Index of the first entry hit by a lookup for `dst`, exact or
    /// wildcard per `wild`.
    fn find_hit_idx(&self, dst: SocketAddrV4, wild: bool) -> (r: Option<usize>)
        ensures
            match r {
                Some(i) => first_hit_from(self@, dst, wild, 0) == Some(i as int) && i < self@.len()
                    && entry_hit(self@[i as int], dst, wild),
                None => first_hit_from(self@, dst, wild, 0) is None,
            },
    {
        let n = self.entries.len();
        let mut i: usize = 0;
        while i < n
            invariant
                0 <= i <= n,
                n == self@.len(),
                first_hit_from(self@, dst, wild, 0) == first_hit_from(self@, dst, wild, i as int),
            decreases n - i,
        {
            let e = &self.entries[i];
            let hit = if wild {
                e.local.ip == 0 && e.local.port == dst.port
            } else {
                e.local == dst
            };
            if hit {
                return Some(i);
            }
            proof {
                assert(first_hit_from(self@, dst, wild, i as int)
                    == first_hit_from(self@, dst, wild, i + 1));
            }
            i = i + 1;
        }
        None
    }

    /// Bind a listener on `local` with the given backlog capacity.
    /// Rejects a zero port and an address that is already bound.
    pub fn listen(&mut self, local: SocketAddrV4, backlog: usize) -> (r: Result<(), NetError>)
        ensures
            local.port == 0 ==> r == Result::<(), NetError>::Err(NetError::InvalidInput)
                && final(self)@ == old(self)@,
            local.port != 0 && first_hit_from(old(self)@, local, false, 0) is Some ==> r
                == Result::<(), NetError>::Err(NetError::AddrInUse) && final(self)@ == old(self)@,
            local.port != 0 && first_hit_from(old(self)@, local, false, 0) is None ==> r is Ok
                && final(self)@.len() == old(self)@.len() + 1 && final(self)@.drop_last() == old(
                self,
            )@ && final(self)@.last().local == local && final(self)@.last().backlog == backlog
                && final(self)@.last().queue@.len() == 0,
            forall|ids: Set<nat>| old(self).wf(ids) ==> #[trigger] final(self).wf(ids),
    {
        if local.port == 0 {
            return Err(NetError::InvalidInput);
        }
        if self.find_hit_idx(local, false).is_some() {
            return Err(NetError::AddrInUse);
        }
        let entry = ListenEntry { local, backlog, queue: Vec::new() };
        self.entries.push(entry);
        proof {
            let pre = old(self)@;
            let post = self@;
            assert forall|ids: Set<nat>| old(self).wf(ids) implies #[trigger] final(self).wf(
                ids,
            ) by {
                assert forall|i: int| 0 <= i < post.len() implies (#[trigger] post[i]).entry_wf() by {
                    if i < pre.len() {
                        assert(post[i] == pre[i]);
                    }
                }
                assert forall|i: int, k: int| valid_pos(post, i, k) implies ids.contains(
                    #[trigger] id_at(post, i, k),
                ) by {
                    assert(i < pre.len());
                    assert(post[i] == pre[i]);
                    assert(valid_pos(pre, i, k));
                    assert(id_at(post, i, k) == id_at(pre, i, k));
                }
                assert forall|i: int, k: int, j: int, l: int|
                    #![trigger id_at(post, i, k), id_at(post, j, l)]
                    valid_pos(post, i, k) && valid_pos(post, j, l) && (i != j || k != l) implies id_at(
                    post,
                    i,
                    k,
                ) != id_at(post, j, l) by {
                    assert(post[i] == pre[i]);
                    assert(post[j] == pre[j]);
                    assert(id_at(post, i, k) == id_at(pre, i, k));
                    assert(id_at(post, j, l) == id_at(pre, j, l));
                }
            }
        }
        Ok(())
    }

    /// Whether entry `i` already queues a connection from `remote`.
    fn entry_has_remote(&self, i: usize, remote: SocketAddrV4) -> (r: bool)
        requires
            i < self@.len(),
        ensures
            r == self@[i as int].has_remote(remote),
    {
        let e = &self.entries[i];
        let n = e.queue.len();
        let mut k: usize = 0;
        while k < n
            invariant
                0 <= k <= n,
                i < self@.len(),
                e == &self@[i as int],
                n == e.queue@.len(),
                forall|m: int| 0 <= m < k ==> e.queue@[m].remote != remote,
            decreases n - k,
        {
            if e.queue[k].remote == remote {
                return true;
            }
            k = k + 1;
        }
        false
    }

    /// The snoop hook's entry point: a new-connection SYN from `src` to
    /// `dst` arrived. If a listener matches `dst` and has room and the SYN
    /// is not a duplicate, eagerly create a listening socket for the
    /// connection in `sockets` and queue its handle for `accept`; otherwise
    /// do nothing (a full listener drops the SYN, the remote's
    /// retransmission covers retry).
    pub fn incoming_tcp_packet(
        &mut self,
        src: SocketAddrV4,
        dst: SocketAddrV4,
        sockets: &mut SocketSet<'static>,
    )
        requires
            old(self).wf(tcp_handle_ids(*old(sockets))),
            owned_storage(*old(sockets)),
        ensures
            final(self).wf(tcp_handle_ids(*final(sockets))),
            owned_storage(*final(sockets)),
            incoming_post(
                old(self)@,
                final(self)@,
                tcp_handle_ids(*old(sockets)),
                tcp_handle_ids(*final(sockets)),
                src,
                dst,
            ),
    {
        let idx = match self.find_hit_idx(dst, false) {
            Some(i) => Some(i),
            None => self.find_hit_idx(dst, true),
        };
        let i = match idx {
            Some(i) => i,
            None => {
                return ;
            },
        };
        proof {
            assert(find_listener(self@, dst) == Some(i as int));
        }
        let e = &self.entries[i];
        if e.queue.len() >= e.backlog {
            return ;
        }
        if self.entry_has_remote(i, src) {
            return ;
        }
        // The matched listener is bound to dst's port, and a well-formed
        // listener never binds port zero, so the engine accepts the listen.
        proof {
            assert(self@[i as int].entry_wf());
            assert(dst.port != 0);
        }
        let (a0, a1, a2, a3) = ipv4_octets(dst.ip);
        let socket = match new_listening_tcp_socket(
            a0,
            a1,
            a2,
            a3,
            dst.port,
            TCP_RX_BUF_LEN,
            TCP_TX_BUF_LEN,
        ) {
            Some(s) => s,
            None => {
                // Unreachable: the port was just shown to be nonzero.
                proof {
                    assert(false);
                }
                return ;
            },
        };
        let h = socket_set_add_tcp(sockets, socket);
        let mut entry = self.entries.remove(i);
        entry.queue.push(PendingConn { handle: h, remote: src });
        self.entries.insert(i, entry);
        proof {
            let pre = old(self)@;
            let post = self@;
            let pre_ids = tcp_handle_ids(*old(sockets));
            let post_ids = tcp_handle_ids(*sockets);
            let ii = i as int;
            assert(post.len() == pre.len());
            assert forall|j: int| 0 <= j < pre.len() && j != ii implies post[j] == pre[j] by {
                if j < ii {
                    assert(post[j] == pre.remove(ii).insert(ii, post[ii])[j]);
                } else {
                    assert(post[j] == pre.remove(ii).insert(ii, post[ii])[j]);
                }
            }
            assert(post[ii].queue@.drop_last() =~= pre[ii].queue@);
            assert(incoming_post(pre, post, pre_ids, post_ids, src, dst));
            let newid = handle_id(post[ii].queue@.last().handle);
            assert forall|a: int| 0 <= a < post.len() implies (#[trigger] post[a]).entry_wf() by {
                if a != ii {
                    assert(post[a] == pre[a]);
                } else {
                    assert(pre[ii].queue@.len() < pre[ii].backlog);
                }
            }
            assert forall|a: int, k: int| valid_pos(post, a, k) implies post_ids.contains(
                #[trigger] id_at(post, a, k),
            ) by {
                if a == ii && k == post[ii].queue@.len() - 1 {
                    assert(id_at(post, a, k) == newid);
                } else if a == ii {
                    assert(post[ii].queue@[k] == pre[ii].queue@[k]);
                    assert(id_at(post, a, k) == id_at(pre, a, k));
                    assert(valid_pos(pre, a, k));
                } else {
                    assert(post[a] == pre[a]);
                    assert(id_at(post, a, k) == id_at(pre, a, k));
                    assert(valid_pos(pre, a, k));
                }
            }
            assert forall|a: int, k: int, b: int, l: int|
                #![trigger id_at(post, a, k), id_at(post, b, l)]
                valid_pos(post, a, k) && valid_pos(post, b, l) && (a != b || k != l) implies id_at(
                post,
                a,
                k,
            ) != id_at(post, b, l) by {
                let na = if a == ii && k == post[ii].queue@.len() - 1 {
                    true
                } else {
                    false
                };
                let nb = if b == ii && l == post[ii].queue@.len() - 1 {
                    true
                } else {
                    false
                };
                if !na {
                    if a == ii {
                        assert(post[ii].queue@[k] == pre[ii].queue@[k]);
                    } else {
                        assert(post[a] == pre[a]);
                    }
                    assert(id_at(post, a, k) == id_at(pre, a, k));
                    assert(valid_pos(pre, a, k));
                    assert(pre_ids.contains(id_at(pre, a, k)));
                }
                if !nb {
                    if b == ii {
                        assert(post[ii].queue@[l] == pre[ii].queue@[l]);
                    } else {
                        assert(post[b] == pre[b]);
                    }
                    assert(id_at(post, b, l) == id_at(pre, b, l));
                    assert(valid_pos(pre, b, l));
                    assert(pre_ids.contains(id_at(pre, b, l)));
                }
                if na && nb {
                    assert(a == b && k == l);
                } else if na && !nb {
                    assert(id_at(post, a, k) == newid);
                    assert(!pre_ids.contains(newid));
                } else if !na && nb {
                    assert(id_at(post, b, l) == newid);
                    assert(!pre_ids.contains(newid));
                }
            }
        }
    }

    /// Pop the oldest pending connection of the listener bound to `local`:
    /// a connection is handed out exactly when one is queued and the engine
    /// reports its handshake as completed (`established_in`). Never blocks:
    /// an empty queue or a front connection still mid-handshake reports
    /// `WouldBlock`, and an address nobody listens on reports
    /// `InvalidInput`.
    pub fn accept(&mut self, local: SocketAddrV4, sockets: &SocketSet<'static>) -> (r: Result<
        PendingConn,
        NetError,
    >)
        requires
            old(self).wf(tcp_handle_ids(*sockets)),
        ensures
            final(self).wf(tcp_handle_ids(*sockets)),
            first_hit_from(old(self)@, local, false, 0) is None ==> r == Result::<
                PendingConn,
                NetError,
            >::Err(NetError::InvalidInput) && final(self)@ == old(self)@,
            match first_hit_from(old(self)@, local, false, 0) {
                Some(i) => {
                    &&& (r is Ok <==> old(self)@[i].queue@.len() > 0 && established_in(
                        *sockets,
                        old(self)@[i].queue@[0].handle,
                    ))
                    &&& old(self)@[i].queue@.len() == 0 ==> r == Result::<
                        PendingConn,
                        NetError,
                    >::Err(NetError::WouldBlock) && final(self)@ == old(self)@
                    &&& (r is Err && old(self)@[i].queue@.len() > 0) ==> (r == Result::<
                        PendingConn,
                        NetError,
                    >::Err(NetError::WouldBlock) && final(self)@ == old(self)@)
                    &&& r matches Ok(c) ==> old(self)@[i].queue@.len() > 0 && c == old(
                        self,
                    )@[i].queue@[0] && final(self)@.len() == old(self)@.len() && (forall|j: int|
                        0 <= j < old(self)@.len() && j != i ==> final(self)@[j] == old(self)@[j])
                        && final(self)@[i].local == old(self)@[i].local && final(self)@[i].backlog
                        == old(self)@[i].backlog && final(self)@[i].queue@ == old(
                        self,
                    )@[i].queue@.drop_first()
                },
                None => true,
            },
    {
        let i = match self.find_hit_idx(local, false) {
            Some(i) => i,
            None => {
                return Err(NetError::InvalidInput);
            },
        };
        let e = &self.entries[i];
        if e.queue.len() == 0 {
            return accept_decision(None, false);
        }
        let front: PendingConn = e.queue[0];
        proof {
            assert(valid_pos(self@, i as int, 0));
            assert(tcp_handle_ids(*sockets).contains(id_at(self@, i as int, 0)));
        }
        let established = socket_is_established(sockets, front.handle);
        if accept_decision(Some(front), established).is_err() {
            return Err(NetError::WouldBlock);
        }
        let mut entry = self.entries.remove(i);
        let c = entry.queue.remove(0);
        self.entries.insert(i, entry);
        proof {
            let pre = old(self)@;
            let post = self@;
            let ii = i as int;
            let ids = tcp_handle_ids(*sockets);
            assert forall|j: int| 0 <= j < pre.len() && j != ii implies post[j] == pre[j] by {
                assert(post[j] == pre.remove(ii).insert(ii, post[ii])[j]);
            }
            assert(post[ii].queue@ =~= pre[ii].queue@.drop_first());
            assert forall|a: int| 0 <= a < post.len() implies (#[trigger] post[a]).entry_wf() by {
                if a != ii {
                    assert(post[a] == pre[a]);
                }
            }
            assert forall|a: int, k: int| valid_pos(post, a, k) implies ids.contains(
                #[trigger] id_at(post, a, k),
            ) by {
                if a == ii {
                    assert(post[ii].queue@[k] == pre[ii].queue@[k + 1]);
                    assert(id_at(post, a, k) == id_at(pre, a, k + 1));
                    assert(valid_pos(pre, a, k + 1));
                } else {
                    assert(post[a] == pre[a]);
                    assert(id_at(post, a, k) == id_at(pre, a, k));
                    assert(valid_pos(pre, a, k));
                }
            }
            assert forall|a: int, k: int, b: int, l: int|
                #![trigger id_at(post, a, k), id_at(post, b, l)]
                valid_pos(post, a, k) && valid_pos(post, b, l) && (a != b || k != l) implies id_at(
                post,
                a,
                k,
            ) != id_at(post, b, l) by {
                let ka = if a == ii {
                    k + 1
                } else {
                    k
                };
                let lb = if b == ii {
                    l + 1
                } else {
                    l
                };
                if a == ii {
                    assert(post[ii].queue@[k] == pre[ii].queue@[k + 1]);
                } else {
                    assert(post[a] == pre[a]);
                }
                if b == ii {
                    assert(post[ii].queue@[l] == pre[ii].queue@[l + 1]);
                } else {
                    assert(post[b] == pre[b]);
                }
                assert(id_at(post, a, k) == id_at(pre, a, ka));
                assert(id_at(post, b, l) == id_at(pre, b, lb));
                assert(valid_pos(pre, a, ka));
                assert(valid_pos(pre, b, lb));
            }
        }
        Ok(c)
    }

    /// Close the listener bound to `local`: every still-queued connection's
    /// socket is removed from the socket set (accepted or not), then the
    /// entry itself is discarded.
    pub fn unlisten(&mut self, local: SocketAddrV4, sockets: &mut SocketSet<'static>) -> (r: Result<
        (),
        NetError,
    >)
        requires
            old(self).wf(tcp_handle_ids(*old(sockets))),
        ensures
            final(self).wf(tcp_handle_ids(*final(sockets))),
            owned_storage(*final(sockets)) == owned_storage(*old(sockets)),
            first_hit_from(old(self)@, local, false, 0) is None ==> r == Result::<
                (),
                NetError,
            >::Err(NetError::InvalidInput) && final(self)@ == old(self)@ && tcp_handle_ids(
                *final(sockets),
            ) == tcp_handle_ids(*old(sockets)),
            match first_hit_from(old(self)@, local, false, 0) {
                Some(i) => {
                    &&& r is Ok
                    &&& final(self)@ == old(self)@.remove(i)
                    &&& forall|x: nat|
                        tcp_handle_ids(*final(sockets)).contains(x) <==> (tcp_handle_ids(
                            *old(sockets),
                        ).contains(x) && !old(self)@[i].queue_ids().contains(x))
                },
                None => true,
            },
    {
        let i = match self.find_hit_idx(local, false) {
            Some(i) => i,
            None => {
                return Err(NetError::InvalidInput);
            },
        };
        let ghost pre = old(self)@;
        let ghost pre_ids = tcp_handle_ids(*old(sockets));
        let ghost ii = i as int;
        let entry = self.entries.remove(i);
        let q = entry.queue;
        let ghost qids = pre[ii].queue_ids();
        proof {
            assert forall|m: int| 0 <= m < qids.len() implies pre_ids.contains(
                #[trigger] qids[m],
            ) by {
                assert(qids[m] == id_at(pre, ii, m));
                assert(valid_pos(pre, ii, m));
            }
            assert forall|m: int, l: int|
                0 <= m < qids.len() && 0 <= l < qids.len() && m != l implies #[trigger] qids[m]
                != #[trigger] qids[l] by {
                assert(qids[m] == id_at(pre, ii, m));
                assert(qids[l] == id_at(pre, ii, l));
                assert(valid_pos(pre, ii, m));
                assert(valid_pos(pre, ii, l));
            }
        }
        let n = q.len();
        let mut k: usize = 0;
        while k < n
            invariant
                0 <= k <= n,
                n == q@.len(),
                q@ == pre[ii].queue@,
                qids == pre[ii].queue_ids(),
                qids.len() == n,
                0 <= ii < pre.len(),
                forall|m: int| 0 <= m < n ==> #[trigger] qids[m] == handle_id(q@[m].handle),
                forall|m: int| 0 <= m < n ==> pre_ids.contains(#[trigger] qids[m]),
                forall|m: int, l: int| 0 <= m < n && 0 <= l < n && m != l ==> qids[m] != qids[l],
                owned_storage(*sockets) == owned_storage(*old(sockets)),
                forall|x: nat|
                    #[trigger] tcp_handle_ids(*sockets).contains(x) <==> (pre_ids.contains(x) && !(
                    exists|m: int| 0 <= m < k && qids[m] == x)),
            decreases n - k,
        {
            let c: PendingConn = q[k];
            proof {
                assert(qids[k as int] == handle_id(c.handle));
                assert(pre_ids.contains(qids[k as int]));
                assert(!(exists|m: int| 0 <= m < k && qids[m] == qids[k as int]));
                assert(tcp_handle_ids(*sockets).contains(handle_id(c.handle)));
            }
            let ghost ids_before = tcp_handle_ids(*sockets);
            socket_set_remove(sockets, c.handle);
            proof {
                assert forall|x: nat| #[trigger]
                    tcp_handle_ids(*sockets).contains(x) <==> (pre_ids.contains(x) && !(
                    exists|m: int| 0 <= m < k + 1 && qids[m] == x)) by {
                    if x == qids[k as int] {
                        assert(!tcp_handle_ids(*sockets).contains(x));
                        assert(exists|m: int| 0 <= m < k + 1 && qids[m] == x);
                    } else {
                        assert(tcp_handle_ids(*sockets).contains(x) == ids_before.contains(x));
                        if exists|m: int| 0 <= m < k + 1 && qids[m] == x {
                            let m = choose|m: int| 0 <= m < k + 1 && qids[m] == x;
                            assert(m < k);
                            assert(exists|m: int| 0 <= m < k && qids[m] == x);
                        }
                    }
                }
            }
            k = k + 1;
        }
        proof {
            let post = self@;
            let post_ids = tcp_handle_ids(*sockets);
            assert(post == pre.remove(ii));
            assert forall|x: nat| post_ids.contains(x) <==> (pre_ids.contains(x)
                && !qids.contains(x)) by {
                assert((exists|m: int| 0 <= m < n && qids[m] == x) == qids.contains(x));
            }
            // Positions of the shrunk table map back to the old table,
            // skipping the removed entry.
            assert forall|a: int| 0 <= a < post.len() implies (#[trigger] post[a]).entry_wf() by {
                if a < ii {
                    assert(post[a] == pre[a]);
                } else {
                    assert(post[a] == pre[a + 1]);
                }
            }
            assert forall|a: int, k2: int| valid_pos(post, a, k2) implies post_ids.contains(
                #[trigger] id_at(post, a, k2),
            ) by {
                let oa = if a < ii {
                    a
                } else {
                    a + 1
                };
                assert(post[a] == pre[oa]);
                assert(id_at(post, a, k2) == id_at(pre, oa, k2));
                assert(valid_pos(pre, oa, k2));
                assert(pre_ids.contains(id_at(pre, oa, k2)));
                assert forall|m: int| 0 <= m < n implies qids[m] != id_at(pre, oa, k2) by {
                    assert(qids[m] == id_at(pre, ii, m));
                    assert(valid_pos(pre, ii, m));
                    assert(oa != ii);
                }
                assert(!qids.contains(id_at(pre, oa, k2)));
            }
            assert forall|a: int, k2: int, b: int, l: int|
                #![trigger id_at(post, a, k2), id_at(post, b, l)]
                valid_pos(post, a, k2) && valid_pos(post, b, l) && (a != b || k2 != l) implies id_at(
                post,
                a,
                k2,
            ) != id_at(post, b, l) by {
                let oa = if a < ii {
                    a
                } else {
                    a + 1
                };
                let ob = if b < ii {
                    b
                } else {
                    b + 1
                };
                assert(post[a] == pre[oa]);
                assert(post[b] == pre[ob]);
                assert(id_at(post, a, k2) == id_at(pre, oa, k2));
                assert(id_at(post, b, l) == id_at(pre, ob, l));
                assert(valid_pos(pre, oa, k2));
                assert(valid_pos(pre, ob, l));
            }
        }
        Ok(())
    }

    /// How many pre-created connections wait on the listener bound to
    /// `local`, or nothing if no listener is bound there.
    pub fn pending_count(&self, local: SocketAddrV4) -> (r: Option<usize>)
        ensures
            match first_hit_from(self@, local, false, 0) {
                Some(i) => r == Some(self@[i].queue@.len() as usize),
                None => r is None,
            },
    {
        match self.find_hit_idx(local, false) {
            Some(i) => Some(self.entries[i].queue.len()),
            None => None,
        }
    }
}

} // verus!
