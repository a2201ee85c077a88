//! Laws of the layer, stated over the models that the operations' own
//! contracts use and proved once and for all.

use vstd::prelude::*;

use crate::addr::SocketAddrV4;
use crate::driver::NetDriverOps;
use crate::listen_table::{find_listener, incoming_post, ListenEntry, ListenTable};
use crate::loopback::LoopbackDev;

verus! {

/// A successful receive followed by consuming its token recycles the lease
/// exactly once: `receive` leaves the driver's recycle count unchanged and
/// `rx_recycle` adds exactly one, so across the whole cycle the count grows
/// by one per received buffer — and the token is consumed, so no second
/// recycle of the same lease can follow.
pub proof fn lemma_rx_cycle_recycles_once<D: NetDriverOps>(d0: D, d1: D, d2: D)
    requires
        d1.rx_recycled() == d0.rx_recycled(),
        d2.rx_recycled() == d1.rx_recycled() + 1,
    ensures
        d2.rx_recycled() == d0.rx_recycled() + 1,
{
}

/// Backlog capacity is respected: under the table's invariant no listener
/// ever queues more pending connections than its configured backlog.
pub proof fn lemma_backlog_respected(t: ListenTable, ids: Set<nat>, i: int)
    requires
        t.wf(ids),
        0 <= i < t@.len(),
    ensures
        t@[i].queue@.len() <= t@[i].backlog,
{
}

/// A SYN for a listener whose queue is at capacity is dropped without any
/// growth: the table and the socket set are exactly what they were.
pub proof fn lemma_full_listener_drops_syn(
    pre: Seq<ListenEntry>,
    post: Seq<ListenEntry>,
    pre_ids: Set<nat>,
    post_ids: Set<nat>,
    src: SocketAddrV4,
    dst: SocketAddrV4,
    i: int,
)
    requires
        incoming_post(pre, post, pre_ids, post_ids, src, dst),
        find_listener(pre, dst) == Some(i),
        pre[i].queue@.len() >= pre[i].backlog,
    ensures
        post == pre,
        post_ids == pre_ids,
{
}

/// A duplicate SYN — one whose remote endpoint is already queued on the
/// matched listener — is idempotent: it creates no second queue entry and
/// no socket.
pub proof fn lemma_duplicate_syn_is_idempotent(
    pre: Seq<ListenEntry>,
    post: Seq<ListenEntry>,
    pre_ids: Set<nat>,
    post_ids: Set<nat>,
    src: SocketAddrV4,
    dst: SocketAddrV4,
    i: int,
)
    requires
        incoming_post(pre, post, pre_ids, post_ids, src, dst),
        find_listener(pre, dst) == Some(i),
        pre[i].has_remote(src),
    ensures
        post == pre,
        post_ids == pre_ids,
{
}

/// Loopback round trip: a frame transmitted on an idle loopback driver is
/// the very next frame received, byte for byte.
pub proof fn lemma_loopback_round_trip(pre: LoopbackDev, post: LoopbackDev, frame: Seq<u8>)
    requires
        post.rx_queue() == pre.rx_queue().push(frame),
        pre.rx_queue().len() == 0,
    ensures
        post.rx_queue().len() > 0,
        post.rx_queue()[0] == frame,
{
}

} // verus!
