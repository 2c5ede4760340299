//! The cluster as a whole: what a client sees when every node runs the
//! dispatcher over the same topology, the network delivers what is
//! forwarded, and the storage engines work.

use crate::db::Store;
use crate::dispatch::deferred;
use crate::dispatch::delete_ack;
use crate::dispatch::put_ack;
use crate::dispatch::relayed;
use crate::dispatch::served;
use crate::dispatch::ReplyView;
use crate::dispatch::RequestView;
use crate::dispatch::StepView;
use crate::sharding::owner_of;
use crate::sharding::Topology;
use vstd::prelude::*;

verus! {

/// A cluster as a value: the addresses of its nodes, by partition, and the
/// store of each node.
pub struct Cluster {
    pub shards: Seq<Seq<char>>,
    pub stores: Seq<Store>,
}

impl Cluster {
    /// Whether the cluster has a node, a store for each node, and no address
    /// twice.
    pub open spec fn well_formed(self) -> bool {
        &&& self.shards.len() > 0
        &&& self.stores.len() == self.shards.len()
        &&& forall|i: int, j: int|
            0 <= i < j < self.shards.len() ==> self.shards[i] != self.shards[j]
    }

    /// The topology as the node of `partition` holds it.
    pub open spec fn topology_of(self, partition: nat) -> Topology {
        Topology { shards: self.shards, current_shard: partition }
    }

    /// The partition that owns `key`.
    pub open spec fn owner(self, key: Seq<char>) -> nat {
        owner_of(key, self.shards.len())
    }

    /// The cluster after the node of `partition` served `request` on its
    /// store, with the reply of that node.
    pub open spec fn serve_at(self, partition: nat, request: RequestView) -> (ReplyView, Cluster) {
        let (reply, store) = served(self.stores[partition as int], request);
        (reply, Cluster { shards: self.shards, stores: self.stores.update(partition as int, store) })
    }

    /// What a client gets for a request that it sends to the node of
    /// `partition`, and the cluster after it. A node that does not own the
    /// key forwards the request; it arrives at the node that listens at the
    /// target, which is the owner and serves it; the reply is relayed.
    pub open spec fn handle(self, partition: nat, request: RequestView) -> (ReplyView, Cluster) {
        match deferred(self.topology_of(partition), request) {
            Some(StepView::Respond(reply)) => (reply, self),
            Some(StepView::Forward { request: sent, .. }) => {
                let (reply, after) = self.serve_at(self.owner(sent.key()), sent);
                (relayed(Some(reply)), after)
            },
            None => self.serve_at(partition, request),
        }
    }
}

/// Whichever node a request with a key is sent to, the owner of the key
/// serves it: the client gets the owner's reply, the owner's store becomes
/// what serving the request makes of it, and no other store changes.
pub proof fn lemma_any_node_serves_through_the_owner(
    cluster: Cluster,
    node: nat,
    request: RequestView,
)
    requires
        cluster.well_formed(),
        node < cluster.shards.len(),
        request.key().len() > 0,
    ensures
        cluster.owner(request.key()) < cluster.shards.len(),
        cluster.handle(node, request) == cluster.serve_at(cluster.owner(request.key()), request),
        deferred(cluster.topology_of(cluster.owner(request.key())), request) is None,
        node != cluster.owner(request.key()) ==> deferred(cluster.topology_of(node), request)
            == Some(
            StepView::Forward {
                target: cluster.shards[cluster.owner(request.key()) as int],
                request,
            },
        ),
        forall|other: int|
            0 <= other < cluster.shards.len() && other != cluster.owner(request.key())
                ==> cluster.handle(node, request).1.stores[other] == cluster.stores[other],
{
    let owner = cluster.owner(request.key());
    crate::dispatch::lemma_every_node_reaches_owner(
        cluster.topology_of(node),
        node,
        request,
    );
    if node != owner {
        if node < owner {
            assert(cluster.shards[node as int] != cluster.shards[owner as int]);
        } else {
            assert(cluster.shards[owner as int] != cluster.shards[node as int]);
        }
        let (reply, store) = served(cluster.stores[owner as int], request);
        crate::dispatch::lemma_handled_replies_are_well_formed(
            cluster.topology_of(owner),
            cluster.stores[owner as int],
            request,
            StepView::Respond(reply),
            store,
        );
    }
}

/// A value that was written through any node of the cluster is the value
/// that a read through any node returns, where the owner of the key takes
/// writes.
pub proof fn lemma_cluster_round_trip(
    cluster: Cluster,
    writer: nat,
    reader: nat,
    key: Seq<char>,
    value: Seq<char>,
)
    requires
        cluster.well_formed(),
        writer < cluster.shards.len(),
        reader < cluster.shards.len(),
        key.len() > 0,
        !cluster.stores[cluster.owner(key) as int].read_only,
    ensures
        cluster.handle(writer, RequestView::Put { key, value }).0 == ReplyView::success(
            Some(put_ack()),
        ),
        cluster.handle(writer, RequestView::Put { key, value }).1.handle(
            reader,
            RequestView::Get { key },
        ).0 == ReplyView::success(Some(value)),
{
    let put = RequestView::Put { key, value };
    let get = RequestView::Get { key };
    let owner = cluster.owner(key);
    lemma_any_node_serves_through_the_owner(cluster, writer, put);
    let after = cluster.handle(writer, put).1;
    lemma_any_node_serves_through_the_owner(after, reader, get);
    crate::dispatch::lemma_round_trip(cluster.stores[owner as int], key, value);
}

/// Removing a key through any node succeeds whether or not the key is
/// bound, a second removal succeeds too, and a read through any node then
/// finds nothing, where the owner of the key takes writes.
pub proof fn lemma_cluster_delete_is_idempotent(
    cluster: Cluster,
    first: nat,
    second: nat,
    reader: nat,
    key: Seq<char>,
)
    requires
        cluster.well_formed(),
        first < cluster.shards.len(),
        second < cluster.shards.len(),
        reader < cluster.shards.len(),
        key.len() > 0,
        !cluster.stores[cluster.owner(key) as int].read_only,
    ensures
        cluster.handle(first, RequestView::Delete { key }).0 == ReplyView::success(
            Some(delete_ack()),
        ),
        cluster.handle(first, RequestView::Delete { key }).1.handle(
            second,
            RequestView::Delete { key },
        ) == (
            ReplyView::success(Some(delete_ack())),
            cluster.handle(first, RequestView::Delete { key }).1,
        ),
        cluster.handle(first, RequestView::Delete { key }).1.handle(
            reader,
            RequestView::Get { key },
        ).0 == ReplyView::success(None),
{
    let delete = RequestView::Delete { key };
    let get = RequestView::Get { key };
    let owner = cluster.owner(key);
    lemma_any_node_serves_through_the_owner(cluster, first, delete);
    let after = cluster.handle(first, delete).1;
    lemma_any_node_serves_through_the_owner(after, second, delete);
    lemma_any_node_serves_through_the_owner(after, reader, get);
    crate::dispatch::lemma_delete_is_idempotent(cluster.stores[owner as int], key);
    assert(after.handle(second, delete).1.stores =~= after.stores);
}

} // verus!
