//! The mapping from keys to partitions, and the topology of the cluster.

use crate::error::ErrorKind;
use vstd::prelude::*;

verus! {

/// The offset basis of the 64-bit FNV-1a hash.
pub const FNV_OFFSET_BASIS: u64 = 0xcbf29ce484222325;

/// The prime of the 64-bit FNV-1a hash.
pub const FNV_PRIME: u64 = 0x100000001b3;

/// One step of FNV-1a: fold the byte into the state, then multiply by the
/// prime, modulo 2^64.
pub open spec fn fnv1a_step(state: u64, byte: u8) -> u64 {
    (((state ^ (byte as u64)) as int * FNV_PRIME as int) % 0x1_0000_0000_0000_0000) as u64
}

/// The 64-bit FNV-1a hash of a byte sequence.
pub open spec fn fnv1a(bytes: Seq<u8>) -> u64
    decreases bytes.len(),
{
    if bytes.len() == 0 {
        FNV_OFFSET_BASIS
    } else {
        fnv1a_step(fnv1a(bytes.drop_last()), bytes.last())
    }
}

/// Hashes `bytes` with 64-bit FNV-1a.
pub fn hash_bytes(bytes: &[u8]) -> (h: u64)
    ensures
        h == fnv1a(bytes@),
{
    let mut h: u64 = FNV_OFFSET_BASIS;
    let mut i: usize = 0;
    while i < bytes.len()
        invariant
            i <= bytes.len(),
            h == fnv1a(bytes@.take(i as int)),
        decreases bytes.len() - i,
    {
        let b: u8 = bytes[i];
        proof {
            assert(bytes@.take(i + 1).drop_last() =~= bytes@.take(i as int));
            assert(bytes@.take(i + 1).last() == b);
        }
        h = (h ^ (b as u64)).wrapping_mul(FNV_PRIME);
        i = i + 1;
    }
    proof {
        assert(bytes@.take(bytes.len() as int) =~= bytes@);
    }
    h
}

/// The hash that places a key: FNV-1a over the key's UTF-8 bytes.
pub open spec fn key_hash(key: Seq<char>) -> u64 {
    fnv1a(vstd::utf8::encode_utf8(key))
}

/// The partition that owns `key` among `shard_count` partitions.
pub open spec fn owner_of(key: Seq<char>, shard_count: nat) -> nat
    recommends
        shard_count > 0,
{
    (key_hash(key) as nat) % shard_count
}

/// A topology as a value: the addresses of the nodes, in the order of their
/// partitions, and the partition of the node that holds it.
pub struct Topology {
    pub shards: Seq<Seq<char>>,
    pub current_shard: nat,
}

impl Topology {
    /// Whether the node's own partition is one of the topology.
    pub open spec fn well_formed(self) -> bool {
        self.current_shard < self.shards.len()
    }

    /// The partition that owns `key`.
    pub open spec fn owner(self, key: Seq<char>) -> nat
        recommends
            self.shards.len() > 0,
    {
        owner_of(key, self.shards.len())
    }

    /// Whether the node that holds this topology owns `key`.
    pub open spec fn is_local(self, key: Seq<char>) -> bool
        recommends
            self.shards.len() > 0,
    {
        self.owner(key) == self.current_shard
    }

    /// The address of the node that owns `key`.
    pub open spec fn owner_address(self, key: Seq<char>) -> Seq<char>
        recommends
            self.shards.len() > 0,
    {
        self.shards[self.owner(key) as int]
    }

    /// The address of the node that holds this topology.
    pub open spec fn own_address(self) -> Seq<char>
        recommends
            self.well_formed(),
    {
        self.shards[self.current_shard as int]
    }

    /// The same cluster seen from the node of partition `partition`.
    pub open spec fn seen_from(self, partition: nat) -> Topology {
        Topology { shards: self.shards, current_shard: partition }
    }
}

/// The topology of a cluster and the place of one node in it. Both are fixed
/// when the node starts.
#[derive(Debug, Clone, PartialEq, Eq)]
pub struct ShardConfig {
    /// The address of the node of each partition, by partition index.
    pub shards: Vec<String>,
    /// The partition of this node.
    pub current_shard: usize,
}

impl View for ShardConfig {
    type V = Topology;

    open spec fn view(&self) -> Topology {
        Topology {
            shards: Seq::new(self.shards.len() as nat, |i: int| self.shards[i]@),
            current_shard: self.current_shard as nat,
        }
    }
}

impl ShardConfig {
    /// A configuration with the given addresses, for the node of partition
    /// `current_shard`.
    pub fn new(shards: Vec<String>, current_shard: usize) -> (config: Self)
        ensures
            config.shards == shards,
            config.current_shard == current_shard,
    {
        Self { shards, current_shard }
    }

    /// The address of this node.
    pub fn current_address(&self) -> (address: &str)
        requires
            self@.well_formed(),
        ensures
            address@ == self@.own_address(),
    {
        self.shards[self.current_shard].as_str()
    }

    /// The partition that owns `key`: the key's hash modulo the number of
    /// partitions.
    pub fn get_shard(&self, key: &str) -> (partition: usize)
        requires
            self.shards.len() > 0,
        ensures
            partition == self@.owner(key@),
            partition < self.shards.len(),
    {
        let count: u64 = self.shards.len() as u64;
        let hash: u64 = hash_bytes(key.as_bytes());
        (hash % count) as usize
    }

    /// Whether this node owns `key`.
    pub fn is_local_shard(&self, key: &str) -> (local: bool)
        requires
            self.shards.len() > 0,
        ensures
            local == self@.is_local(key@),
    {
        self.get_shard(key) == self.current_shard
    }

    /// The address of the node that owns `key`.
    pub fn get_shard_address(&self, key: &str) -> (address: &str)
        requires
            self.shards.len() > 0,
        ensures
            address@ == self@.owner_address(key@),
    {
        let partition: usize = self.get_shard(key);
        self.shards[partition].as_str()
    }

    /// The address of the node of `partition`, or `InvalidPartition` where
    /// the topology has no such partition.
    pub fn address_of(&self, partition: usize) -> (found: Result<&str, ErrorKind>)
        ensures
            partition < self.shards.len() ==> found.is_ok() && found.unwrap()@
                == self@.shards[partition as int],
            partition >= self.shards.len() ==> found == Err::<&str, ErrorKind>(
                ErrorKind::InvalidPartition,
            ),
    {
        if partition < self.shards.len() {
            Ok(self.shards[partition].as_str())
        } else {
            Err(ErrorKind::InvalidPartition)
        }
    }
}

/// The owner of a key lies in the topology, and depends on nothing but the
/// key and the number of partitions: every node of a cluster, at every
/// time, names the same owner.
pub proof fn lemma_owner_is_stable(a: Topology, b: Topology, key: Seq<char>)
    requires
        a.shards.len() > 0,
        a.shards.len() == b.shards.len(),
    ensures
        a.owner(key) < a.shards.len(),
        a.owner(key) == b.owner(key),
        a.owner(key) == owner_of(key, a.shards.len()),
{
}

/// Among the nodes of a cluster, one for each partition, exactly one holds a
/// key to be its own: the node of the partition that owns it.
pub proof fn lemma_exactly_one_local(cluster: Topology, key: Seq<char>)
    requires
        cluster.shards.len() > 0,
    ensures
        cluster.owner(key) < cluster.shards.len(),
        cluster.seen_from(cluster.owner(key)).is_local(key),
        forall|node: nat|
            node < cluster.shards.len() && #[trigger] cluster.seen_from(node).is_local(key)
                ==> node == cluster.owner(key),
{
}

} // verus!
