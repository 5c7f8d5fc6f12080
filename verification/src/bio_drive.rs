//! Content-addressed shard storage over a fixed set of mesh nodes.
//!
//! A stored byte string is hashed with FNV-1a, cut into 256-byte shards, and
//! the shards are laid round-robin onto the nodes starting at the node the
//! hash selects.  Loading walks the recorded node list and reassembles every
//! shard carrying the hash.  The per-node resonance scalars and the repair
//! rule act on double-precision values and live with the driver.

use std::collections::HashMap;
use vstd::prelude::*;
use vstd::wrapping::u64_specs;

verus! {

broadcast use vstd::std_specs::hash::group_hash_axioms;

/// FNV-1a offset basis.
pub const FNV_OFFSET_BASIS: u64 = 14695981039346656037;

/// FNV-1a prime.
pub const FNV_PRIME: u64 = 1099511628211;

/// Size of one nutrient shard in bytes.
pub const SHARD_BYTES: usize = 256;

/// FNV-1a over the byte suffix starting at `i`, folded onto `acc`.
pub open spec fn fnv1a_from(data: Seq<u8>, i: int, acc: u64) -> u64
    decreases data.len() - i,
{
    if i < 0 || i >= data.len() {
        acc
    } else {
        fnv1a_from(data, i + 1, u64_specs::wrapping_mul(acc ^ (data[i] as u64), FNV_PRIME))
    }
}

/// FNV-1a hash of a byte string.
pub open spec fn fnv1a(data: Seq<u8>) -> u64 {
    fnv1a_from(data, 0, FNV_OFFSET_BASIS)
}

/// Number of shards a byte string of the given length is cut into.
pub open spec fn shard_count_of(len: int) -> int {
    if len / (SHARD_BYTES as int) < 1 {
        1
    } else {
        len / (SHARD_BYTES as int)
    }
}

/// The bytes of shard `i` of a byte string.
pub open spec fn chunk_of(data: Seq<u8>, i: int) -> Seq<u8> {
    let start = (SHARD_BYTES as int) * i;
    let end = if data.len() < start + SHARD_BYTES {
        data.len() as int
    } else {
        start + SHARD_BYTES
    };
    data.subrange(start, end)
}

/// The node that shard `i` of a string with the given hash lands on, among
/// `n` nodes.
pub open spec fn target_node(hash: u64, i: int, n: int) -> int {
    (hash as int + i) % n
}

/// A nutrient shard: one fragment of a stored byte string.
#[derive(Debug, Clone)]
pub struct NutrientShard {
    pub hash: u64,
    pub data: Vec<u8>,
    pub node_id: usize,
}

/// Mathematical image of a [`NutrientShard`].
pub struct ShardModel {
    pub hash: u64,
    pub data: Seq<u8>,
    pub node_id: int,
}

impl View for NutrientShard {
    type V = ShardModel;

    open spec fn view(&self) -> ShardModel {
        ShardModel { hash: self.hash, data: self.data@, node_id: self.node_id as int }
    }
}

/// A storage node holding the shards laid onto it, in arrival order.
#[derive(Debug)]
pub struct BioDriveNode {
    pub id: usize,
    pub shards: Vec<NutrientShard>,
}

/// Mathematical image of a [`BioDriveNode`].
pub struct NodeModel {
    pub id: int,
    pub shards: Seq<ShardModel>,
}

impl View for BioDriveNode {
    type V = NodeModel;

    open spec fn view(&self) -> NodeModel {
        NodeModel { id: self.id as int, shards: self.shards@.map_values(|s: NutrientShard| s@) }
    }
}

impl BioDriveNode {
    /// Create an empty node under the given identifier.
    pub fn new(id: usize) -> (n: BioDriveNode)
        ensures
            n.id == id,
            n.shards@ == Seq::<NutrientShard>::empty(),
    {
        BioDriveNode { id, shards: Vec::new() }
    }
}

/// View of a whole node list.
pub open spec fn nodes_view(nodes: Seq<BioDriveNode>) -> Seq<NodeModel> {
    nodes.map_values(|n: BioDriveNode| n@)
}

/// Node states after laying shards `i ..= count - 1` of `data` onto them.
pub open spec fn distribute(
    nv: Seq<NodeModel>,
    data: Seq<u8>,
    hash: u64,
    i: int,
    count: int,
) -> Seq<NodeModel>
    decreases count - i,
{
    if i < 0 || i >= count || nv.len() == 0 {
        nv
    } else {
        let m = target_node(hash, i, nv.len() as int);
        let stored = ShardModel { hash, data: chunk_of(data, i), node_id: m };
        let appended = NodeModel { id: nv[m].id, shards: nv[m].shards.push(stored) };
        distribute(nv.update(m, appended), data, hash, i + 1, count)
    }
}

/// The node list each shard of a store lands on, in shard order.
pub open spec fn store_targets(hash: u64, count: int, n: int) -> Seq<usize> {
    Seq::new(count as nat, |i: int| target_node(hash, i, n) as usize)
}

/// Bytes contributed to a load by the shard suffix starting at `t`: the
/// data of every shard carrying `hash`, in order.
pub open spec fn shards_bytes_from(shards: Seq<ShardModel>, hash: u64, t: int) -> Seq<u8>
    decreases shards.len() - t,
{
    if t < 0 || t >= shards.len() {
        Seq::empty()
    } else {
        (if shards[t].hash == hash {
            shards[t].data
        } else {
            Seq::empty()
        }) + shards_bytes_from(shards, hash, t + 1)
    }
}

/// Bytes a load reassembles from the node-list suffix starting at `k`.
pub open spec fn gather_from(
    nv: Seq<NodeModel>,
    ids: Seq<usize>,
    hash: u64,
    k: int,
) -> Seq<u8>
    decreases ids.len() - k,
{
    if k < 0 || k >= ids.len() {
        Seq::empty()
    } else {
        shards_bytes_from(nv[ids[k] as int].shards, hash, 0) + gather_from(
            nv,
            ids,
            hash,
            k + 1,
        )
    }
}

/// Bytes a load of `hash` reassembles over the recorded node list `ids`.
pub open spec fn gathered(nv: Seq<NodeModel>, ids: Seq<usize>, hash: u64) -> Seq<u8> {
    gather_from(nv, ids, hash, 0)
}

/// Distributed shard storage across a fixed node mesh.
#[derive(Debug)]
pub struct BioDrive {
    pub nodes: Vec<BioDriveNode>,
    pub shard_map: HashMap<u64, Vec<usize>>,
}

impl BioDrive {
    /// A well-formed drive numbers its nodes consecutively, records only
    /// in-range node indices, and records a hash for every shard held.
    pub open spec fn wf(self) -> bool {
        &&& forall|i: int| 0 <= i < self.nodes@.len() ==> (#[trigger] self.nodes@[i]).id == i
        &&& forall|h: u64, t: int|
            self.shard_map@.contains_key(h) && 0 <= t < self.shard_map@[h]@.len() ==> #[trigger] (
            self.shard_map@[h]@[t]) < self.nodes@.len()
        &&& forall|i: int, t: int|
            0 <= i < self.nodes@.len() && 0 <= t < (#[trigger] self.nodes@[i]).shards@.len()
                ==> self.shard_map@.contains_key(#[trigger] self.nodes@[i].shards@[t].hash)
    }

    /// Create a drive with the given number of empty nodes.
    pub fn new(node_count: usize) -> (d: BioDrive)
        ensures
            d.wf(),
            d.nodes@.len() == node_count,
            forall|i: int|
                0 <= i < node_count ==> (#[trigger] d.nodes@[i]).shards@.len() == 0,
            d.shard_map@ == Map::<u64, Vec<usize>>::empty(),
    {
        let mut nodes: Vec<BioDriveNode> = Vec::new();
        let mut i: usize = 0;
        while i < node_count
            invariant
                0 <= i <= node_count,
                nodes@.len() == i,
                forall|k: int| 0 <= k < i ==> (#[trigger] nodes@[k]).id == k,
                forall|k: int| 0 <= k < i ==> (#[trigger] nodes@[k]).shards@.len() == 0,
            decreases node_count - i,
        {
            nodes.push(BioDriveNode::new(i));
            i = i + 1;
        }
        BioDrive { nodes, shard_map: HashMap::new() }
    }

    /// FNV-1a hash of a byte string: a fast, well-distributed
    /// non-cryptographic hash suitable for content addressing.
    pub fn hash_data(data: &[u8]) -> (h: u64)
        ensures
            h == fnv1a(data@),
    {
        let mut hash: u64 = FNV_OFFSET_BASIS;
        let mut i: usize = 0;
        while i < data.len()
            invariant
                0 <= i <= data@.len(),
                fnv1a(data@) == fnv1a_from(data@, i as int, hash),
            decreases data@.len() - i,
        {
            hash = (hash ^ (data[i] as u64)).wrapping_mul(FNV_PRIME);
            i = i + 1;
        }
        hash
    }

    /// Store a byte string: hash it, cut it into 256-byte shards, lay the
    /// shards onto the nodes round-robin starting at the node the hash
    /// selects, and record the landing nodes under the hash.
    pub fn store(&mut self, data: &[u8]) -> (h: u64)
        requires
            old(self).wf(),
            old(self).nodes@.len() > 0,
        ensures
            final(self).wf(),
            h == fnv1a(data@),
            final(self).nodes@.len() == old(self).nodes@.len(),
            nodes_view(final(self).nodes@) == distribute(
                nodes_view(old(self).nodes@),
                data@,
                h,
                0,
                shard_count_of(data@.len() as int),
            ),
            final(self).shard_map@ == old(self).shard_map@.insert(
                h,
                final(self).shard_map@[h],
            ),
            final(self).shard_map@[h]@ == store_targets(
                h,
                shard_count_of(data@.len() as int),
                old(self).nodes@.len() as int,
            ),
    {
        let hash = Self::hash_data(data);
        let n = self.nodes.len();
        let len = data.len();
        let shard_count = if len / SHARD_BYTES < 1 {
            1
        } else {
            len / SHARD_BYTES
        };
        let ghost count = shard_count as int;
        let ghost orig_nodes = self.nodes@;
        let ghost orig_map = self.shard_map@;
        let mut node_ids: Vec<usize> = Vec::new();
        let mut i: usize = 0;
        while i < shard_count
            invariant
                0 <= i <= shard_count,
                count == shard_count as int,
                count == shard_count_of(data@.len() as int),
                len == data@.len(),
                n == orig_nodes.len(),
                n > 0,
                self.nodes@.len() == n,
                self.shard_map@ == orig_map,
                node_ids@ =~= store_targets(hash, i as int, n as int),
                forall|t: int| 0 <= t < i ==> (#[trigger] node_ids@[t]) < n,
                distribute(nodes_view(self.nodes@), data@, hash, i as int, count)
                    == distribute(nodes_view(orig_nodes), data@, hash, 0, count),
                forall|k: int|
                    0 <= k < n ==> (#[trigger] self.nodes@[k]).id == orig_nodes[k].id,
                forall|k: int, t: int|
                    0 <= k < n && 0 <= t < (#[trigger] self.nodes@[k]).shards@.len()
                        ==> orig_map.contains_key(
                        #[trigger] self.nodes@[k].shards@[t].hash,
                    ) || self.nodes@[k].shards@[t].hash == hash,
            decreases shard_count - i,
        {
            let m_idx = ((hash as u128 + i as u128) % (n as u128)) as usize;
            proof {
                assert(m_idx as int == target_node(hash, i as int, n as int));
                assert(m_idx < n);
            }
            proof {
                vstd::arithmetic::div_mod::lemma_fundamental_div_mod(len as int, 256);
                vstd::arithmetic::div_mod::lemma_mod_bound(len as int, 256);
            }
            let start = i * SHARD_BYTES;
            let end = if len - start > SHARD_BYTES {
                start + SHARD_BYTES
            } else {
                len
            };
            let mut chunk: Vec<u8> = Vec::new();
            let mut k: usize = start;
            while k < end
                invariant
                    start <= k <= end <= data@.len(),
                    chunk@ =~= data@.subrange(start as int, k as int),
                decreases end - k,
            {
                chunk.push(data[k]);
                proof {
                    assert(chunk@ =~= data@.subrange(start as int, k as int + 1));
                }
                k = k + 1;
            }
            proof {
                assert(chunk@ =~= chunk_of(data@, i as int));
            }
            let shard = NutrientShard { hash, data: chunk, node_id: m_idx };
            let ghost shard_m = shard@;
            let ghost prev = self.nodes@;
            let mut node = self.nodes.remove(m_idx);
            node.shards.push(shard);
            let ghost node_m = node@;
            self.nodes.insert(m_idx, node);
            node_ids.push(m_idx);
            proof {
                assert(self.nodes@ =~= prev.update(m_idx as int, self.nodes@[m_idx as int]));
                assert(self.nodes@[m_idx as int]@ == node_m);
                assert(node_m.shards =~= prev[m_idx as int]@.shards.push(shard_m));
                let nv = nodes_view(prev);
                let stored = ShardModel {
                    hash,
                    data: chunk_of(data@, i as int),
                    node_id: m_idx as int,
                };
                assert(stored == shard_m);
                let appended = NodeModel {
                    id: nv[m_idx as int].id,
                    shards: nv[m_idx as int].shards.push(stored),
                };
                assert(nodes_view(self.nodes@) =~~= nv.update(m_idx as int, appended));
                assert(distribute(nv, data@, hash, i as int, count) == distribute(
                    nv.update(m_idx as int, appended),
                    data@,
                    hash,
                    i as int + 1,
                    count,
                ));
                assert(node_ids@ =~= store_targets(hash, i as int + 1, n as int));
            }
            i = i + 1;
        }
        self.shard_map.insert(hash, node_ids);
        proof {
            assert(distribute(nodes_view(self.nodes@), data@, hash, count, count)
                == nodes_view(self.nodes@));
            assert(final(self).shard_map@[hash]@ =~= store_targets(
                hash,
                count,
                n as int,
            ));
        }
        hash
    }

    /// Load a stored byte string back by its hash: walk the recorded node
    /// list and concatenate the data of every shard carrying the hash.
    /// Yields `None` for an unknown hash or when nothing was gathered.
    pub fn load(&self, hash: u64) -> (r: Option<Vec<u8>>)
        requires
            self.wf(),
        ensures
            match r {
                Some(v) => self.shard_map@.contains_key(hash) && v@ == gathered(
                    nodes_view(self.nodes@),
                    self.shard_map@[hash]@,
                    hash,
                ) && v@.len() > 0,
                None => !self.shard_map@.contains_key(hash) || gathered(
                    nodes_view(self.nodes@),
                    self.shard_map@[hash]@,
                    hash,
                ).len() == 0,
            },
    {
        let looked_up = self.shard_map.get(&hash);
        match looked_up {
            None => None,
            Some(node_ids) => {
                let ghost ids = node_ids@;
                let ghost total = gathered(nodes_view(self.nodes@), ids, hash);
                let mut result: Vec<u8> = Vec::new();
                let mut k: usize = 0;
                while k < node_ids.len()
                    invariant
                        self.wf(),
                        0 <= k <= ids.len(),
                        ids == node_ids@,
                        self.shard_map@.contains_key(hash),
                        self.shard_map@[hash] == *node_ids,
                        total == gathered(nodes_view(self.nodes@), ids, hash),
                        total =~= result@ + gather_from(
                            nodes_view(self.nodes@),
                            ids,
                            hash,
                            k as int,
                        ),
                    decreases ids.len() - k,
                {
                    let node_id = node_ids[k];
                    let node = &self.nodes[node_id];
                    let ghost shards = node@.shards;
                    let mut t: usize = 0;
                    while t < node.shards.len()
                        invariant
                            0 <= t <= shards.len(),
                            shards == node@.shards,
                            shards.len() == node.shards@.len(),
                            total =~= result@ + shards_bytes_from(shards, hash, t as int)
                                + gather_from(
                                nodes_view(self.nodes@),
                                ids,
                                hash,
                                k as int + 1,
                            ),
                        decreases shards.len() - t,
                    {
                        let shard = &node.shards[t];
                        if shard.hash == hash {
                            append_bytes(&mut result, &shard.data);
                        }
                        t = t + 1;
                    }
                    k = k + 1;
                }
                if result.is_empty() {
                    None
                } else {
                    Some(result)
                }
            },
        }
    }

    /// Number of mesh nodes.
    pub fn node_count(&self) -> (n: usize)
        ensures
            n == self.nodes@.len(),
    {
        self.nodes.len()
    }

    /// The drive is ready once it has at least one node.
    pub fn is_ready(&self) -> (b: bool)
        ensures
            b == (self.nodes@.len() > 0),
    {
        !self.nodes.is_empty()
    }
}

/// Shards `i ..= count - 1` of a byte string, concatenated in order.
pub open spec fn chunks_from(data: Seq<u8>, i: int, count: int) -> Seq<u8>
    decreases count - i,
{
    if i < 0 || i >= count {
        Seq::empty()
    } else {
        chunk_of(data, i) + chunks_from(data, i + 1, count)
    }
}

proof fn lemma_targets_distinct(hash: u64, i: int, j: int, n: int)
    requires
        0 <= i < j,
        j - i < n,
        n > 0,
    ensures
        target_node(hash, i, n) != target_node(hash, j, n),
{
    let a = hash as int + i;
    let b = hash as int + j;
    vstd::arithmetic::div_mod::lemma_fundamental_div_mod(a, n);
    vstd::arithmetic::div_mod::lemma_fundamental_div_mod(b, n);
    vstd::arithmetic::div_mod::lemma_mod_bound(a, n);
    vstd::arithmetic::div_mod::lemma_mod_bound(b, n);
    if a % n == b % n {
        assert(b - a == n * (b / n) - n * (a / n));
        assert(false) by (nonlinear_arith)
            requires
                b - a == n * (b / n) - n * (a / n),
                0 < b - a < n,
        ;
    }
}

proof fn lemma_distribute_effect(
    nv: Seq<NodeModel>,
    data: Seq<u8>,
    hash: u64,
    i: int,
    count: int,
)
    requires
        nv.len() > 0,
        0 <= i <= count,
        count <= nv.len(),
    ensures
        distribute(nv, data, hash, i, count).len() == nv.len(),
        forall|j: int|
            i <= j < count ==> #[trigger] distribute(nv, data, hash, i, count)[target_node(
                hash,
                j,
                nv.len() as int,
            )] == (NodeModel {
                id: nv[target_node(hash, j, nv.len() as int)].id,
                shards: nv[target_node(hash, j, nv.len() as int)].shards.push(
                    ShardModel {
                        hash,
                        data: chunk_of(data, j),
                        node_id: target_node(hash, j, nv.len() as int),
                    },
                ),
            }),
        forall|m: int|
            0 <= m < nv.len() && (forall|j: int|
                i <= j < count ==> target_node(hash, j, nv.len() as int) != m)
                ==> #[trigger] distribute(nv, data, hash, i, count)[m] == nv[m],
    decreases count - i,
{
    if i < count {
        let n = nv.len() as int;
        let m0 = target_node(hash, i, n);
        vstd::arithmetic::div_mod::lemma_mod_bound(hash as int + i, n);
        let stored = ShardModel { hash, data: chunk_of(data, i), node_id: m0 };
        let appended = NodeModel { id: nv[m0].id, shards: nv[m0].shards.push(stored) };
        let nv2 = nv.update(m0, appended);
        let dist = distribute(nv, data, hash, i, count);
        assert(dist == distribute(nv2, data, hash, i + 1, count));
        lemma_distribute_effect(nv2, data, hash, i + 1, count);
        assert forall|j: int| i < j < count implies target_node(hash, j, n) != m0 by {
            lemma_targets_distinct(hash, i, j, n);
        }
        assert(dist[m0] == nv2[m0]);
        assert forall|j: int|
            i <= j < count implies #[trigger] dist[target_node(hash, j, n)] == (NodeModel {
            id: nv[target_node(hash, j, n)].id,
            shards: nv[target_node(hash, j, n)].shards.push(
                ShardModel { hash, data: chunk_of(data, j), node_id: target_node(hash, j, n) },
            ),
        }) by {
            if j == i {
                assert(dist[m0] == appended);
            } else {
                assert(nv2[target_node(hash, j, n)] == nv[target_node(hash, j, n)]);
            }
        }
        assert forall|m: int|
            0 <= m < nv.len() && (forall|j: int| i <= j < count ==> target_node(hash, j, n) != m)
            implies #[trigger] dist[m] == nv[m] by {
            assert(target_node(hash, i, n) != m);
            assert(nv2[m] == nv[m]);
        }
    }
}

proof fn lemma_shards_bytes_push(shards: Seq<ShardModel>, hash: u64, s: ShardModel, t: int)
    requires
        0 <= t <= shards.len(),
    ensures
        shards_bytes_from(shards.push(s), hash, t) == shards_bytes_from(shards, hash, t) + (
        if s.hash == hash {
            s.data
        } else {
            Seq::<u8>::empty()
        }),
    decreases shards.len() - t,
{
    let p = shards.push(s);
    let tail = if s.hash == hash {
        s.data
    } else {
        Seq::<u8>::empty()
    };
    if t == shards.len() {
        assert(p[t] == s);
        assert(shards_bytes_from(p, hash, t + 1) == Seq::<u8>::empty());
        assert(shards_bytes_from(p, hash, t) =~= shards_bytes_from(shards, hash, t) + tail);
    } else {
        lemma_shards_bytes_push(shards, hash, s, t + 1);
        assert(p[t] == shards[t]);
        assert(shards_bytes_from(p, hash, t) =~= shards_bytes_from(shards, hash, t) + tail);
    }
}

proof fn lemma_shards_bytes_absent(shards: Seq<ShardModel>, hash: u64, t: int)
    requires
        0 <= t <= shards.len(),
        forall|u: int| 0 <= u < shards.len() ==> (#[trigger] shards[u]).hash != hash,
    ensures
        shards_bytes_from(shards, hash, t) == Seq::<u8>::empty(),
    decreases shards.len() - t,
{
    if t < shards.len() {
        lemma_shards_bytes_absent(shards, hash, t + 1);
        assert(shards_bytes_from(shards, hash, t) =~= Seq::<u8>::empty());
    }
}

proof fn lemma_gather_chunks(
    nv: Seq<NodeModel>,
    data: Seq<u8>,
    hash: u64,
    count: int,
    k: int,
)
    requires
        0 < nv.len() <= usize::MAX,
        0 < count <= nv.len(),
        0 <= k <= count,
        forall|m: int, u: int|
            0 <= m < nv.len() && 0 <= u < (#[trigger] nv[m]).shards.len() ==> (#[trigger] nv[m].shards[u]).hash != hash,
    ensures
        gather_from(
            distribute(nv, data, hash, 0, count),
            store_targets(hash, count, nv.len() as int),
            hash,
            k,
        ) == chunks_from(data, k, count),
    decreases count - k,
{
    let n = nv.len() as int;
    let dist = distribute(nv, data, hash, 0, count);
    let ids = store_targets(hash, count, n);
    lemma_distribute_effect(nv, data, hash, 0, count);
    if k < count {
        vstd::arithmetic::div_mod::lemma_mod_bound(hash as int + k, n);
        let m = target_node(hash, k, n);
        assert(ids[k] == m as usize);
        assert(ids[k] as int == m);
        let stored = ShardModel { hash, data: chunk_of(data, k), node_id: m };
        assert(dist[m].shards == nv[m].shards.push(stored));
        lemma_shards_bytes_push(nv[m].shards, hash, stored, 0);
        lemma_shards_bytes_absent(nv[m].shards, hash, 0);
        assert(shards_bytes_from(dist[m].shards, hash, 0) =~= chunk_of(data, k));
        lemma_gather_chunks(nv, data, hash, count, k + 1);
        assert(gather_from(dist, ids, hash, k) == chunks_from(data, k, count));
    }
}

proof fn lemma_chunks_cover(data: Seq<u8>, i: int, count: int)
    requires
        0 <= i <= count,
        (SHARD_BYTES as int) * count == data.len(),
    ensures
        chunks_from(data, i, count) == data.subrange((SHARD_BYTES as int) * i, data.len() as int),
    decreases count - i,
{
    let w = SHARD_BYTES as int;
    if i < count {
        lemma_chunks_cover(data, i + 1, count);
        assert(w * i + w == w * (i + 1));
        assert(w * (i + 1) <= w * count) by (nonlinear_arith)
            requires
                i + 1 <= count,
                w > 0,
        ;
        assert(chunk_of(data, i) == data.subrange(w * i, w * i + w));
        assert(chunks_from(data, i, count) =~= data.subrange(w * i, data.len() as int));
    } else {
        assert(chunks_from(data, i, count) =~= data.subrange(w * i, data.len() as int));
    }
}

/// Law relating `store` and `load`: whenever a byte string is stored under
/// a fresh hash and its shard count does not exceed the node count, the
/// bytes that a load of that hash reassembles from the stored state are
/// exactly the stored shards in order; the string itself when it fits in
/// one shard or cuts into whole shards evenly.  The hypotheses about the
/// stored state are precisely what `store` ensures.
pub proof fn lemma_store_then_load(pre: BioDrive, post: BioDrive, data: Seq<u8>, h: u64)
    requires
        pre.wf(),
        0 < pre.nodes@.len() <= usize::MAX,
        h == fnv1a(data),
        !pre.shard_map@.contains_key(h),
        shard_count_of(data.len() as int) <= pre.nodes@.len(),
        post.nodes@.len() == pre.nodes@.len(),
        nodes_view(post.nodes@) == distribute(
            nodes_view(pre.nodes@),
            data,
            h,
            0,
            shard_count_of(data.len() as int),
        ),
        post.shard_map@.contains_key(h),
        post.shard_map@[h]@ == store_targets(
            h,
            shard_count_of(data.len() as int),
            pre.nodes@.len() as int,
        ),
    ensures
        gathered(nodes_view(post.nodes@), post.shard_map@[h]@, h) == chunks_from(
            data,
            0,
            shard_count_of(data.len() as int),
        ),
        data.len() <= SHARD_BYTES || (data.len() as int) % (SHARD_BYTES as int) == 0 ==> gathered(
            nodes_view(post.nodes@),
            post.shard_map@[h]@,
            h,
        ) == data,
{
    let nv = nodes_view(pre.nodes@);
    let count = shard_count_of(data.len() as int);
    let w = SHARD_BYTES as int;
    assert forall|m: int, u: int|
        0 <= m < nv.len() && 0 <= u < (#[trigger] nv[m]).shards.len() implies (
    #[trigger] nv[m].shards[u]).hash != h by {
        assert(nv[m] == pre.nodes@[m]@);
        assert(nv[m].shards[u] == pre.nodes@[m].shards@[u]@);
        assert(pre.shard_map@.contains_key(pre.nodes@[m].shards@[u].hash));
    }
    lemma_gather_chunks(nv, data, h, count, 0);
    if data.len() <= SHARD_BYTES {
        assert(count == 1);
        assert(chunk_of(data, 0) =~= data);
        assert(chunks_from(data, 1, 1) == Seq::<u8>::empty());
        assert(chunks_from(data, 0, 1) =~= data);
    } else if data.len() as int % w == 0 {
        vstd::arithmetic::div_mod::lemma_fundamental_div_mod(data.len() as int, w);
        assert(count == data.len() as int / w);
        assert(w * count == data.len());
        lemma_chunks_cover(data, 0, count);
        assert(data.subrange(0, data.len() as int) =~= data);
    }
}

/// Append the bytes of `src` to `dst`.
fn append_bytes(dst: &mut Vec<u8>, src: &Vec<u8>)
    ensures
        final(dst)@ == old(dst)@ + src@,
{
    let mut b: usize = 0;
    while b < src.len()
        invariant
            0 <= b <= src@.len(),
            dst@ =~= old(dst)@ + src@.subrange(0, b as int),
        decreases src@.len() - b,
    {
        dst.push(src[b]);
        proof {
            assert(dst@ =~= old(dst)@ + src@.subrange(0, b as int + 1));
        }
        b = b + 1;
    }
    proof {
        assert(src@.subrange(0, src@.len() as int) =~= src@);
    }
}

} // verus!
