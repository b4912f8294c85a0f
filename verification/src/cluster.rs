//! Cluster membership: the configuration of a new cluster and of a node that joins one.

use crate::ids::Uuid;
use crate::text::{joined, same_text, trim_back, trim_end_of, CharClass};
use vstd::prelude::*;

verus! {

/// A node of a cluster.
#[derive(Debug)]
pub struct NodeConfig {
    /// The node's identifier.
    pub id: Uuid,
    /// The node's address.
    pub addr: String,
}

/// A cluster, as one of its nodes sees it.
#[derive(Debug)]
pub struct ClusterConfig {
    /// The cluster's identifier.
    pub cluster_id: Uuid,
    /// Its nodes.
    pub nodes: Vec<NodeConfig>,
    /// The node that this is the configuration of.
    pub node_id: Uuid,
    /// How often the membership has changed.
    pub generation: u64,
}

/// Whether one of the nodes has this address.
pub open spec fn has_address(nodes: Seq<NodeConfig>, addr: Seq<char>) -> bool {
    exists|i: int| 0 <= i < nodes.len() && #[trigger] nodes[i].addr@ == addr
}

/// Whether one of the nodes has this identifier.
pub open spec fn has_node(nodes: Seq<NodeConfig>, id: Uuid) -> bool {
    exists|i: int| 0 <= i < nodes.len() && (#[trigger] nodes[i]).id == id
}

/// Whether one of the nodes has this address.
fn is_listed(nodes: &Vec<NodeConfig>, addr: &str) -> (res: bool)
    ensures
        res == has_address(nodes@, addr@),
{
    let mut i: usize = 0;
    while i < nodes.len()
        invariant
            i <= nodes@.len(),
            forall|j: int| 0 <= j < i ==> #[trigger] nodes@[j].addr@ != addr@,
        decreases nodes@.len() - i,
    {
        if same_text(nodes[i].addr.as_str(), addr) {
            return true;
        }
        i = i + 1;
    }
    false
}

/// The configuration of a new cluster. The node takes the given identifier, or else the one that
/// its address stands for. It is listed after its peers, unless its address is one of theirs.
pub fn cluster_init(
    peers: Vec<NodeConfig>,
    addr: String,
    given_id: Option<Uuid>,
    address_id: Uuid,
    cluster_id: Uuid,
) -> (res: ClusterConfig)
    ensures
        res.cluster_id == cluster_id,
        res.node_id == match given_id {
            Some(id) => id,
            None => address_id,
        },
        res.nodes@ == (if has_address(peers@, addr@) {
            peers@
        } else {
            peers@.push(NodeConfig { id: res.node_id, addr })
        }),
        res.generation == 1,
{
    let node_id: Uuid = match given_id {
        Some(id) => id,
        None => address_id,
    };
    let mut nodes: Vec<NodeConfig> = peers;
    if !is_listed(&nodes, addr.as_str()) {
        nodes.push(NodeConfig { id: node_id, addr });
    }
    ClusterConfig { cluster_id, nodes, node_id, generation: 1 }
}

/// Where a node that wants to join asks a seed for the cluster.
pub fn cluster_join_url(seed: &str) -> (res: String)
    ensures
        res@ == trim_back(seed@, CharClass::Slash) + "/internal/v1/cluster"@,
{
    joined(trim_end_of(seed, CharClass::Slash), "/internal/v1/cluster")
}

/// The configuration of a node that joins a cluster: it is listed after the others, and the
/// membership has changed once more.
pub fn cluster_join(remote: ClusterConfig, addr: String, node_id: Uuid) -> (res: ClusterConfig)
    requires
        remote.generation < u64::MAX,
    ensures
        res.cluster_id == remote.cluster_id,
        res.node_id == node_id,
        res.nodes@ == remote.nodes@.push(NodeConfig { id: node_id, addr }),
        res.generation == remote.generation + 1,
{
    let mut nodes: Vec<NodeConfig> = remote.nodes;
    nodes.push(NodeConfig { id: node_id, addr });
    ClusterConfig {
        cluster_id: remote.cluster_id,
        nodes,
        node_id,
        generation: remote.generation + 1,
    }
}

/// A new cluster lists the node that creates it: its address always, and its identifier unless
/// one of the peers stands at that address under another identifier.
pub proof fn law_new_cluster_lists_its_creator(
    peers: Seq<NodeConfig>,
    creator: NodeConfig,
    nodes: Seq<NodeConfig>,
)
    requires
        nodes == (if has_address(peers, creator.addr@) {
            peers
        } else {
            peers.push(creator)
        }),
    ensures
        has_address(nodes, creator.addr@),
        (forall|i: int|
            0 <= i < peers.len() && #[trigger] peers[i].addr@ == creator.addr@ ==> peers[i].id
                == creator.id) ==> has_node(nodes, creator.id),
{
    if has_address(peers, creator.addr@) {
        let i = choose|i: int| 0 <= i < peers.len() && #[trigger] peers[i].addr@ == creator.addr@;
        assert(nodes[i] == peers[i]);
    } else {
        assert(nodes[peers.len() as int] == creator);
    }
}

/// A node that joins is listed, and every node that was listed before still is.
pub proof fn law_joining_keeps_the_others(
    before: Seq<NodeConfig>,
    joining: NodeConfig,
    id: Uuid,
)
    ensures
        has_node(before.push(joining), joining.id),
        has_address(before.push(joining), joining.addr@),
        has_node(before, id) ==> has_node(before.push(joining), id),
{
    let after = before.push(joining);
    assert(after[before.len() as int] == joining);
    if has_node(before, id) {
        let i = choose|i: int| 0 <= i < before.len() && (#[trigger] before[i]).id == id;
        assert(after[i] == before[i]);
    }
}

} // verus!
