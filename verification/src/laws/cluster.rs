//! Laws on cluster membership.

use crate::cluster::{cluster_init, cluster_join, cluster_join_url, ClusterConfig, NodeConfig};
use crate::ids::Uuid;
use crate::text::{trim_back, trim_end_of, CharClass};
use vstd::prelude::*;

verus! {

/// A new cluster has the identifier given, in its first generation. Its creator takes the identifier
/// given, and the one that its address stands for where none is given.
pub proof fn law_new_cluster_is_identified(
    peers: Vec<NodeConfig>,
    addr: String,
    given_id: Option<Uuid>,
    address_id: Uuid,
    cluster_id: Uuid,
    res: ClusterConfig,
)
    requires
        call_ensures(cluster_init, (peers, addr, given_id, address_id, cluster_id), res),
    ensures
        res.cluster_id == cluster_id,
        res.generation == 1,
        given_id matches Some(id) ==> res.node_id == id,
        given_id is None ==> res.node_id == address_id,
{
}

/// A new cluster lists every peer in its place. Where none of them has the creator's address, the
/// creator is listed after them; nobody else is.
pub proof fn law_new_cluster_lists_peers_and_creator(
    peers: Vec<NodeConfig>,
    addr: String,
    given_id: Option<Uuid>,
    address_id: Uuid,
    cluster_id: Uuid,
    res: ClusterConfig,
)
    requires
        call_ensures(cluster_init, (peers, addr, given_id, address_id, cluster_id), res),
    ensures
        forall|i: int| 0 <= i < peers@.len() ==> i < res.nodes@.len() && #[trigger] res.nodes@[i]
            == peers@[i],
        (exists|i: int| 0 <= i < peers@.len() && #[trigger] peers@[i].addr@ == addr@)
            ==> res.nodes@.len() == peers@.len(),
        (forall|i: int| 0 <= i < peers@.len() ==> #[trigger] peers@[i].addr@ != addr@) ==> {
            &&& res.nodes@.len() == peers@.len() + 1
            &&& res.nodes@.last().id == res.node_id
            &&& res.nodes@.last().addr@ == addr@
        },
        exists|i: int| 0 <= i < res.nodes@.len() && #[trigger] res.nodes@[i].addr@ == addr@,
{
    if forall|i: int| 0 <= i < peers@.len() ==> #[trigger] peers@[i].addr@ != addr@ {
        assert(res.nodes@[peers@.len() as int].addr@ == addr@);
    } else {
        let i = choose|i: int| 0 <= i < peers@.len() && #[trigger] peers@[i].addr@ == addr@;
        assert(res.nodes@[i].addr@ == addr@);
    }
}

/// A node that joins sees the cluster that it joined, one generation on: every node in its place, and
/// itself after them, under the identifier and at the address given.
pub proof fn law_joining_adds_the_node(
    remote: ClusterConfig,
    addr: String,
    node_id: Uuid,
    res: ClusterConfig,
)
    requires
        call_ensures(cluster_join, (remote, addr, node_id), res),
    ensures
        res.cluster_id == remote.cluster_id,
        res.node_id == node_id,
        res.generation == remote.generation + 1,
        res.nodes@.len() == remote.nodes@.len() + 1,
        forall|i: int| 0 <= i < remote.nodes@.len() ==> #[trigger] res.nodes@[i]
            == remote.nodes@[i],
        res.nodes@.last().id == node_id,
        res.nodes@.last().addr@ == addr@,
{
}

/// A node asks a seed for its cluster under one path, however many slashes the seed ends with.
pub proof fn law_seed_is_asked_under_one_path(seed: &str, res: String, front: &str)
    requires
        call_ensures(cluster_join_url, (seed,), res),
        call_ensures(trim_end_of, (seed, CharClass::Slash), front),
    ensures
        res@ == front@ + "/internal/v1/cluster"@,
{
}

/// Two seeds that differ in the slashes at their end alone are asked at one URL.
pub proof fn law_slashes_at_the_end_do_not_matter(
    seed: &str,
    other: &str,
    n: int,
    res: String,
    res_other: String,
)
    requires
        0 <= n <= seed@.len(),
        other@ == seed@.take(n),
        forall|i: int| n <= i < seed@.len() ==> #[trigger] seed@[i] == '/',
        call_ensures(cluster_join_url, (seed,), res),
        call_ensures(cluster_join_url, (other,), res_other),
    ensures
        res@ == res_other@,
        n > 0 && seed@[n - 1] != '/' ==> res@ == other@ + "/internal/v1/cluster"@,
        n == 0 ==> res@ == "/internal/v1/cluster"@,
{
    lemma_slashes_are_trimmed(seed@, n);
    if n == 0 {
        assert(""@ =~= other@) by {
            reveal_strlit("");
        }
        assert(other@ + "/internal/v1/cluster"@ =~= "/internal/v1/cluster"@);
    }
}

proof fn lemma_slashes_are_trimmed(s: Seq<char>, n: int)
    requires
        0 <= n <= s.len(),
        forall|i: int| n <= i < s.len() ==> #[trigger] s[i] == '/',
    ensures
        trim_back(s, CharClass::Slash) == trim_back(s.take(n), CharClass::Slash),
    decreases s.len(),
{
    if n == s.len() {
        assert(s.take(n) =~= s);
    } else {
        assert(s.last() == '/');
        assert(s.drop_last().take(n) =~= s.take(n));
        lemma_slashes_are_trimmed(s.drop_last(), n);
    }
}

} // verus!
