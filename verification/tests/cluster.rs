use bettermq::cluster::{cluster_init, cluster_join, cluster_join_url, ClusterConfig, NodeConfig};
use bettermq::ids::Uuid;

const CLUSTER: Uuid = Uuid { bits: 100 };
const GIVEN: Uuid = Uuid { bits: 7 };
const BY_ADDRESS: Uuid = Uuid { bits: 8 };

fn node(bits: u128, addr: &str) -> NodeConfig {
    NodeConfig { id: Uuid { bits }, addr: addr.to_string() }
}

fn listed(c: &ClusterConfig) -> Vec<(u128, &str)> {
    c.nodes.iter().map(|n| (n.id.bits, n.addr.as_str())).collect()
}

#[test]
fn new_cluster_lists_its_creator_last() {
    let c = cluster_init(
        vec![node(1, "a:1"), node(2, "b:1")],
        "c:1".to_string(),
        Some(GIVEN),
        BY_ADDRESS,
        CLUSTER,
    );
    assert_eq!(c.cluster_id, CLUSTER);
    assert_eq!(c.node_id, GIVEN);
    assert_eq!(c.generation, 1);
    assert_eq!(listed(&c), vec![(1, "a:1"), (2, "b:1"), (7, "c:1")]);
}

#[test]
fn creator_that_is_a_peer_is_not_listed_twice() {
    let c = cluster_init(
        vec![node(8, "a:1"), node(2, "b:1")],
        "a:1".to_string(),
        None,
        BY_ADDRESS,
        CLUSTER,
    );
    assert_eq!(c.node_id, BY_ADDRESS);
    assert_eq!(listed(&c), vec![(8, "a:1"), (2, "b:1")]);
    // Under a given identifier it is listed under that of its address all the same.
    let c = cluster_init(
        vec![node(8, "a:1")],
        "a:1".to_string(),
        Some(GIVEN),
        BY_ADDRESS,
        CLUSTER,
    );
    assert_eq!(c.node_id, GIVEN);
    assert_eq!(listed(&c), vec![(8, "a:1")]);
}

#[test]
fn cluster_without_peers() {
    let c = cluster_init(Vec::new(), "a:1".to_string(), None, BY_ADDRESS, CLUSTER);
    assert_eq!(listed(&c), vec![(8, "a:1")]);
}

#[test]
fn seed_is_asked_for_the_cluster() {
    assert_eq!(cluster_join_url("http://seed:1"), "http://seed:1/internal/v1/cluster");
    assert_eq!(cluster_join_url("http://seed:1///"), "http://seed:1/internal/v1/cluster");
    assert_eq!(cluster_join_url(""), "/internal/v1/cluster");
}

#[test]
fn joining_keeps_the_others() {
    let remote = ClusterConfig {
        cluster_id: CLUSTER,
        nodes: vec![node(1, "a:1"), node(2, "b:1")],
        node_id: Uuid { bits: 1 },
        generation: 41,
    };
    let c = cluster_join(remote, "b:1".to_string(), GIVEN);
    assert_eq!(c.cluster_id, CLUSTER);
    assert_eq!(c.node_id, GIVEN);
    assert_eq!(c.generation, 42);
    assert_eq!(listed(&c), vec![(1, "a:1"), (2, "b:1"), (7, "b:1")]);
}
