//! The network topology builder: chain wiring, ring closure, and the
//! generated node contexts.

use e2e_test_utils::transaction::TxGeneratorKind;
use e2e_test_utils::TestNetworkBuilder;
use e2e_test_utils::TestNodeGenerator;

#[test]
fn a_single_node_has_no_connections() {
    let plan = TestNetworkBuilder::new(1, 1).build().expect("build should succeed");
    assert_eq!(plan.nodes.len(), 1);
    assert!(plan.connections.is_empty());
}

#[test]
fn two_nodes_form_a_chain_without_a_ring() {
    let plan = TestNetworkBuilder::new(2, 1).build().expect("build should succeed");
    assert_eq!(plan.nodes.len(), 2);
    assert_eq!(plan.connections, vec![(0, 1)]);
}

#[test]
fn three_nodes_close_into_a_ring() {
    let plan = TestNetworkBuilder::new(3, 1).build().expect("build should succeed");
    assert_eq!(plan.connections, vec![(0, 1), (1, 2), (2, 0)]);
}

#[test]
fn five_nodes_chain_and_close_the_ring() {
    let plan = TestNetworkBuilder::new(5, 1).build().expect("build should succeed");
    assert_eq!(plan.connections, vec![(0, 1), (1, 2), (2, 3), (3, 4), (4, 0)]);
}

#[test]
fn generated_nodes_disable_discovery_and_use_ephemeral_ports() {
    let plan = TestNetworkBuilder::new(3, 1).build().expect("build should succeed");
    assert_eq!(plan.launches.len(), 3);
    for launch in &plan.launches {
        assert!(launch.discovery_disabled);
        assert!(launch.use_unused_ports);
        assert!(launch.http_rpc);
        assert!(!launch.dev);
        assert_eq!(launch.chain_id, 1);
    }
}

#[test]
fn a_shared_tx_generator_reaches_every_node() {
    let plan = TestNetworkBuilder::new(3, 8453)
        .set_tx_generator(TxGeneratorKind::OptimismBlockInfo)
        .build()
        .expect("build should succeed");
    for node in &plan.nodes {
        match &node.tx_stream {
            Some(s) => assert!(matches!(s.generator, TxGeneratorKind::OptimismBlockInfo)),
            None => panic!("every fresh node should hold a pending stream"),
        }
    }
}

#[test]
fn node_generator_configures_dev_mode() {
    let generator = TestNodeGenerator::new(1).dev();
    let (launch, ctx) = generator.gen().expect("generation should succeed");
    assert!(launch.dev);
    assert!(launch.discovery_disabled);
    assert_eq!(ctx.payload_timestamp, 0);
    assert_eq!(ctx.wallet.chain_id, 1);
}

#[test]
fn node_generator_installs_its_stream_strategy() {
    let generator = TestNodeGenerator::new(1).set_tx_generator(TxGeneratorKind::Eip4844Blob);
    let (_, ctx) = generator.gen().expect("generation should succeed");
    match &ctx.tx_stream {
        Some(s) => assert!(matches!(s.generator, TxGeneratorKind::Eip4844Blob)),
        None => panic!("a fresh node should hold a pending stream"),
    }
}
