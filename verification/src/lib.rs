//! Test-harness core for driving a blockchain node through its
//! consensus-engine interface: a rate-limited transaction stream, a
//! block-advancement state machine with reorg and optimistic-sync
//! primitives, and a peer-topology builder that wires nodes into a chain
//! closed into a ring.
//!
//! The nodes themselves, the transport and the asynchronous scheduling
//! run outside the verified core; everything here decides over plain
//! observations that the embedding supplies.

use vstd::prelude::*;

pub mod engine_api;
pub mod node;
pub mod primitives;
pub mod transaction;
pub mod wallet;

use crate::node::{spec_fresh_stream, NodeTestContext};
use crate::transaction::TxGeneratorKind;
use crate::wallet::{spec_derivable, spec_derivation_path_at, spec_derived_key,
    spec_test_mnemonic};

verus! {

/// The launch configuration a test node is started with: explicit
/// connections only, ephemeral ports, an HTTP RPC server, and optionally
/// dev mode.
#[derive(Clone, Copy, Debug)]
pub struct NodeLaunchPlan {
    pub chain_id: u64,
    /// Peer discovery is disabled so connections are explicit.
    pub discovery_disabled: bool,
    pub use_unused_ports: bool,
    pub http_rpc: bool,
    pub dev: bool,
}

/// A node context freshly generated for a chain, with the stream strategy
/// the generator installs: the given one, or EIP-1559 transfers.
pub open spec fn spec_generated_node(
    ctx: NodeTestContext,
    chain_id: u64,
    generator: Option<TxGeneratorKind>,
) -> bool {
    &&& ctx.payload_timestamp == 0
    &&& ctx.wallet.chain_id == chain_id
    &&& ctx.wallet.key@ == spec_derived_key(spec_test_mnemonic(), spec_derivation_path_at(0))
    &&& ctx.wallet.tx_gen.nonce == 0
    &&& ctx.wallet.tx_gen.chain_id == chain_id
    &&& ctx.wallet.tx_gen.nonces_sequential()
    &&& ctx.tx_stream matches Some(s) && spec_fresh_stream(
        s,
        match generator {
            Some(g) => g,
            None => TxGeneratorKind::Eip1559Transfer,
        },
    )
}

/// Generator for test nodes on one chain.
#[derive(Clone, Copy, Debug)]
pub struct TestNodeGenerator {
    pub chain_id: u64,
    pub dev: bool,
    pub tx_generator: Option<TxGeneratorKind>,
}

impl TestNodeGenerator {
    pub fn new(chain_id: u64) -> (r: Self)
        ensures
            r.chain_id == chain_id,
            !r.dev,
            r.tx_generator is None,
    {
        TestNodeGenerator { chain_id, dev: false, tx_generator: None }
    }

    /// Sets the node to run in dev mode.
    pub fn dev(self) -> (r: Self)
        ensures
            r == (Self { dev: true, ..self }),
    {
        Self { dev: true, ..self }
    }

    /// Sets the transaction-generation strategy for the node.
    pub fn set_tx_generator(self, tx_generator: TxGeneratorKind) -> (r: Self)
        ensures
            r == (Self { tx_generator: Some(tx_generator), ..self }),
    {
        Self { tx_generator: Some(tx_generator), ..self }
    }

    /// Generates a test node: the launch plan — peer discovery disabled,
    /// ephemeral ports, HTTP RPC, dev mode as configured — and the
    /// harness context that drives it. This succeeds exactly when the
    /// derivation library accepts the test mnemonic and the first
    /// account's path.
    pub fn gen(&self) -> (r: Option<(NodeLaunchPlan, NodeTestContext)>)
        ensures
            r is Some <==> spec_derivable(spec_test_mnemonic(), spec_derivation_path_at(0)),
            r matches Some((plan, ctx)) ==> {
                &&& plan.chain_id == self.chain_id
                &&& plan.discovery_disabled
                &&& plan.use_unused_ports
                &&& plan.http_rpc
                &&& plan.dev == self.dev
                &&& spec_generated_node(ctx, self.chain_id, self.tx_generator)
            },
    {
        let ctx = NodeTestContext::new(self.chain_id);
        let ctx = match ctx {
            Some(c) => c,
            None => {
                return None;
            },
        };
        let ctx = match self.tx_generator {
            Some(g) => ctx.set_tx_generator(g),
            None => ctx,
        };
        let plan = NodeLaunchPlan {
            chain_id: self.chain_id,
            discovery_disabled: true,
            use_unused_ports: true,
            http_rpc: true,
            dev: self.dev,
        };
        Some((plan, ctx))
    }
}

/// The connections added when node `i` of `n` joins: one to the previous
/// node, and — when it is the last of more than two — one closing the
/// ring back to the first.
pub open spec fn spec_connections_at(i: int, n: int) -> Seq<(usize, usize)> {
    (if i > 0 {
        seq![(((i - 1) as usize), (i as usize))]
    } else {
        Seq::empty()
    }) + (if i + 1 == n && n > 2 {
        seq![((i as usize), 0usize)]
    } else {
        Seq::empty()
    })
}

/// The connections of the first `k` nodes of a network of `n`.
pub open spec fn spec_topology_upto(k: int, n: int) -> Seq<(usize, usize)>
    decreases k,
{
    if k <= 0 {
        Seq::empty()
    } else {
        spec_topology_upto(k - 1, n) + spec_connections_at(k - 1, n)
    }
}

/// The peer connections `build` wires a network of `n` nodes with: a
/// chain, closed into a ring when more than two nodes participate.
pub open spec fn spec_topology(n: int) -> Seq<(usize, usize)> {
    spec_topology_upto(n, n)
}

/// Two nodes are directly connected by one of the edges, in either
/// direction: peer sessions relay blocks both ways.
pub open spec fn spec_connects(edges: Seq<(usize, usize)>, a: int, b: int) -> bool {
    exists|j: int|
        0 <= j < edges.len() && ((#[trigger] edges[j]).0 == a && edges[j].1 == b || (edges[j].0 == b
            && edges[j].1 == a))
}

/// Node `to` can be reached from node `from` over at most `steps` peer
/// hops.
pub open spec fn spec_reachable(edges: Seq<(usize, usize)>, from: int, to: int, steps: nat) -> bool
    decreases steps,
{
    from == to || (steps > 0 && exists|mid: int|
        spec_reachable(edges, from, mid, (steps - 1) as nat) && #[trigger] spec_connects(
            edges,
            mid,
            to,
        ))
}

/// Builder for a network of test nodes, wired into a chain of peers that
/// closes into a ring when more than two nodes participate.
pub struct TestNetworkBuilder {
    pub peers: usize,
    pub node_generator: TestNodeGenerator,
    pub tx_generator: Option<TxGeneratorKind>,
}

/// A built network: the launch plan and harness context of each node, and
/// the peer connections to establish, in order.
pub struct NetworkPlan {
    pub launches: Vec<NodeLaunchPlan>,
    pub nodes: Vec<NodeTestContext>,
    pub connections: Vec<(usize, usize)>,
}

impl TestNetworkBuilder {
    /// Creates a network builder for a number of peers on one chain.
    pub fn new(peers: usize, chain_id: u64) -> (r: Self)
        ensures
            r.peers == peers,
            r.node_generator.chain_id == chain_id,
            !r.node_generator.dev,
            r.node_generator.tx_generator is None,
            r.tx_generator is None,
    {
        TestNetworkBuilder {
            peers,
            node_generator: TestNodeGenerator::new(chain_id),
            tx_generator: None,
        }
    }

    /// Sets the transaction-generation strategy, used for every node in
    /// the network.
    pub fn set_tx_generator(self, tx_generator: TxGeneratorKind) -> (r: Self)
        ensures
            r == (Self { tx_generator: Some(tx_generator), ..self }),
    {
        Self { tx_generator: Some(tx_generator), ..self }
    }

    /// Appends the connections for node `node_index` joining a network of
    /// `peers`: to the previous node, and from the last node back to the
    /// first when more than two participate.
    fn connect_nodes(edges: &mut Vec<(usize, usize)>, node_index: usize, peers: usize)
        requires
            node_index < peers,
        ensures
            final(edges)@ == old(edges)@ + spec_connections_at(node_index as int, peers as int),
    {
        let ghost entry = edges@;
        if node_index > 0 {
            edges.push((node_index - 1, node_index));
        }
        if node_index + 1 == peers && peers > 2 {
            edges.push((node_index, 0));
        }
        proof {
            assert(edges@ =~= entry + spec_connections_at(node_index as int, peers as int));
        }
    }

    /// Builds the network: generates the node contexts — each with the
    /// shared transaction-generation strategy when one is set — and the
    /// peer connections wiring them into a chain, closed into a ring for
    /// more than two nodes. This succeeds exactly when the network is
    /// empty or the derivation library accepts the test mnemonic and the
    /// first account's path, which every node's wallet is derived from.
    #[verifier::loop_isolation(false)]
    pub fn build(self) -> (r: Option<NetworkPlan>)
        ensures
            r is Some <==> (self.peers == 0 || spec_derivable(
                spec_test_mnemonic(),
                spec_derivation_path_at(0),
            )),
            r matches Some(plan) ==> {
                &&& plan.nodes@.len() == self.peers
                &&& plan.launches@.len() == self.peers
                &&& forall|i: int|
                    0 <= i < self.peers ==> spec_generated_node(
                        #[trigger] plan.nodes@[i],
                        self.node_generator.chain_id,
                        self.tx_generator,
                    )
                &&& forall|i: int|
                    0 <= i < self.peers ==> (#[trigger] plan.launches@[i]).discovery_disabled
                &&& plan.connections@ == spec_topology(self.peers as int)
            },
    {
        let mut generator = self.node_generator;
        generator.tx_generator = self.tx_generator;
        let mut launches: Vec<NodeLaunchPlan> = Vec::new();
        let mut nodes: Vec<NodeTestContext> = Vec::new();
        let mut edges: Vec<(usize, usize)> = Vec::new();
        let mut node_index: usize = 0;
        while node_index < self.peers
            invariant
                node_index <= self.peers,
                launches@.len() == node_index,
                nodes@.len() == node_index,
                generator.chain_id == self.node_generator.chain_id,
                generator.tx_generator == self.tx_generator,
                forall|i: int|
                    0 <= i < node_index ==> spec_generated_node(
                        #[trigger] nodes@[i],
                        self.node_generator.chain_id,
                        self.tx_generator,
                    ),
                forall|i: int| 0 <= i < node_index ==> (#[trigger] launches@[i]).discovery_disabled,
                edges@ == spec_topology_upto(node_index as int, self.peers as int),
                node_index > 0 ==> spec_derivable(
                    spec_test_mnemonic(),
                    spec_derivation_path_at(0),
                ),
            decreases self.peers - node_index,
        {
            let generated = generator.gen();
            match generated {
                Some((plan, ctx)) => {
                    launches.push(plan);
                    nodes.push(ctx);
                },
                None => {
                    return None;
                },
            }
            Self::connect_nodes(&mut edges, node_index, self.peers);
            node_index += 1;
        }
        Some(NetworkPlan { launches, nodes, connections: edges })
    }
}

/// Length and elements of the wired topology: the first `n - 1`
/// connections form the chain, and for more than two nodes one final
/// connection closes the ring.
pub proof fn lemma_topology_shape(n: int)
    requires
        0 <= n <= usize::MAX,
    ensures
        spec_topology(n).len() == (if n == 0 {
            0int
        } else {
            n - 1
        }) + (if n > 2 {
            1int
        } else {
            0int
        }),
        forall|j: int|
            0 <= j < n - 1 ==> #[trigger] spec_topology(n)[j] == ((j as usize), ((j + 1) as usize)),
        n > 2 ==> spec_topology(n)[n - 1] == (((n - 1) as usize), 0usize),
{
    lemma_topology_upto_shape(n, n);
}

proof fn lemma_topology_upto_shape(k: int, n: int)
    requires
        0 <= k <= n <= usize::MAX,
    ensures
        spec_topology_upto(k, n).len() == (if k == 0 {
            0int
        } else {
            k - 1
        }) + (if k == n && n > 2 {
            1int
        } else {
            0int
        }),
        forall|j: int|
            0 <= j < k - 1 ==> #[trigger] spec_topology_upto(k, n)[j] == ((j as usize), ((j
                + 1) as usize)),
        k == n && n > 2 ==> spec_topology_upto(k, n)[n - 1] == (((n - 1) as usize), 0usize),
    decreases k,
{
    if k > 0 {
        lemma_topology_upto_shape(k - 1, n);
    }
}

/// Law (ring relay): in the topology `build` wires, every node is
/// reachable from node 0 through peer connections alone — node `k` over
/// at most `k` hops. Submitting a block only to node 0 and directing
/// fork-choice can therefore bring any node, however far from node 0 in
/// joining order, to the same head purely via peer relay, without a
/// direct engine-API call to it.
pub proof fn lemma_topology_connected(n: int, k: int)
    requires
        0 <= k < n <= usize::MAX,
    ensures
        spec_reachable(spec_topology(n), 0, k, k as nat),
    decreases k,
{
    lemma_topology_shape(n);
    if k > 0 {
        lemma_topology_connected(n, k - 1);
        let edges = spec_topology(n);
        assert(edges[k - 1] == (((k - 1) as usize), (k as usize)));
        assert(spec_connects(edges, k - 1, k));
        assert(spec_reachable(edges, 0, k - 1, (k - 1) as nat));
        assert(spec_reachable(edges, 0, k, k as nat));
    }
}

} // verus!
