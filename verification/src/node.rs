//! Static node topology and handler composition.
//!
//! The device exposes two endpoints: endpoint 0, the root endpoint with
//! the standard administrative clusters, and endpoint 1, an On/Off Light
//! carrying the descriptor and on/off clusters. The handler chain mounts
//! a root handler for endpoint 0 and one entry per (endpoint, cluster)
//! pair chained after it.

use vstd::prelude::*;

verus! {

/// Identifier of the node itself.
pub const NODE_ID: u16 = 0;

/// The root endpoint.
pub const ROOT_ENDPOINT_ID: u16 = 0;

/// The On/Off Light endpoint.
pub const LIGHT_ENDPOINT_ID: u16 = 1;

/// Cluster identifier of the descriptor cluster.
pub const DESCRIPTOR_CLUSTER_ID: u32 = 0x001D;

/// Cluster identifier of the on/off cluster.
pub const ON_OFF_CLUSTER_ID: u32 = 0x0006;

/// Cluster identifier of the basic-information cluster.
pub const BASIC_INFO_CLUSTER_ID: u32 = 0x0028;

/// Cluster identifier of the access-control cluster.
pub const ACCESS_CONTROL_CLUSTER_ID: u32 = 0x001F;

/// Cluster identifier of the general-commissioning cluster.
pub const GENERAL_COMMISSIONING_CLUSTER_ID: u32 = 0x0030;

/// Cluster identifier of the network-commissioning cluster.
pub const NETWORK_COMMISSIONING_CLUSTER_ID: u32 = 0x0031;

/// Cluster identifier of the administrator-commissioning cluster.
pub const ADMIN_COMMISSIONING_CLUSTER_ID: u32 = 0x003C;

/// Cluster identifier of the operational-credentials cluster.
pub const OPERATIONAL_CREDENTIALS_CLUSTER_ID: u32 = 0x003E;

/// Device type of an On/Off Light endpoint.
pub const ON_OFF_LIGHT_DEVICE_TYPE: u16 = 0x0100;

/// Revision of the On/Off Light device type.
pub const ON_OFF_LIGHT_DEVICE_REVISION: u16 = 2;

/// Device type of the root node endpoint.
pub const ROOT_NODE_DEVICE_TYPE: u16 = 0x0016;

/// Revision of the root node device type.
pub const ROOT_NODE_DEVICE_REVISION: u16 = 1;

/// The administrative clusters of the root endpoint.
pub open spec fn spec_root_clusters() -> Seq<u32> {
    seq![
        DESCRIPTOR_CLUSTER_ID,
        BASIC_INFO_CLUSTER_ID,
        GENERAL_COMMISSIONING_CLUSTER_ID,
        NETWORK_COMMISSIONING_CLUSTER_ID,
        ADMIN_COMMISSIONING_CLUSTER_ID,
        OPERATIONAL_CREDENTIALS_CLUSTER_ID,
        ACCESS_CONTROL_CLUSTER_ID,
    ]
}

/// The clusters of the light endpoint.
pub open spec fn spec_light_clusters() -> Seq<u32> {
    seq![DESCRIPTOR_CLUSTER_ID, ON_OFF_CLUSTER_ID]
}

/// One endpoint of the node: its identifier, device type and the server
/// clusters it carries.
pub struct Endpoint {
    pub id: u16,
    pub device_type: u16,
    pub device_revision: u16,
    pub clusters: Vec<u32>,
}

/// The node's static topology.
pub struct Node {
    pub id: u16,
    pub endpoints: Vec<Endpoint>,
}

/// The clusters of the root endpoint, as a vector.
pub fn root_clusters() -> (r: Vec<u32>)
    ensures
        r@ == spec_root_clusters(),
{
    let mut r: Vec<u32> = Vec::new();
    r.push(DESCRIPTOR_CLUSTER_ID);
    r.push(BASIC_INFO_CLUSTER_ID);
    r.push(GENERAL_COMMISSIONING_CLUSTER_ID);
    r.push(NETWORK_COMMISSIONING_CLUSTER_ID);
    r.push(ADMIN_COMMISSIONING_CLUSTER_ID);
    r.push(OPERATIONAL_CREDENTIALS_CLUSTER_ID);
    r.push(ACCESS_CONTROL_CLUSTER_ID);
    proof {
        assert(r@ =~= spec_root_clusters());
    }
    r
}

/// The node topology: the root endpoint and the On/Off Light endpoint,
/// nothing else.
pub fn node_metadata() -> (n: Node)
    ensures
        n.id == NODE_ID,
        n.endpoints@.len() == 2,
        n.endpoints@[0].id == ROOT_ENDPOINT_ID,
        n.endpoints@[0].device_type == ROOT_NODE_DEVICE_TYPE,
        n.endpoints@[0].device_revision == ROOT_NODE_DEVICE_REVISION,
        n.endpoints@[0].clusters@ == spec_root_clusters(),
        n.endpoints@[1].id == LIGHT_ENDPOINT_ID,
        n.endpoints@[1].device_type == ON_OFF_LIGHT_DEVICE_TYPE,
        n.endpoints@[1].device_revision == ON_OFF_LIGHT_DEVICE_REVISION,
        n.endpoints@[1].clusters@ == spec_light_clusters(),
{
    let root = Endpoint {
        id: ROOT_ENDPOINT_ID,
        device_type: ROOT_NODE_DEVICE_TYPE,
        device_revision: ROOT_NODE_DEVICE_REVISION,
        clusters: root_clusters(),
    };
    let mut light_clusters: Vec<u32> = Vec::new();
    light_clusters.push(DESCRIPTOR_CLUSTER_ID);
    light_clusters.push(ON_OFF_CLUSTER_ID);
    proof {
        assert(light_clusters@ =~= spec_light_clusters());
    }
    let light = Endpoint {
        id: LIGHT_ENDPOINT_ID,
        device_type: ON_OFF_LIGHT_DEVICE_TYPE,
        device_revision: ON_OFF_LIGHT_DEVICE_REVISION,
        clusters: light_clusters,
    };
    let mut endpoints: Vec<Endpoint> = Vec::new();
    endpoints.push(root);
    endpoints.push(light);
    Node { id: NODE_ID, endpoints }
}

/// One chained cluster handler: it answers for exactly one cluster on
/// exactly one endpoint.
pub struct ChainEntry {
    pub endpoint_id: u16,
    pub cluster_id: u32,
}

/// The composed handler: a root handler answering for the administrative
/// clusters of the root endpoint, then one entry per chained cluster.
pub struct HandlerChain {
    pub root_endpoint_id: u16,
    pub root_clusters: Vec<u32>,
    pub entries: Vec<ChainEntry>,
}

impl HandlerChain {
    /// Whether the chain dispatches requests for `cluster` on `endpoint`.
    pub open spec fn spec_handles(self, endpoint: u16, cluster: u32) -> bool {
        ||| (endpoint == self.root_endpoint_id && self.root_clusters@.contains(cluster))
        ||| exists|i: int|
            0 <= i < self.entries@.len() && self.entries@[i].endpoint_id == endpoint
                && self.entries@[i].cluster_id == cluster
    }

    /// A chain holding only the root handler.
    pub fn root(endpoint_id: u16, clusters: Vec<u32>) -> (r: HandlerChain)
        ensures
            r.root_endpoint_id == endpoint_id,
            r.root_clusters == clusters,
            r.entries@.len() == 0,
    {
        HandlerChain { root_endpoint_id: endpoint_id, root_clusters: clusters, entries: Vec::new() }
    }

    /// Chain one more cluster handler after the existing ones.
    pub fn chain(self, endpoint_id: u16, cluster_id: u32) -> (r: HandlerChain)
        ensures
            r.root_endpoint_id == self.root_endpoint_id,
            r.root_clusters == self.root_clusters,
            r.entries@ == self.entries@.push(ChainEntry { endpoint_id, cluster_id }),
    {
        let mut entries = self.entries;
        entries.push(ChainEntry { endpoint_id, cluster_id });
        HandlerChain {
            root_endpoint_id: self.root_endpoint_id,
            root_clusters: self.root_clusters,
            entries,
        }
    }

    /// Decide whether the chain answers for `cluster` on `endpoint`.
    pub fn handles(&self, endpoint: u16, cluster: u32) -> (b: bool)
        ensures
            b == self.spec_handles(endpoint, cluster),
    {
        if endpoint == self.root_endpoint_id {
            let mut i: usize = 0;
            while i < self.root_clusters.len()
                invariant
                    endpoint == self.root_endpoint_id,
                    i <= self.root_clusters@.len(),
                    forall|j: int| 0 <= j < i ==> self.root_clusters@[j] != cluster,
                decreases self.root_clusters@.len() - i,
            {
                if self.root_clusters[i] == cluster {
                    proof {
                        assert(self.root_clusters@.contains(cluster)) by {
                            assert(self.root_clusters@[i as int] == cluster);
                        }
                    }
                    return true;
                }
                i = i + 1;
            }
        }
        let mut i: usize = 0;
        while i < self.entries.len()
            invariant
                i <= self.entries@.len(),
                forall|j: int|
                    0 <= j < i ==> !(self.entries@[j].endpoint_id == endpoint
                        && self.entries@[j].cluster_id == cluster),
            decreases self.entries@.len() - i,
        {
            if self.entries[i].endpoint_id == endpoint && self.entries[i].cluster_id == cluster {
                return true;
            }
            i = i + 1;
        }
        false
    }
}

/// Assemble the device's handler chain: the root handler for endpoint 0,
/// then the descriptor and on/off clusters of endpoint 1, in that order.
///
/// The composed handler answers for an endpoint if and only if that
/// endpoint is 0 or 1, and on endpoint 1 for exactly the descriptor and
/// on/off clusters.
pub fn assemble_handler() -> (h: HandlerChain)
    ensures
        forall|cl: u32|
            h.spec_handles(LIGHT_ENDPOINT_ID, cl) <==> (cl == DESCRIPTOR_CLUSTER_ID || cl
                == ON_OFF_CLUSTER_ID),
        forall|cl: u32| h.spec_handles(ROOT_ENDPOINT_ID, cl) <==> spec_root_clusters().contains(cl),
        forall|ep: u16, cl: u32|
            h.spec_handles(ep, cl) ==> (ep == ROOT_ENDPOINT_ID || ep == LIGHT_ENDPOINT_ID),
{
    let h = HandlerChain::root(ROOT_ENDPOINT_ID, root_clusters()).chain(
        LIGHT_ENDPOINT_ID,
        DESCRIPTOR_CLUSTER_ID,
    ).chain(LIGHT_ENDPOINT_ID, ON_OFF_CLUSTER_ID);
    proof {
        assert(h.entries@.len() == 2);
        assert(h.entries@[0] == ChainEntry {
            endpoint_id: LIGHT_ENDPOINT_ID,
            cluster_id: DESCRIPTOR_CLUSTER_ID,
        });
        assert(h.entries@[1] == ChainEntry {
            endpoint_id: LIGHT_ENDPOINT_ID,
            cluster_id: ON_OFF_CLUSTER_ID,
        });
        assert forall|cl: u32|
            h.spec_handles(LIGHT_ENDPOINT_ID, cl) <==> (cl == DESCRIPTOR_CLUSTER_ID || cl
                == ON_OFF_CLUSTER_ID) by {
            if cl == DESCRIPTOR_CLUSTER_ID {
                assert(h.entries@[0].endpoint_id == LIGHT_ENDPOINT_ID && h.entries@[0].cluster_id
                    == cl);
            }
            if cl == ON_OFF_CLUSTER_ID {
                assert(h.entries@[1].endpoint_id == LIGHT_ENDPOINT_ID && h.entries@[1].cluster_id
                    == cl);
            }
        }
    }
    h
}

/// The handler chain answers on endpoint 1 for exactly the clusters the
/// node topology declares there: composition and topology agree.
pub proof fn lemma_handler_matches_topology(h: HandlerChain, n: Node)
    requires
        forall|cl: u32|
            h.spec_handles(LIGHT_ENDPOINT_ID, cl) <==> (cl == DESCRIPTOR_CLUSTER_ID || cl
                == ON_OFF_CLUSTER_ID),
        n.endpoints@.len() == 2,
        n.endpoints@[1].clusters@ == spec_light_clusters(),
    ensures
        forall|cl: u32| h.spec_handles(LIGHT_ENDPOINT_ID, cl) <==> n.endpoints@[1].clusters@.contains(cl),
{
    assert forall|cl: u32|
        h.spec_handles(LIGHT_ENDPOINT_ID, cl) <==> n.endpoints@[1].clusters@.contains(cl) by {
        if cl == DESCRIPTOR_CLUSTER_ID {
            assert(spec_light_clusters()[0] == cl);
            assert(n.endpoints@[1].clusters@.contains(cl));
        }
        if cl == ON_OFF_CLUSTER_ID {
            assert(spec_light_clusters()[1] == cl);
            assert(n.endpoints@[1].clusters@.contains(cl));
        }
        if n.endpoints@[1].clusters@.contains(cl) {
            let i = choose|i: int|
                0 <= i < spec_light_clusters().len() && spec_light_clusters()[i] == cl;
            assert(i == 0 || i == 1);
        }
    }
}

} // verus!
