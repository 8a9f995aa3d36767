//! The topology of the cluster behind the gateway.
use crate::client::Client;
use crate::proto;
use vstd::prelude::*;

verus! {

/// Request to obtain the current topology of the cluster the gateway is part of.
pub struct TopologyBuilder(pub Client);

impl TopologyBuilder {
    /// Create a new topology request builder.
    pub fn new(client: Client) -> (r: Self)
        ensures
            r.0 == client,
    {
        TopologyBuilder(client)
    }

    /// The topology request (it has no fields).
    pub fn request(&self) -> proto::TopologyRequest {
        proto::TopologyRequest {}
    }
}

/// The current topology of the cluster
#[derive(Debug)]
pub struct TopologyResponse(pub proto::TopologyResponse);

/// Two broker records agree in every field.
pub open spec fn same_broker(a: proto::BrokerInfo, b: proto::BrokerInfo) -> bool {
    &&& a.node_id == b.node_id
    &&& a.host@ == b.host@
    &&& a.port == b.port
    &&& a.partitions@ == b.partitions@
    &&& a.version@ == b.version@
}

/// Copies the partition list of a broker.
fn copy_partitions(v: &Vec<proto::Partition>) -> (r: Vec<proto::Partition>)
    ensures
        r@ == v@,
{
    let mut r: Vec<proto::Partition> = Vec::new();
    let mut i: usize = 0;
    while i < v.len()
        invariant
            i <= v@.len(),
            r@ == v@.subrange(0, i as int),
        decreases v@.len() - i,
    {
        r.push(v[i]);
        i = i + 1;
    }
    r
}

impl TopologyResponse {
    /// List of brokers part of this cluster
    pub fn brokers(&self) -> (r: Vec<BrokerInfo>)
        ensures
            r@.len() == self.0.brokers@.len(),
            forall|i: int| 0 <= i < r@.len() ==> same_broker(#[trigger] r@[i].0, self.0.brokers@[i]),
    {
        let mut r: Vec<BrokerInfo> = Vec::new();
        let mut i: usize = 0;
        while i < self.0.brokers.len()
            invariant
                i <= self.0.brokers@.len(),
                r@.len() == i,
                forall|j: int| 0 <= j < i ==> same_broker(#[trigger] r@[j].0, self.0.brokers@[j]),
            decreases self.0.brokers@.len() - i,
        {
            let b = &self.0.brokers[i];
            r.push(BrokerInfo(proto::BrokerInfo {
                node_id: b.node_id,
                host: b.host.clone(),
                port: b.port,
                partitions: copy_partitions(&b.partitions),
                version: b.version.clone(),
            }));
            i = i + 1;
        }
        r
    }

    /// How many nodes are in the cluster.
    pub fn cluster_size(&self) -> (r: u32)
        ensures
            r == self.0.cluster_size as u32,
    {
        self.0.cluster_size as u32
    }

    /// How many partitions are spread across the cluster.
    pub fn partitions_count(&self) -> (r: u32)
        ensures
            r == self.0.partitions_count as u32,
    {
        self.0.partitions_count as u32
    }

    /// Configured replication factor for this cluster.
    pub fn replication_factor(&self) -> (r: u32)
        ensures
            r == self.0.replication_factor as u32,
    {
        self.0.replication_factor as u32
    }

    /// gateway version
    pub fn gateway_version(&self) -> (r: &str)
        ensures
            r@ == self.0.gateway_version@,
    {
        self.0.gateway_version.as_str()
    }
}

/// Zeebe broker info
#[derive(Debug)]
pub struct BrokerInfo(pub proto::BrokerInfo);

impl BrokerInfo {
    /// Unique (within a cluster) node ID for the broker.
    pub fn node_id(&self) -> (r: i32)
        ensures
            r == self.0.node_id,
    {
        self.0.node_id
    }

    /// Hostname of the broker.
    pub fn host(&self) -> (r: &str)
        ensures
            r@ == self.0.host@,
    {
        self.0.host.as_str()
    }

    /// Port for the broker.
    pub fn port(&self) -> (r: u32)
        ensures
            r == self.0.port as u32,
    {
        self.0.port as u32
    }

    /// List of partitions managed or replicated on this broker.
    pub fn partitions(&self) -> (r: Vec<Partition>)
        ensures
            r@.len() == self.0.partitions@.len(),
            forall|i: int| 0 <= i < r@.len() ==> (#[trigger] r@[i]).0 == self.0.partitions@[i],
    {
        let mut r: Vec<Partition> = Vec::new();
        let mut i: usize = 0;
        while i < self.0.partitions.len()
            invariant
                i <= self.0.partitions@.len(),
                r@.len() == i,
                forall|j: int| 0 <= j < i ==> (#[trigger] r@[j]).0 == self.0.partitions@[j],
            decreases self.0.partitions@.len() - i,
        {
            r.push(Partition(self.0.partitions[i]));
            i = i + 1;
        }
        r
    }

    /// Broker version.
    pub fn version(&self) -> (r: &str)
        ensures
            r@ == self.0.version@,
    {
        self.0.version.as_str()
    }
}

/// Zeebe partition.
#[derive(Debug)]
pub struct Partition(pub proto::Partition);

impl Partition {
    /// the unique ID of this partition
    pub fn partition_id(&self) -> (r: i32)
        ensures
            r == self.0.partition_id,
    {
        self.0.partition_id
    }

    /// The role of the broker for this partition.
    pub fn role(&self) -> (r: i32)
        ensures
            r == self.0.role,
    {
        self.0.role
    }

    /// The health of this partition
    pub fn health(&self) -> (r: i32)
        ensures
            r == self.0.health,
    {
        self.0.health
    }
}

} // verus!
