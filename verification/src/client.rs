//! What every response of the cluster carries besides its data.

use vstd::prelude::*;

verus! {

/// What a response says about the state of the cluster that sent it.
#[derive(Clone, Debug, PartialEq, Eq, Hash)]
pub struct ClusterInfo {
    /// An internal identifier for the cluster.
    pub cluster_id: Option<String>,
    /// A unique, monotonically incrementing integer created for each change to etcd.
    pub etcd_index: Option<u64>,
    /// A unique, monotonically incrementing integer used by the Raft protocol.
    pub raft_index: Option<u64>,
    /// The current Raft election term.
    pub raft_term: Option<u64>,
}

/// The data of a successful API call, with what the answering cluster said about itself.
#[derive(Clone, Debug)]
pub struct Response<T> {
    /// Information about the state of the cluster.
    pub cluster_info: ClusterInfo,
    /// The data of the response.
    pub data: T,
}

} // verus!
