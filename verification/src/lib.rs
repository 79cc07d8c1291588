//! The verified core of a client for etcd, a distributed key-value store with an HTTP API.
//!
//! Any node of a cluster may be down or unreachable, so a call is tried against the known
//! endpoints one after the other until one of them answers. [`failover`] holds the state
//! machine that sequences these attempts, [`sequencer`] the cursor over the endpoints it
//! draws from, and [`trace`] what is proved of whole runs of the machine. [`members`]
//! holds what listing the members of a cluster computes before and after the request,
//! [`conditions`] the conditions of conditional writes, and [`client`] and [`error`] the
//! data that responses and failures carry.
//!
//! Nothing here performs I/O or waits: requests are sent, and futures polled, by the host
//! that uses this library.

pub mod client;
pub mod conditions;
pub mod error;
pub mod failover;
pub mod members;
pub mod sequencer;
pub mod trace;
