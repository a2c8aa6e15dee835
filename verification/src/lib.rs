//! Address allocation and serialized provisioning for nodes that join a
//! private overlay network.

pub mod cidr;
pub mod ippool;
pub mod nodemng;
pub mod pipeline;
pub mod server;
