//! Node management for an OPC UA server address space, with the binary
//! framing of the secure-channel open response.

pub mod node_id;
pub mod status;
pub mod reference_type;
pub mod address_space;
pub mod browse_path;
pub mod standard_ids;
pub mod nesting;
pub mod attributes;
pub mod node_management;
pub mod secure_channel;
pub mod laws;
