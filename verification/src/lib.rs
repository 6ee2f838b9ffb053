//! A schema-defined object graph served over a read-only dispatch tree.
//!
//! Every node of the graph is addressable by a hierarchical path and
//! serializes itself into a JSON envelope carrying identity and type
//! metadata ahead of its own fields.  The crate provides the path model,
//! the envelope, the recursive path dispatch, and the service adapter
//! that turns a dispatch outcome into a response.

pub mod json;
pub mod models;
pub mod odata;
pub mod path;
pub mod redfish;
pub mod service;
