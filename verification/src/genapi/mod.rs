//! The stores behind a description of a device's features: the nodes of the
//! description, the values that nodes hold, and the cache of values read
//! from the device.

pub mod cache_store;
pub mod error;
pub mod interface;
pub mod node;
pub mod node_store;
pub mod value_store;
