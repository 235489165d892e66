//! Ingestion of SPDX software bills of materials into a property graph of
//! documents, packages and canonical relationship edges.

pub mod cli;
pub mod dup;
pub mod graph;
pub mod key;
pub mod license;
pub mod rel;
