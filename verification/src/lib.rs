//! Hierarchical configuration and context resolution for a shop of cloud
//! accounts and the clusters that run in them.
//!
//! Two stores describe the same tree: the shop store holds what the
//! organisation knows about every account and cluster, the user store holds
//! what one operator has configured for them. A context pointer selects an
//! account, a cluster and a namespace; the environment resolves it against
//! both stores.

pub mod aws;
pub mod bootstrap;
pub mod cfg;
pub mod commands;
pub mod env;
pub mod error;
pub mod ioutil;
pub mod join;
pub mod labels;
pub mod laws;
pub mod model;
pub mod names;
pub mod opts;
pub mod root;
pub mod text;
pub mod webhook;
pub mod wrap;
