//! The servers to poll and the queries to run on each.

use vstd::prelude::*;

verus! {

/// Everything one run works through.
#[derive(Debug, Clone)]
pub struct RootConfig {
    pub servers: Vec<ServerConfig>,
}

/// One database server with the queries to run against it.
#[derive(Debug, Clone)]
pub struct ServerConfig {
    pub name: String,
    pub connect: ConnectConfig,
    pub queries: Vec<QueryConfig>,
}

/// How to reach a server. The URL is handed on as it is.
#[derive(Debug, Clone)]
pub struct ConnectConfig {
    pub url: String,
}

/// A named query. `frequency` is a hint for whoever schedules runs; nothing
/// here reads it.
#[derive(Debug, Clone)]
pub struct QueryConfig {
    pub name: String,
    pub sql: String,
    pub frequency: String,
}

} // verus!
