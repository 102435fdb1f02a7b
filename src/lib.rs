//! Core logic of an overlay-network daemon: tiered peering rules, a route
//! information base with longest-prefix lookup, route policy, the peering
//! session state machine, an isolated name resolver, a key-agreement session
//! with authenticated-encryption tunnels, and the node orchestrator.
pub mod addr;
pub mod clock;
pub mod config;
pub mod crypto;
pub mod daemon;
pub mod dns;
pub mod ike;
pub mod join;
pub mod messages;
pub mod node;
pub mod policy;
pub mod protocol;
pub mod rib;
pub mod session;
pub mod text;
pub mod tier;
pub mod tunnels;
