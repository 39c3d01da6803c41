//! Client-side coordination of a fleet of audio nodes: the commands and
//! notifications exchanged with a node, the load score of a node, the
//! registry of guild players, the node registry that routes new guilds to
//! the least loaded node, and the life cycle of one node connection.

pub mod model;
pub mod http;
pub mod penalty;
pub mod connection;
pub mod node;
pub mod player;
pub mod client;
