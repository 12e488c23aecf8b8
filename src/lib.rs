//! State synchronisation for a peer-to-peer tank game: ping estimation, outbound
//! throttling, message routing, dead reckoning of remote tanks, and the shift and
//! placement corrections of their proxies. Quantities are fixed point: microseconds,
//! millimetres, microradians, and thousandths of an input axis.

pub mod angle;
pub mod body;
pub mod cannon;
pub mod game;
pub mod geom;
pub mod network;
pub mod ping;
mod random;
pub mod rotation;
pub mod router;
pub mod shot;
pub mod tank;
pub mod turret;
