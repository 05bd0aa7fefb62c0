//! Launch configuration and game-flow decisions of the `pha` game launcher,
//! with their contracts proved by Verus.

pub mod game_flow;
pub mod ipv4;
pub mod launch;
pub mod launch_options;
pub mod replication;
pub mod time_span;
pub mod web;

pub use ipv4::Ipv4Address;
pub use time_span::TimeSpan;
