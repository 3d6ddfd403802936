//! Game-server logic for the Tibia 1.03 protocol: packet encoding and
//! decoding, the world map, player state and per-connection packet handling.
pub mod chat;
pub mod config;
pub mod constants;
pub mod dat;
pub mod io;
pub mod map;
pub mod network;
pub mod player;
pub mod world;
