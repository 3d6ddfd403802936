//! Server settings, read from the "server.toml" file.
use vstd::prelude::*;

verus! {

/// All settings.
#[derive(Debug, Clone)]
pub struct Config {
    pub server: Server,
    pub world: World,
}

/// Network and message settings.
#[derive(Debug, Clone)]
pub struct Server {
    /// IPv4 address to listen on, most significant octet first.
    pub ip: [u8; 4],
    pub port: u16,
    pub debug_messages: bool,
    pub status_message: String,
    pub message_of_the_day: String,
}

/// World settings.
#[derive(Debug, Clone)]
pub struct World {
    pub map_file: String,
}

/// Whether debug messages are logged: as the settings say, and not before
/// settings are loaded.
pub fn is_debug(config: Option<&Config>) -> (r: bool)
    ensures
        r == match config {
            Some(c) => c.server.debug_messages,
            None => false,
        },
{
    match config {
        Some(c) => c.server.debug_messages,
        None => false,
    }
}

} // verus!
