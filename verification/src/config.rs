//! Server configuration: the fixed listening port and worker count,
//! extracted into one structure so a deployment can substitute its own.

use vstd::prelude::*;

verus! {

/// Where the server listens and how many workers share the socket.
#[derive(Clone, Copy, Debug, PartialEq, Eq, Structural)]
pub struct ServerConfig {
    pub port: u16,
    pub workers: usize,
}

impl ServerConfig {
    /// At least one worker must serve the socket.
    pub open spec fn wf(self) -> bool {
        self.workers >= 1
    }
}

impl Default for ServerConfig {
    /// The stock configuration: TCP port 8000, four workers.
    fn default() -> (c: ServerConfig)
        ensures
            c.port == 8000,
            c.workers == 4,
            c.wf(),
    {
        ServerConfig { port: 8000, workers: 4 }
    }
}

} // verus!
