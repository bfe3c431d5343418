use vstd::prelude::*;

verus! {

/// Counters kept by the line-echo test server.
#[derive(Debug)]
pub struct ServerStats {
    pub connections: u32,
    pub messages_received: u32,
}

impl ServerStats {
    /// Counters at zero.
    pub fn new() -> (r: ServerStats)
        ensures
            r.connections == 0,
            r.messages_received == 0,
    {
        ServerStats { connections: 0, messages_received: 0 }
    }

    /// Counts an accepted client and gives its ordinal.
    pub fn record_connection(&mut self) -> (r: u32)
        requires
            old(self).connections < u32::MAX,
        ensures
            final(self).connections == old(self).connections + 1,
            final(self).messages_received == old(self).messages_received,
            r == final(self).connections,
    {
        self.connections = self.connections + 1;
        self.connections
    }

    /// Counts a received message and gives its ordinal.
    pub fn record_message(&mut self) -> (r: u32)
        requires
            old(self).messages_received < u32::MAX,
        ensures
            final(self).messages_received == old(self).messages_received + 1,
            final(self).connections == old(self).connections,
            r == final(self).messages_received,
    {
        self.messages_received = self.messages_received + 1;
        self.messages_received
    }
}

} // verus!
