//! The liveness endpoint: as long as the process answers, it is alive.

use vstd::prelude::*;

verus! {

/// The answer to every request: `{"status":"OK"}`.
pub open spec fn spec_health_body() -> Seq<char> {
    "{\"status\":\"OK\"}"@
}

/// The body of the answer to every request.
pub fn health_body() -> (body: &'static str)
    ensures
        body@ == spec_health_body(),
{
    "{\"status\":\"OK\"}"
}

/// The liveness endpoint on a port of every interface.
#[derive(Debug, Clone, Copy, PartialEq, Eq)]
pub struct HealthServer {
    port: u16,
}

impl HealthServer {
    /// The port that the endpoint listens on.
    pub closed spec fn spec_port(&self) -> u16 {
        self.port
    }

    /// An endpoint on `port`.
    pub fn new(port: u16) -> (server: Self)
        ensures
            server.spec_port() == port,
    {
        HealthServer { port }
    }

    /// The port that the endpoint listens on.
    pub fn port(&self) -> (port: u16)
        ensures
            port == self.spec_port(),
    {
        self.port
    }

    /// The address that the endpoint listens on: every interface, and its port.
    pub fn address(&self) -> (address: ([u8; 4], u16))
        ensures
            address.0@ == seq![0u8, 0u8, 0u8, 0u8],
            address.1 == self.spec_port(),
    {
        let any: [u8; 4] = [0, 0, 0, 0];
        assert(any@ =~= seq![0u8, 0u8, 0u8, 0u8]);
        (any, self.port)
    }
}

} // verus!
