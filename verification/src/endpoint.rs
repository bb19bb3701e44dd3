//! Where the agent listens.

use crate::text::{decimal_string, decimal_text};
use vstd::prelude::*;
use vstd::string::*;

verus! {

/// The loopback port on which the agent serves its API. The launch arguments
/// and every request URL are derived from this one constant.
pub const AGENT_PORT: u16 = 12345;

/// The base URL of an agent that listens on `port` of the loopback address.
pub open spec fn base_url_text(port: u16) -> Seq<char> {
    "http://127.0.0.1:"@ + decimal_text(port as nat)
}

/// The address of the agent: the loopback host and the fixed port.
#[derive(Clone, Copy, Debug, PartialEq, Eq)]
pub struct AgentEndpoint {
    port: u16,
}

impl View for AgentEndpoint {
    type V = u16;

    /// The port of the endpoint; the host is always the loopback address.
    closed spec fn view(&self) -> u16 {
        self.port
    }
}

impl AgentEndpoint {
    #[verifier::type_invariant]
    spec fn on_agent_port(self) -> bool {
        self.port == AGENT_PORT
    }

    /// The one endpoint there is.
    pub fn fixed() -> (endpoint: AgentEndpoint)
        ensures
            endpoint@ == AGENT_PORT,
    {
        AgentEndpoint { port: AGENT_PORT }
    }

    /// The port of this endpoint, which is always `AGENT_PORT`.
    pub fn port(&self) -> (port: u16)
        ensures
            port == self@,
            port == AGENT_PORT,
    {
        proof {
            use_type_invariant(self);
        }
        self.port
    }

    /// The port in decimal notation, as it is handed to the agent.
    pub fn port_text(&self) -> (text: String)
        ensures
            text@ == decimal_text(AGENT_PORT as nat),
    {
        decimal_string(self.port())
    }

    /// The URL that every route of the agent hangs under.
    pub fn base_url(&self) -> (url: String)
        ensures
            url@ == base_url_text(AGENT_PORT),
    {
        let url = "http://127.0.0.1:".to_owned();
        url.concat(self.port_text().as_str())
    }
}

/// The port of the agent, for a user interface that builds references to it.
pub fn get_agent_port() -> (port: u16)
    ensures
        port == AGENT_PORT,
{
    AgentEndpoint::fixed().port()
}

/// The fixed port is written `12345`, which makes the agent's base URL
/// `http://127.0.0.1:12345`.
pub proof fn lemma_agent_port_text()
    ensures
        decimal_text(AGENT_PORT as nat) == "12345"@,
        base_url_text(AGENT_PORT) == "http://127.0.0.1:12345"@,
{
    reveal_strlit("12345");
    reveal_strlit("http://127.0.0.1:");
    reveal_strlit("http://127.0.0.1:12345");
    reveal_with_fuel(decimal_text, 5);
    assert(decimal_text(12345) =~= "12345"@);
    assert(base_url_text(AGENT_PORT) =~= "http://127.0.0.1:12345"@);
}

} // verus!
