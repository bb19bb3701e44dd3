//! The process supervisor: how the agent is launched, and what becomes of a
//! launch that failed.
//!
//! Spawning the process is the caller's work. The supervisor says what is to
//! be spawned, and what is to be reported when that did not succeed. A failed
//! launch never stops the shell: the proxy then fails each call with a
//! transport error until the agent is reachable.

use crate::endpoint::{base_url_text, lemma_agent_port_text, AgentEndpoint, AGENT_PORT};
use crate::text::decimal_text;
use vstd::prelude::*;
use vstd::string::*;

verus! {

/// The name under which the agent's executable is packaged with the shell.
pub const AGENT_PROGRAM: &'static str = "idento-agent";

/// What to spawn: a packaged program and its arguments.
#[derive(Clone, Debug, PartialEq, Eq)]
pub struct LaunchPlan {
    pub program: String,
    pub args: Vec<String>,
}

/// A launch plan as plain sequences of characters.
pub struct LaunchPlanModel {
    pub program: Seq<char>,
    pub args: Seq<Seq<char>>,
}

impl View for LaunchPlan {
    type V = LaunchPlanModel;

    open spec fn view(&self) -> LaunchPlanModel {
        LaunchPlanModel {
            program: self.program@,
            args: self.args@.map_values(|arg: String| arg@),
        }
    }
}

/// The arguments that make the agent listen on `port`.
pub open spec fn launch_args(port: u16) -> Seq<Seq<char>> {
    seq!["--port"@, decimal_text(port as nat)]
}

/// The launch of the agent for an endpoint: the agent is told to listen on the
/// port that the proxy sends its requests to, and nothing else.
pub fn launch_plan(endpoint: &AgentEndpoint) -> (plan: LaunchPlan)
    ensures
        plan@.program == AGENT_PROGRAM@,
        plan@.args == launch_args(AGENT_PORT),
{
    let mut args: Vec<String> = Vec::new();
    args.push("--port".to_owned());
    args.push(endpoint.port_text());
    let plan = LaunchPlan { program: AGENT_PROGRAM.to_owned(), args };
    assert(plan@.args =~= launch_args(AGENT_PORT));
    plan
}

/// Why the agent could not be started: its executable was not found, or the
/// system refused to spawn it.
#[derive(Clone, Debug, PartialEq, Eq)]
pub struct LaunchError {
    pub reason: String,
}

impl View for LaunchError {
    type V = Seq<char>;

    open spec fn view(&self) -> Seq<char> {
        self.reason@
    }
}

/// The line that reports a failed launch.
pub open spec fn launch_failure_text(port: u16, reason: Seq<char>) -> Seq<char> {
    "failed to spawn "@ + AGENT_PROGRAM@ + " (port "@ + decimal_text(port as nat) + "): "@ + reason
}

/// What is to be reported after a launch attempt: nothing when the agent was
/// started, the failure otherwise. In both cases the shell goes on starting.
pub fn launch_report<H>(endpoint: &AgentEndpoint, launched: &Result<H, LaunchError>) -> (report:
    Option<String>)
    ensures
        match launched {
            Ok(_) => report is None,
            Err(error) => report matches Some(line) && line@ == launch_failure_text(
                AGENT_PORT,
                error@,
            ),
        },
{
    match launched {
        Ok(_) => None,
        Err(error) => {
            let line = "failed to spawn ".to_owned().concat(AGENT_PROGRAM).concat(" (port ").concat(
                endpoint.port_text().as_str(),
            ).concat("): ").concat(error.reason.as_str());
            Some(line)
        },
    }
}

/// The agent is told to listen on the port that the proxy sends to: the
/// second launch argument is the number that ends the proxy's base URL.
pub proof fn lemma_agent_listens_where_proxy_sends()
    ensures
        launch_args(AGENT_PORT) == seq!["--port"@, "12345"@],
        base_url_text(AGENT_PORT) == "http://127.0.0.1:"@ + launch_args(AGENT_PORT)[1],
{
    lemma_agent_port_text();
}

} // verus!
