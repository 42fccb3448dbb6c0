//! Gateway-reported capabilities displayed in the chat empty state.

use vstd::prelude::*;

verus! {

/// Counts and lists used by the chat empty-state landing page.
#[derive(Debug, Clone, Default, PartialEq, Eq)]
pub struct Capabilities {
    /// Number of tools available to the agent.
    pub tool_count: u16,
    /// Number of skills available to the agent.
    pub skill_count: u16,
    /// Names of connected MCP servers.
    pub mcp_servers: Vec<String>,
    /// Current model name.
    pub model_name: Option<String>,
    /// Current provider name.
    pub provider_name: Option<String>,
    /// Gateway version string.
    pub gateway_version: Option<String>,
}

impl Capabilities {
    /// Construct with explicit counts and nothing else.
    pub fn new(tool_count: u16, skill_count: u16) -> (r: Self)
        ensures
            r.tool_count == tool_count,
            r.skill_count == skill_count,
            r.mcp_servers@.len() == 0,
            r.model_name is None,
            r.provider_name is None,
            r.gateway_version is None,
    {
        Capabilities {
            tool_count,
            skill_count,
            mcp_servers: Vec::new(),
            model_name: None,
            provider_name: None,
            gateway_version: None,
        }
    }
}

} // verus!
