//! Local application configuration.
//!
//! The values persisted between sessions, and what follows from them.
//! Reading and writing the file on disk happens outside the library.

use vstd::prelude::*;

use crate::agent_assets::AgentSource;

verus! {

/// Application configuration stored locally.
#[derive(Debug, Clone)]
pub struct AppConfig {
    /// Server URL.
    pub server_url: String,
    /// Auth token from the login flow.
    pub auth_token: Option<String>,
    /// Deployed agent address.
    pub agent_address: Option<String>,
    /// Agent name.
    pub agent_name: Option<String>,
    /// Custom agent directory path; embedded defaults where absent.
    pub custom_agent_dir: Option<String>,
}

impl AppConfig {
    /// Whether the user is authenticated.
    pub fn is_authenticated(&self) -> (r: bool)
        ensures
            r == self.auth_token is Some,
    {
        self.auth_token.is_some()
    }

    /// Whether the user has a deployed agent.
    pub fn has_agent(&self) -> (r: bool)
        ensures
            r == self.agent_address is Some,
    {
        self.agent_address.is_some()
    }

    /// Clear the session.  The agent belongs to the logged-in user, so its
    /// address and name go with the token; the server URL and the agent
    /// source selection stay.
    pub fn logout(&mut self)
        ensures
            final(self).auth_token is None,
            final(self).agent_address is None,
            final(self).agent_name is None,
            final(self).server_url == old(self).server_url,
            final(self).custom_agent_dir == old(self).custom_agent_dir,
    {
        self.auth_token = None;
        self.agent_address = None;
        self.agent_name = None;
    }

    /// The agent source this configuration selects.
    pub fn agent_source(&self) -> (r: AgentSource)
        ensures
            r == match self.custom_agent_dir {
                Some(dir) => AgentSource::Custom(dir),
                None => AgentSource::Embedded,
            },
    {
        match &self.custom_agent_dir {
            Some(dir) => AgentSource::Custom(dir.clone()),
            None => AgentSource::Embedded,
        }
    }
}

} // verus!
