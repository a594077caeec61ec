//! The application's top-level vocabulary: which screen is showing, the
//! messages that asynchronous work sends back to the state machines, and
//! what a screen can ask of the application.

use vstd::prelude::*;

use crate::client::{AgentInfo, ChainEventData, MoltbookPost};

verus! {

/// Messages handed back to the application by asynchronous operations.
#[derive(Debug, Clone)]
pub enum AppMessage {
    /// Auth completed with a token.
    AuthCompleted(String),
    /// Auth failed.
    AuthFailed(String),
    /// Wallet funded.
    WalletFunded,
    /// Wallet funding failed.
    WalletFundFailed(String),
    /// Balance updated with its formatted text.
    BalanceUpdated(String),
    /// The agent was registered with the social network.
    MoltbookRegistered { api_key: String, claim_url: String, verification_code: String },
    /// Registration failed for a general reason.
    RegistrationFailed(String),
    /// The chosen agent name is already taken.
    NameTaken(String),
    /// An existing API key checked out; the agent's profile came with it.
    ApiKeyValidated { api_key: String, name: String, description: String, is_claimed: bool },
    /// The API key did not check out.
    ApiKeyInvalid(String),
    /// A validated API key is ready to be stored server-side.
    ApiKeyReadyToStore { api_key: String, name: String },
    /// The agent was claimed and stored server-side.
    MoltbookClaimed { agent_id: String },
    /// Compilation finished with the compiled hex.
    CompileDone { compiled_hex: String },
    /// Compilation failed.
    CompileFailed(String),
    /// Deployment finished with the new agent address.
    DeployDone { agent_address: String },
    /// Deployment failed.
    DeployFailed(String),
    /// A prompt was submitted; the run is streaming.
    PromptSubmitted { run_id: u64 },
    /// A structured event from the running agent.
    ChainEvent(ChainEventData),
    /// A plain status line.
    PromptStatus(String),
    /// The agent run completed with its output.
    RunCompleted { result: String },
    /// The prompt flow failed.
    PromptFailed(String),
    /// Agent details were fetched.
    AgentInfoFetched { info: AgentInfo },
    /// Agent posts were fetched.
    PostsFetched { posts: Vec<MoltbookPost> },
    /// A fetch failed.
    FetchFailed(String),
    /// The user's agent data was restored from the server.
    AgentDataRestored { name: String, chain_address: String },
    /// An agent source was selected.
    AgentSourceSelected { custom_dir: Option<String> },
    /// A general error.
    Error(String),
}

/// Which screen is showing.
#[derive(Debug, Clone, PartialEq, Eq, Structural)]
pub enum AppScreen {
    Home,
    /// Email entry for the magic-link login.
    EmailInput,
    /// Waiting for the login callback.
    Auth,
    Create,
    Prompt,
    View,
}

/// What a screen's key handler asks of the application.
#[derive(Debug, Clone, PartialEq, Eq, Structural)]
pub enum ScreenAction {
    /// Stay on the current screen.
    Stay,
    /// Return to the home screen.
    GoHome,
}

/// How the user chose to log in.
#[derive(Debug, Clone)]
pub enum AuthMethod {
    Twitter,
    Email(String),
}

} // verus!
