//! Data carried between the client and the chain-side server.
//!
//! These are the payloads of the server's endpoints and of its event
//! stream, as plain values.  The HTTP transport that fills them lives
//! outside the library.

use vstd::prelude::*;

use crate::events::ChainEvent;

verus! {

/// Who the server says we are, and whether our wallet is funded.
#[derive(Debug, Clone)]
pub struct AuthMeResponse {
    pub user_id: String,
    pub has_wallet: bool,
    pub wallet_address: Option<String>,
}

/// Outcome of a wallet funding request.
#[derive(Debug, Clone)]
pub struct FundResponse {
    pub funded: bool,
    pub tx_hash: String,
    pub amount: String,
}

/// A wallet balance, raw and formatted.
#[derive(Debug, Clone)]
pub struct BalanceResponse {
    pub balance: String,
    pub balance_formatted: String,
}

/// The server-side id under which an agent was stored.
#[derive(Debug, Clone)]
pub struct StoreAgentResponse {
    pub agent_id: String,
}

/// Claim status of an agent on the social network.
#[derive(Debug, Clone)]
pub struct MoltbookStatusResponse {
    pub status: String,
    pub claimed: bool,
}

/// Outcome of compiling agent sources on the server.
#[derive(Debug, Clone)]
pub struct CompileResponse {
    pub success: bool,
    pub compiled_hex: Option<String>,
    pub errors: Vec<String>,
}

/// What the chain reported after an extrinsic was included.
#[derive(Debug, Clone)]
pub struct SubmitResponse {
    pub block_hash: String,
    pub block_number: u32,
    pub events: Vec<ChainEvent>,
}

/// Everything this client knows about one agent.
#[derive(Debug, Clone)]
pub struct AgentInfo {
    pub chain_info: Option<ChainAgentInfo>,
    pub moltbook_info: Option<MoltbookAgentInfo>,
}

/// The agent as the chain sees it.
#[derive(Debug, Clone)]
pub struct ChainAgentInfo {
    pub owner: String,
    pub name: String,
    pub active: bool,
    pub version: u32,
}

/// The agent as the social network sees it.
#[derive(Debug, Clone)]
pub struct MoltbookAgentInfo {
    pub name: String,
    pub description: Option<String>,
    pub claimed: bool,
    pub twitter_handle: Option<String>,
}

/// One post an agent made.
#[derive(Debug, Clone)]
pub struct MoltbookPost {
    pub id: String,
    pub title: Option<String>,
    pub content: Option<String>,
    pub submolt: Option<SubmoltInfo>,
    pub created_at: String,
    pub upvotes: u32,
    pub downvotes: u32,
    pub comment_count: u32,
    pub author: Option<AuthorInfo>,
}

/// The community a post was made in.
#[derive(Debug, Clone)]
pub struct SubmoltInfo {
    pub name: String,
    pub display_name: Option<String>,
}

/// Who wrote a post.
#[derive(Debug, Clone)]
pub struct AuthorInfo {
    pub name: String,
}

/// A page of an agent's posts.
#[derive(Debug, Clone)]
pub struct PostsResponse {
    pub posts: Vec<MoltbookPost>,
}

/// One agent in the user's list.
#[derive(Debug, Clone)]
pub struct AgentListItem {
    pub id: String,
    pub name: String,
    pub chain_address: Option<String>,
    pub created_at: String,
}

/// What the server hands back for an extrinsic to be signed locally:
/// the call payload and the chain metadata snapshot it is valid against.
#[derive(Debug, Clone)]
pub struct BuildExtrinsicResponse {
    pub call_data_hex: String,
    pub nonce: u64,
    pub genesis_hash: String,
    pub spec_version: u32,
    pub transaction_version: u32,
}

/// A decoded event from an agent run's event stream.
#[derive(Debug, Clone)]
pub enum ChainEventData {
    /// The run began.
    RunStarted { run_id: u64, agent_name: String, caller: String },
    /// The conversation so far, replacing what was shown before.
    Messages { run_id: u64, messages: Vec<ChatMessage> },
    /// Tools began executing.
    ToolsStarted { run_id: u64, tools: Vec<String> },
    /// Tools finished executing.
    ToolsCompleted { run_id: u64, tools: Vec<String> },
    /// The agent paused for user input.
    WaitingForInput { run_id: u64, reason: String, timeout_block: Option<u64> },
    /// The run resumed after a pause.
    Resumed { run_id: u64 },
    /// The run finished with its output.
    Completed { run_id: u64, output: String },
    /// The run failed.
    Failed { run_id: u64, reason: String },
    /// A routing decision between agent graph nodes.
    Routing { run_id: u64, result: bool, next_node: Option<u32> },
    /// An event the client does not model, kept as raw text.
    Raw { variant: String, data: String },
}

/// A message in the agent conversation.
#[derive(Debug, Clone)]
pub enum ChatMessage {
    /// The system prompt.
    System { content: String },
    /// What the user asked.
    User { content: String },
    /// The agent's turn: text, the tools it called, and any output.
    Assistant { content: Option<String>, tool_calls: Vec<ToolCallInfo>, output: Option<String> },
    /// What a tool call returned.
    ToolResult { tool_name: String, call_id: u64, success: bool, result: String },
}

/// One tool invocation by the agent.
#[derive(Debug, Clone)]
pub struct ToolCallInfo {
    pub call_id: u64,
    pub name: String,
    pub arguments: String,
}

} // verus!
