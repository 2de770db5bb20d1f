//! Requests, command-line arguments and other plain records of the service.
use vstd::prelude::*;

verus! {

/// A request to start a generation run.
pub struct ForgeRequest {
    pub intent: String,
    pub from_address: String,
    pub rpc_url: Option<String>,
    pub session_id: Option<String>,
}

/// A request to repair the script of an earlier session.
pub struct FixRequest {
    pub error: String,
    pub temp_dir: String,
    pub rpc_url: Option<String>,
}

/// One turn of a session's conversation with the code generator.
pub struct Turn {
    pub role: String,
    pub content: String,
}

/// The persisted conversation of a session, oldest turn first.
pub struct SessionData {
    pub messages: Vec<Turn>,
}

/// The subcommands of the server binary.
pub enum Commands {
    /// Start the web server.
    Server,
    /// Generate protocol guidelines from documentation links.
    GenerateGuidelines { protocol: String, links: String, output_dir: String },
}

/// The server binary's command line.
pub struct Cli {
    pub command: Option<Commands>,
}

/// Arguments that name an account and its key.
pub struct GenerateArgs {
    pub address: String,
    pub key: String,
    pub local: bool,
}

/// Arguments of a one-off script run.
pub struct ForgeArgs {
    pub intent: String,
    pub private_key: String,
    pub from: String,
    pub rpc_url: Option<String>,
}

/// An explorer API envelope.
pub struct EtherscanResponse<T> {
    pub status: String,
    pub message: String,
    pub result: T,
}

/// Verified source of a contract as an explorer reports it.
pub struct ContractSourceCode {
    pub source_code: String,
    pub abi: String,
    pub contract_name: String,
}

/// Verified source of a contract, as the explorer client reads it.
pub struct ContractInfo {
    pub source_code: String,
    pub contract_name: String,
    pub abi: String,
}

/// One token holding of an account.
pub struct TokenBalance {
    pub contract_address: String,
    pub token_balance: String,
}

/// The token holdings of an account, one page of them.
pub struct TokenBalancesResult {
    pub address: String,
    pub token_balances: Vec<TokenBalance>,
    pub page_key: Option<String>,
}

} // verus!
