//! The plain shapes of the subcommand arguments. The surrounding process
//! parses the command line into these values and hands them in.

use vstd::prelude::*;

verus! {

/// Arguments of the session subcommand.
pub struct SessionSubCommand {
    /// Clear the current session context.
    pub clear: bool,
    /// View the current session context.
    pub view: bool,
}

/// Arguments of the view subcommand.
pub struct ViewSubCommand {}

/// Arguments of the config subcommand.
pub struct ConfigSubCommand {
    /// A `key=value` assignment to store.
    pub set: Option<String>,
    /// A key to read back.
    pub get: Option<String>,
}

/// Arguments of the image subcommand.
pub struct ImageSubCommand {
    /// Path of the image file to analyze.
    pub file: String,
    /// Additional prompt text to include with the image.
    pub prompt: Option<String>,
    /// Bound on the response length.
    pub max_tokens: u32,
}

/// Arguments of the embedding subcommand.
pub struct EmbeddingSubCommand {
    /// Text to embed; read from standard input when absent.
    pub text: Option<String>,
    /// The embedding model.
    pub model: String,
    /// Output file path; standard output when absent.
    pub output: Option<String>,
}

/// Arguments of the agent subcommand.
pub struct AgentSubCommand {
    /// Directory the agent is allowed to operate in.
    pub directory: String,
    /// The instruction to pursue.
    pub instruction: String,
    /// Files whose contents open the conversation as extra context.
    pub input: Option<Vec<String>>,
    /// Bound on the number of executed commands.
    pub max_actions: usize,
}

/// Arguments of the upgrade subcommand.
pub struct UpgradeSubCommand {}

} // verus!
