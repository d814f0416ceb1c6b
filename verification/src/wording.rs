//! The fixed texts of the protocol. A client sees these and the model's
//! answers, and nothing else.

use vstd::prelude::*;

verus! {

/// Written once to a raw-stream client when it connects; ends in the prompt
/// marker.
pub const BANNER: &'static str =
    "Welcome to the elnet server!\nYou are now chatting with an LLM.\nType /help to view available commands.\n> ";

/// The answer to the help command.
pub const HELP_TEXT: &'static str =
    "Available commands:\n/help - View available commands\n/quit - Disconnect from the server\n";

/// Follows each answer on a raw stream.
pub const PROMPT_MARKER: &'static str = "> ";

/// Sent in place of an answer when the model could not be reached or
/// understood.
pub const FALLBACK: &'static str = "Error processing your request";

/// Stands for the answer when the upstream response holds none.
pub const PLACEHOLDER: &'static str = "no response produced";

} // verus!
