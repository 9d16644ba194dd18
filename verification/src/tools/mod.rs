//! The contract of tools: what they are given, what they hand back and how
//! they fail.

pub mod registry;

use vstd::prelude::*;
use vstd::string::StringExecFns;
use crate::json::{empty_json_object, json_error_message, json_error_text, json_text};
use crate::text::{decimal, decimal_string, join};

verus! {

/// `std::path::PathBuf`, carried through without a look inside.
#[verifier::external_type_specification]
#[verifier::external_body]
pub struct ExPathBuf(std::path::PathBuf);

/// `Clone::clone` of `std::path::PathBuf`: the copy holds the same path.
pub assume_specification[ <std::path::PathBuf as Clone>::clone ](
    path: &std::path::PathBuf,
) -> (res: std::path::PathBuf)
    ensures
        res == *path,
;

/// What a tool hands back after it ran.
#[derive(Debug, Clone, PartialEq)]
pub struct ToolOutput {
    /// The text that is fed back to the model.
    pub content: String,
    /// Structured data kept for logs and for the harness to inspect.
    pub metadata: serde_json::Value,
}

impl ToolOutput {
    /// An output with the given content and an empty JSON object as metadata.
    pub fn new(content: String) -> (out: Self)
        ensures
            out.content == content,
            json_text(out.metadata) == seq!['{', '}'],
    {
        ToolOutput { content, metadata: empty_json_object() }
    }
}

/// Why a tool call produced no output. None of these aborts a turn: each is
/// turned into the text of a tool result.
#[derive(Debug, PartialEq)]
pub enum ToolError {
    /// The tool ran and failed, or crashed.
    ExecutionError(String),
    /// The arguments did not fit the tool's parameters.
    InvalidParams(String),
    /// The tool refused to act on the arguments.
    PermissionDenied(String),
    /// No tool of this name is registered.
    Unknown(String),
    /// The tool did not finish within this many seconds.
    Timeout(u64),
    /// The session shut down while the tool was running.
    Cancelled,
}

/// The text for a tool that ran and failed, or crashed.
pub open spec fn execution_error_text(detail: Seq<char>) -> Seq<char> {
    "Tool execution failed: "@ + detail
}

/// The text for a call of a tool that is not registered.
pub open spec fn unknown_tool_text(name: Seq<char>) -> Seq<char> {
    "Unknown tool: "@ + name
}

/// The text for a tool that did not finish within `seconds` seconds.
pub open spec fn timeout_text(seconds: u64) -> Seq<char> {
    "tool timed out after "@ + decimal(seconds as nat) + "s"@
}

/// The text for a tool that was cancelled when its session shut down.
pub open spec fn cancelled_text() -> Seq<char> {
    "cancelled"@
}

impl ToolError {
    /// The text that a model sees for this error.
    pub open spec fn message_text(self) -> Seq<char> {
        match self {
            ToolError::ExecutionError(detail) => execution_error_text(detail@),
            ToolError::InvalidParams(detail) => "Invalid parameters: "@ + detail@,
            ToolError::PermissionDenied(detail) => "Permission denied: "@ + detail@,
            ToolError::Unknown(name) => unknown_tool_text(name@),
            ToolError::Timeout(seconds) => timeout_text(seconds),
            ToolError::Cancelled => cancelled_text(),
        }
    }

    /// Formats the error as the text of a tool result.
    pub fn message(&self) -> (res: String)
        ensures
            res@ == self.message_text(),
    {
        match self {
            ToolError::ExecutionError(detail) => join("Tool execution failed: ", detail.as_str()),
            ToolError::InvalidParams(detail) => join("Invalid parameters: ", detail.as_str()),
            ToolError::PermissionDenied(detail) => join("Permission denied: ", detail.as_str()),
            ToolError::Unknown(name) => join("Unknown tool: ", name.as_str()),
            ToolError::Timeout(seconds) => {
                let mut text = join("tool timed out after ", decimal_string(*seconds).as_str());
                text.append("s");
                text
            },
            ToolError::Cancelled => String::from_str("cancelled"),
        }
    }
}

/// What a tool may read about the call it serves.
#[derive(Debug, Clone, PartialEq)]
pub struct ToolContext {
    /// The directory that workspace-relative paths start from.
    pub workspace_root: std::path::PathBuf,
    /// The session on whose behalf the tool runs.
    pub session_id: String,
}

/// Turns the outcome of decoding a tool's arguments from JSON into the tool's
/// own result: a decoded value passes through, a decoding error becomes
/// `InvalidParams` with the decoder's message.
pub fn parse_args<T>(decoded: Result<T, serde_json::Error>) -> (res: Result<T, ToolError>)
    ensures
        match decoded {
            Ok(value) => res == Ok::<T, ToolError>(value),
            Err(error) => res matches Err(ToolError::InvalidParams(detail)) && detail@
                == json_error_text(error),
        },
{
    match decoded {
        Ok(value) => Ok(value),
        Err(error) => Err(ToolError::InvalidParams(json_error_message(&error))),
    }
}

} // verus!
