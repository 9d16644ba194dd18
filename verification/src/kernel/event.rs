//! The events that a kernel emits.

use vstd::prelude::*;
use vstd::string::StringExecFns;
use crate::inference::provider::{clone_calls, ToolCall, ToolCallView, Usage};
use crate::views::views;

verus! {

/// Which of the four verdicts a harness gave on a tool call.
#[derive(Debug, Clone, Copy, PartialEq, Eq, Structural)]
pub enum VerdictKind {
    Allow,
    Reject,
    Rewrite,
    Substitute,
}

impl VerdictKind {
    /// The word under which the verdict is recorded.
    pub open spec fn word(self) -> Seq<char> {
        match self {
            VerdictKind::Allow => "allow"@,
            VerdictKind::Reject => "reject"@,
            VerdictKind::Rewrite => "rewrite"@,
            VerdictKind::Substitute => "substitute"@,
        }
    }

    /// The word under which the verdict is recorded.
    pub fn as_str(&self) -> (res: &'static str)
        ensures
            res@ == self.word(),
    {
        match self {
            VerdictKind::Allow => "allow",
            VerdictKind::Reject => "reject",
            VerdictKind::Rewrite => "rewrite",
            VerdictKind::Substitute => "substitute",
        }
    }

    /// The verdict that is recorded under a word, if the word is one of the
    /// four.
    pub open spec fn of_word(word: Seq<char>) -> Option<VerdictKind> {
        if word == "allow"@ {
            Some(VerdictKind::Allow)
        } else if word == "reject"@ {
            Some(VerdictKind::Reject)
        } else if word == "rewrite"@ {
            Some(VerdictKind::Rewrite)
        } else if word == "substitute"@ {
            Some(VerdictKind::Substitute)
        } else {
            None
        }
    }

    /// Reads a verdict from the word under which it is recorded.
    pub fn from_word(word: &str) -> (res: Option<Self>)
        ensures
            res == Self::of_word(word@),
    {
        let word = String::from_str(word);
        if word == String::from_str("allow") {
            Some(VerdictKind::Allow)
        } else if word == String::from_str("reject") {
            Some(VerdictKind::Reject)
        } else if word == String::from_str("rewrite") {
            Some(VerdictKind::Rewrite)
        } else if word == String::from_str("substitute") {
            Some(VerdictKind::Substitute)
        } else {
            None
        }
    }

    /// A verdict is read back from its word.
    pub proof fn lemma_word_reads_back(self)
        ensures
            Self::of_word(self.word()) == Some(self),
    {
        reveal_strlit("allow");
        reveal_strlit("reject");
        reveal_strlit("rewrite");
        reveal_strlit("substitute");
        assert("allow"@.len() == 5);
        assert("reject"@.len() == 6);
        assert("rewrite"@.len() == 7);
        assert("substitute"@.len() == 10);
    }
}

/// The step of the kernel at which an error arose.
#[derive(Debug, Clone, Copy, PartialEq, Eq, Structural)]
pub enum ErrorStage {
    Infer,
    Persist,
    Harness,
}

impl ErrorStage {
    /// The word under which the stage is recorded.
    pub open spec fn word(self) -> Seq<char> {
        match self {
            ErrorStage::Infer => "infer"@,
            ErrorStage::Persist => "persist"@,
            ErrorStage::Harness => "harness"@,
        }
    }

    /// The word under which the stage is recorded.
    pub fn as_str(&self) -> (res: &'static str)
        ensures
            res@ == self.word(),
    {
        match self {
            ErrorStage::Infer => "infer",
            ErrorStage::Persist => "persist",
            ErrorStage::Harness => "harness",
        }
    }

    /// The stage that is recorded under a word, if the word is one of the
    /// three.
    pub open spec fn of_word(word: Seq<char>) -> Option<ErrorStage> {
        if word == "infer"@ {
            Some(ErrorStage::Infer)
        } else if word == "persist"@ {
            Some(ErrorStage::Persist)
        } else if word == "harness"@ {
            Some(ErrorStage::Harness)
        } else {
            None
        }
    }

    /// Reads a stage from the word under which it is recorded.
    pub fn from_word(word: &str) -> (res: Option<Self>)
        ensures
            res == Self::of_word(word@),
    {
        let word = String::from_str(word);
        if word == String::from_str("infer") {
            Some(ErrorStage::Infer)
        } else if word == String::from_str("persist") {
            Some(ErrorStage::Persist)
        } else if word == String::from_str("harness") {
            Some(ErrorStage::Harness)
        } else {
            None
        }
    }

    /// A stage is read back from its word.
    pub proof fn lemma_word_reads_back(self)
        ensures
            Self::of_word(self.word()) == Some(self),
    {
        reveal_strlit("infer");
        reveal_strlit("persist");
        reveal_strlit("harness");
        assert("infer"@.len() == 5);
        assert("persist"@[0] == 'p');
        assert("harness"@[0] == 'h');
    }
}

/// What the kernel publishes as it works. The log of these events, in the
/// order of emission, is the authority on a session's state.
#[derive(Debug, PartialEq)]
pub enum KernelEvent {
    AgentStart,
    AgentEnd,
    TurnStart { turn_index: u32 },
    TurnEnd { turn_index: u32 },
    UserMessage { content: String },
    /// The model's answer. `usage` is zero where the provider reported none,
    /// and `usage_reported` tells the two apart.
    AssistantMessage {
        content: String,
        tool_calls: Vec<ToolCall>,
        usage: Usage,
        usage_reported: bool,
    },
    ToolCallStart { id: String, name: String, args: serde_json::Value },
    /// The end of a tool call. `output` is the text handed back to the model,
    /// an error's text where `is_error` holds. `rewritten_args` holds the
    /// arguments that a harness put in place of the call's own.
    ToolCallEnd {
        id: String,
        output: String,
        is_error: bool,
        duration_ms: u64,
        verdict: VerdictKind,
        rewritten_args: Option<serde_json::Value>,
    },
    HarnessReloaded,
    Error { stage: ErrorStage, message: String },
}

/// The mathematical content of a [`KernelEvent`].
pub enum EventView {
    AgentStart,
    AgentEnd,
    TurnStart { turn_index: u32 },
    TurnEnd { turn_index: u32 },
    UserMessage { content: Seq<char> },
    AssistantMessage {
        content: Seq<char>,
        tool_calls: Seq<ToolCallView>,
        usage: Usage,
        usage_reported: bool,
    },
    ToolCallStart { id: Seq<char>, name: Seq<char>, args: serde_json::Value },
    ToolCallEnd {
        id: Seq<char>,
        output: Seq<char>,
        is_error: bool,
        duration_ms: u64,
        verdict: VerdictKind,
        rewritten_args: Option<serde_json::Value>,
    },
    HarnessReloaded,
    Error { stage: ErrorStage, message: Seq<char> },
}

impl EventView {
    /// The token count that the `messages` table records for the message
    /// of this event: the output tokens of an assistant message whose usage
    /// the provider reported, held at the largest 32-bit count; none for
    /// any other event.
    pub open spec fn token_count(self) -> Option<u32> {
        match self {
            EventView::AssistantMessage { usage, usage_reported, .. } => if usage_reported {
                Some(
                    if usage.output_tokens > u32::MAX {
                        u32::MAX
                    } else {
                        usage.output_tokens as u32
                    },
                )
            } else {
                None
            },
            _ => None,
        }
    }

    /// The name of the event's type in the log.
    pub open spec fn kind_name(self) -> Seq<char> {
        match self {
            EventView::AgentStart => "agent_start"@,
            EventView::AgentEnd => "agent_end"@,
            EventView::TurnStart { .. } => "turn_start"@,
            EventView::TurnEnd { .. } => "turn_end"@,
            EventView::UserMessage { .. } => "user_message"@,
            EventView::AssistantMessage { .. } => "assistant_message"@,
            EventView::ToolCallStart { .. } => "tool_call_start"@,
            EventView::ToolCallEnd { .. } => "tool_call_end"@,
            EventView::HarnessReloaded => "harness_reloaded"@,
            EventView::Error { .. } => "error"@,
        }
    }
}

impl View for KernelEvent {
    type V = EventView;

    open spec fn view(&self) -> EventView {
        match *self {
            KernelEvent::AgentStart => EventView::AgentStart,
            KernelEvent::AgentEnd => EventView::AgentEnd,
            KernelEvent::TurnStart { turn_index } => EventView::TurnStart { turn_index },
            KernelEvent::TurnEnd { turn_index } => EventView::TurnEnd { turn_index },
            KernelEvent::UserMessage { content } => EventView::UserMessage { content: content@ },
            KernelEvent::AssistantMessage { content, tool_calls, usage, usage_reported } =>
                EventView::AssistantMessage {
                content: content@,
                tool_calls: views(tool_calls@),
                usage,
                usage_reported,
            },
            KernelEvent::ToolCallStart { id, name, args } => EventView::ToolCallStart {
                id: id@,
                name: name@,
                args,
            },
            KernelEvent::ToolCallEnd {
                id,
                output,
                is_error,
                duration_ms,
                verdict,
                rewritten_args,
            } => EventView::ToolCallEnd {
                id: id@,
                output: output@,
                is_error,
                duration_ms,
                verdict,
                rewritten_args,
            },
            KernelEvent::HarnessReloaded => EventView::HarnessReloaded,
            KernelEvent::Error { stage, message } => EventView::Error { stage, message: message@ },
        }
    }
}

impl Clone for KernelEvent {
    fn clone(&self) -> (copy: Self)
        ensures
            copy@ == self@,
    {
        match self {
            KernelEvent::AgentStart => KernelEvent::AgentStart,
            KernelEvent::AgentEnd => KernelEvent::AgentEnd,
            KernelEvent::TurnStart { turn_index } => KernelEvent::TurnStart {
                turn_index: *turn_index,
            },
            KernelEvent::TurnEnd { turn_index } => KernelEvent::TurnEnd { turn_index: *turn_index },
            KernelEvent::UserMessage { content } => KernelEvent::UserMessage {
                content: content.clone(),
            },
            KernelEvent::AssistantMessage { content, tool_calls, usage, usage_reported } =>
                KernelEvent::AssistantMessage {
                content: content.clone(),
                tool_calls: clone_calls(tool_calls),
                usage: *usage,
                usage_reported: *usage_reported,
            },
            KernelEvent::ToolCallStart { id, name, args } => KernelEvent::ToolCallStart {
                id: id.clone(),
                name: name.clone(),
                args: args.clone(),
            },
            KernelEvent::ToolCallEnd {
                id,
                output,
                is_error,
                duration_ms,
                verdict,
                rewritten_args,
            } => KernelEvent::ToolCallEnd {
                id: id.clone(),
                output: output.clone(),
                is_error: *is_error,
                duration_ms: *duration_ms,
                verdict: *verdict,
                rewritten_args: match rewritten_args {
                    Some(args) => Some(args.clone()),
                    None => None,
                },
            },
            KernelEvent::HarnessReloaded => KernelEvent::HarnessReloaded,
            KernelEvent::Error { stage, message } => KernelEvent::Error {
                stage: *stage,
                message: message.clone(),
            },
        }
    }
}

impl KernelEvent {
    /// The token count that the `messages` table records for the message
    /// of this event.
    pub fn token_count(&self) -> (count: Option<u32>)
        ensures
            count == self@.token_count(),
    {
        match self {
            KernelEvent::AssistantMessage { usage, usage_reported, .. } => {
                if !*usage_reported {
                    None
                } else if usage.output_tokens > 0xffff_ffff {
                    Some(0xffff_ffff)
                } else {
                    Some(usage.output_tokens as u32)
                }
            },
            _ => None,
        }
    }

    /// The name of the event's type in the log.
    pub fn kind_name(&self) -> (res: &'static str)
        ensures
            res@ == self@.kind_name(),
    {
        match self {
            KernelEvent::AgentStart => "agent_start",
            KernelEvent::AgentEnd => "agent_end",
            KernelEvent::TurnStart { .. } => "turn_start",
            KernelEvent::TurnEnd { .. } => "turn_end",
            KernelEvent::UserMessage { .. } => "user_message",
            KernelEvent::AssistantMessage { .. } => "assistant_message",
            KernelEvent::ToolCallStart { .. } => "tool_call_start",
            KernelEvent::ToolCallEnd { .. } => "tool_call_end",
            KernelEvent::HarnessReloaded => "harness_reloaded",
            KernelEvent::Error { .. } => "error",
        }
    }
}

} // verus!
