//! What is exchanged with an inference provider.

use vstd::prelude::*;
use vstd::string::StringExecFns;
use crate::views::views;

verus! {

/// Who speaks in a message.
#[derive(Debug, Clone, Copy, PartialEq, Eq, Structural)]
pub enum Role {
    System,
    User,
    Assistant,
    Tool,
}

impl Role {
    /// The word under which the role is recorded.
    pub open spec fn word(self) -> Seq<char> {
        match self {
            Role::System => "system"@,
            Role::User => "user"@,
            Role::Assistant => "assistant"@,
            Role::Tool => "tool"@,
        }
    }

    /// The word under which the role is recorded.
    pub fn as_str(&self) -> (res: &'static str)
        ensures
            res@ == self.word(),
    {
        match self {
            Role::System => "system",
            Role::User => "user",
            Role::Assistant => "assistant",
            Role::Tool => "tool",
        }
    }

    /// The role that is recorded under a word, if the word is one of the
    /// four.
    pub open spec fn of_word(word: Seq<char>) -> Option<Role> {
        if word == "system"@ {
            Some(Role::System)
        } else if word == "user"@ {
            Some(Role::User)
        } else if word == "assistant"@ {
            Some(Role::Assistant)
        } else if word == "tool"@ {
            Some(Role::Tool)
        } else {
            None
        }
    }

    /// Reads a role from the word under which it is recorded.
    pub fn from_word(word: &str) -> (res: Option<Self>)
        ensures
            res == Self::of_word(word@),
    {
        let word = String::from_str(word);
        if word == String::from_str("system") {
            Some(Role::System)
        } else if word == String::from_str("user") {
            Some(Role::User)
        } else if word == String::from_str("assistant") {
            Some(Role::Assistant)
        } else if word == String::from_str("tool") {
            Some(Role::Tool)
        } else {
            None
        }
    }

    /// A role is read back from its word.
    pub proof fn lemma_word_reads_back(self)
        ensures
            Self::of_word(self.word()) == Some(self),
    {
        reveal_strlit("system");
        reveal_strlit("user");
        reveal_strlit("assistant");
        reveal_strlit("tool");
        assert("system"@.len() == 6);
        assert("user"@[0] == 'u');
        assert("assistant"@.len() == 9);
        assert("tool"@[0] == 't');
    }
}

/// A request of the model to run a tool. The `id` comes from the provider and
/// is the only tie between a call and its result.
#[derive(Debug, PartialEq)]
pub struct ToolCall {
    pub id: String,
    pub name: String,
    pub arguments: serde_json::Value,
}

/// The mathematical content of a [`ToolCall`].
pub struct ToolCallView {
    pub id: Seq<char>,
    pub name: Seq<char>,
    pub arguments: serde_json::Value,
}

impl View for ToolCall {
    type V = ToolCallView;

    open spec fn view(&self) -> ToolCallView {
        ToolCallView { id: self.id@, name: self.name@, arguments: self.arguments }
    }
}

impl Clone for ToolCall {
    fn clone(&self) -> (copy: Self)
        ensures
            copy == *self,
    {
        ToolCall { id: self.id.clone(), name: self.name.clone(), arguments: self.arguments.clone() }
    }
}

/// Copies a list of tool calls.
pub fn clone_calls(calls: &Vec<ToolCall>) -> (copy: Vec<ToolCall>)
    ensures
        copy@ == calls@,
{
    let mut copy: Vec<ToolCall> = Vec::new();
    let mut i: usize = 0;
    while i < calls.len()
        invariant
            0 <= i <= calls.len(),
            copy@ == calls@.take(i as int),
        decreases calls.len() - i,
    {
        copy.push(calls[i].clone());
        assert(calls@.take(i as int + 1) =~= calls@.take(i as int).push(calls@[i as int]));
        i = i + 1;
    }
    assert(calls@.take(i as int) =~= calls@);
    copy
}

/// One message of a conversation, as it is sent to the provider.
#[derive(Debug, PartialEq)]
pub struct InferenceMessage {
    pub role: Role,
    pub content: String,
    /// The tools that an assistant message asks for; empty in any other.
    pub tool_calls: Vec<ToolCall>,
    /// In a tool message, the call that it answers.
    pub tool_call_id: Option<String>,
}

/// The mathematical content of an [`InferenceMessage`].
pub struct MessageView {
    pub role: Role,
    pub content: Seq<char>,
    pub tool_calls: Seq<ToolCallView>,
    pub tool_call_id: Option<Seq<char>>,
}

impl MessageView {
    /// What a user said.
    pub open spec fn user(content: Seq<char>) -> MessageView {
        MessageView { role: Role::User, content, tool_calls: Seq::empty(), tool_call_id: None }
    }

    /// What the model answered, with the tools it asks for.
    pub open spec fn assistant(content: Seq<char>, tool_calls: Seq<ToolCallView>) -> MessageView {
        MessageView { role: Role::Assistant, content, tool_calls, tool_call_id: None }
    }

    /// The result of the tool call `id`.
    pub open spec fn tool(id: Seq<char>, content: Seq<char>) -> MessageView {
        MessageView {
            role: Role::Tool,
            content,
            tool_calls: Seq::empty(),
            tool_call_id: Some(id),
        }
    }
}

impl View for InferenceMessage {
    type V = MessageView;

    open spec fn view(&self) -> MessageView {
        MessageView {
            role: self.role,
            content: self.content@,
            tool_calls: views(self.tool_calls@),
            tool_call_id: match self.tool_call_id {
                Some(id) => Some(id@),
                None => None,
            },
        }
    }
}

impl Clone for InferenceMessage {
    fn clone(&self) -> (copy: Self)
        ensures
            copy@ == self@,
    {
        InferenceMessage {
            role: self.role,
            content: self.content.clone(),
            tool_calls: clone_calls(&self.tool_calls),
            tool_call_id: match &self.tool_call_id {
                Some(id) => Some(id.clone()),
                None => None,
            },
        }
    }
}

impl InferenceMessage {
    /// A message of the user.
    pub fn user(content: String) -> (msg: Self)
        ensures
            msg@ == MessageView::user(content@),
    {
        let msg = InferenceMessage {
            role: Role::User,
            content,
            tool_calls: Vec::new(),
            tool_call_id: None,
        };
        assert(msg@.tool_calls =~= Seq::empty());
        msg
    }

    /// A message of the model.
    pub fn assistant(content: String, tool_calls: Vec<ToolCall>) -> (msg: Self)
        ensures
            msg@ == MessageView::assistant(content@, views(tool_calls@)),
    {
        InferenceMessage { role: Role::Assistant, content, tool_calls, tool_call_id: None }
    }

    /// The result of a tool call.
    pub fn tool(tool_call_id: String, content: String) -> (msg: Self)
        ensures
            msg@ == MessageView::tool(tool_call_id@, content@),
    {
        let msg = InferenceMessage {
            role: Role::Tool,
            content,
            tool_calls: Vec::new(),
            tool_call_id: Some(tool_call_id),
        };
        assert(msg@.tool_calls =~= Seq::empty());
        msg
    }
}

/// The tokens that one inference call consumed and produced.
#[derive(Debug, Clone, Copy, PartialEq, Eq, Structural)]
pub struct Usage {
    pub input_tokens: u64,
    pub output_tokens: u64,
}

/// What the provider returns for one inference call.
#[derive(Debug, PartialEq)]
pub struct AssistantResult {
    pub content: String,
    pub tool_calls: Vec<ToolCall>,
    /// `None` where the provider reported no usage.
    pub usage: Option<Usage>,
}

/// The mathematical content of an [`AssistantResult`].
pub struct AssistantResultView {
    pub content: Seq<char>,
    pub tool_calls: Seq<ToolCallView>,
    pub usage: Option<Usage>,
}

impl View for AssistantResult {
    type V = AssistantResultView;

    open spec fn view(&self) -> AssistantResultView {
        AssistantResultView {
            content: self.content@,
            tool_calls: views(self.tool_calls@),
            usage: self.usage,
        }
    }
}

/// Why an inference call failed.
#[derive(Debug, PartialEq)]
pub enum ProviderError {
    /// A failure that may pass: the network, a 5xx status, a rate limit.
    Retryable(String),
    /// A failure that will not pass: authentication, another 4xx status, a
    /// malformed response.
    Fatal(String),
}

/// The mathematical content of a [`ProviderError`].
pub enum ProviderErrorView {
    Retryable(Seq<char>),
    Fatal(Seq<char>),
}

impl View for ProviderError {
    type V = ProviderErrorView;

    open spec fn view(&self) -> ProviderErrorView {
        match *self {
            ProviderError::Retryable(detail) => ProviderErrorView::Retryable(detail@),
            ProviderError::Fatal(detail) => ProviderErrorView::Fatal(detail@),
        }
    }
}

/// One piece of a streamed answer.
#[derive(Debug, PartialEq)]
pub enum StreamEvent {
    /// The next piece of the answer's text.
    Text(String),
    /// A tool call that the answer asks for.
    ToolCall(ToolCall),
    /// The usage as the provider counts it at this point of the stream.
    Usage(Usage),
}

/// The mathematical content of a [`StreamEvent`].
pub enum StreamEventView {
    Text(Seq<char>),
    ToolCall(ToolCallView),
    Usage(Usage),
}

impl View for StreamEvent {
    type V = StreamEventView;

    open spec fn view(&self) -> StreamEventView {
        match *self {
            StreamEvent::Text(text) => StreamEventView::Text(text@),
            StreamEvent::ToolCall(call) => StreamEventView::ToolCall(call@),
            StreamEvent::Usage(usage) => StreamEventView::Usage(usage),
        }
    }
}

impl AssistantResultView {
    /// The answer of which nothing has been received yet.
    pub open spec fn nothing() -> AssistantResultView {
        AssistantResultView { content: Seq::empty(), tool_calls: Seq::empty(), usage: None }
    }

    /// The answer after one more piece of the stream: text is added to the
    /// end of the content, a tool call to the end of the calls, and a count
    /// of the usage takes the place of the count before it.
    pub open spec fn extended(self, piece: StreamEventView) -> AssistantResultView {
        match piece {
            StreamEventView::Text(text) => AssistantResultView {
                content: self.content + text,
                ..self
            },
            StreamEventView::ToolCall(call) => AssistantResultView {
                tool_calls: self.tool_calls.push(call),
                ..self
            },
            StreamEventView::Usage(usage) => AssistantResultView { usage: Some(usage), ..self },
        }
    }

    /// The answer that a whole stream amounts to.
    pub open spec fn gathered(pieces: Seq<StreamEventView>) -> AssistantResultView
        decreases pieces.len(),
    {
        if pieces.len() == 0 {
            AssistantResultView::nothing()
        } else {
            AssistantResultView::gathered(pieces.drop_last()).extended(pieces.last())
        }
    }
}

impl AssistantResult {
    /// Gathers a streamed answer into one result, once the stream has ended.
    pub fn from_stream(pieces: &Vec<StreamEvent>) -> (result: Self)
        ensures
            result@ == AssistantResultView::gathered(views(pieces@)),
    {
        let mut result = AssistantResult {
            content: String::new(),
            tool_calls: Vec::new(),
            usage: None,
        };
        let mut i: usize = 0;
        proof {
            assert(views(pieces@).take(0) =~= Seq::<StreamEventView>::empty());
            assert(result@.tool_calls =~= Seq::<ToolCallView>::empty());
        }
        while i < pieces.len()
            invariant
                0 <= i <= pieces.len(),
                result@ == AssistantResultView::gathered(views(pieces@).take(i as int)),
            decreases pieces.len() - i,
        {
            proof {
                let all = views(pieces@);
                assert(all.take(i as int + 1).drop_last() =~= all.take(i as int));
                assert(all.take(i as int + 1).last() == pieces@[i as int]@);
            }
            match &pieces[i] {
                StreamEvent::Text(text) => {
                    result.content.append(text.as_str());
                },
                StreamEvent::ToolCall(call) => {
                    let copy = call.clone();
                    proof {
                        assert(views(result.tool_calls@.push(copy)) =~= views(
                            result.tool_calls@,
                        ).push(copy@));
                    }
                    result.tool_calls.push(copy);
                },
                StreamEvent::Usage(usage) => {
                    result.usage = Some(*usage);
                },
            }
            i = i + 1;
        }
        proof {
            assert(views(pieces@).take(i as int) =~= views(pieces@));
        }
        result
    }
}

} // verus!
