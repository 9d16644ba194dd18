//! The state of a session and how it follows from the event log.

use std::collections::VecDeque;
use vstd::prelude::*;
use crate::inference::provider::{clone_calls, InferenceMessage, MessageView};
use crate::kernel::event::{EventView, KernelEvent};
use crate::views::views;

verus! {

/// Whether a character is a decimal digit or one of `a` to `f`.
pub open spec fn is_lower_hex(c: char) -> bool {
    ('0' <= c && c <= '9') || ('a' <= c && c <= 'f')
}

/// Whether a text has the form of a random UUID in hyphenated lower-case
/// notation: 36 characters, hyphens after the groups of 8, 4, 4 and 4 digits,
/// hexadecimal digits elsewhere, and `4` as the version digit.
pub open spec fn is_session_id(text: Seq<char>) -> bool {
    &&& text.len() == 36
    &&& forall|i: int|
        0 <= i < 36 ==> if i == 8 || i == 13 || i == 18 || i == 23 {
            #[trigger] text[i] == '-'
        } else {
            is_lower_hex(text[i])
        }
    &&& text[14] == '4'
}

/// Calls `uuid::Uuid::new_v4` and formats the result with `to_string`.
/// The UUID is random, so only its form is known: `Display` writes the
/// hyphenated lower-case notation, and `new_v4` sets the version to 4.
#[verifier::external_body]
fn fresh_session_id() -> (id: String)
    ensures
        is_session_id(id@),
{
    uuid::Uuid::new_v4().to_string()
}

/// The sum of two counters, held at the largest value where it would pass it.
pub open spec fn saturating_sum(a: u64, b: u64) -> u64 {
    if a + b > u64::MAX {
        u64::MAX
    } else {
        (a + b) as u64
    }
}

/// The state of one conversation: what the next request to the provider is
/// built from. It mirrors the session's event log.
#[derive(Debug, PartialEq)]
pub struct SessionState {
    pub id: String,
    pub history: Vec<InferenceMessage>,
    /// Prompts that wait for their turn, oldest first.
    pub queue: VecDeque<String>,
    /// The index of the turn that runs now or, between turns, runs next.
    pub turn_index: u32,
    pub total_input_tokens: u64,
    pub total_output_tokens: u64,
}

/// The mathematical content of a [`SessionState`].
pub struct SessionView {
    pub id: Seq<char>,
    pub history: Seq<MessageView>,
    pub queue: Seq<Seq<char>>,
    pub turn_index: u32,
    pub total_input_tokens: u64,
    pub total_output_tokens: u64,
}

impl View for SessionState {
    type V = SessionView;

    open spec fn view(&self) -> SessionView {
        SessionView {
            id: self.id@,
            history: views(self.history@),
            queue: views(self.queue@),
            turn_index: self.turn_index,
            total_input_tokens: self.total_input_tokens,
            total_output_tokens: self.total_output_tokens,
        }
    }
}

impl SessionView {
    /// A session in which nothing has happened yet.
    pub open spec fn fresh(id: Seq<char>) -> SessionView {
        SessionView {
            id,
            history: Seq::empty(),
            queue: Seq::empty(),
            turn_index: 0,
            total_input_tokens: 0,
            total_output_tokens: 0,
        }
    }

    /// The session after one event of its log:
    /// a user message, an assistant message and the end of a tool call each
    /// add a message to the history; an assistant message adds its usage to
    /// the token counters; the end of a turn advances the turn index. Every
    /// other event leaves the session as it is.
    pub open spec fn apply(self, event: EventView) -> SessionView {
        match event {
            EventView::UserMessage { content } => SessionView {
                history: self.history.push(MessageView::user(content)),
                ..self
            },
            EventView::AssistantMessage { content, tool_calls, usage, .. } => SessionView {
                history: self.history.push(MessageView::assistant(content, tool_calls)),
                total_input_tokens: saturating_sum(self.total_input_tokens, usage.input_tokens),
                total_output_tokens: saturating_sum(self.total_output_tokens, usage.output_tokens),
                ..self
            },
            EventView::ToolCallEnd { id, output, .. } => SessionView {
                history: self.history.push(MessageView::tool(id, output)),
                ..self
            },
            EventView::TurnEnd { .. } => SessionView {
                turn_index: if self.turn_index < u32::MAX {
                    (self.turn_index + 1) as u32
                } else {
                    self.turn_index
                },
                ..self
            },
            _ => self,
        }
    }

    /// The session after a run of events, applied in order.
    pub open spec fn replay(self, events: Seq<EventView>) -> SessionView
        decreases events.len(),
    {
        if events.len() == 0 {
            self
        } else {
            self.replay(events.drop_last()).apply(events.last())
        }
    }
}

/// Replaying a log and then one more event is replaying the log with that
/// event at its end.
pub proof fn lemma_replay_push(session: SessionView, events: Seq<EventView>, event: EventView)
    ensures
        session.replay(events.push(event)) == session.replay(events).apply(event),
{
    assert(events.push(event).drop_last() =~= events);
}

/// Replaying two logs one after the other is replaying their concatenation.
pub proof fn lemma_replay_concat(session: SessionView, first: Seq<EventView>, second: Seq<EventView>)
    ensures
        session.replay(first + second) == session.replay(first).replay(second),
    decreases second.len(),
{
    if second.len() == 0 {
        assert(first + second =~= first);
    } else {
        lemma_replay_concat(session, first, second.drop_last());
        assert((first + second).drop_last() =~= first + second.drop_last());
        assert((first + second).last() == second.last());
    }
}

impl SessionState {
    /// A session with a fresh random id, an empty history and queue, turn
    /// index 0 and no tokens counted.
    pub fn new() -> (session: Self)
        ensures
            is_session_id(session.id@),
            session@ == SessionView::fresh(session.id@),
    {
        Self::with_id(fresh_session_id())
    }

    /// A session with the given id in which nothing has happened yet.
    pub fn with_id(id: String) -> (session: Self)
        ensures
            session@ == SessionView::fresh(id@),
    {
        let session = SessionState {
            id,
            history: Vec::new(),
            queue: VecDeque::new(),
            turn_index: 0,
            total_input_tokens: 0,
            total_output_tokens: 0,
        };
        assert(session@.history =~= Seq::empty());
        assert(session@.queue =~= Seq::empty());
        session
    }

    /// Brings the session up to date with one more event of its log.
    pub fn apply_event(&mut self, event: &KernelEvent)
        ensures
            final(self)@ == old(self)@.apply(event@),
    {
        match event {
            KernelEvent::UserMessage { content } => {
                let msg = InferenceMessage::user(content.clone());
                proof {
                    assert(views(self.history@.push(msg)) =~= views(self.history@).push(msg@));
                }
                self.history.push(msg);
            },
            KernelEvent::AssistantMessage { content, tool_calls, usage, .. } => {
                let msg = InferenceMessage::assistant(content.clone(), clone_calls(tool_calls));
                proof {
                    assert(views(self.history@.push(msg)) =~= views(self.history@).push(msg@));
                }
                self.history.push(msg);
                self.total_input_tokens = self.total_input_tokens.saturating_add(
                    usage.input_tokens,
                );
                self.total_output_tokens = self.total_output_tokens.saturating_add(
                    usage.output_tokens,
                );
            },
            KernelEvent::ToolCallEnd { id, output, .. } => {
                let msg = InferenceMessage::tool(id.clone(), output.clone());
                proof {
                    assert(views(self.history@.push(msg)) =~= views(self.history@).push(msg@));
                }
                self.history.push(msg);
            },
            KernelEvent::TurnEnd { .. } => {
                if self.turn_index < u32::MAX {
                    self.turn_index = self.turn_index + 1;
                }
            },
            _ => {},
        }
    }

    /// Rebuilds a session from its event log, oldest event first.
    pub fn replay(id: String, events: &Vec<KernelEvent>) -> (session: Self)
        ensures
            session@ == SessionView::fresh(id@).replay(views(events@)),
    {
        let mut session = Self::with_id(id);
        let mut i: usize = 0;
        while i < events.len()
            invariant
                0 <= i <= events.len(),
                session@ == SessionView::fresh(id@).replay(views(events@).take(i as int)),
            decreases events.len() - i,
        {
            proof {
                let all = views(events@);
                assert(all.take(i as int + 1) =~= all.take(i as int).push(events@[i as int]@));
                lemma_replay_push(SessionView::fresh(id@), all.take(i as int), events@[i as int]@);
            }
            session.apply_event(&events[i]);
            i = i + 1;
        }
        proof {
            assert(views(events@).take(i as int) =~= views(events@));
        }
        session
    }
}

} // verus!
