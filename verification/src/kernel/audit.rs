//! Counting what an event log shows.

use vstd::prelude::*;
use crate::inference::provider::{MessageView, ToolCallView};
use crate::kernel::event::EventView;
use crate::kernel::model::{call_end, call_ends, call_starts, ToolResultView};
use crate::kernel::session::{lemma_replay_push, SessionView};

verus! {

/// What an observer of an event log has counted.
pub struct Tally {
    /// The turn indices of the `TurnStart` events, in order.
    pub turn_starts: Seq<u32>,
    /// The ids of the `ToolCallStart` events, in order.
    pub started_calls: Seq<Seq<char>>,
    /// The ids of the `ToolCallEnd` events, in order.
    pub ended_calls: Seq<Seq<char>>,
    /// Whether `AgentEnd` was seen.
    pub ended: bool,
    /// The number of events seen after the first `AgentEnd`.
    pub after_end: nat,
}

impl Tally {
    /// The tally of an empty log.
    pub open spec fn zero() -> Tally {
        Tally {
            turn_starts: Seq::empty(),
            started_calls: Seq::empty(),
            ended_calls: Seq::empty(),
            ended: false,
            after_end: 0,
        }
    }

    /// The tally after one more event.
    pub open spec fn note(self, event: EventView) -> Tally {
        let seen = Tally {
            after_end: if self.ended {
                self.after_end + 1
            } else {
                self.after_end
            },
            ..self
        };
        match event {
            EventView::TurnStart { turn_index } => Tally {
                turn_starts: seen.turn_starts.push(turn_index),
                ..seen
            },
            EventView::ToolCallStart { id, .. } => Tally {
                started_calls: seen.started_calls.push(id),
                ..seen
            },
            EventView::ToolCallEnd { id, .. } => Tally {
                ended_calls: seen.ended_calls.push(id),
                ..seen
            },
            EventView::AgentEnd => Tally { ended: true, ..seen },
            _ => seen,
        }
    }

    /// The tally after a run of events.
    pub open spec fn note_all(self, events: Seq<EventView>) -> Tally
        decreases events.len(),
    {
        if events.len() == 0 {
            self
        } else {
            self.note_all(events.drop_last()).note(events.last())
        }
    }
}

/// The tally of a whole log.
pub open spec fn tally(log: Seq<EventView>) -> Tally {
    Tally::zero().note_all(log)
}

/// The ids of a list of tool calls, in order.
pub open spec fn call_ids(calls: Seq<ToolCallView>) -> Seq<Seq<char>> {
    Seq::new(calls.len(), |i: int| calls[i].id)
}

/// Noting a log and then one more event is noting the log with that event
/// at its end.
pub proof fn lemma_note_push(t: Tally, events: Seq<EventView>, event: EventView)
    ensures
        t.note_all(events.push(event)) == t.note_all(events).note(event),
{
    assert(events.push(event).drop_last() =~= events);
}

/// Noting two logs one after the other is noting their concatenation.
pub proof fn lemma_note_concat(t: Tally, first: Seq<EventView>, second: Seq<EventView>)
    ensures
        t.note_all(first + second) == t.note_all(first).note_all(second),
    decreases second.len(),
{
    if second.len() == 0 {
        assert(first + second =~= first);
    } else {
        lemma_note_concat(t, first, second.drop_last());
        assert((first + second).drop_last() =~= first + second.drop_last());
        assert((first + second).last() == second.last());
    }
}

/// Noting a log of one event is noting that event.
pub proof fn lemma_note_one(t: Tally, a: EventView)
    ensures
        t.note_all(seq![a]) == t.note(a),
{
    assert(seq![a] =~= Seq::<EventView>::empty().push(a));
    lemma_note_push(t, Seq::empty(), a);
}

/// Noting a log of two events is noting the first, then the second.
pub proof fn lemma_note_two(t: Tally, a: EventView, b: EventView)
    ensures
        t.note_all(seq![a, b]) == t.note(a).note(b),
{
    assert(seq![a, b] =~= seq![a].push(b));
    lemma_note_push(t, seq![a], b);
    lemma_note_one(t, a);
}

/// Replaying a log of one event is applying that event.
pub proof fn lemma_replay_one(s: SessionView, a: EventView)
    ensures
        s.replay(seq![a]) == s.apply(a),
{
    assert(seq![a] =~= Seq::<EventView>::empty().push(a));
    lemma_replay_push(s, Seq::empty(), a);
}

/// Replaying a log of two events is applying the first, then the second.
pub proof fn lemma_replay_two(s: SessionView, a: EventView, b: EventView)
    ensures
        s.replay(seq![a, b]) == s.apply(a).apply(b),
{
    assert(seq![a, b] =~= seq![a].push(b));
    lemma_replay_push(s, seq![a], b);
    lemma_replay_one(s, a);
}

/// Announcing tool calls adds their ids to the started calls and changes
/// nothing else, as long as the agent has not ended; the session stays as
/// it is.
pub proof fn lemma_call_starts(t: Tally, s: SessionView, calls: Seq<ToolCallView>)
    requires
        !t.ended,
    ensures
        t.note_all(call_starts(calls)) == (Tally {
            started_calls: t.started_calls + call_ids(calls),
            ..t
        }),
        s.replay(call_starts(calls)) == s,
    decreases calls.len(),
{
    let events = call_starts(calls);
    if calls.len() == 0 {
        assert(t.started_calls + call_ids(calls) =~= t.started_calls);
    } else {
        let shorter = calls.drop_last();
        lemma_call_starts(t, s, shorter);
        assert(events.drop_last() =~= call_starts(shorter));
        assert(t.started_calls + call_ids(calls) =~= (t.started_calls + call_ids(shorter)).push(
            calls.last().id,
        ));
    }
}

/// The tool messages that the ends of the given calls add to a history.
pub open spec fn tool_messages(
    calls: Seq<ToolCallView>,
    results: Seq<ToolResultView>,
) -> Seq<MessageView> {
    Seq::new(
        calls.len(),
        |i: int| MessageView::tool(calls[i].id, call_end(calls, results, i)->ToolCallEnd_output),
    )
}

/// Ending tool calls adds their ids to the ended calls and changes nothing
/// else in the tally, as long as the agent has not ended; in the session it
/// adds one tool message for each call, in the order of the calls.
pub proof fn lemma_call_ends(
    t: Tally,
    s: SessionView,
    calls: Seq<ToolCallView>,
    results: Seq<ToolResultView>,
)
    requires
        !t.ended,
    ensures
        t.note_all(call_ends(calls, results)) == (Tally {
            ended_calls: t.ended_calls + call_ids(calls),
            ..t
        }),
        s.replay(call_ends(calls, results)) == (SessionView {
            history: s.history + tool_messages(calls, results),
            ..s
        }),
{
    lemma_call_ends_prefix(t, s, calls, results, calls.len() as int);
    assert(call_ends(calls, results).take(calls.len() as int) =~= call_ends(calls, results));
    assert(call_ids(calls).take(calls.len() as int) =~= call_ids(calls));
    assert(tool_messages(calls, results).take(calls.len() as int) =~= tool_messages(
        calls,
        results,
    ));
}

proof fn lemma_call_ends_prefix(
    t: Tally,
    s: SessionView,
    calls: Seq<ToolCallView>,
    results: Seq<ToolResultView>,
    n: int,
)
    requires
        !t.ended,
        0 <= n <= calls.len(),
    ensures
        t.note_all(call_ends(calls, results).take(n)) == (Tally {
            ended_calls: t.ended_calls + call_ids(calls).take(n),
            ..t
        }),
        s.replay(call_ends(calls, results).take(n)) == (SessionView {
            history: s.history + tool_messages(calls, results).take(n),
            ..s
        }),
    decreases n,
{
    let events = call_ends(calls, results);
    if n == 0 {
        assert(t.ended_calls + call_ids(calls).take(0) =~= t.ended_calls);
        assert(s.history + tool_messages(calls, results).take(0) =~= s.history);
    } else {
        lemma_call_ends_prefix(t, s, calls, results, n - 1);
        assert(events.take(n).drop_last() =~= events.take(n - 1));
        assert(events.take(n).last() == call_end(calls, results, n - 1));
        assert(t.ended_calls + call_ids(calls).take(n) =~= (t.ended_calls + call_ids(calls).take(
            n - 1,
        )).push(calls[n - 1].id));
        assert(s.history + tool_messages(calls, results).take(n) =~= (s.history + tool_messages(
            calls,
            results,
        ).take(n - 1)).push(tool_messages(calls, results)[n - 1]));
    }
}

} // verus!
