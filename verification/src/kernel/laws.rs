//! What holds of every run of a kernel.

use vstd::prelude::*;
use crate::inference::provider::{AssistantResultView, MessageView, ProviderErrorView, Role};
use crate::kernel::audit::{
    call_ids, lemma_call_ends, lemma_call_starts, lemma_note_concat, lemma_note_one,
    lemma_note_two, lemma_replay_one, lemma_replay_two, tally, tool_messages, Tally,
};
use crate::kernel::brackets::{
    brackets, ends_at, fits, lemma_orderly_log_fits, lemma_watch_call_ends,
    lemma_watch_call_starts, lemma_watch_concat, lemma_watch_one, lemma_watch_two, open_ids,
    pair_holds, same_turn, starts_at, Brackets,
};
use crate::kernel::event::{ErrorStage, EventView};
use crate::kernel::history::{answers, has_call, tool_messages_answered};
use crate::kernel::model::{
    call_ends, call_starts, find_result, zero_usage, Action, KernelView, Phase, ToolResultView,
    Transition,
};
use crate::kernel::session::{lemma_replay_concat, SessionView};

verus! {

/// What a driver can hand to a kernel.
pub enum Input {
    Enqueue(Seq<char>),
    BeginTurn,
    Inference(Result<AssistantResultView, ProviderErrorView>),
    Tools(Seq<ToolResultView>),
    ReloadHarness,
    EndSession,
}

impl KernelView {
    /// The step that a kernel takes on an input.
    pub open spec fn step(self, input: Input) -> Transition {
        match input {
            Input::Enqueue(prompt) => Transition {
                next: self.enqueue(prompt),
                events: Seq::empty(),
                action: Action::Wait,
            },
            Input::BeginTurn => self.begin_turn(),
            Input::Inference(outcome) => self.on_inference(outcome),
            Input::Tools(results) => self.on_tools(results),
            Input::ReloadHarness => self.reload_harness(),
            Input::EndSession => self.end_session(),
        }
    }
}

/// Where a kernel stands after a run of inputs, and all it has emitted.
pub struct Run {
    pub kernel: KernelView,
    pub log: Seq<EventView>,
}

/// The run of a kernel from `start` over `inputs`, one step per input.
pub open spec fn run(start: KernelView, inputs: Seq<Input>) -> Run
    decreases inputs.len(),
{
    if inputs.len() == 0 {
        Run { kernel: start, log: Seq::empty() }
    } else {
        let before = run(start, inputs.drop_last());
        let step = before.kernel.step(inputs.last());
        Run { kernel: step.next, log: before.log + step.events }
    }
}

/// A session with its queue replaced.
pub open spec fn with_queue(session: SessionView, queue: Seq<Seq<char>>) -> SessionView {
    SessionView { queue, ..session }
}

/// Events change neither the queue of a session nor its id, and what they do
/// to the rest does not depend on the queue.
pub proof fn lemma_replay_leaves_queue(
    session: SessionView,
    queue: Seq<Seq<char>>,
    events: Seq<EventView>,
)
    ensures
        session.replay(events).queue == session.queue,
        session.replay(events).id == session.id,
        with_queue(session, queue).replay(events) == with_queue(session.replay(events), queue),
    decreases events.len(),
{
    if events.len() > 0 {
        lemma_replay_leaves_queue(session, queue, events.drop_last());
    }
}

/// In one step a session changes as the replay of the emitted events says,
/// and in its queue.
pub proof fn lemma_step_replays(kernel: KernelView, input: Input)
    ensures
        ({
            let step = kernel.step(input);
            step.next.session == with_queue(
                kernel.session.replay(step.events),
                step.next.session.queue,
            )
        }),
{
    let step = kernel.step(input);
    lemma_replay_leaves_queue(kernel.session, step.next.session.queue, step.events);
    match input {
        Input::BeginTurn => {
            if kernel.phase == Phase::Idle && kernel.session.queue.len() > 0
                && kernel.session.turn_index != u32::MAX {
                let taken = with_queue(kernel.session, kernel.session.queue.drop_first());
                lemma_replay_leaves_queue(taken, kernel.session.queue, step.events);
                lemma_replay_leaves_queue(
                    kernel.session,
                    kernel.session.queue.drop_first(),
                    step.events,
                );
            }
        },
        _ => {},
    }
}

/// The in-memory session is the replay of the event log: after any run of a
/// kernel, its history, its token counters and its turn index are those
/// that replaying everything the run has emitted gives, from the session
/// the run began with.
pub proof fn lemma_log_replays(session: SessionView, inputs: Seq<Input>)
    ensures
        ({
            let end = run(KernelView::initial(session), inputs);
            let replayed = session.replay(end.log);
            &&& end.kernel.session.history == replayed.history
            &&& end.kernel.session.turn_index == replayed.turn_index
            &&& end.kernel.session.total_input_tokens == replayed.total_input_tokens
            &&& end.kernel.session.total_output_tokens == replayed.total_output_tokens
            &&& end.kernel.session.id == replayed.id
        }),
{
    lemma_run_replays(KernelView::initial(session), inputs);
}

/// The same for a run from any state.
pub proof fn lemma_run_replays(start: KernelView, inputs: Seq<Input>)
    ensures
        ({
            let end = run(start, inputs);
            end.kernel.session == with_queue(
                start.session.replay(end.log),
                end.kernel.session.queue,
            )
        }),
    decreases inputs.len(),
{
    if inputs.len() > 0 {
        let before = run(start, inputs.drop_last());
        let step = before.kernel.step(inputs.last());
        lemma_run_replays(start, inputs.drop_last());
        lemma_step_replays(before.kernel, inputs.last());
        lemma_replay_concat(start.session, before.log, step.events);
        lemma_replay_leaves_queue(
            start.session.replay(before.log),
            before.kernel.session.queue,
            step.events,
        );
    }
}

/// Whether a turn is under way in a phase.
pub open spec fn in_turn(phase: Phase) -> bool {
    phase is Infer || phase is Tools
}

/// Whether a sequence of turn indices counts up from `from` in steps of one.
pub open spec fn counts_up(indices: Seq<u32>, from: u32) -> bool {
    forall|i: int| 0 <= i < indices.len() ==> #[trigger] indices[i] == from + i
}

/// The ids of the calls that a kernel still waits for.
pub open spec fn awaited(kernel: KernelView) -> Seq<Seq<char>> {
    if kernel.phase == Phase::Tools {
        call_ids(kernel.pending)
    } else {
        Seq::empty()
    }
}

/// How a kernel and the tally of what it has emitted hang together, for a
/// kernel whose first turn has the index `first_turn`:
/// the turns that were started count up from `first_turn` to the turn index
/// of the session; every call that was started has ended or is awaited, in
/// the same order; and nothing was emitted after `AgentEnd`.
pub open spec fn coherent(first_turn: u32, kernel: KernelView, t: Tally) -> bool {
    &&& counts_up(t.turn_starts, first_turn)
    &&& first_turn + t.turn_starts.len() == kernel.session.turn_index + if in_turn(kernel.phase) {
        1int
    } else {
        0int
    }
    &&& in_turn(kernel.phase) ==> kernel.session.turn_index < u32::MAX
    &&& t.started_calls == t.ended_calls + awaited(kernel)
    &&& t.ended == (kernel.phase == Phase::Ended)
    &&& t.after_end == 0
}

proof fn lemma_closing(kernel: KernelView, t: Tally)
    requires
        !t.ended,
        kernel.session.turn_index < u32::MAX,
    ensures
        t.note_all(kernel.closing()) == t,
        forall|s: SessionView|
            s.turn_index == kernel.session.turn_index ==> (#[trigger] s.replay(
                kernel.closing(),
            )).turn_index == kernel.session.turn_index + 1,
{
    let end = EventView::TurnEnd { turn_index: kernel.session.turn_index };
    lemma_note_one(t, end);
    lemma_note_two(t, end, EventView::HarnessReloaded);
    assert forall|s: SessionView| s.turn_index == kernel.session.turn_index implies (
    #[trigger] s.replay(kernel.closing())).turn_index == kernel.session.turn_index + 1 by {
        lemma_replay_one(s, end);
        lemma_replay_two(s, end, EventView::HarnessReloaded);
    }
}

proof fn lemma_begin_turn_coherent(first_turn: u32, kernel: KernelView, t: Tally)
    requires
        coherent(first_turn, kernel, t),
    ensures
        coherent(
            first_turn,
            kernel.begin_turn().next,
            t.note_all(kernel.begin_turn().events),
        ),
{
    if kernel.phase == Phase::Idle {
        let greeting = if kernel.started {
            Seq::<EventView>::empty()
        } else {
            seq![EventView::AgentStart]
        };
        lemma_note_one(t, EventView::AgentStart);
        assert(t.note_all(greeting) == t);
        if kernel.session.queue.len() == 0 || kernel.session.turn_index == u32::MAX {
            lemma_replay_one(kernel.session, EventView::AgentStart);
        } else {
            let index = kernel.session.turn_index;
            let start = EventView::TurnStart { turn_index: index };
            let said = EventView::UserMessage { content: kernel.session.queue[0] };
            let taken = SessionView {
                queue: kernel.session.queue.drop_first(),
                ..kernel.session
            };
            lemma_note_concat(t, greeting, seq![start, said]);
            lemma_note_two(t, start, said);
            lemma_replay_concat(taken, greeting, seq![start, said]);
            lemma_replay_one(taken, EventView::AgentStart);
            lemma_replay_two(taken.replay(greeting), start, said);
            let after = t.note_all(kernel.begin_turn().events);
            assert(after.turn_starts == t.turn_starts.push(index));
            assert(counts_up(after.turn_starts, first_turn));
        }
    }
}

proof fn lemma_on_inference_coherent(
    first_turn: u32,
    kernel: KernelView,
    t: Tally,
    outcome: Result<AssistantResultView, ProviderErrorView>,
)
    requires
        coherent(first_turn, kernel, t),
    ensures
        coherent(
            first_turn,
            kernel.on_inference(outcome).next,
            t.note_all(kernel.on_inference(outcome).events),
        ),
{
    if kernel.phase is Infer {
        let s = kernel.session;
        lemma_closing(kernel, t);
        match outcome {
            Ok(result) => {
                let answer = EventView::AssistantMessage {
                    content: result.content,
                    tool_calls: result.tool_calls,
                    usage: match result.usage {
                        Some(usage) => usage,
                        None => zero_usage(),
                    },
                    usage_reported: result.usage.is_some(),
                };
                lemma_note_one(t, answer);
                lemma_replay_one(s, answer);
                if result.tool_calls.len() == 0 {
                    lemma_note_concat(t, seq![answer], kernel.closing());
                    lemma_replay_concat(s, seq![answer], kernel.closing());
                } else {
                    lemma_note_concat(t, seq![answer], call_starts(result.tool_calls));
                    lemma_replay_concat(s, seq![answer], call_starts(result.tool_calls));
                    lemma_call_starts(t, s.apply(answer), result.tool_calls);
                    assert(t.ended_calls + Seq::<Seq<char>>::empty() =~= t.ended_calls);
                }
            },
            Err(ProviderErrorView::Retryable(message)) => {
                lemma_fail_turn_coherent(first_turn, kernel, t, message);
            },
            Err(ProviderErrorView::Fatal(message)) => {
                lemma_fail_turn_coherent(first_turn, kernel, t, message);
            },
        }
    }
}

proof fn lemma_fail_turn_coherent(
    first_turn: u32,
    kernel: KernelView,
    t: Tally,
    message: Seq<char>,
)
    requires
        coherent(first_turn, kernel, t),
        kernel.phase is Infer,
    ensures
        coherent(
            first_turn,
            kernel.fail_turn(message).next,
            t.note_all(kernel.fail_turn(message).events),
        ),
{
    let failure = EventView::Error { stage: ErrorStage::Infer, message };
    lemma_closing(kernel, t);
    lemma_note_one(t, failure);
    lemma_replay_one(kernel.session, failure);
    lemma_note_concat(t, seq![failure], kernel.closing());
    lemma_replay_concat(kernel.session, seq![failure], kernel.closing());
}

proof fn lemma_on_tools_coherent(
    first_turn: u32,
    kernel: KernelView,
    t: Tally,
    results: Seq<ToolResultView>,
)
    requires
        coherent(first_turn, kernel, t),
    ensures
        coherent(
            first_turn,
            kernel.on_tools(results).next,
            t.note_all(kernel.on_tools(results).events),
        ),
{
    if kernel.phase == Phase::Tools {
        lemma_call_ends(t, kernel.session, kernel.pending, results);
        let after = t.note_all(kernel.on_tools(results).events);
        assert(after.ended_calls + Seq::<Seq<char>>::empty() =~= after.ended_calls);
    }
}

proof fn lemma_reload_coherent(first_turn: u32, kernel: KernelView, t: Tally)
    requires
        coherent(first_turn, kernel, t),
    ensures
        coherent(
            first_turn,
            kernel.reload_harness().next,
            t.note_all(kernel.reload_harness().events),
        ),
{
    lemma_note_one(t, EventView::HarnessReloaded);
    lemma_replay_one(kernel.session, EventView::HarnessReloaded);
}

proof fn lemma_end_session_coherent(first_turn: u32, kernel: KernelView, t: Tally)
    requires
        coherent(first_turn, kernel, t),
    ensures
        coherent(
            first_turn,
            kernel.end_session().next,
            t.note_all(kernel.end_session().events),
        ),
{
    let s = kernel.session;
    let turn_end = EventView::TurnEnd { turn_index: s.turn_index };
    let bye = seq![EventView::AgentEnd];
    match kernel.phase {
        Phase::Ended => {},
        Phase::Idle => {
            assert(Seq::<EventView>::empty() + bye =~= bye);
            lemma_note_one(t, EventView::AgentEnd);
            lemma_replay_one(s, EventView::AgentEnd);
        },
        Phase::Infer { .. } => {
            lemma_note_concat(t, seq![turn_end], bye);
            lemma_replay_concat(s, seq![turn_end], bye);
            lemma_note_one(t, turn_end);
            lemma_replay_one(s, turn_end);
            lemma_note_one(t.note(turn_end), EventView::AgentEnd);
            lemma_replay_one(s.apply(turn_end), EventView::AgentEnd);
        },
        Phase::Tools => {
            let ends = call_ends(kernel.pending, Seq::empty());
            lemma_call_ends(t, s, kernel.pending, Seq::empty());
            let counted = t.note_all(ends);
            let closed = s.replay(ends);
            lemma_note_concat(t, ends, seq![turn_end]);
            lemma_replay_concat(s, ends, seq![turn_end]);
            lemma_note_one(counted, turn_end);
            lemma_replay_one(closed, turn_end);
            lemma_note_concat(t, ends + seq![turn_end], bye);
            lemma_replay_concat(s, ends + seq![turn_end], bye);
            lemma_note_one(counted.note(turn_end), EventView::AgentEnd);
            lemma_replay_one(closed.apply(turn_end), EventView::AgentEnd);
            let after = t.note_all(kernel.end_session().events);
            assert(after.ended_calls + Seq::<Seq<char>>::empty() =~= after.ended_calls);
        },
    }
}

/// Every step keeps a kernel and its tally coherent.
pub proof fn lemma_step_coherent(first_turn: u32, kernel: KernelView, t: Tally, input: Input)
    requires
        coherent(first_turn, kernel, t),
    ensures
        coherent(first_turn, kernel.step(input).next, t.note_all(kernel.step(input).events)),
{
    match input {
        Input::Enqueue(_) => {},
        Input::BeginTurn => lemma_begin_turn_coherent(first_turn, kernel, t),
        Input::Inference(outcome) => lemma_on_inference_coherent(first_turn, kernel, t, outcome),
        Input::Tools(results) => lemma_on_tools_coherent(first_turn, kernel, t, results),
        Input::ReloadHarness => lemma_reload_coherent(first_turn, kernel, t),
        Input::EndSession => lemma_end_session_coherent(first_turn, kernel, t),
    }
}

/// After any run of a kernel over any session, the kernel and the tally of
/// its log are coherent.
pub proof fn lemma_run_coherent(session: SessionView, inputs: Seq<Input>)
    ensures
        ({
            let end = run(KernelView::initial(session), inputs);
            coherent(session.turn_index, end.kernel, tally(end.log))
        }),
    decreases inputs.len(),
{
    if inputs.len() == 0 {
        assert(Tally::zero().started_calls =~= Tally::zero().ended_calls + Seq::<
            Seq<char>,
        >::empty());
    } else {
        let start = KernelView::initial(session);
        let before = run(start, inputs.drop_last());
        let step = before.kernel.step(inputs.last());
        lemma_run_coherent(session, inputs.drop_last());
        lemma_step_coherent(session.turn_index, before.kernel, tally(before.log), inputs.last());
        lemma_note_concat(Tally::zero(), before.log, step.events);
    }
}

/// The turn indices on the `TurnStart` events of a log count up in steps of
/// one, without repeats or gaps, from the turn index that the session had at
/// the start: from 0 for a session in which nothing had happened.
pub proof fn lemma_turns_count_up(session: SessionView, inputs: Seq<Input>)
    ensures
        ({
            let log = run(KernelView::initial(session), inputs).log;
            forall|i: int|
                0 <= i < tally(log).turn_starts.len() ==> #[trigger] tally(log).turn_starts[i]
                    == session.turn_index + i
        }),
{
    lemma_run_coherent(session, inputs);
}

/// The tool calls that a log shows as started are those it shows as ended
/// and, while results are awaited, the pending ones, in the same order. So
/// whenever no results are awaited, every id is on as many `ToolCallStart`
/// events as `ToolCallEnd` events.
pub proof fn lemma_calls_start_and_end(session: SessionView, inputs: Seq<Input>)
    ensures
        ({
            let end = run(KernelView::initial(session), inputs);
            let t = tally(end.log);
            &&& t.started_calls == t.ended_calls + awaited(end.kernel)
            &&& end.kernel.phase != Phase::Tools ==> t.started_calls == t.ended_calls
            &&& end.kernel.phase != Phase::Tools ==> forall|id: Seq<char>|
                t.started_calls.to_multiset().count(id) == t.ended_calls.to_multiset().count(id)
        }),
{
    lemma_run_coherent(session, inputs);
    let end = run(KernelView::initial(session), inputs);
    let t = tally(end.log);
    if end.kernel.phase != Phase::Tools {
        assert(t.ended_calls + Seq::<Seq<char>>::empty() =~= t.ended_calls);
    }
}

/// Where the provider never hands out an id twice, so that no two
/// `ToolCallStart` events of a log share an id, every id that the log shows
/// is on exactly one `ToolCallStart` and, once no results are awaited, on
/// exactly one `ToolCallEnd`.
pub proof fn lemma_calls_end_once(session: SessionView, inputs: Seq<Input>, id: Seq<char>)
    requires
        ({
            let end = run(KernelView::initial(session), inputs);
            let t = tally(end.log);
            &&& end.kernel.phase != Phase::Tools
            &&& t.started_calls.no_duplicates()
            &&& t.started_calls.contains(id) || t.ended_calls.contains(id)
        }),
    ensures
        ({
            let t = tally(run(KernelView::initial(session), inputs).log);
            &&& t.started_calls.to_multiset().count(id) == 1
            &&& t.ended_calls.to_multiset().count(id) == 1
        }),
{
    lemma_calls_start_and_end(session, inputs);
    let t = tally(run(KernelView::initial(session), inputs).log);
    t.started_calls.to_multiset_ensures();
    t.started_calls.lemma_multiset_has_no_duplicates();
}

/// `AgentEnd` is the last event of a log: nothing is emitted after it.
pub proof fn lemma_nothing_after_agent_end(session: SessionView, inputs: Seq<Input>)
    ensures
        tally(run(KernelView::initial(session), inputs).log).after_end == 0,
{
    lemma_run_coherent(session, inputs);
}

/// The input tokens that the assistant messages of a log report, in sum.
pub open spec fn input_tokens(log: Seq<EventView>) -> nat
    decreases log.len(),
{
    if log.len() == 0 {
        0
    } else {
        input_tokens(log.drop_last()) + match log.last() {
            EventView::AssistantMessage { usage, .. } => usage.input_tokens as nat,
            _ => 0,
        }
    }
}

/// The output tokens that the assistant messages of a log report, in sum.
pub open spec fn output_tokens(log: Seq<EventView>) -> nat
    decreases log.len(),
{
    if log.len() == 0 {
        0
    } else {
        output_tokens(log.drop_last()) + match log.last() {
            EventView::AssistantMessage { usage, .. } => usage.output_tokens as nat,
            _ => 0,
        }
    }
}

/// A count as a 64-bit counter holds it: itself, or the largest value of the
/// counter where it is beyond that.
pub open spec fn capped(count: nat) -> u64 {
    if count > u64::MAX {
        u64::MAX
    } else {
        count as u64
    }
}

/// Replaying a log adds the usage of its assistant messages to the token
/// counters of a session.
pub proof fn lemma_replay_sums_usage(session: SessionView, log: Seq<EventView>)
    ensures
        session.replay(log).total_input_tokens == capped(
            session.total_input_tokens as nat + input_tokens(log),
        ),
        session.replay(log).total_output_tokens == capped(
            session.total_output_tokens as nat + output_tokens(log),
        ),
    decreases log.len(),
{
    if log.len() > 0 {
        lemma_replay_sums_usage(session, log.drop_last());
    }
}

/// The token counters of a session are the sums of the usage that the
/// provider reported, turn by turn, as long as the sums fit the counters.
pub proof fn lemma_totals_are_sums(session: SessionView, inputs: Seq<Input>)
    ensures
        ({
            let end = run(KernelView::initial(session), inputs);
            &&& end.kernel.session.total_input_tokens == capped(
                session.total_input_tokens as nat + input_tokens(end.log),
            )
            &&& end.kernel.session.total_output_tokens == capped(
                session.total_output_tokens as nat + output_tokens(end.log),
            )
        }),
{
    lemma_log_replays(session, inputs);
    lemma_replay_sums_usage(session, run(KernelView::initial(session), inputs).log);
}

/// What holds of the history of a kernel: its tool messages are answered,
/// and while results are awaited its last message is the assistant message
/// that asked for the pending calls.
pub open spec fn grounded(kernel: KernelView) -> bool {
    let history = kernel.session.history;
    &&& tool_messages_answered(history)
    &&& kernel.phase == Phase::Tools ==> history.len() > 0 && history.last().role
        == Role::Assistant && history.last().tool_calls == kernel.pending
}

proof fn lemma_push_keeps_answered(history: Seq<MessageView>, message: MessageView)
    requires
        tool_messages_answered(history),
        message.role != Role::Tool,
    ensures
        tool_messages_answered(history.push(message)),
{
    let longer = history.push(message);
    assert forall|i: int| 0 <= i < longer.len() && (#[trigger] longer[i]).role
        == Role::Tool implies exists|j: int| answers(longer, j, i) by {
        assert(i < history.len());
        assert(history[i].role == Role::Tool);
        let j = choose|j: int| answers(history, j, i);
        assert(forall|k: int| j < k < i ==> longer[k] == history[k]);
        assert(longer[j] == history[j]);
        assert(longer[i] == history[i]);
        assert(answers(longer, j, i));
    }
}

proof fn lemma_results_keep_answered(
    history: Seq<MessageView>,
    calls: Seq<crate::inference::provider::ToolCallView>,
    results: Seq<ToolResultView>,
)
    requires
        tool_messages_answered(history),
        history.len() > 0,
        history.last().role == Role::Assistant,
        history.last().tool_calls == calls,
    ensures
        tool_messages_answered(history + tool_messages(calls, results)),
{
    let added = tool_messages(calls, results);
    let longer = history + added;
    let asked = history.len() - 1;
    assert forall|i: int| 0 <= i < longer.len() && (#[trigger] longer[i]).role
        == Role::Tool implies exists|j: int| answers(longer, j, i) by {
        if i < history.len() {
            assert(history[i].role == Role::Tool);
            let j = choose|j: int| answers(history, j, i);
            assert(forall|k: int| j < k < i ==> longer[k] == history[k]);
            assert(longer[j] == history[j]);
            assert(longer[i] == history[i]);
            assert(answers(longer, j, i));
        } else {
            let c = i - history.len();
            assert(longer[i] == added[c]);
            assert(longer[asked] == history.last());
            assert forall|k: int| asked < k < i implies (#[trigger] longer[k]).role
                == Role::Tool by {
                assert(longer[k] == added[k - history.len()]);
            }
            assert(longer[asked].tool_calls[c].id == calls[c].id);
            assert(has_call(longer[asked], calls[c].id));
            assert(answers(longer, asked, i));
        }
    }
}

/// Every step keeps the history of a kernel grounded.
pub proof fn lemma_step_grounded(kernel: KernelView, input: Input)
    requires
        grounded(kernel),
    ensures
        grounded(kernel.step(input).next),
{
    let s = kernel.session;
    let t = Tally::zero();
    match input {
        Input::Enqueue(_) => {},
        Input::BeginTurn => {
            if kernel.phase == Phase::Idle {
                let greeting = if kernel.started {
                    Seq::<EventView>::empty()
                } else {
                    seq![EventView::AgentStart]
                };
                lemma_replay_one(s, EventView::AgentStart);
                if !(s.queue.len() == 0 || s.turn_index == u32::MAX) {
                    let start = EventView::TurnStart { turn_index: s.turn_index };
                    let said = EventView::UserMessage { content: s.queue[0] };
                    let taken = SessionView { queue: s.queue.drop_first(), ..s };
                    lemma_replay_concat(taken, greeting, seq![start, said]);
                    lemma_replay_one(taken, EventView::AgentStart);
                    lemma_replay_two(taken.replay(greeting), start, said);
                    lemma_push_keeps_answered(s.history, MessageView::user(s.queue[0]));
                }
            }
        },
        Input::Inference(outcome) => {
            if kernel.phase is Infer {
                let end = EventView::TurnEnd { turn_index: s.turn_index };
                match outcome {
                    Ok(result) => {
                        let answer = EventView::AssistantMessage {
                            content: result.content,
                            tool_calls: result.tool_calls,
                            usage: match result.usage {
                                Some(usage) => usage,
                                None => zero_usage(),
                            },
                            usage_reported: result.usage.is_some(),
                        };
                        lemma_replay_one(s, answer);
                        lemma_push_keeps_answered(
                            s.history,
                            MessageView::assistant(result.content, result.tool_calls),
                        );
                        if result.tool_calls.len() == 0 {
                            lemma_replay_concat(s, seq![answer], kernel.closing());
                            lemma_replay_one(s.apply(answer), end);
                            lemma_replay_two(s.apply(answer), end, EventView::HarnessReloaded);
                        } else {
                            lemma_replay_concat(s, seq![answer], call_starts(result.tool_calls));
                            lemma_call_starts(t, s.apply(answer), result.tool_calls);
                        }
                    },
                    Err(error) => {
                        let message = match error {
                            ProviderErrorView::Retryable(m) => m,
                            ProviderErrorView::Fatal(m) => m,
                        };
                        let failure = EventView::Error { stage: ErrorStage::Infer, message };
                        lemma_replay_one(s, failure);
                        lemma_replay_concat(s, seq![failure], kernel.closing());
                        lemma_replay_one(s.apply(failure), end);
                        lemma_replay_two(s.apply(failure), end, EventView::HarnessReloaded);
                    },
                }
            }
        },
        Input::Tools(results) => {
            if kernel.phase == Phase::Tools {
                lemma_call_ends(t, s, kernel.pending, results);
                lemma_results_keep_answered(s.history, kernel.pending, results);
            }
        },
        Input::ReloadHarness => {
            lemma_replay_one(s, EventView::HarnessReloaded);
        },
        Input::EndSession => {
            let end = EventView::TurnEnd { turn_index: s.turn_index };
            let bye = seq![EventView::AgentEnd];
            match kernel.phase {
                Phase::Ended => {},
                Phase::Idle => {
                    assert(Seq::<EventView>::empty() + bye =~= bye);
                    lemma_replay_one(s, EventView::AgentEnd);
                },
                Phase::Infer { .. } => {
                    lemma_replay_concat(s, seq![end], bye);
                    lemma_replay_one(s, end);
                    lemma_replay_one(s.apply(end), EventView::AgentEnd);
                },
                Phase::Tools => {
                    let ends = call_ends(kernel.pending, Seq::empty());
                    lemma_call_ends(t, s, kernel.pending, Seq::empty());
                    lemma_results_keep_answered(s.history, kernel.pending, Seq::empty());
                    let closed = s.replay(ends);
                    lemma_replay_concat(s, ends, seq![end]);
                    lemma_replay_one(closed, end);
                    lemma_replay_concat(s, ends + seq![end], bye);
                    lemma_replay_one(closed.apply(end), EventView::AgentEnd);
                },
            }
        },
    }
}

/// In the history of a kernel every tool message answers a call of the
/// assistant message just before its group of tool messages, provided that
/// this held of the history that the kernel began with, as it does of an
/// empty one.
pub proof fn lemma_tool_messages_answered(session: SessionView, inputs: Seq<Input>)
    requires
        tool_messages_answered(session.history),
    ensures
        grounded(run(KernelView::initial(session), inputs).kernel),
        tool_messages_answered(run(KernelView::initial(session), inputs).kernel.session.history),
    decreases inputs.len(),
{
    if inputs.len() > 0 {
        let before = run(KernelView::initial(session), inputs.drop_last());
        lemma_tool_messages_answered(session, inputs.drop_last());
        lemma_step_grounded(before.kernel, inputs.last());
    }
}

/// Whether an action asks the driver to send a request to the provider.
pub open spec fn asks_provider(action: Action) -> bool {
    action is CallProvider || action is RetryProvider
}

/// At most one inference request is in flight: the kernel asks for the
/// provider only as it enters or stays in the phase that waits for the
/// answer, and while it waits, only the answer makes it ask again.
pub proof fn lemma_one_request_in_flight(kernel: KernelView, input: Input)
    ensures
        asks_provider(kernel.step(input).action) ==> kernel.step(input).next.phase is Infer,
        kernel.phase is Infer && asks_provider(kernel.step(input).action) ==> input is Inference,
{
}

/// A result that `find_result` returns is one of the results and belongs to
/// the call asked for; where it returns none, no result belongs to the call.
pub proof fn lemma_find_result(results: Seq<ToolResultView>, index: int)
    ensures
        match find_result(results, index) {
            Some(result) => results.contains(result) && result.index == index,
            None => forall|k: int| 0 <= k < results.len() ==> (#[trigger] results[k]).index != index,
        },
    decreases results.len(),
{
    if results.len() > 0 && results[0].index != index {
        let rest = results.drop_first();
        lemma_find_result(rest, index);
        match find_result(rest, index) {
            Some(result) => {
                let k = choose|k: int| 0 <= k < rest.len() && rest[k] == result;
                assert(results[k + 1] == result);
            },
            None => {
                assert forall|k: int| 0 <= k < results.len() implies (#[trigger] results[k]).index
                    != index by {
                    if k > 0 {
                        assert(rest[k - 1] == results[k]);
                    }
                }
            },
        }
    }
}

/// Whether no two of the results belong to the same call.
pub open spec fn one_result_per_call(results: Seq<ToolResultView>) -> bool {
    forall|a: int, b: int|
        0 <= a < results.len() && 0 <= b < results.len() && a != b ==> (
        #[trigger] results[a]).index != (#[trigger] results[b]).index
}

/// The order in which the results of tool calls come in is immaterial: two
/// reports that hold the same results, one for each call at most, lead to
/// the same events and the same history.
pub proof fn lemma_order_of_results_is_immaterial(
    kernel: KernelView,
    first: Seq<ToolResultView>,
    second: Seq<ToolResultView>,
)
    requires
        first.to_multiset() == second.to_multiset(),
        one_result_per_call(first),
    ensures
        kernel.on_tools(first) == kernel.on_tools(second),
{
    first.to_multiset_ensures();
    second.to_multiset_ensures();
    assert forall|index: int| find_result(first, index) == find_result(second, index) by {
        lemma_find_result(first, index);
        lemma_find_result(second, index);
        match find_result(first, index) {
            Some(a) => {
                assert(first.to_multiset().count(a) > 0);
                assert(second.to_multiset().count(a) > 0);
                assert(second.contains(a));
                let k = choose|k: int| 0 <= k < second.len() && second[k] == a;
                assert(second[k].index == index);
                let b = find_result(second, index)->Some_0;
                assert(second.to_multiset().count(b) > 0);
                assert(first.to_multiset().count(b) > 0);
                assert(first.contains(b));
                let i = choose|i: int| 0 <= i < first.len() && first[i] == a;
                let j = choose|j: int| 0 <= j < first.len() && first[j] == b;
                assert(i == j);
            },
            None => {
                if let Some(b) = find_result(second, index) {
                    assert(second.to_multiset().count(b) > 0);
                    assert(first.to_multiset().count(b) > 0);
                    assert(first.contains(b));
                    let j = choose|j: int| 0 <= j < first.len() && first[j] == b;
                    assert(first[j].index == index);
                }
            },
        }
    }
    assert(call_ends(kernel.pending, first) =~= call_ends(kernel.pending, second));
}

/// Every pending call is ended, and with the outcome that was reported for
/// it: a call whose result is an error, as that of a tool that crashed or
/// ran out of time is, ends with the error flag set, and so does a call
/// for which nothing was reported.
pub proof fn lemma_every_call_is_ended(
    kernel: KernelView,
    results: Seq<ToolResultView>,
    index: int,
)
    requires
        kernel.phase == Phase::Tools,
        0 <= index < kernel.pending.len(),
    ensures
        kernel.on_tools(results).events.len() == kernel.pending.len(),
        kernel.on_tools(results).events[index] matches EventView::ToolCallEnd {
            id,
            output,
            is_error,
            ..
        } && id == kernel.pending[index].id && match find_result(results, index) {
            Some(result) => is_error == result.is_error && output == result.output,
            None => is_error,
        },
{
}

/// How a kernel and the reading of what it has emitted hang together: the
/// log is orderly, it is within a turn exactly when the kernel is, and the
/// calls it leaves open are those whose results the kernel awaits.
pub open spec fn bracketed(kernel: KernelView, b: Brackets) -> bool {
    &&& b.orderly
    &&& b.in_turn == in_turn(kernel.phase)
    &&& open_ids(b.open) == awaited(kernel)
}

proof fn lemma_closing_bracketed(kernel: KernelView, b: Brackets)
    requires
        b.orderly,
        b.in_turn,
        b.open.len() == 0,
    ensures
        b.watch_all(kernel.closing()).orderly,
        !b.watch_all(kernel.closing()).in_turn,
        b.watch_all(kernel.closing()).open == b.open,
{
    let end = EventView::TurnEnd { turn_index: kernel.session.turn_index };
    lemma_watch_one(b, end);
    lemma_watch_two(b, end, EventView::HarnessReloaded);
}

/// Every step keeps a kernel and the reading of its log bracketed.
pub proof fn lemma_step_bracketed(kernel: KernelView, b: Brackets, input: Input)
    requires
        bracketed(kernel, b),
    ensures
        bracketed(kernel.step(input).next, b.watch_all(kernel.step(input).events)),
{
    let none = Seq::<Seq<char>>::empty();
    assert(kernel.phase != Phase::Tools ==> b.open.len() == 0) by {
        if kernel.phase != Phase::Tools {
            assert(open_ids(b.open).len() == 0);
        }
    }
    match input {
        Input::Enqueue(_) => {},
        Input::BeginTurn => {
            if kernel.phase == Phase::Idle {
                let greeting = if kernel.started {
                    Seq::<EventView>::empty()
                } else {
                    seq![EventView::AgentStart]
                };
                lemma_watch_one(b, EventView::AgentStart);
                if !(kernel.session.queue.len() == 0 || kernel.session.turn_index == u32::MAX) {
                    let start = EventView::TurnStart { turn_index: kernel.session.turn_index };
                    let said = EventView::UserMessage { content: kernel.session.queue[0] };
                    lemma_watch_concat(b, greeting, seq![start, said]);
                    lemma_watch_two(b.watch_all(greeting), start, said);
                }
            }
        },
        Input::Inference(outcome) => {
            if kernel.phase is Infer {
                match outcome {
                    Ok(result) => {
                        let answer = EventView::AssistantMessage {
                            content: result.content,
                            tool_calls: result.tool_calls,
                            usage: match result.usage {
                                Some(usage) => usage,
                                None => zero_usage(),
                            },
                            usage_reported: result.usage.is_some(),
                        };
                        lemma_watch_one(b, answer);
                        if result.tool_calls.len() == 0 {
                            lemma_watch_concat(b, seq![answer], kernel.closing());
                            lemma_closing_bracketed(kernel, b.watch(answer));
                        } else {
                            lemma_watch_concat(b, seq![answer], call_starts(result.tool_calls));
                            lemma_watch_call_starts(b.watch(answer), result.tool_calls);
                            assert(none + call_ids(result.tool_calls) =~= call_ids(
                                result.tool_calls,
                            ));
                            assert(open_ids(b.open) =~= none);
                        }
                    },
                    Err(error) => {
                        let message = match error {
                            ProviderErrorView::Retryable(m) => m,
                            ProviderErrorView::Fatal(m) => m,
                        };
                        let failure = EventView::Error { stage: ErrorStage::Infer, message };
                        lemma_watch_one(b, failure);
                        lemma_watch_concat(b, seq![failure], kernel.closing());
                        lemma_closing_bracketed(kernel, b.watch(failure));
                    },
                }
            }
        },
        Input::Tools(results) => {
            if kernel.phase == Phase::Tools {
                lemma_watch_call_ends(b, kernel.pending, results);
                let after = b.watch_all(kernel.on_tools(results).events);
                assert(open_ids(after.open) =~= none);
            }
        },
        Input::ReloadHarness => {
            lemma_watch_one(b, EventView::HarnessReloaded);
        },
        Input::EndSession => {
            let end = EventView::TurnEnd { turn_index: kernel.session.turn_index };
            let bye = seq![EventView::AgentEnd];
            match kernel.phase {
                Phase::Ended => {},
                Phase::Idle => {
                    assert(Seq::<EventView>::empty() + bye =~= bye);
                    lemma_watch_one(b, EventView::AgentEnd);
                },
                Phase::Infer { .. } => {
                    lemma_watch_concat(b, seq![end], bye);
                    lemma_watch_one(b, end);
                    lemma_watch_one(b.watch(end), EventView::AgentEnd);
                },
                Phase::Tools => {
                    let ends = call_ends(kernel.pending, Seq::empty());
                    lemma_watch_call_ends(b, kernel.pending, Seq::empty());
                    let closed = b.watch_all(ends);
                    lemma_watch_concat(b, ends, seq![end]);
                    lemma_watch_one(closed, end);
                    lemma_watch_concat(b, ends + seq![end], bye);
                    lemma_watch_one(closed.watch(end), EventView::AgentEnd);
                    let after = b.watch_all(kernel.end_session().events);
                    assert(open_ids(after.open) =~= none);
                },
            }
        },
    }
}

/// The tool calls of a log are bracketed, whatever ids the provider hands
/// out. Every `ToolCallEnd` has a `ToolCallStart` of its own before it, with
/// the same id and within the same turn; every `ToolCallStart` has a
/// `ToolCallEnd` of its own after it or is among the calls whose results the
/// kernel awaits; no two calls share a start or an end; and a turn ends
/// only when no call is open.
pub proof fn lemma_calls_are_bracketed(session: SessionView, inputs: Seq<Input>)
    ensures
        ({
            let end = run(KernelView::initial(session), inputs);
            let b = brackets(end.log);
            &&& bracketed(end.kernel, b)
            &&& fits(end.log, b)
            &&& end.kernel.phase != Phase::Tools ==> b.open.len() == 0
        }),
    decreases inputs.len(),
{
    let start = KernelView::initial(session);
    let end = run(start, inputs);
    if inputs.len() == 0 {
        assert(open_ids(Brackets::zero().open) =~= Seq::<Seq<char>>::empty());
    } else {
        let before = run(start, inputs.drop_last());
        let step = before.kernel.step(inputs.last());
        lemma_calls_are_bracketed(session, inputs.drop_last());
        lemma_step_bracketed(before.kernel, brackets(before.log), inputs.last());
        lemma_watch_concat(Brackets::zero(), before.log, step.events);
    }
    lemma_orderly_log_fits(end.log);
    if end.kernel.phase != Phase::Tools {
        assert(open_ids(brackets(end.log).open).len() == 0);
    }
}

/// Whether no two `ToolCallStart` events of a log carry the same id.
pub open spec fn ids_start_once(log: Seq<EventView>) -> bool {
    forall|i: int, j: int, id: Seq<char>|
        #![trigger starts_at(log, i, id), starts_at(log, j, id)]
        starts_at(log, i, id) && starts_at(log, j, id) ==> i == j
}

/// Where the provider never hands out an id twice, every id that a log
/// shows is on exactly one `ToolCallStart` and, once no results are
/// awaited, on exactly one `ToolCallEnd`; the start comes before the end,
/// and both lie within the same turn.
pub proof fn lemma_each_call_starts_and_ends_once(
    session: SessionView,
    inputs: Seq<Input>,
    id: Seq<char>,
    at: int,
) -> (place: (int, int))
    requires
        ({
            let end = run(KernelView::initial(session), inputs);
            &&& end.kernel.phase != Phase::Tools
            &&& ids_start_once(end.log)
            &&& starts_at(end.log, at, id) || ends_at(end.log, at, id)
        }),
    ensures
        ({
            let log = run(KernelView::initial(session), inputs).log;
            &&& place.0 < place.1
            &&& starts_at(log, place.0, id)
            &&& ends_at(log, place.1, id)
            &&& same_turn(log, place.0, place.1)
            &&& forall|j: int| starts_at(log, j, id) ==> j == place.0
            &&& forall|j: int| ends_at(log, j, id) ==> j == place.1
        }),
{
    let log = run(KernelView::initial(session), inputs).log;
    let b = brackets(log);
    lemma_calls_are_bracketed(session, inputs);
    let k = if ends_at(log, at, id) {
        assert(log[at] is ToolCallEnd);
        choose|k: int| 0 <= k < b.pairs.len() && (#[trigger] b.pairs[k]).ended_at == at
    } else {
        assert(log[at] is ToolCallStart);
        choose|k: int| 0 <= k < b.pairs.len() && (#[trigger] b.pairs[k]).started_at == at
    };
    let pair = b.pairs[k];
    assert(pair_holds(log, pair));
    assert(pair.id == id);
    let place = (pair.started_at as int, pair.ended_at as int);
    assert forall|j: int| ends_at(log, j, id) implies j == place.1 by {
        assert(log[j] is ToolCallEnd);
        let other = choose|l: int| 0 <= l < b.pairs.len() && (#[trigger] b.pairs[l]).ended_at == j;
        assert(pair_holds(log, b.pairs[other]));
        assert(starts_at(log, b.pairs[other].started_at as int, id));
        assert(starts_at(log, place.0, id));
        assert(b.pairs[other].started_at == pair.started_at);
        if other < k {
            assert(b.pairs[other].started_at < b.pairs[k].started_at);
        } else if k < other {
            assert(b.pairs[k].started_at < b.pairs[other].started_at);
        }
    }
    place
}

} // verus!
