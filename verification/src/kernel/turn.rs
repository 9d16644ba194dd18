//! The turn loop as a machine that a driver steps.

use vstd::prelude::*;
use vstd::string::StringExecFns;
use crate::inference::provider::{
    clone_calls, AssistantResult, AssistantResultView, ProviderError, ProviderErrorView, ToolCall,
    Usage,
};
use crate::kernel::backoff::Backoff;
use crate::kernel::dispatch::ToolReply;
use crate::kernel::event::{ErrorStage, EventView, KernelEvent, VerdictKind};
use crate::kernel::model::{
    call_end, call_ends, call_starts, find_result, Action, KernelView, Phase, ToolResultView,
};
use crate::kernel::session::{lemma_replay_push, SessionState, SessionView};
use crate::views::views;

verus! {

/// The outcome of one tool call as the driver reports it to the kernel.
#[derive(Debug, PartialEq)]
pub struct ToolCallResult {
    /// The position of the call in the assistant message that asked for it.
    pub index: usize,
    pub duration_ms: u64,
    pub reply: ToolReply,
}

impl View for ToolCallResult {
    type V = ToolResultView;

    open spec fn view(&self) -> ToolResultView {
        ToolResultView {
            index: self.index,
            output: self.reply.output@,
            is_error: self.reply.is_error,
            duration_ms: self.duration_ms,
            verdict: self.reply.verdict,
            rewritten_args: self.reply.rewritten_args,
        }
    }
}

/// The turn loop of one session, as a machine that is stepped from outside.
///
/// The kernel decides; its driver acts. Each step takes what the driver has
/// to report, returns the events to publish, in order, and says what to do
/// next. The session changes only by the events that are emitted, so the
/// event log always tells the session's state.
#[derive(Debug)]
pub struct Kernel {
    session: SessionState,
    phase: Phase,
    started: bool,
    pending: Vec<ToolCall>,
    reload_pending: bool,
}

impl View for Kernel {
    type V = KernelView;

    closed spec fn view(&self) -> KernelView {
        KernelView {
            session: self.session@,
            phase: self.phase,
            started: self.started,
            pending: views(self.pending@),
            reload_pending: self.reload_pending,
        }
    }
}

/// Applies an event to the session and adds it to the events of the step.
fn emit(
    session: &mut SessionState,
    out: &mut Vec<KernelEvent>,
    event: KernelEvent,
    Ghost(origin): Ghost<SessionView>,
)
    requires
        old(session)@ == origin.replay(views(old(out)@)),
    ensures
        final(session)@ == origin.replay(views(final(out)@)),
        views(final(out)@) == views(old(out)@).push(event@),
        final(out)@ == old(out)@.push(event),
{
    proof {
        lemma_replay_push(origin, views(out@), event@);
        assert(views(out@.push(event)) =~= views(out@).push(event@));
    }
    session.apply_event(&event);
    out.push(event);
}

/// Finds the first reported result that belongs to the call at `index`.
fn position_of_result(results: &Vec<ToolCallResult>, index: usize) -> (res: Option<usize>)
    ensures
        match res {
            Some(j) => j < results.len() && find_result(views(results@), index as int) == Some(
                results@[j as int]@,
            ),
            None => find_result(views(results@), index as int).is_none(),
        },
{
    let mut j: usize = 0;
    proof {
        assert(views(results@).skip(0) =~= views(results@));
    }
    while j < results.len()
        invariant
            0 <= j <= results.len(),
            find_result(views(results@), index as int) == find_result(
                views(results@).skip(j as int),
                index as int,
            ),
        decreases results.len() - j,
    {
        proof {
            let rest = views(results@).skip(j as int);
            assert(rest[0] == results@[j as int]@);
            assert(rest.drop_first() =~= views(results@).skip(j as int + 1));
        }
        if results[j].index == index {
            return Some(j);
        }
        j = j + 1;
    }
    None
}

/// Emits the announcement of each call, in order.
fn emit_call_starts(
    session: &mut SessionState,
    out: &mut Vec<KernelEvent>,
    calls: &Vec<ToolCall>,
    Ghost(origin): Ghost<SessionView>,
)
    requires
        old(session)@ == origin.replay(views(old(out)@)),
    ensures
        final(session)@ == origin.replay(views(final(out)@)),
        views(final(out)@) == views(old(out)@) + call_starts(views(calls@)),
{
    let ghost wanted = call_starts(views(calls@));
    let mut i: usize = 0;
    proof {
        assert(views(out@) =~= views(old(out)@) + wanted.take(0));
    }
    while i < calls.len()
        invariant
            0 <= i <= calls.len(),
            wanted == call_starts(views(calls@)),
            session@ == origin.replay(views(out@)),
            views(out@) == views(old(out)@) + wanted.take(i as int),
        decreases calls.len() - i,
    {
        let call = &calls[i];
        let event = KernelEvent::ToolCallStart {
            id: call.id.clone(),
            name: call.name.clone(),
            args: call.arguments.clone(),
        };
        proof {
            assert(event@ == wanted[i as int]);
            assert(wanted.take(i as int + 1) =~= wanted.take(i as int).push(wanted[i as int]));
            assert((views(old(out)@) + wanted.take(i as int)).push(wanted[i as int]) =~= views(
                old(out)@,
            ) + wanted.take(i as int + 1));
        }
        emit(session, out, event, Ghost(origin));
        i = i + 1;
    }
    proof {
        assert(wanted.take(i as int) =~= wanted);
    }
}

/// Emits the end of each call, in the order of the calls, from the results
/// that were reported.
fn emit_call_ends(
    session: &mut SessionState,
    out: &mut Vec<KernelEvent>,
    calls: &Vec<ToolCall>,
    results: &Vec<ToolCallResult>,
    Ghost(origin): Ghost<SessionView>,
)
    requires
        old(session)@ == origin.replay(views(old(out)@)),
    ensures
        final(session)@ == origin.replay(views(final(out)@)),
        views(final(out)@) == views(old(out)@) + call_ends(views(calls@), views(results@)),
{
    let ghost wanted = call_ends(views(calls@), views(results@));
    let mut i: usize = 0;
    proof {
        assert(views(out@) =~= views(old(out)@) + wanted.take(0));
    }
    while i < calls.len()
        invariant
            0 <= i <= calls.len(),
            wanted == call_ends(views(calls@), views(results@)),
            session@ == origin.replay(views(out@)),
            views(out@) == views(old(out)@) + wanted.take(i as int),
        decreases calls.len() - i,
    {
        let id = calls[i].id.clone();
        let event = match position_of_result(results, i) {
            Some(j) => {
                let result = &results[j];
                KernelEvent::ToolCallEnd {
                    id,
                    output: result.reply.output.clone(),
                    is_error: result.reply.is_error,
                    duration_ms: result.duration_ms,
                    verdict: result.reply.verdict,
                    rewritten_args: match &result.reply.rewritten_args {
                        Some(args) => Some(args.clone()),
                        None => None,
                    },
                }
            },
            None => KernelEvent::ToolCallEnd {
                id,
                output: String::from_str("cancelled"),
                is_error: true,
                duration_ms: 0,
                verdict: VerdictKind::Allow,
                rewritten_args: None,
            },
        };
        proof {
            assert(event@ == call_end(views(calls@), views(results@), i as int));
            assert(event@ == wanted[i as int]);
            assert(wanted.take(i as int + 1) =~= wanted.take(i as int).push(wanted[i as int]));
            assert((views(old(out)@) + wanted.take(i as int)).push(wanted[i as int]) =~= views(
                old(out)@,
            ) + wanted.take(i as int + 1));
        }
        emit(session, out, event, Ghost(origin));
        i = i + 1;
    }
    proof {
        assert(wanted.take(i as int) =~= wanted);
    }
}

/// The outcome of an inference call, by its content.
pub open spec fn outcome_view(outcome: Result<AssistantResult, ProviderError>) -> Result<
    AssistantResultView,
    ProviderErrorView,
> {
    match outcome {
        Ok(result) => Ok(result@),
        Err(error) => Err(error@),
    }
}

impl Kernel {
    /// A kernel over a session, before its first step.
    pub fn new(session: SessionState) -> (kernel: Self)
        ensures
            kernel@ == KernelView::initial(session@),
    {
        let kernel = Kernel {
            session,
            phase: Phase::Idle,
            started: false,
            pending: Vec::new(),
            reload_pending: false,
        };
        assert(kernel@.pending =~= Seq::empty());
        kernel
    }

    /// The session as it stands.
    pub fn session(&self) -> (session: &SessionState)
        ensures
            session@ == self@.session,
    {
        &self.session
    }

    /// Where the kernel stands in its turn loop.
    pub fn phase(&self) -> (phase: Phase)
        ensures
            phase == self@.phase,
    {
        self.phase
    }

    /// The tool calls whose results are awaited.
    pub fn pending(&self) -> (calls: &Vec<ToolCall>)
        ensures
            views(calls@) == self@.pending,
    {
        &self.pending
    }

    /// Puts a prompt at the end of the queue. An ended session takes none.
    pub fn enqueue(&mut self, prompt: String)
        ensures
            final(self)@ == old(self)@.enqueue(prompt@),
    {
        if self.phase != Phase::Ended {
            proof {
                assert(views(self.session.queue@.push(prompt)) =~= views(
                    self.session.queue@,
                ).push(prompt@));
            }
            self.session.queue.push_back(prompt);
        }
    }

    /// Begins the next turn, if the kernel is between turns and a prompt
    /// waits.
    pub fn begin_turn(&mut self) -> (step: (Vec<KernelEvent>, Action))
        ensures
            final(self)@ == old(self)@.begin_turn().next,
            views(step.0@) == old(self)@.begin_turn().events,
            step.1 == old(self)@.begin_turn().action,
    {
        let mut out: Vec<KernelEvent> = Vec::new();
        proof {
            assert(views(out@) =~= Seq::<EventView>::empty());
        }
        if self.phase != Phase::Idle {
            return (out, Action::Ignored);
        }
        let waiting = self.session.queue.len();
        if waiting == 0 || self.session.turn_index == u32::MAX {
            let ghost origin = self.session@;
            if !self.started {
                emit(&mut self.session, &mut out, KernelEvent::AgentStart, Ghost(origin));
                assert(views(out@) =~= seq![EventView::AgentStart]);
            }
            self.started = true;
            return (
                out,
                if waiting == 0 {
                    Action::Wait
                } else {
                    Action::Exhausted
                },
            );
        }
        let ghost before = self.session@;
        let turn_index = self.session.turn_index;
        let prompt = self.session.queue.pop_front().unwrap();
        let ghost origin = self.session@;
        proof {
            assert(origin.queue =~= before.queue.drop_first());
            assert(origin == (SessionView { queue: before.queue.drop_first(), ..before }));
            assert(prompt@ == before.queue[0]);
        }
        if !self.started {
            emit(&mut self.session, &mut out, KernelEvent::AgentStart, Ghost(origin));
        }
        emit(&mut self.session, &mut out, KernelEvent::TurnStart { turn_index }, Ghost(origin));
        emit(&mut self.session, &mut out, KernelEvent::UserMessage { content: prompt }, Ghost(origin));
        proof {
            assert(views(out@) =~= old(self)@.begin_turn().events);
        }
        self.started = true;
        self.phase = Phase::Infer { retries: 0 };
        (out, Action::CallProvider)
    }
    /// Emits what closes a turn and puts the kernel between turns again.
    fn finish_turn(
        &mut self,
        out: &mut Vec<KernelEvent>,
        turn_index: u32,
        Ghost(origin): Ghost<SessionView>,
        Ghost(start): Ghost<KernelView>,
    )
        requires
            old(self).session@ == origin.replay(views(old(out)@)),
            start.session.turn_index == turn_index,
            start.reload_pending == old(self).reload_pending,
            start.started == old(self).started,
        ensures
            final(self).session@ == origin.replay(views(final(out)@)),
            views(final(out)@) == views(old(out)@) + start.closing(),
            final(self)@ == (KernelView {
                session: final(self).session@,
                phase: Phase::Idle,
                pending: Seq::empty(),
                reload_pending: false,
                ..start
            }),
    {
        let ghost first = views(out@);
        emit(&mut self.session, out, KernelEvent::TurnEnd { turn_index }, Ghost(origin));
        if self.reload_pending {
            emit(&mut self.session, out, KernelEvent::HarnessReloaded, Ghost(origin));
        }
        proof {
            assert(views(out@) =~= first + start.closing());
        }
        self.phase = Phase::Idle;
        self.pending = Vec::new();
        self.reload_pending = false;
        proof {
            assert(views(self.pending@) =~= Seq::empty());
        }
    }

    /// Takes the provider's answer to the request of this turn.
    pub fn on_inference(&mut self, outcome: Result<AssistantResult, ProviderError>) -> (step: (
        Vec<KernelEvent>,
        Action,
    ))
        ensures
            final(self)@ == old(self)@.on_inference(outcome_view(outcome)).next,
            views(step.0@) == old(self)@.on_inference(outcome_view(outcome)).events,
            step.1 == old(self)@.on_inference(outcome_view(outcome)).action,
    {
        let mut out: Vec<KernelEvent> = Vec::new();
        proof {
            assert(views(out@) =~= Seq::<EventView>::empty());
        }
        let retries = match self.phase {
            Phase::Infer { retries } => retries,
            _ => {
                return (out, Action::Ignored);
            },
        };
        let ghost start = self@;
        let ghost origin = self.session@;
        let turn_index = self.session.turn_index;
        match outcome {
            Ok(result) => {
                let usage_reported = result.usage.is_some();
                let usage = match result.usage {
                    Some(usage) => usage,
                    None => Usage { input_tokens: 0, output_tokens: 0 },
                };
                let calls = clone_calls(&result.tool_calls);
                let answer = KernelEvent::AssistantMessage {
                    content: result.content,
                    tool_calls: result.tool_calls,
                    usage,
                    usage_reported,
                };
                let ghost answered = answer@;
                emit(&mut self.session, &mut out, answer, Ghost(origin));
                proof {
                    assert(views(out@) =~= seq![answered]);
                }
                if calls.len() == 0 {
                    self.finish_turn(&mut out, turn_index, Ghost(origin), Ghost(start));
                    (out, Action::TurnDone)
                } else {
                    emit_call_starts(&mut self.session, &mut out, &calls, Ghost(origin));
                    self.pending = calls;
                    self.phase = Phase::Tools;
                    (out, Action::RunTools)
                }
            },
            Err(ProviderError::Retryable(message)) => {
                match Backoff::provider().retry_delay(retries) {
                    Some(delay_ms) => {
                        self.phase = Phase::Infer { retries: retries + 1 };
                        (out, Action::RetryProvider { delay_ms })
                    },
                    None => {
                        self.fail_turn(&mut out, message, turn_index, Ghost(origin), Ghost(start));
                        (out, Action::TurnFailed)
                    },
                }
            },
            Err(ProviderError::Fatal(message)) => {
                self.fail_turn(&mut out, message, turn_index, Ghost(origin), Ghost(start));
                (out, Action::TurnFailed)
            },
        }
    }

    /// Emits the error that ends a turn, then closes the turn.
    fn fail_turn(
        &mut self,
        out: &mut Vec<KernelEvent>,
        message: String,
        turn_index: u32,
        Ghost(origin): Ghost<SessionView>,
        Ghost(start): Ghost<KernelView>,
    )
        requires
            old(out)@.len() == 0,
            old(self).session@ == origin,
            old(self)@ == start,
            start.session.turn_index == turn_index,
        ensures
            final(self)@ == start.fail_turn(message@).next,
            views(final(out)@) == start.fail_turn(message@).events,
    {
        proof {
            assert(views(out@) =~= Seq::<EventView>::empty());
        }
        emit(
            &mut self.session,
            out,
            KernelEvent::Error { stage: ErrorStage::Infer, message },
            Ghost(origin),
        );
        proof {
            assert(views(out@) =~= seq![
                EventView::Error { stage: ErrorStage::Infer, message: message@ },
            ]);
        }
        self.finish_turn(out, turn_index, Ghost(origin), Ghost(start));
    }

    /// Takes the results of the pending tool calls, in whatever order they
    /// came in. A call for which no result is reported counts as cancelled;
    /// of several results for one call the first counts.
    pub fn on_tools(&mut self, results: Vec<ToolCallResult>) -> (step: (Vec<KernelEvent>, Action))
        ensures
            final(self)@ == old(self)@.on_tools(views(results@)).next,
            views(step.0@) == old(self)@.on_tools(views(results@)).events,
            step.1 == old(self)@.on_tools(views(results@)).action,
    {
        let mut out: Vec<KernelEvent> = Vec::new();
        proof {
            assert(views(out@) =~= Seq::<EventView>::empty());
        }
        if self.phase != Phase::Tools {
            return (out, Action::Ignored);
        }
        let ghost origin = self.session@;
        emit_call_ends(&mut self.session, &mut out, &self.pending, &results, Ghost(origin));
        proof {
            assert(views(out@) =~= call_ends(views(self.pending@), views(results@)));
        }
        self.pending = Vec::new();
        self.phase = Phase::Infer { retries: 0 };
        proof {
            assert(views(self.pending@) =~= Seq::empty());
        }
        (out, Action::CallProvider)
    }

    /// Notes that the harness is to be reloaded: at once between turns, at
    /// the end of the turn within one. The driver swaps the script when it
    /// sees `HarnessReloaded` among the events of a step.
    pub fn reload_harness(&mut self) -> (step: (Vec<KernelEvent>, Action))
        ensures
            final(self)@ == old(self)@.reload_harness().next,
            views(step.0@) == old(self)@.reload_harness().events,
            step.1 == old(self)@.reload_harness().action,
    {
        let mut out: Vec<KernelEvent> = Vec::new();
        proof {
            assert(views(out@) =~= Seq::<EventView>::empty());
        }
        match self.phase {
            Phase::Ended => (out, Action::Ignored),
            Phase::Idle => {
                let ghost origin = self.session@;
                emit(&mut self.session, &mut out, KernelEvent::HarnessReloaded, Ghost(origin));
                proof {
                    assert(views(out@) =~= seq![EventView::HarnessReloaded]);
                }
                (out, Action::Wait)
            },
            _ => {
                self.reload_pending = true;
                (out, Action::Wait)
            },
        }
    }

    /// Ends the session.
    pub fn end_session(&mut self) -> (step: (Vec<KernelEvent>, Action))
        ensures
            final(self)@ == old(self)@.end_session().next,
            views(step.0@) == old(self)@.end_session().events,
            step.1 == old(self)@.end_session().action,
    {
        let mut out: Vec<KernelEvent> = Vec::new();
        proof {
            assert(views(out@) =~= Seq::<EventView>::empty());
        }
        let ghost origin = self.session@;
        let turn_index = self.session.turn_index;
        match self.phase {
            Phase::Ended => {
                return (out, Action::Ignored);
            },
            Phase::Tools => {
                let none: Vec<ToolCallResult> = Vec::new();
                proof {
                    assert(views(none@) =~= Seq::<ToolResultView>::empty());
                }
                emit_call_ends(&mut self.session, &mut out, &self.pending, &none, Ghost(origin));
                emit(&mut self.session, &mut out, KernelEvent::TurnEnd { turn_index }, Ghost(origin));
            },
            Phase::Infer { .. } => {
                emit(&mut self.session, &mut out, KernelEvent::TurnEnd { turn_index }, Ghost(origin));
            },
            Phase::Idle => {},
        }
        emit(&mut self.session, &mut out, KernelEvent::AgentEnd, Ghost(origin));
        proof {
            assert(views(out@) =~= old(self)@.end_session().events);
        }
        self.phase = Phase::Ended;
        self.pending = Vec::new();
        self.reload_pending = false;
        proof {
            assert(views(self.pending@) =~= Seq::empty());
        }
        (out, Action::Stopped)
    }
}

} // verus!
