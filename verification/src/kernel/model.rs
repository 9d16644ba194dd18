//! The turn loop as a mathematical model: states, steps and what each step
//! emits.

use vstd::prelude::*;
use crate::inference::provider::{AssistantResultView, ProviderErrorView, ToolCallView, Usage};
use crate::kernel::backoff::Backoff;
use crate::kernel::event::{ErrorStage, EventView, VerdictKind};
use crate::kernel::session::SessionView;
use crate::tools::cancelled_text;

verus! {

/// Where a kernel stands in its turn loop.
#[derive(Debug, Clone, Copy, PartialEq, Eq, Structural)]
pub enum Phase {
    /// Between turns.
    Idle,
    /// In a turn, waiting for the provider's answer. `retries` counts the
    /// attempts of this call that failed with a retryable error.
    Infer { retries: u32 },
    /// In a turn, waiting for the results of the tool calls of the last
    /// assistant message.
    Tools,
    /// The session has ended; nothing is emitted any more.
    Ended,
}

/// What the kernel asks of its driver after a step.
#[derive(Debug, Clone, Copy, PartialEq, Eq, Structural)]
pub enum Action {
    /// Send the history and the tool list to the provider.
    CallProvider,
    /// Send the same request again after a pause of this many milliseconds,
    /// to which the driver adds its jitter.
    RetryProvider { delay_ms: u64 },
    /// Run the pending tool calls and report their results.
    RunTools,
    /// The turn is over; begin the next one.
    TurnDone,
    /// The turn ended on a provider error, which the `Error` event carries.
    TurnFailed,
    /// No prompt is waiting: return to the caller.
    Wait,
    /// The turn index cannot advance any further; the prompt stays queued.
    Exhausted,
    /// The session has ended.
    Stopped,
    /// The step does not fit the phase; nothing has changed.
    Ignored,
}

/// The outcome of one tool call as the driver reports it. `index` is the
/// position of the call in the assistant message that asked for it.
pub struct ToolResultView {
    pub index: usize,
    pub output: Seq<char>,
    pub is_error: bool,
    pub duration_ms: u64,
    pub verdict: VerdictKind,
    pub rewritten_args: Option<serde_json::Value>,
}

/// The mathematical content of a kernel.
pub struct KernelView {
    pub session: SessionView,
    pub phase: Phase,
    /// Whether `AgentStart` has been emitted.
    pub started: bool,
    /// In phase `Tools`, the calls whose results are awaited, in the order in
    /// which the provider returned them.
    pub pending: Seq<ToolCallView>,
    /// Whether a reload of the harness waits for the end of the turn.
    pub reload_pending: bool,
}

/// One step of a kernel: its next state, the events it emits in order, and
/// what it asks of the driver.
pub struct Transition {
    pub next: KernelView,
    pub events: Seq<EventView>,
    pub action: Action,
}

/// The usage that is recorded where the provider reported none.
pub open spec fn zero_usage() -> Usage {
    Usage { input_tokens: 0, output_tokens: 0 }
}

/// The events that announce the tool calls of an assistant message, in the
/// order of the calls.
pub open spec fn call_starts(calls: Seq<ToolCallView>) -> Seq<EventView> {
    Seq::new(
        calls.len(),
        |i: int|
            EventView::ToolCallStart {
                id: calls[i].id,
                name: calls[i].name,
                args: calls[i].arguments,
            },
    )
}

/// The first of the reported results that belongs to the call at `index`.
pub open spec fn find_result(results: Seq<ToolResultView>, index: int) -> Option<ToolResultView>
    decreases results.len(),
{
    if results.len() == 0 {
        None
    } else if results[0].index == index {
        Some(results[0])
    } else {
        find_result(results.drop_first(), index)
    }
}

/// The event that ends a call for which no result was reported: the call
/// counts as cancelled.
pub open spec fn cancelled_end(call: ToolCallView) -> EventView {
    EventView::ToolCallEnd {
        id: call.id,
        output: cancelled_text(),
        is_error: true,
        duration_ms: 0,
        verdict: VerdictKind::Allow,
        rewritten_args: None,
    }
}

/// The event that ends the call at `index`, given what was reported.
pub open spec fn call_end(
    calls: Seq<ToolCallView>,
    results: Seq<ToolResultView>,
    index: int,
) -> EventView {
    match find_result(results, index) {
        Some(result) => EventView::ToolCallEnd {
            id: calls[index].id,
            output: result.output,
            is_error: result.is_error,
            duration_ms: result.duration_ms,
            verdict: result.verdict,
            rewritten_args: result.rewritten_args,
        },
        None => cancelled_end(calls[index]),
    }
}

/// The events that end the tool calls of an assistant message, in the order
/// of the calls, whatever the order in which the results came in.
pub open spec fn call_ends(
    calls: Seq<ToolCallView>,
    results: Seq<ToolResultView>,
) -> Seq<EventView> {
    Seq::new(calls.len(), |i: int| call_end(calls, results, i))
}

impl KernelView {
    /// A kernel over a session, before its first step.
    pub open spec fn initial(session: SessionView) -> KernelView {
        KernelView {
            session,
            phase: Phase::Idle,
            started: false,
            pending: Seq::empty(),
            reload_pending: false,
        }
    }

    /// The events that close a turn: its `TurnEnd` and, where a reload of
    /// the harness was put off until now, `HarnessReloaded`.
    pub open spec fn closing(self) -> Seq<EventView> {
        if self.reload_pending {
            seq![
                EventView::TurnEnd { turn_index: self.session.turn_index },
                EventView::HarnessReloaded,
            ]
        } else {
            seq![EventView::TurnEnd { turn_index: self.session.turn_index }]
        }
    }

    /// The kernel between turns again, after emitting `events`.
    pub open spec fn close_turn(self, events: Seq<EventView>, action: Action) -> Transition {
        Transition {
            next: KernelView {
                session: self.session.replay(events),
                phase: Phase::Idle,
                pending: Seq::empty(),
                reload_pending: false,
                ..self
            },
            events,
            action,
        }
    }

    /// A step that changes nothing.
    pub open spec fn ignore(self) -> Transition {
        Transition { next: self, events: Seq::empty(), action: Action::Ignored }
    }

    /// Puts a prompt at the end of the queue. An ended session takes none.
    pub open spec fn enqueue(self, prompt: Seq<char>) -> KernelView {
        if self.phase == Phase::Ended {
            self
        } else {
            KernelView {
                session: SessionView { queue: self.session.queue.push(prompt), ..self.session },
                ..self
            }
        }
    }

    /// Begins the next turn. Between turns the kernel first emits
    /// `AgentStart` if it has not yet; then, if a prompt waits and the turn
    /// index can still advance, it takes the oldest prompt, emits `TurnStart`
    /// and `UserMessage` and asks for the provider.
    pub open spec fn begin_turn(self) -> Transition {
        if self.phase != Phase::Idle {
            self.ignore()
        } else {
            let greeting = if self.started {
                Seq::<EventView>::empty()
            } else {
                seq![EventView::AgentStart]
            };
            if self.session.queue.len() == 0 || self.session.turn_index == u32::MAX {
                Transition {
                    next: KernelView {
                        session: self.session.replay(greeting),
                        started: true,
                        ..self
                    },
                    events: greeting,
                    action: if self.session.queue.len() == 0 {
                        Action::Wait
                    } else {
                        Action::Exhausted
                    },
                }
            } else {
                let events = greeting + seq![
                    EventView::TurnStart { turn_index: self.session.turn_index },
                    EventView::UserMessage { content: self.session.queue[0] },
                ];
                let taken = SessionView {
                    queue: self.session.queue.drop_first(),
                    ..self.session
                };
                Transition {
                    next: KernelView {
                        session: taken.replay(events),
                        phase: Phase::Infer { retries: 0 },
                        started: true,
                        ..self
                    },
                    events,
                    action: Action::CallProvider,
                }
            }
        }
    }

    /// Ends a turn on a provider error.
    pub open spec fn fail_turn(self, message: Seq<char>) -> Transition {
        self.close_turn(
            seq![EventView::Error { stage: ErrorStage::Infer, message }] + self.closing(),
            Action::TurnFailed,
        )
    }

    /// Takes the provider's answer. An assistant message without tool calls
    /// ends the turn; one with tool calls announces each call and waits for
    /// the results. A retryable error is retried as the provider's schedule
    /// allows, without any event; once the retries are used up, and on a
    /// fatal error at once, the turn ends with an `Error` event.
    pub open spec fn on_inference(
        self,
        outcome: Result<AssistantResultView, ProviderErrorView>,
    ) -> Transition {
        match self.phase {
            Phase::Infer { retries } => match outcome {
                Ok(result) => {
                    let answer = EventView::AssistantMessage {
                        content: result.content,
                        tool_calls: result.tool_calls,
                        usage: match result.usage {
                            Some(usage) => usage,
                            None => zero_usage(),
                        },
                        usage_reported: result.usage.is_some(),
                    };
                    if result.tool_calls.len() == 0 {
                        self.close_turn(seq![answer] + self.closing(), Action::TurnDone)
                    } else {
                        let events = seq![answer] + call_starts(result.tool_calls);
                        Transition {
                            next: KernelView {
                                session: self.session.replay(events),
                                phase: Phase::Tools,
                                pending: result.tool_calls,
                                ..self
                            },
                            events,
                            action: Action::RunTools,
                        }
                    }
                },
                Err(ProviderErrorView::Retryable(message)) => {
                    let policy = Backoff::provider_schedule();
                    if retries + 1 < policy.max_attempts {
                        Transition {
                            next: KernelView {
                                phase: Phase::Infer { retries: (retries + 1) as u32 },
                                ..self
                            },
                            events: Seq::empty(),
                            action: Action::RetryProvider {
                                delay_ms: policy.delay_ms(retries as nat) as u64,
                            },
                        }
                    } else {
                        self.fail_turn(message)
                    }
                },
                Err(ProviderErrorView::Fatal(message)) => self.fail_turn(message),
            },
            _ => self.ignore(),
        }
    }

    /// Takes the results of the pending tool calls, in whatever order they
    /// came in, ends the calls in the order in which the provider returned
    /// them, and asks for the provider again within the same turn.
    pub open spec fn on_tools(self, results: Seq<ToolResultView>) -> Transition {
        if self.phase != Phase::Tools {
            self.ignore()
        } else {
            let events = call_ends(self.pending, results);
            Transition {
                next: KernelView {
                    session: self.session.replay(events),
                    phase: Phase::Infer { retries: 0 },
                    pending: Seq::empty(),
                    ..self
                },
                events,
                action: Action::CallProvider,
            }
        }
    }

    /// Notes that the harness is to be reloaded. Between turns the reload
    /// takes place at once and `HarnessReloaded` is emitted; within a turn
    /// it is put off until the turn ends.
    pub open spec fn reload_harness(self) -> Transition {
        match self.phase {
            Phase::Ended => self.ignore(),
            Phase::Idle => Transition {
                next: KernelView {
                    session: self.session.replay(seq![EventView::HarnessReloaded]),
                    ..self
                },
                events: seq![EventView::HarnessReloaded],
                action: Action::Wait,
            },
            _ => Transition {
                next: KernelView { reload_pending: true, ..self },
                events: Seq::empty(),
                action: Action::Wait,
            },
        }
    }

    /// Ends the session. A turn that is under way is brought to its end
    /// first: its pending tool calls end as cancelled and `TurnEnd` is
    /// emitted. `AgentEnd` is the last event of the session.
    pub open spec fn end_session(self) -> Transition {
        if self.phase == Phase::Ended {
            self.ignore()
        } else {
            let unfinished = match self.phase {
                Phase::Tools => call_ends(self.pending, Seq::empty()) + seq![
                    EventView::TurnEnd { turn_index: self.session.turn_index },
                ],
                Phase::Infer { .. } => seq![
                    EventView::TurnEnd { turn_index: self.session.turn_index },
                ],
                _ => Seq::empty(),
            };
            let events = unfinished + seq![EventView::AgentEnd];
            Transition {
                next: KernelView {
                    session: self.session.replay(events),
                    phase: Phase::Ended,
                    pending: Seq::empty(),
                    reload_pending: false,
                    ..self
                },
                events,
                action: Action::Stopped,
            }
        }
    }
}

} // verus!
