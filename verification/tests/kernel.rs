use bedrock::inference::provider::{
    AssistantResult, InferenceMessage, ProviderError, Role, ToolCall, Usage,
};
use bedrock::kernel::dispatch::ToolReply;
use bedrock::kernel::event::{ErrorStage, KernelEvent, VerdictKind};
use bedrock::kernel::history::{call_answered_by, history_is_answered};
use bedrock::kernel::model::{Action, Phase};
use bedrock::kernel::session::SessionState;
use bedrock::kernel::turn::{Kernel, ToolCallResult};

fn json(text: &str) -> serde_json::Value {
    serde_json::from_str(text).unwrap()
}

fn call(id: &str, name: &str, args: &str) -> ToolCall {
    ToolCall { id: id.to_string(), name: name.to_string(), arguments: json(args) }
}

fn answer(content: &str, tool_calls: Vec<ToolCall>) -> AssistantResult {
    AssistantResult {
        content: content.to_string(),
        tool_calls,
        usage: Some(Usage { input_tokens: 3, output_tokens: 5 }),
    }
}

fn result(index: usize, output: &str, duration_ms: u64) -> ToolCallResult {
    ToolCallResult {
        index,
        duration_ms,
        reply: ToolReply {
            output: output.to_string(),
            is_error: false,
            verdict: VerdictKind::Allow,
            rewritten_args: None,
        },
    }
}

fn kernel_with_prompt(prompt: &str) -> Kernel {
    let mut kernel = Kernel::new(SessionState::with_id("s".to_string()));
    kernel.enqueue(prompt.to_string());
    kernel
}

fn assistant_event(content: &str, tool_calls: Vec<ToolCall>) -> KernelEvent {
    KernelEvent::AssistantMessage {
        content: content.to_string(),
        tool_calls,
        usage: Usage { input_tokens: 3, output_tokens: 5 },
        usage_reported: true,
    }
}

#[test]
fn one_shot_without_tools_emits_the_six_events_in_order() {
    let mut kernel = kernel_with_prompt("hi");
    let mut log = Vec::new();

    let (events, action) = kernel.begin_turn();
    assert_eq!(action, Action::CallProvider);
    log.extend(events);
    let (events, action) = kernel.on_inference(Ok(answer("hello", vec![])));
    assert_eq!(action, Action::TurnDone);
    log.extend(events);
    let (events, action) = kernel.begin_turn();
    assert_eq!(action, Action::Wait);
    assert!(events.is_empty());
    let (events, action) = kernel.end_session();
    assert_eq!(action, Action::Stopped);
    log.extend(events);

    assert_eq!(
        log,
        vec![
            KernelEvent::AgentStart,
            KernelEvent::TurnStart { turn_index: 0 },
            KernelEvent::UserMessage { content: "hi".to_string() },
            assistant_event("hello", vec![]),
            KernelEvent::TurnEnd { turn_index: 0 },
            KernelEvent::AgentEnd,
        ]
    );
    let session = kernel.session();
    assert_eq!(
        session.history,
        vec![
            InferenceMessage::user("hi".to_string()),
            InferenceMessage::assistant("hello".to_string(), vec![]),
        ]
    );
    assert_eq!(session.turn_index, 1);
    assert_eq!(session.total_input_tokens, 3);
    assert_eq!(session.total_output_tokens, 5);
    assert_eq!(kernel.phase(), Phase::Ended);
}

#[test]
fn single_tool_call_stays_within_one_turn() {
    let mut kernel = kernel_with_prompt("go");
    let mut log = Vec::new();
    log.extend(kernel.begin_turn().0);

    let echo = call("c1", "echo", "{\"text\":\"x\"}");
    let (events, action) = kernel.on_inference(Ok(answer("", vec![echo.clone()])));
    assert_eq!(action, Action::RunTools);
    assert_eq!(kernel.phase(), Phase::Tools);
    assert_eq!(kernel.pending(), &vec![echo.clone()]);
    log.extend(events);

    let (events, action) = kernel.on_tools(vec![result(0, "x", 7)]);
    assert_eq!(action, Action::CallProvider);
    log.extend(events);

    let (events, action) = kernel.on_inference(Ok(answer("done", vec![])));
    assert_eq!(action, Action::TurnDone);
    log.extend(events);

    assert_eq!(
        log,
        vec![
            KernelEvent::AgentStart,
            KernelEvent::TurnStart { turn_index: 0 },
            KernelEvent::UserMessage { content: "go".to_string() },
            assistant_event("", vec![echo.clone()]),
            KernelEvent::ToolCallStart {
                id: "c1".to_string(),
                name: "echo".to_string(),
                args: json("{\"text\":\"x\"}"),
            },
            KernelEvent::ToolCallEnd {
                id: "c1".to_string(),
                output: "x".to_string(),
                is_error: false,
                duration_ms: 7,
                verdict: VerdictKind::Allow,
                rewritten_args: None,
            },
            assistant_event("done", vec![]),
            KernelEvent::TurnEnd { turn_index: 0 },
        ]
    );
    let history = &kernel.session().history;
    assert_eq!(history.len(), 4);
    assert_eq!(history[2], InferenceMessage::tool("c1".to_string(), "x".to_string()));
    assert_eq!(history[2].role, Role::Tool);
    assert_eq!(kernel.session().total_input_tokens, 6);
    assert_eq!(kernel.session().total_output_tokens, 10);
}

#[test]
fn rejected_call_hands_the_reason_to_the_next_inference() {
    let mut kernel = kernel_with_prompt("go");
    kernel.begin_turn();
    kernel.on_inference(Ok(answer("", vec![call("c1", "shell", "{}")])));
    let rejected = ToolCallResult {
        index: 0,
        duration_ms: 0,
        reply: ToolReply {
            output: "blocked".to_string(),
            is_error: true,
            verdict: VerdictKind::Reject,
            rewritten_args: None,
        },
    };
    let (events, action) = kernel.on_tools(vec![rejected]);
    assert_eq!(action, Action::CallProvider);
    assert_eq!(
        events,
        vec![KernelEvent::ToolCallEnd {
            id: "c1".to_string(),
            output: "blocked".to_string(),
            is_error: true,
            duration_ms: 0,
            verdict: VerdictKind::Reject,
            rewritten_args: None,
        }]
    );
    let last = kernel.session().history.last().unwrap();
    assert_eq!(last.role, Role::Tool);
    assert_eq!(last.content, "blocked");
    assert_eq!(last.tool_call_id, Some("c1".to_string()));
}

#[test]
fn parallel_tools_keep_the_order_of_the_calls() {
    let mut kernel = kernel_with_prompt("go");
    kernel.begin_turn();
    let calls = vec![call("A", "sleep", "100"), call("B", "sleep", "10"), call("C", "sleep", "50")];
    kernel.on_inference(Ok(answer("", calls)));
    // Results in the order of completion: B, C, A.
    let (events, _) =
        kernel.on_tools(vec![result(1, "b", 10), result(2, "c", 50), result(0, "a", 100)]);
    let ended: Vec<String> = events
        .iter()
        .map(|event| match event {
            KernelEvent::ToolCallEnd { id, .. } => id.clone(),
            other => panic!("unexpected event {:?}", other),
        })
        .collect();
    assert_eq!(ended, vec!["A", "B", "C"]);
    let history = &kernel.session().history;
    let tail: Vec<(Option<String>, String)> =
        history[2..].iter().map(|m| (m.tool_call_id.clone(), m.content.clone())).collect();
    assert_eq!(
        tail,
        vec![
            (Some("A".to_string()), "a".to_string()),
            (Some("B".to_string()), "b".to_string()),
            (Some("C".to_string()), "c".to_string()),
        ]
    );
}

#[test]
fn retryable_error_is_retried_without_an_event() {
    let mut kernel = kernel_with_prompt("hi");
    let mut log = Vec::new();
    log.extend(kernel.begin_turn().0);
    let (events, action) =
        kernel.on_inference(Err(ProviderError::Retryable("503".to_string())));
    assert!(events.is_empty());
    assert_eq!(action, Action::RetryProvider { delay_ms: 250 });
    assert_eq!(kernel.phase(), Phase::Infer { retries: 1 });
    log.extend(kernel.on_inference(Ok(answer("hello", vec![]))).0);

    let count = |wanted: fn(&KernelEvent) -> bool| log.iter().filter(|e| wanted(e)).count();
    assert_eq!(count(|e| matches!(e, KernelEvent::TurnStart { .. })), 1);
    assert_eq!(count(|e| matches!(e, KernelEvent::AssistantMessage { .. })), 1);
    assert_eq!(count(|e| matches!(e, KernelEvent::TurnEnd { .. })), 1);
    assert_eq!(count(|e| matches!(e, KernelEvent::Error { .. })), 0);
}

#[test]
fn retries_pause_for_250_1000_4000_ms_and_then_the_turn_fails() {
    let mut kernel = kernel_with_prompt("hi");
    kernel.begin_turn();
    let fail = || Err(ProviderError::Retryable("timeout".to_string()));
    assert_eq!(kernel.on_inference(fail()).1, Action::RetryProvider { delay_ms: 250 });
    assert_eq!(kernel.on_inference(fail()).1, Action::RetryProvider { delay_ms: 1000 });
    assert_eq!(kernel.on_inference(fail()).1, Action::RetryProvider { delay_ms: 4000 });
    let (events, action) = kernel.on_inference(fail());
    assert_eq!(action, Action::TurnFailed);
    assert_eq!(
        events,
        vec![
            KernelEvent::Error { stage: ErrorStage::Infer, message: "timeout".to_string() },
            KernelEvent::TurnEnd { turn_index: 0 },
        ]
    );
    assert_eq!(kernel.phase(), Phase::Idle);
    assert_eq!(kernel.session().turn_index, 1);
}

#[test]
fn fatal_error_ends_the_turn_at_once() {
    let mut kernel = kernel_with_prompt("hi");
    kernel.begin_turn();
    let (events, action) = kernel.on_inference(Err(ProviderError::Fatal("401".to_string())));
    assert_eq!(action, Action::TurnFailed);
    assert_eq!(
        events,
        vec![
            KernelEvent::Error { stage: ErrorStage::Infer, message: "401".to_string() },
            KernelEvent::TurnEnd { turn_index: 0 },
        ]
    );
    assert_eq!(kernel.session().history.len(), 1);
}

#[test]
fn turn_indices_count_up_from_zero() {
    let mut kernel = Kernel::new(SessionState::with_id("s".to_string()));
    for prompt in ["a", "b", "c"] {
        kernel.enqueue(prompt.to_string());
    }
    let mut starts = Vec::new();
    loop {
        let (events, action) = kernel.begin_turn();
        for event in events {
            if let KernelEvent::TurnStart { turn_index } = event {
                starts.push(turn_index);
            }
        }
        if action != Action::CallProvider {
            assert_eq!(action, Action::Wait);
            break;
        }
        kernel.on_inference(Ok(answer("ok", vec![])));
    }
    assert_eq!(starts, vec![0, 1, 2]);
    assert_eq!(kernel.session().turn_index, 3);
    assert_eq!(kernel.session().total_input_tokens, 9);
    assert_eq!(kernel.session().total_output_tokens, 15);
}

#[test]
fn prompts_are_taken_oldest_first() {
    let mut kernel = Kernel::new(SessionState::with_id("s".to_string()));
    kernel.enqueue("first".to_string());
    kernel.enqueue("second".to_string());
    let (events, _) = kernel.begin_turn();
    assert_eq!(events[2], KernelEvent::UserMessage { content: "first".to_string() });
    assert_eq!(kernel.session().queue.len(), 1);
    assert_eq!(kernel.session().queue[0], "second");
}

#[test]
fn a_missing_result_counts_as_cancelled_and_the_first_of_two_counts() {
    let mut kernel = kernel_with_prompt("go");
    kernel.begin_turn();
    kernel.on_inference(Ok(answer("", vec![call("A", "t", "1"), call("B", "t", "2")])));
    let (events, _) = kernel.on_tools(vec![result(1, "first", 1), result(1, "second", 2), result(9, "stray", 3)]);
    assert_eq!(
        events,
        vec![
            KernelEvent::ToolCallEnd {
                id: "A".to_string(),
                output: "cancelled".to_string(),
                is_error: true,
                duration_ms: 0,
                verdict: VerdictKind::Allow,
                rewritten_args: None,
            },
            KernelEvent::ToolCallEnd {
                id: "B".to_string(),
                output: "first".to_string(),
                is_error: false,
                duration_ms: 1,
                verdict: VerdictKind::Allow,
                rewritten_args: None,
            },
        ]
    );
}

#[test]
fn ending_a_session_in_the_tool_phase_cancels_the_pending_calls() {
    let mut kernel = kernel_with_prompt("go");
    kernel.begin_turn();
    kernel.on_inference(Ok(answer("", vec![call("A", "t", "1")])));
    let (events, action) = kernel.end_session();
    assert_eq!(action, Action::Stopped);
    assert_eq!(
        events,
        vec![
            KernelEvent::ToolCallEnd {
                id: "A".to_string(),
                output: "cancelled".to_string(),
                is_error: true,
                duration_ms: 0,
                verdict: VerdictKind::Allow,
                rewritten_args: None,
            },
            KernelEvent::TurnEnd { turn_index: 0 },
            KernelEvent::AgentEnd,
        ]
    );
    assert!(kernel.pending().is_empty());
}

#[test]
fn nothing_is_emitted_after_agent_end() {
    let mut kernel = kernel_with_prompt("hi");
    kernel.begin_turn();
    let (events, _) = kernel.end_session();
    assert_eq!(events, vec![KernelEvent::TurnEnd { turn_index: 0 }, KernelEvent::AgentEnd]);

    kernel.enqueue("late".to_string());
    assert!(kernel.session().queue.is_empty());
    assert_eq!(kernel.begin_turn(), (vec![], Action::Ignored));
    assert_eq!(kernel.on_inference(Ok(answer("x", vec![]))), (vec![], Action::Ignored));
    assert_eq!(kernel.on_tools(vec![]), (vec![], Action::Ignored));
    assert_eq!(kernel.reload_harness(), (vec![], Action::Ignored));
    assert_eq!(kernel.end_session(), (vec![], Action::Ignored));
}

#[test]
fn steps_that_do_not_fit_the_phase_change_nothing() {
    let mut kernel = kernel_with_prompt("hi");
    assert_eq!(kernel.on_inference(Ok(answer("x", vec![]))), (vec![], Action::Ignored));
    assert_eq!(kernel.on_tools(vec![result(0, "x", 1)]), (vec![], Action::Ignored));
    assert_eq!(kernel.phase(), Phase::Idle);
    assert!(kernel.session().history.is_empty());
    kernel.begin_turn();
    assert_eq!(kernel.begin_turn(), (vec![], Action::Ignored));
    assert_eq!(kernel.on_tools(vec![]), (vec![], Action::Ignored));
}

#[test]
fn reload_between_turns_is_announced_at_once() {
    let mut kernel = Kernel::new(SessionState::with_id("s".to_string()));
    assert_eq!(kernel.reload_harness(), (vec![KernelEvent::HarnessReloaded], Action::Wait));
}

#[test]
fn reload_within_a_turn_waits_for_the_end_of_the_turn() {
    let mut kernel = kernel_with_prompt("hi");
    kernel.begin_turn();
    assert_eq!(kernel.reload_harness(), (vec![], Action::Wait));
    let (events, _) = kernel.on_inference(Ok(answer("hello", vec![])));
    assert_eq!(
        events,
        vec![
            assistant_event("hello", vec![]),
            KernelEvent::TurnEnd { turn_index: 0 },
            KernelEvent::HarnessReloaded,
        ]
    );
    // The reload is not announced a second time.
    kernel.enqueue("again".to_string());
    kernel.begin_turn();
    let (events, _) = kernel.on_inference(Ok(answer("hello", vec![])));
    assert_eq!(events.len(), 2);
}

#[test]
fn missing_usage_is_recorded_as_zero_and_flagged() {
    let mut kernel = kernel_with_prompt("hi");
    kernel.begin_turn();
    let silent = AssistantResult { content: "hello".to_string(), tool_calls: vec![], usage: None };
    let (events, _) = kernel.on_inference(Ok(silent));
    assert_eq!(
        events[0],
        KernelEvent::AssistantMessage {
            content: "hello".to_string(),
            tool_calls: vec![],
            usage: Usage { input_tokens: 0, output_tokens: 0 },
            usage_reported: false,
        }
    );
    assert_eq!(kernel.session().total_input_tokens, 0);
}

#[test]
fn a_session_at_the_last_turn_index_starts_no_turn() {
    let mut session = SessionState::with_id("s".to_string());
    session.turn_index = u32::MAX;
    let mut kernel = Kernel::new(session);
    kernel.enqueue("hi".to_string());
    assert_eq!(kernel.begin_turn(), (vec![KernelEvent::AgentStart], Action::Exhausted));
    assert_eq!(kernel.session().queue.len(), 1);
    assert_eq!(kernel.phase(), Phase::Idle);
}

#[test]
fn replaying_the_log_gives_the_session_of_the_kernel() {
    let mut kernel = Kernel::new(SessionState::with_id("s".to_string()));
    kernel.enqueue("one".to_string());
    kernel.enqueue("two".to_string());
    let mut log = Vec::new();
    log.extend(kernel.begin_turn().0);
    log.extend(kernel.on_inference(Ok(answer("", vec![call("c1", "t", "1"), call("c2", "t", "2")]))).0);
    log.extend(kernel.on_tools(vec![result(1, "r2", 2), result(0, "r1", 1)]).0);
    log.extend(kernel.on_inference(Ok(answer("done", vec![]))).0);
    log.extend(kernel.begin_turn().0);
    log.extend(kernel.on_inference(Err(ProviderError::Fatal("bad".to_string()))).0);
    log.extend(kernel.end_session().0);

    let replayed = SessionState::replay("s".to_string(), &log);
    let live = kernel.session();
    assert_eq!(replayed.history, live.history);
    assert_eq!(replayed.turn_index, live.turn_index);
    assert_eq!(replayed.total_input_tokens, live.total_input_tokens);
    assert_eq!(replayed.total_output_tokens, live.total_output_tokens);
    assert_eq!(live.turn_index, 2);
    assert_eq!(live.history.len(), 6);

    // Every call is started once and ended once.
    for id in ["c1", "c2"] {
        let starts = log
            .iter()
            .filter(|e| matches!(e, KernelEvent::ToolCallStart { id: i, .. } if i == id))
            .count();
        let ends = log
            .iter()
            .filter(|e| matches!(e, KernelEvent::ToolCallEnd { id: i, .. } if i == id))
            .count();
        assert_eq!((starts, ends), (1, 1));
    }
    assert_eq!(log.last(), Some(&KernelEvent::AgentEnd));
}

#[test]
fn token_counters_stop_at_the_largest_value() {
    let mut session = SessionState::with_id("s".to_string());
    session.total_input_tokens = u64::MAX - 1;
    session.apply_event(&assistant_event("x", vec![]));
    assert_eq!(session.total_input_tokens, u64::MAX);
    assert_eq!(session.total_output_tokens, 5);
}

#[test]
fn events_that_carry_no_state_leave_a_session_as_it_is() {
    let mut session = SessionState::with_id("s".to_string());
    for event in [
        KernelEvent::AgentStart,
        KernelEvent::TurnStart { turn_index: 4 },
        KernelEvent::ToolCallStart { id: "c".to_string(), name: "t".to_string(), args: json("1") },
        KernelEvent::HarnessReloaded,
        KernelEvent::Error { stage: ErrorStage::Persist, message: "m".to_string() },
        KernelEvent::AgentEnd,
    ] {
        session.apply_event(&event);
    }
    assert_eq!(session, SessionState::with_id("s".to_string()));
    session.apply_event(&KernelEvent::TurnEnd { turn_index: 0 });
    assert_eq!(session.turn_index, 1);
}

#[test]
fn a_new_session_has_a_hyphenated_version_4_uuid_as_id() {
    let session = SessionState::new();
    let id: Vec<char> = session.id.chars().collect();
    assert_eq!(id.len(), 36);
    for (i, c) in id.iter().enumerate() {
        if i == 8 || i == 13 || i == 18 || i == 23 {
            assert_eq!(*c, '-');
        } else {
            assert!(c.is_ascii_digit() || ('a'..='f').contains(c));
        }
    }
    assert_eq!(id[14], '4');
    assert_ne!(session.id, SessionState::new().id);
    assert!(session.history.is_empty());
    assert!(session.queue.is_empty());
    assert_eq!(session.turn_index, 0);
    assert_eq!(session.total_input_tokens, 0);
    assert_eq!(session.total_output_tokens, 0);
}

#[test]
fn event_kinds_have_their_names() {
    assert_eq!(KernelEvent::AgentStart.kind_name(), "agent_start");
    assert_eq!(KernelEvent::AgentEnd.kind_name(), "agent_end");
    assert_eq!(KernelEvent::TurnStart { turn_index: 0 }.kind_name(), "turn_start");
    assert_eq!(KernelEvent::TurnEnd { turn_index: 0 }.kind_name(), "turn_end");
    assert_eq!(KernelEvent::UserMessage { content: String::new() }.kind_name(), "user_message");
    assert_eq!(assistant_event("", vec![]).kind_name(), "assistant_message");
    assert_eq!(KernelEvent::HarnessReloaded.kind_name(), "harness_reloaded");
    assert_eq!(
        KernelEvent::Error { stage: ErrorStage::Infer, message: String::new() }.kind_name(),
        "error"
    );
    assert_eq!(VerdictKind::Allow.as_str(), "allow");
    assert_eq!(VerdictKind::Reject.as_str(), "reject");
    assert_eq!(VerdictKind::Rewrite.as_str(), "rewrite");
    assert_eq!(VerdictKind::Substitute.as_str(), "substitute");
    assert_eq!(ErrorStage::Infer.as_str(), "infer");
    assert_eq!(ErrorStage::Persist.as_str(), "persist");
}

#[test]
fn tool_messages_must_answer_a_call_of_the_assistant_before_them() {
    let user = || InferenceMessage::user("hi".to_string());
    let asks = |ids: &[&str]| {
        InferenceMessage::assistant(
            String::new(),
            ids.iter().map(|id| call(id, "t", "null")).collect(),
        )
    };
    let tool = |id: &str| InferenceMessage::tool(id.to_string(), "out".to_string());

    assert!(history_is_answered(&vec![]));
    assert!(history_is_answered(&vec![user(), asks(&["a", "b"]), tool("a"), tool("b"), user()]));
    assert!(history_is_answered(&vec![asks(&["a"]), tool("a"), asks(&["b"]), tool("b")]));
    // A tool message of the same call twice still answers it.
    assert!(history_is_answered(&vec![asks(&["a"]), tool("a"), tool("a")]));

    // No assistant message before the tool message.
    assert!(!history_is_answered(&vec![tool("a")]));
    assert!(!history_is_answered(&vec![user(), tool("a")]));
    // Another message lies between the two.
    assert!(!history_is_answered(&vec![asks(&["a"]), user(), tool("a")]));
    // The assistant message just before asks for another call.
    assert!(!history_is_answered(&vec![asks(&["a"]), tool("a"), asks(&["b"]), tool("a")]));
    // The tool message names no call.
    let mut nameless = tool("a");
    nameless.tool_call_id = None;
    assert!(!history_is_answered(&vec![asks(&["a"]), nameless]));
}

#[test]
fn the_history_of_a_kernel_is_answered() {
    let mut kernel = kernel_with_prompt("go");
    kernel.begin_turn();
    kernel.on_inference(Ok(answer("", vec![call("A", "t", "1"), call("B", "t", "2")])));
    assert!(history_is_answered(&kernel.session().history));
    kernel.on_tools(vec![result(1, "b", 1)]);
    assert!(history_is_answered(&kernel.session().history));
    kernel.on_inference(Ok(answer("done", vec![])));
    assert!(history_is_answered(&kernel.session().history));
}

#[test]
fn the_call_that_a_tool_message_answers_is_found() {
    let user = InferenceMessage::user("hi".to_string());
    let asks = InferenceMessage::assistant(
        String::new(),
        vec![call("a", "t", "1"), call("b", "t", "2"), call("b", "u", "3")],
    );
    let tool = |id: &str| InferenceMessage::tool(id.to_string(), "out".to_string());
    let history = vec![user, asks, tool("b"), tool("a"), tool("z")];
    assert_eq!(call_answered_by(&history, 2), Some((1, 1)));
    assert_eq!(call_answered_by(&history, 3), Some((1, 0)));
    assert_eq!(call_answered_by(&history, 4), None);
    assert_eq!(call_answered_by(&history, 0), None);
    assert_eq!(call_answered_by(&history, 1), None);
    assert_eq!(call_answered_by(&history, 5), None);
    let orphan = vec![InferenceMessage::user("hi".to_string()), tool("a")];
    assert_eq!(call_answered_by(&orphan, 1), None);
    assert_eq!(call_answered_by(&vec![tool("a")], 0), None);
}

#[test]
fn calls_under_a_repeated_id_are_still_bracketed() {
    let mut kernel = Kernel::new(SessionState::with_id("s".to_string()));
    kernel.enqueue("one".to_string());
    kernel.enqueue("two".to_string());
    let mut log = Vec::new();
    for _ in 0..2 {
        log.extend(kernel.begin_turn().0);
        // The provider hands out the id "c1" twice in one answer, and again
        // in the next turn.
        let twice = vec![call("c1", "t", "1"), call("c1", "t", "2")];
        log.extend(kernel.on_inference(Ok(answer("", twice))).0);
        log.extend(kernel.on_tools(vec![result(1, "b", 1), result(0, "a", 2)]).0);
        log.extend(kernel.on_inference(Ok(answer("done", vec![]))).0);
    }
    log.extend(kernel.end_session().0);

    // Read the log as a stack of open calls that a turn must leave empty.
    let mut in_turn = false;
    let mut open: Vec<(String, usize)> = Vec::new();
    let mut pairs: Vec<(usize, usize)> = Vec::new();
    for (at, event) in log.iter().enumerate() {
        match event {
            KernelEvent::TurnStart { .. } => {
                assert!(!in_turn);
                in_turn = true;
            }
            KernelEvent::TurnEnd { .. } => {
                assert!(in_turn && open.is_empty());
                in_turn = false;
            }
            KernelEvent::ToolCallStart { id, .. } => {
                assert!(in_turn);
                open.push((id.clone(), at));
            }
            KernelEvent::ToolCallEnd { id, .. } => {
                assert!(in_turn);
                let (started, started_at) = open.remove(0);
                assert_eq!(&started, id);
                pairs.push((started_at, at));
            }
            _ => {}
        }
    }
    assert!(open.is_empty());
    assert_eq!(pairs, vec![(4, 6), (5, 7), (13, 15), (14, 16)]);
}
