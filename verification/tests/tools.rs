use bedrock::clock::UtcTime;
use bedrock::inference::provider::{AssistantResult, Role, StreamEvent, ToolCall, Usage};
use bedrock::kernel::backoff::{jittered, Backoff};
use bedrock::kernel::bus::{after_persist_failure, PersistStep};
use bedrock::kernel::dispatch::{
    complete_execution, plan_call, resolve_verdict, ExecOutcome, HookOutcome, ToolPlan, ToolReply,
    Verdict,
};
use bedrock::kernel::event::{ErrorStage, KernelEvent, VerdictKind};
use bedrock::text::decimal_string;
use bedrock::tools::registry::{ToolRegistry, ToolSpec};
use bedrock::tools::{parse_args, ToolContext, ToolError, ToolOutput};

fn json(text: &str) -> serde_json::Value {
    serde_json::from_str(text).unwrap()
}

fn spec(name: &str) -> ToolSpec {
    ToolSpec {
        name: name.to_string(),
        description: format!("the {} tool", name),
        parameters_schema: json("{\"type\":\"object\"}"),
    }
}

fn registry() -> ToolRegistry {
    let mut registry = ToolRegistry::new();
    assert_eq!(registry.register(spec("echo")), Some(0));
    assert_eq!(registry.register(spec("shell")), Some(1));
    registry
}

fn echo_call() -> ToolCall {
    ToolCall { id: "c1".to_string(), name: "echo".to_string(), arguments: json("{\"text\":\"x\"}") }
}

#[test]
fn new_output_has_empty_object_metadata() {
    let out = ToolOutput::new("x".to_string());
    assert_eq!(out.content, "x");
    assert_eq!(out.metadata, json("{}"));
    assert_eq!(serde_json::to_string(&out.metadata).unwrap(), "{}");
}

#[test]
fn tool_errors_have_their_texts() {
    assert_eq!(
        ToolError::ExecutionError("boom".to_string()).message(),
        "Tool execution failed: boom"
    );
    assert_eq!(ToolError::InvalidParams("no path".to_string()).message(), "Invalid parameters: no path");
    assert_eq!(
        ToolError::PermissionDenied("/etc".to_string()).message(),
        "Permission denied: /etc"
    );
    assert_eq!(ToolError::Unknown("frob".to_string()).message(), "Unknown tool: frob");
    assert_eq!(ToolError::Timeout(30).message(), "tool timed out after 30s");
    assert_eq!(ToolError::Cancelled.message(), "cancelled");
}

#[test]
fn parse_args_passes_a_value_through() {
    let decoded: Result<Vec<u32>, serde_json::Error> = serde_json::from_value(json("[1,2,3]"));
    assert_eq!(parse_args(decoded), Ok(vec![1, 2, 3]));
}

#[test]
fn parse_args_turns_a_decoding_error_into_invalid_params() {
    let decoded: Result<Vec<u32>, serde_json::Error> = serde_json::from_value(json("\"text\""));
    let expected = serde_json::from_value::<Vec<u32>>(json("\"text\"")).unwrap_err().to_string();
    assert!(!expected.is_empty());
    assert_eq!(parse_args(decoded), Err(ToolError::InvalidParams(expected)));
}

#[test]
fn tool_context_holds_root_and_session() {
    let ctx = ToolContext {
        workspace_root: std::path::PathBuf::from("/work"),
        session_id: "s".to_string(),
    };
    let copy = ctx.clone();
    assert_eq!(copy, ctx);
    assert_eq!(copy.workspace_root, std::path::PathBuf::from("/work"));
}

#[test]
fn registry_finds_tools_by_name() {
    let registry = registry();
    assert_eq!(registry.len(), 2);
    assert_eq!(registry.lookup("echo"), Ok(0));
    assert_eq!(registry.lookup("shell"), Ok(1));
    assert_eq!(registry.lookup("frob"), Err(ToolError::Unknown("frob".to_string())));
    assert_eq!(registry.get(1).unwrap().name, "shell");
    assert!(registry.get(2).is_none());
    assert_eq!(registry.list(), vec![spec("echo"), spec("shell")]);
}

#[test]
fn registry_refuses_a_name_twice() {
    let mut registry = registry();
    assert_eq!(registry.register(spec("echo")), None);
    assert_eq!(registry.len(), 2);
    assert_eq!(registry.register(spec("Echo")), Some(2));
}

#[test]
fn a_hook_that_times_out_counts_as_allow() {
    assert_eq!(resolve_verdict(HookOutcome::TimedOut), Verdict::Allow);
    assert_eq!(resolve_verdict(HookOutcome::Failed("nil".to_string())), Verdict::Allow);
    assert_eq!(resolve_verdict(HookOutcome::Absent), Verdict::Allow);
    assert_eq!(
        resolve_verdict(HookOutcome::Returned(Verdict::Reject("no".to_string()))),
        Verdict::Reject("no".to_string())
    );
    assert_eq!(Verdict::Rewrite(json("1")).kind(), VerdictKind::Rewrite);
    assert_eq!(Verdict::Substitute(String::new()).kind(), VerdictKind::Substitute);
}

#[test]
fn verdicts_decide_the_plan() {
    let registry = registry();
    let call = echo_call();
    assert_eq!(
        plan_call(&call, Verdict::Allow, &registry),
        ToolPlan::Execute { handle: 0, args: json("{\"text\":\"x\"}"), verdict: VerdictKind::Allow }
    );
    assert_eq!(
        plan_call(&call, Verdict::Rewrite(json("{\"text\":\"y\"}")), &registry),
        ToolPlan::Execute {
            handle: 0,
            args: json("{\"text\":\"y\"}"),
            verdict: VerdictKind::Rewrite
        }
    );
    assert_eq!(
        plan_call(&call, Verdict::Reject("blocked".to_string()), &registry),
        ToolPlan::Finish(ToolReply {
            output: "blocked".to_string(),
            is_error: true,
            verdict: VerdictKind::Reject,
            rewritten_args: None,
        })
    );
    assert_eq!(
        plan_call(&call, Verdict::Substitute("canned".to_string()), &registry),
        ToolPlan::Finish(ToolReply {
            output: "canned".to_string(),
            is_error: false,
            verdict: VerdictKind::Substitute,
            rewritten_args: None,
        })
    );
}

#[test]
fn an_unknown_tool_is_settled_with_an_error_text() {
    let registry = registry();
    let call = ToolCall { id: "c".to_string(), name: "frob".to_string(), arguments: json("{}") };
    assert_eq!(
        plan_call(&call, Verdict::Allow, &registry),
        ToolPlan::Finish(ToolReply {
            output: "Unknown tool: frob".to_string(),
            is_error: true,
            verdict: VerdictKind::Allow,
            rewritten_args: None,
        })
    );
    assert_eq!(
        plan_call(&call, Verdict::Rewrite(json("[]")), &registry),
        ToolPlan::Finish(ToolReply {
            output: "Unknown tool: frob".to_string(),
            is_error: true,
            verdict: VerdictKind::Rewrite,
            rewritten_args: Some(json("[]")),
        })
    );
}

#[test]
fn outcomes_of_an_execution_become_replies() {
    let reply = |outcome| complete_execution(json("{}"), VerdictKind::Allow, outcome, 30);
    let ok = reply(ExecOutcome::Completed(Ok(ToolOutput::new("x".to_string()))));
    assert_eq!((ok.output.as_str(), ok.is_error), ("x", false));
    let err = reply(ExecOutcome::Completed(Err(ToolError::PermissionDenied("/etc".to_string()))));
    assert_eq!((err.output.as_str(), err.is_error), ("Permission denied: /etc", true));
    let timeout = reply(ExecOutcome::TimedOut);
    assert_eq!((timeout.output.as_str(), timeout.is_error), ("tool timed out after 30s", true));
    assert!(timeout.output.contains("tool timed out"));
    let crash = reply(ExecOutcome::Panicked("index out of bounds".to_string()));
    assert_eq!(
        (crash.output.as_str(), crash.is_error),
        ("Tool execution failed: index out of bounds", true)
    );
    let cancelled = reply(ExecOutcome::Cancelled);
    assert_eq!((cancelled.output.as_str(), cancelled.is_error), ("cancelled", true));
    assert_eq!(cancelled.verdict, VerdictKind::Allow);
    assert_eq!(cancelled.rewritten_args, None);
}

#[test]
fn a_rewritten_execution_records_the_new_arguments() {
    let reply = complete_execution(
        json("{\"text\":\"y\"}"),
        VerdictKind::Rewrite,
        ExecOutcome::Completed(Ok(ToolOutput::new("y".to_string()))),
        5,
    );
    assert_eq!(reply.verdict, VerdictKind::Rewrite);
    assert_eq!(reply.rewritten_args, Some(json("{\"text\":\"y\"}")));
    let long = complete_execution(json("1"), VerdictKind::Allow, ExecOutcome::TimedOut, 120);
    assert_eq!(long.output, "tool timed out after 120s");
}

#[test]
fn persist_backoff_doubles_from_50_ms_over_five_attempts() {
    let policy = Backoff::persist();
    assert_eq!(policy, Backoff { base_ms: 50, factor: 2, max_attempts: 5, cap_ms: 2000 });
    let delays: Vec<Option<u64>> = (0..6).map(|n| policy.retry_delay(n)).collect();
    assert_eq!(delays, vec![Some(50), Some(100), Some(200), Some(400), None, None]);
    assert_eq!(policy.retry_delay(u32::MAX), None);
}

#[test]
fn provider_backoff_is_250_1000_4000() {
    let policy = Backoff::provider();
    let delays: Vec<Option<u64>> = (0..5).map(|n| policy.retry_delay(n)).collect();
    assert_eq!(delays, vec![Some(250), Some(1000), Some(4000), None, None]);
}

#[test]
fn backoff_stops_at_its_cap() {
    let policy = Backoff { base_ms: 50, factor: 2, max_attempts: 100, cap_ms: 2000 };
    assert_eq!(policy.retry_delay(5), Some(1600));
    assert_eq!(policy.retry_delay(6), Some(2000));
    assert_eq!(policy.retry_delay(90), Some(2000));
    let steep = Backoff { base_ms: u64::MAX, factor: u64::MAX, max_attempts: 9, cap_ms: u64::MAX };
    assert_eq!(steep.retry_delay(3), Some(u64::MAX));
    let flat = Backoff { base_ms: 7, factor: 0, max_attempts: 9, cap_ms: 5 };
    assert_eq!(flat.retry_delay(0), Some(5));
    assert_eq!(flat.retry_delay(1), Some(0));
    let single = Backoff { base_ms: 7, factor: 2, max_attempts: 1, cap_ms: 5 };
    assert_eq!(single.retry_delay(0), None);
}

#[test]
fn a_failed_write_is_retried_four_times_and_then_reported() {
    for (retries, delay) in [(0, 50), (1, 100), (2, 200), (3, 400)] {
        assert_eq!(
            after_persist_failure(retries, "disk full".to_string()),
            PersistStep::Retry { delay_ms: delay }
        );
    }
    assert_eq!(
        after_persist_failure(4, "disk full".to_string()),
        PersistStep::GiveUp {
            report: KernelEvent::Error {
                stage: ErrorStage::Persist,
                message: "disk full".to_string()
            }
        }
    );
}

#[test]
fn numbers_are_written_in_decimal() {
    assert_eq!(decimal_string(0), "0");
    assert_eq!(decimal_string(7), "7");
    assert_eq!(decimal_string(10), "10");
    assert_eq!(decimal_string(1_048_576), "1048576");
    assert_eq!(decimal_string(u64::MAX), "18446744073709551615");
}

#[test]
fn unix_seconds_become_utc_times() {
    assert_eq!(UtcTime::from_unix(0).iso8601(), "1970-01-01T00:00:00Z");
    assert_eq!(UtcTime::from_unix(86_399).iso8601(), "1970-01-01T23:59:59Z");
    assert_eq!(UtcTime::from_unix(951_782_400).iso8601(), "2000-02-29T00:00:00Z");
    assert_eq!(UtcTime::from_unix(1_709_967_900).iso8601(), "2024-03-09T07:05:00Z");
    assert_eq!(UtcTime::from_unix(4_102_444_799).iso8601(), "2099-12-31T23:59:59Z");
    assert_eq!(
        UtcTime::from_unix(1_709_967_900),
        UtcTime { year: 2024, month: 3, day: 9, hour: 7, minute: 5, second: 0 }
    );
}

#[test]
fn a_streamed_answer_is_gathered_into_one_result() {
    let pieces = vec![
        StreamEvent::Text("hel".to_string()),
        StreamEvent::Usage(Usage { input_tokens: 1, output_tokens: 1 }),
        StreamEvent::ToolCall(echo_call()),
        StreamEvent::Text("lo".to_string()),
        StreamEvent::Usage(Usage { input_tokens: 4, output_tokens: 2 }),
    ];
    assert_eq!(
        AssistantResult::from_stream(&pieces),
        AssistantResult {
            content: "hello".to_string(),
            tool_calls: vec![echo_call()],
            usage: Some(Usage { input_tokens: 4, output_tokens: 2 }),
        }
    );
    assert_eq!(
        AssistantResult::from_stream(&vec![]),
        AssistantResult { content: String::new(), tool_calls: vec![], usage: None }
    );
}

#[test]
fn words_are_read_back_as_what_they_stand_for() {
    for kind in [VerdictKind::Allow, VerdictKind::Reject, VerdictKind::Rewrite, VerdictKind::Substitute]
    {
        assert_eq!(VerdictKind::from_word(kind.as_str()), Some(kind));
    }
    assert_eq!(VerdictKind::from_word("Allow"), None);
    assert_eq!(VerdictKind::from_word(""), None);
    for stage in [ErrorStage::Infer, ErrorStage::Persist, ErrorStage::Harness] {
        assert_eq!(ErrorStage::from_word(stage.as_str()), Some(stage));
    }
    assert_eq!(ErrorStage::from_word("tool"), None);
    for role in [Role::System, Role::User, Role::Assistant, Role::Tool] {
        assert_eq!(Role::from_word(role.as_str()), Some(role));
    }
    assert_eq!(Role::System.as_str(), "system");
    assert_eq!(Role::User.as_str(), "user");
    assert_eq!(Role::Assistant.as_str(), "assistant");
    assert_eq!(Role::Tool.as_str(), "tool");
    assert_eq!(Role::from_word("model"), None);
}

#[test]
fn jitter_adds_up_to_a_quarter_of_the_pause() {
    assert_eq!(jittered(1000, 0), 1000);
    assert_eq!(jittered(1000, 250), 1250);
    assert_eq!(jittered(1000, 251), 1000);
    assert_eq!(jittered(1000, 1_000_003), 1000 + 1_000_003 % 251);
    assert_eq!(jittered(0, 77), 0);
    assert_eq!(jittered(3, 9), 3);
    assert_eq!(jittered(u64::MAX, u64::MAX / 4), u64::MAX);
}

#[test]
fn only_a_reported_usage_gives_a_token_count() {
    let event = |output_tokens: u64, usage_reported: bool| KernelEvent::AssistantMessage {
        content: String::new(),
        tool_calls: vec![],
        usage: Usage { input_tokens: 3, output_tokens },
        usage_reported,
    };
    assert_eq!(event(10, true).token_count(), Some(10));
    assert_eq!(event(0, true).token_count(), Some(0));
    assert_eq!(event(10, false).token_count(), None);
    assert_eq!(event(u64::MAX, true).token_count(), Some(u32::MAX));
    assert_eq!(event(4_294_967_295, true).token_count(), Some(u32::MAX));
    assert_eq!(KernelEvent::UserMessage { content: "hi".to_string() }.token_count(), None);
    assert_eq!(KernelEvent::AgentStart.token_count(), None);
}
