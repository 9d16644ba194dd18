//! The decisions about one tool call: the verdict of the harness, the plan
//! that follows from it, and the reply that an execution amounts to.

use vstd::prelude::*;
use crate::inference::provider::ToolCall;
use crate::kernel::event::VerdictKind;
use crate::tools::registry::{has_name, ToolRegistry};
use crate::tools::{
    cancelled_text, execution_error_text, timeout_text, unknown_tool_text, ToolError, ToolOutput,
};

verus! {

/// What a harness decides about one tool call before it runs.
#[derive(Debug, PartialEq)]
pub enum Verdict {
    /// Run the tool with the arguments of the call.
    Allow,
    /// Do not run the tool; the reason is handed to the model as an error.
    Reject(String),
    /// Run the tool with these arguments in place of the call's.
    Rewrite(serde_json::Value),
    /// Do not run the tool; hand this output to the model.
    Substitute(String),
}

impl Verdict {
    /// Which of the four verdicts this is.
    pub open spec fn kind_of(self) -> VerdictKind {
        match self {
            Verdict::Allow => VerdictKind::Allow,
            Verdict::Reject(_) => VerdictKind::Reject,
            Verdict::Rewrite(_) => VerdictKind::Rewrite,
            Verdict::Substitute(_) => VerdictKind::Substitute,
        }
    }

    /// Which of the four verdicts this is.
    pub fn kind(&self) -> (kind: VerdictKind)
        ensures
            kind == self.kind_of(),
    {
        match self {
            Verdict::Allow => VerdictKind::Allow,
            Verdict::Reject(_) => VerdictKind::Reject,
            Verdict::Rewrite(_) => VerdictKind::Rewrite,
            Verdict::Substitute(_) => VerdictKind::Substitute,
        }
    }
}

/// How a call of the harness hook `on_tool_call` ended.
#[derive(Debug, PartialEq)]
pub enum HookOutcome {
    /// The hook returned a verdict in time.
    Returned(Verdict),
    /// The hook did not return within its timeout.
    TimedOut,
    /// The hook raised an error; holds its message.
    Failed(String),
    /// The script defines no such hook.
    Absent,
}

/// The verdict that a hook's outcome amounts to: the verdict it returned, and
/// `Allow` in every other case, so that a harness can neither stall nor break
/// a turn.
pub fn resolve_verdict(outcome: HookOutcome) -> (verdict: Verdict)
    ensures
        match outcome {
            HookOutcome::Returned(v) => verdict == v,
            _ => verdict == Verdict::Allow,
        },
{
    match outcome {
        HookOutcome::Returned(v) => v,
        _ => Verdict::Allow,
    }
}

/// What is handed back to the model for one tool call, and how it came about.
#[derive(Debug, PartialEq)]
pub struct ToolReply {
    /// The text of the tool result.
    pub output: String,
    pub is_error: bool,
    pub verdict: VerdictKind,
    /// The arguments that a `Rewrite` verdict put in place of the call's.
    pub rewritten_args: Option<serde_json::Value>,
}

/// What to do about one tool call once the verdict is known.
#[derive(Debug, PartialEq)]
pub enum ToolPlan {
    /// The call is settled without running anything.
    Finish(ToolReply),
    /// Run the tool behind `handle` with `args`. `verdict` is `Allow` or
    /// `Rewrite`.
    Execute { handle: usize, args: serde_json::Value, verdict: VerdictKind },
}

/// Whether `plan` is what running the tool `name` with `args` calls for: the
/// execution of the registered tool of that name, or the error text for an
/// unknown tool where none is registered.
pub open spec fn plans_run(
    plan: ToolPlan,
    registry: ToolRegistry,
    name: Seq<char>,
    args: serde_json::Value,
    verdict: VerdictKind,
    rewritten_args: Option<serde_json::Value>,
) -> bool {
    if has_name(registry@, name) {
        &&& plan matches ToolPlan::Execute { handle, args: a, verdict: v }
        &&& handle < registry@.len()
        &&& registry@[handle as int].name == name
        &&& a == args
        &&& v == verdict
    } else {
        &&& plan matches ToolPlan::Finish(reply)
        &&& reply.output@ == unknown_tool_text(name)
        &&& reply.is_error
        &&& reply.verdict == verdict
        &&& reply.rewritten_args == rewritten_args
    }
}

/// Decides what to do about a tool call under a verdict.
///
/// `Reject` and `Substitute` settle the call with the text they carry, the
/// first as an error. `Allow` and `Rewrite` run the tool named by the call,
/// with the call's arguments or the rewritten ones; where no tool of that
/// name is registered the call is settled with an error text.
pub fn plan_call(call: &ToolCall, verdict: Verdict, registry: &ToolRegistry) -> (plan: ToolPlan)
    ensures
        match verdict {
            Verdict::Reject(reason) => plan matches ToolPlan::Finish(reply) && reply.output
                == reason && reply.is_error && reply.verdict == VerdictKind::Reject
                && reply.rewritten_args.is_none(),
            Verdict::Substitute(output) => plan matches ToolPlan::Finish(reply) && reply.output
                == output && !reply.is_error && reply.verdict == VerdictKind::Substitute
                && reply.rewritten_args.is_none(),
            Verdict::Allow => plans_run(
                plan,
                *registry,
                call.name@,
                call.arguments,
                VerdictKind::Allow,
                None,
            ),
            Verdict::Rewrite(args) => plans_run(
                plan,
                *registry,
                call.name@,
                args,
                VerdictKind::Rewrite,
                Some(args),
            ),
        },
{
    match verdict {
        Verdict::Reject(reason) => ToolPlan::Finish(
            ToolReply {
                output: reason,
                is_error: true,
                verdict: VerdictKind::Reject,
                rewritten_args: None,
            },
        ),
        Verdict::Substitute(output) => ToolPlan::Finish(
            ToolReply {
                output,
                is_error: false,
                verdict: VerdictKind::Substitute,
                rewritten_args: None,
            },
        ),
        Verdict::Allow => match registry.lookup(call.name.as_str()) {
            Ok(handle) => ToolPlan::Execute {
                handle,
                args: call.arguments.clone(),
                verdict: VerdictKind::Allow,
            },
            Err(e) => ToolPlan::Finish(
                ToolReply {
                    output: e.message(),
                    is_error: true,
                    verdict: VerdictKind::Allow,
                    rewritten_args: None,
                },
            ),
        },
        Verdict::Rewrite(args) => match registry.lookup(call.name.as_str()) {
            Ok(handle) => ToolPlan::Execute { handle, args, verdict: VerdictKind::Rewrite },
            Err(e) => ToolPlan::Finish(
                ToolReply {
                    output: e.message(),
                    is_error: true,
                    verdict: VerdictKind::Rewrite,
                    rewritten_args: Some(args),
                },
            ),
        },
    }
}

/// How the execution of a tool ended.
#[derive(Debug, PartialEq)]
pub enum ExecOutcome {
    /// The tool returned, with an output or an error.
    Completed(Result<ToolOutput, ToolError>),
    /// The tool did not return within its timeout.
    TimedOut,
    /// The tool crashed; holds what is known of the crash.
    Panicked(String),
    /// The session shut down while the tool ran.
    Cancelled,
}

impl ExecOutcome {
    /// The text of the tool result for this outcome, under a timeout of
    /// `timeout_secs` seconds.
    pub open spec fn text(self, timeout_secs: u64) -> Seq<char> {
        match self {
            ExecOutcome::Completed(Ok(output)) => output.content@,
            ExecOutcome::Completed(Err(error)) => error.message_text(),
            ExecOutcome::TimedOut => timeout_text(timeout_secs),
            ExecOutcome::Panicked(detail) => execution_error_text(detail@),
            ExecOutcome::Cancelled => cancelled_text(),
        }
    }

    /// Whether the outcome is an error: every outcome but a returned output.
    pub open spec fn is_failure(self) -> bool {
        !(self matches ExecOutcome::Completed(Ok(_)))
    }
}

/// Turns the outcome of an execution that [`plan_call`] asked for into the
/// reply to the model. `args` and `verdict` are those of the plan.
pub fn complete_execution(
    args: serde_json::Value,
    verdict: VerdictKind,
    outcome: ExecOutcome,
    timeout_secs: u64,
) -> (reply: ToolReply)
    ensures
        reply.output@ == outcome.text(timeout_secs),
        reply.is_error == outcome.is_failure(),
        reply.verdict == verdict,
        reply.rewritten_args == if verdict == VerdictKind::Rewrite {
            Some(args)
        } else {
            None
        },
{
    let rewritten_args = match verdict {
        VerdictKind::Rewrite => Some(args),
        _ => None,
    };
    match outcome {
        ExecOutcome::Completed(Ok(output)) => ToolReply {
            output: output.content,
            is_error: false,
            verdict,
            rewritten_args,
        },
        ExecOutcome::Completed(Err(error)) => ToolReply {
            output: error.message(),
            is_error: true,
            verdict,
            rewritten_args,
        },
        ExecOutcome::TimedOut => ToolReply {
            output: ToolError::Timeout(timeout_secs).message(),
            is_error: true,
            verdict,
            rewritten_args,
        },
        ExecOutcome::Panicked(detail) => ToolReply {
            output: ToolError::ExecutionError(detail).message(),
            is_error: true,
            verdict,
            rewritten_args,
        },
        ExecOutcome::Cancelled => ToolReply {
            output: ToolError::Cancelled.message(),
            is_error: true,
            verdict,
            rewritten_args,
        },
    }
}

/// A crash of a tool is reported to the model as an execution error.
pub proof fn lemma_crash_is_error(detail: String, timeout_secs: u64)
    ensures
        ExecOutcome::Panicked(detail).is_failure(),
        ExecOutcome::Panicked(detail).text(timeout_secs) == ToolError::ExecutionError(
            detail,
        ).message_text(),
{
}

/// A tool that ran out of time is reported as an error whose text begins
/// with the words "tool timed out".
pub proof fn lemma_timeout_is_error(timeout_secs: u64)
    ensures
        ExecOutcome::TimedOut.is_failure(),
        "tool timed out"@.is_prefix_of(ExecOutcome::TimedOut.text(timeout_secs)),
{
    reveal_strlit("tool timed out");
    reveal_strlit("tool timed out after ");
    let text = ExecOutcome::TimedOut.text(timeout_secs);
    assert(text.subrange(0, 14) =~= "tool timed out"@);
}

} // verus!
