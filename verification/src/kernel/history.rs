//! Histories in which every tool message answers a call.

use vstd::prelude::*;
use crate::inference::provider::{InferenceMessage, MessageView, Role, ToolCall};
use crate::views::views;

verus! {

/// Whether the assistant message at `j` is the one that the tool message at
/// `i` answers: it is the last assistant message before `i`, only tool
/// messages lie between the two, and it holds a call with the id that the
/// tool message names.
pub open spec fn answers(history: Seq<MessageView>, j: int, i: int) -> bool {
    &&& 0 <= j < i < history.len()
    &&& history[j].role == Role::Assistant
    &&& forall|k: int| j < k < i ==> (#[trigger] history[k]).role == Role::Tool
    &&& history[i].tool_call_id matches Some(id) && has_call(history[j], id)
}

/// Whether a message asks for a tool call with the given id.
pub open spec fn has_call(message: MessageView, id: Seq<char>) -> bool {
    exists|c: int| 0 <= c < message.tool_calls.len() && (#[trigger] message.tool_calls[c]).id == id
}

/// Whether every tool message of a history answers a call of the assistant
/// message just before its group of tool messages.
pub open spec fn tool_messages_answered(history: Seq<MessageView>) -> bool {
    forall|i: int|
        0 <= i < history.len() && (#[trigger] history[i]).role == Role::Tool ==> exists|j: int|
            answers(history, j, i)
}

/// Whether the message at `j` opens the group of tool messages that `i`
/// would belong to: it is an assistant message and only tool messages lie
/// between it and `i`.
pub open spec fn opens_group(history: Seq<MessageView>, j: int, i: int) -> bool {
    &&& 0 <= j < i <= history.len()
    &&& history[j].role == Role::Assistant
    &&& forall|k: int| j < k < i ==> (#[trigger] history[k]).role == Role::Tool
}

/// At most one message opens the group of a position.
pub proof fn lemma_group_has_one_opener(history: Seq<MessageView>, a: int, b: int, i: int)
    requires
        opens_group(history, a, i),
        opens_group(history, b, i),
    ensures
        a == b,
{
    if a < b {
        assert(history[b].role == Role::Tool);
    } else if b < a {
        assert(history[a].role == Role::Tool);
    }
}

/// Whether one of the calls has the given id.
fn calls_include(calls: &Vec<ToolCall>, id: &String) -> (found: bool)
    ensures
        found == exists|c: int| 0 <= c < calls.len() && (#[trigger] calls@[c]).id@ == id@,
{
    position_of_call(calls, id).is_some()
}

/// Checks a history, such as one rebuilt from a stored log, for tool
/// messages that answer no call.
pub fn history_is_answered(history: &Vec<InferenceMessage>) -> (ok: bool)
    ensures
        ok == tool_messages_answered(views(history@)),
{
    let ghost h = views(history@);
    let mut opener: Option<usize> = None;
    let mut i: usize = 0;
    while i < history.len()
        invariant
            0 <= i <= history.len(),
            h == views(history@),
            forall|k: int|
                0 <= k < i && (#[trigger] h[k]).role == Role::Tool ==> exists|j: int|
                    answers(h, j, k),
            match opener {
                Some(j) => opens_group(h, j as int, i as int),
                None => forall|j: int| !opens_group(h, j, i as int),
            },
        decreases history.len() - i,
    {
        let message = &history[i];
        proof {
            assert(h[i as int] == message@);
        }
        match message.role {
            Role::Tool => {
                let answered = match (opener, &message.tool_call_id) {
                    (Some(j), Some(id)) => {
                        let found = calls_include(&history[j].tool_calls, id);
                        proof {
                            let asked = h[j as int];
                            assert(asked == history@[j as int]@);
                            if found {
                                let c = choose|c: int|
                                    0 <= c < history@[j as int].tool_calls.len() && (
                                    #[trigger] history@[j as int].tool_calls@[c]).id@ == id@;
                                assert(asked.tool_calls[c].id == id@);
                                assert(has_call(asked, id@));
                            } else {
                                assert forall|c: int| 0 <= c < asked.tool_calls.len() implies (
                                #[trigger] asked.tool_calls[c]).id != id@ by {
                                    assert(history@[j as int].tool_calls@[c].id@ != id@);
                                }
                                assert(!has_call(asked, id@));
                            }
                        }
                        found
                    },
                    _ => false,
                };
                if !answered {
                    proof {
                        assert forall|j: int| !answers(h, j, i as int) by {
                            if answers(h, j, i as int) {
                                assert(opens_group(h, j, i as int));
                                match opener {
                                    Some(known) => {
                                        lemma_group_has_one_opener(h, j, known as int, i as int);
                                    },
                                    None => {},
                                }
                            }
                        }
                        assert(h[i as int].role == Role::Tool);
                    }
                    return false;
                }
                proof {
                    assert(answers(h, opener.unwrap() as int, i as int));
                    let j = opener.unwrap() as int;
                    assert forall|k: int| j < k < i + 1 implies (#[trigger] h[k]).role
                        == Role::Tool by {}
                }
            },
            Role::Assistant => {
                opener = Some(i);
            },
            _ => {
                opener = None;
                proof {
                    let next = i as int + 1;
                    assert forall|j: int| !opens_group(h, j, next) by {
                        if opens_group(h, j, next) {
                            if j < i {
                                assert(h[i as int].role == Role::Tool);
                            }
                        }
                    }
                }
            },
        }
        i = i + 1;
    }
    true
}

/// The position, among the calls, of the first one with the given id.
fn position_of_call(calls: &Vec<ToolCall>, id: &String) -> (found: Option<usize>)
    ensures
        match found {
            Some(c) => c < calls.len() && calls@[c as int].id@ == id@ && forall|k: int|
                0 <= k < c ==> (#[trigger] calls@[k]).id@ != id@,
            None => forall|k: int| 0 <= k < calls.len() ==> (#[trigger] calls@[k]).id@ != id@,
        },
{
    let mut c: usize = 0;
    while c < calls.len()
        invariant
            0 <= c <= calls.len(),
            forall|k: int| 0 <= k < c ==> (#[trigger] calls@[k]).id@ != id@,
        decreases calls.len() - c,
    {
        if calls[c].id == *id {
            return Some(c);
        }
        c = c + 1;
    }
    None
}

/// Finds the call that the message at `index` answers: the position of the
/// assistant message that asked for it and, among that message's calls, the
/// position of the first with the id that the message at `index` names.
/// There is none where the message names no call, or no assistant message
/// opens its group, or that message holds no call of that id.
pub fn call_answered_by(history: &Vec<InferenceMessage>, index: usize) -> (found: Option<
    (usize, usize),
>)
    ensures
        match found {
            Some((j, c)) => {
                &&& answers(views(history@), j as int, index as int)
                &&& c < history@[j as int].tool_calls.len()
                &&& Some(history@[j as int].tool_calls@[c as int].id@) == views(
                    history@,
                )[index as int].tool_call_id
                &&& forall|k: int|
                    0 <= k < c ==> Some((#[trigger] history@[j as int].tool_calls@[k]).id@)
                        != views(history@)[index as int].tool_call_id
            },
            None => forall|j: int| !answers(views(history@), j, index as int),
        },
{
    let ghost h = views(history@);
    if index >= history.len() {
        return None;
    }
    let id = match &history[index].tool_call_id {
        Some(id) => id,
        None => {
            return None;
        },
    };
    proof {
        assert(h[index as int] == history@[index as int]@);
    }
    // Walk back over the tool messages that lie before `index`.
    let mut j: usize = index;
    while j > 0 && history[j - 1].role == Role::Tool
        invariant
            0 <= j <= index < history.len(),
            h == views(history@),
            forall|k: int| j <= k < index ==> (#[trigger] h[k]).role == Role::Tool,
        decreases j,
    {
        proof {
            assert(h[j as int - 1] == history@[j as int - 1]@);
        }
        j = j - 1;
    }
    if j == 0 {
        proof {
            assert forall|a: int| !answers(h, a, index as int) by {
                if answers(h, a, index as int) {
                    assert(h[a].role == Role::Tool);
                }
            }
        }
        return None;
    }
    let opener = j - 1;
    proof {
        assert(h[opener as int] == history@[opener as int]@);
    }
    if history[opener].role != Role::Assistant {
        proof {
            assert forall|a: int| !answers(h, a, index as int) by {
                if answers(h, a, index as int) {
                    if a < opener {
                        assert(h[opener as int].role == Role::Tool);
                    } else if a > opener {
                        assert(h[a].role == Role::Tool);
                    }
                }
            }
        }
        return None;
    }
    proof {
        assert(opens_group(h, opener as int, index as int));
    }
    match position_of_call(&history[opener].tool_calls, id) {
        Some(c) => {
            proof {
                let asked = h[opener as int];
                assert(asked.tool_calls[c as int].id == id@);
                assert(has_call(asked, id@));
            }
            Some((opener, c))
        },
        None => {
            proof {
                let asked = h[opener as int];
                assert forall|k: int| 0 <= k < asked.tool_calls.len() implies (
                #[trigger] asked.tool_calls[k]).id != id@ by {
                    assert(history@[opener as int].tool_calls@[k].id@ != id@);
                }
                assert(!has_call(asked, id@));
                assert forall|a: int| !answers(h, a, index as int) by {
                    if answers(h, a, index as int) {
                        assert(opens_group(h, a, index as int));
                        lemma_group_has_one_opener(h, a, opener as int, index as int);
                    }
                }
            }
            None
        },
    }
}

} // verus!
