//! How the starts and ends of tool calls lie in an event log.

use vstd::prelude::*;
use crate::inference::provider::ToolCallView;
use crate::kernel::audit::call_ids;
use crate::kernel::event::EventView;
use crate::kernel::model::{call_end, call_ends, call_starts, ToolResultView};

verus! {

/// A tool call that has started and not yet ended.
pub struct OpenCall {
    pub id: Seq<char>,
    /// The position of its `ToolCallStart` in the log.
    pub at: nat,
}

/// A tool call that has started and ended.
pub struct CallPair {
    pub id: Seq<char>,
    /// The position of its `ToolCallStart` in the log.
    pub started_at: nat,
    /// The position of its `ToolCallEnd` in the log.
    pub ended_at: nat,
}

/// What a reader of an event log knows of its turns and tool calls.
pub struct Brackets {
    /// The number of events read.
    pub seen: nat,
    /// Whether a turn has started and not yet ended.
    pub in_turn: bool,
    /// The calls that have started and not yet ended, oldest first.
    pub open: Seq<OpenCall>,
    /// The calls that have ended, in the order of their ends.
    pub pairs: Seq<CallPair>,
    /// Whether every event so far came at its place: a turn started only
    /// outside a turn, a turn ended only inside one and with no call open,
    /// a call started only inside a turn, and a call ended only inside a
    /// turn, as the oldest open call, under that call's id.
    pub orderly: bool,
}

impl Brackets {
    /// What is known before the first event.
    pub open spec fn zero() -> Brackets {
        Brackets {
            seen: 0,
            in_turn: false,
            open: Seq::empty(),
            pairs: Seq::empty(),
            orderly: true,
        }
    }

    /// What is known after one more event.
    pub open spec fn watch(self, event: EventView) -> Brackets {
        let next = Brackets { seen: self.seen + 1, ..self };
        match event {
            EventView::TurnStart { .. } => Brackets {
                in_turn: true,
                orderly: self.orderly && !self.in_turn,
                ..next
            },
            EventView::TurnEnd { .. } => Brackets {
                in_turn: false,
                orderly: self.orderly && self.in_turn && self.open.len() == 0,
                ..next
            },
            EventView::ToolCallStart { id, .. } => Brackets {
                open: self.open.push(OpenCall { id, at: self.seen }),
                orderly: self.orderly && self.in_turn,
                ..next
            },
            EventView::ToolCallEnd { id, .. } => if self.open.len() > 0 && self.open[0].id == id {
                Brackets {
                    open: self.open.drop_first(),
                    pairs: self.pairs.push(
                        CallPair { id, started_at: self.open[0].at, ended_at: self.seen },
                    ),
                    orderly: self.orderly && self.in_turn,
                    ..next
                }
            } else {
                Brackets { orderly: false, ..next }
            },
            _ => next,
        }
    }

    /// What is known after a run of events.
    pub open spec fn watch_all(self, events: Seq<EventView>) -> Brackets
        decreases events.len(),
    {
        if events.len() == 0 {
            self
        } else {
            self.watch_all(events.drop_last()).watch(events.last())
        }
    }
}

/// What a reader knows of a whole log.
pub open spec fn brackets(log: Seq<EventView>) -> Brackets {
    Brackets::zero().watch_all(log)
}

/// The ids of open calls, oldest first.
pub open spec fn open_ids(open: Seq<OpenCall>) -> Seq<Seq<char>> {
    Seq::new(open.len(), |i: int| open[i].id)
}

/// Whether an event starts or ends a turn.
pub open spec fn is_turn_mark(event: EventView) -> bool {
    event is TurnStart || event is TurnEnd
}

/// Whether the events strictly between two positions of a log leave the
/// turn as it is.
pub open spec fn same_turn(log: Seq<EventView>, from: int, to: int) -> bool {
    forall|j: int| from < j < to ==> !is_turn_mark(#[trigger] log[j])
}

/// Whether a log has the start of a call with the given id at a position.
pub open spec fn starts_at(log: Seq<EventView>, at: int, id: Seq<char>) -> bool {
    0 <= at < log.len() && log[at] is ToolCallStart && log[at]->ToolCallStart_id == id
}

/// Whether a log has the end of a call with the given id at a position.
pub open spec fn ends_at(log: Seq<EventView>, at: int, id: Seq<char>) -> bool {
    0 <= at < log.len() && log[at] is ToolCallEnd && log[at]->ToolCallEnd_id == id
}

/// Whether a pair names the start and the end of one call of a log: the
/// start lies before the end, both carry the pair's id, and no turn starts
/// or ends between them.
pub open spec fn pair_holds(log: Seq<EventView>, pair: CallPair) -> bool {
    &&& pair.started_at < pair.ended_at
    &&& starts_at(log, pair.started_at as int, pair.id)
    &&& ends_at(log, pair.ended_at as int, pair.id)
    &&& same_turn(log, pair.started_at as int, pair.ended_at as int)
}

/// Whether an open call names a start of a log after which no turn has
/// started or ended.
pub open spec fn open_holds(log: Seq<EventView>, call: OpenCall) -> bool {
    &&& starts_at(log, call.at as int, call.id)
    &&& same_turn(log, call.at as int, log.len() as int)
}

/// Whether what a reader knows fits the log that was read.
pub open spec fn fits(log: Seq<EventView>, b: Brackets) -> bool {
    &&& b.seen == log.len()
    &&& !b.in_turn ==> b.open.len() == 0
    &&& forall|k: int| 0 <= k < b.open.len() ==> open_holds(log, #[trigger] b.open[k])
    &&& forall|k: int| 0 <= k < b.pairs.len() ==> pair_holds(log, #[trigger] b.pairs[k])
    &&& forall|k: int, l: int|
        0 <= k < l < b.open.len() ==> (#[trigger] b.open[k]).at < (#[trigger] b.open[l]).at
    &&& forall|k: int, l: int|
        0 <= k < l < b.pairs.len() ==> (#[trigger] b.pairs[k]).ended_at < (
        #[trigger] b.pairs[l]).ended_at && b.pairs[k].started_at < b.pairs[l].started_at
    &&& forall|k: int, l: int|
        0 <= k < b.pairs.len() && 0 <= l < b.open.len() ==> (
        #[trigger] b.pairs[k]).started_at < (#[trigger] b.open[l]).at
    &&& forall|j: int|
        0 <= j < log.len() && (#[trigger] log[j]) is ToolCallEnd ==> exists|k: int|
            0 <= k < b.pairs.len() && (#[trigger] b.pairs[k]).ended_at == j
    &&& forall|j: int|
        0 <= j < log.len() && (#[trigger] log[j]) is ToolCallStart ==> (exists|k: int|
            0 <= k < b.pairs.len() && (#[trigger] b.pairs[k]).started_at == j) || (exists|
            k: int,
        | 0 <= k < b.open.len() && (#[trigger] b.open[k]).at == j)
}

/// Reading a log and then one more event is reading the log with that
/// event at its end.
pub proof fn lemma_watch_push(b: Brackets, events: Seq<EventView>, event: EventView)
    ensures
        b.watch_all(events.push(event)) == b.watch_all(events).watch(event),
{
    assert(events.push(event).drop_last() =~= events);
}

/// Reading two logs one after the other is reading their concatenation.
pub proof fn lemma_watch_concat(b: Brackets, first: Seq<EventView>, second: Seq<EventView>)
    ensures
        b.watch_all(first + second) == b.watch_all(first).watch_all(second),
    decreases second.len(),
{
    if second.len() == 0 {
        assert(first + second =~= first);
    } else {
        lemma_watch_concat(b, first, second.drop_last());
        assert((first + second).drop_last() =~= first + second.drop_last());
        assert((first + second).last() == second.last());
    }
}

/// Reading a log of one event is reading that event.
pub proof fn lemma_watch_one(b: Brackets, a: EventView)
    ensures
        b.watch_all(seq![a]) == b.watch(a),
{
    assert(seq![a] =~= Seq::<EventView>::empty().push(a));
    lemma_watch_push(b, Seq::empty(), a);
}

/// Reading a log of two events is reading the first, then the second.
pub proof fn lemma_watch_two(b: Brackets, a: EventView, c: EventView)
    ensures
        b.watch_all(seq![a, c]) == b.watch(a).watch(c),
{
    assert(seq![a, c] =~= seq![a].push(c));
    lemma_watch_push(b, seq![a], c);
    lemma_watch_one(b, a);
}

/// A log that is orderly at its end was orderly all along.
pub proof fn lemma_orderly_all_along(log: Seq<EventView>, n: int)
    requires
        brackets(log).orderly,
        0 <= n <= log.len(),
    ensures
        brackets(log.take(n)).orderly,
    decreases log.len() - n,
{
    if n == log.len() {
        assert(log.take(n) =~= log);
    } else {
        lemma_orderly_all_along(log, n + 1);
        assert(log.take(n + 1).drop_last() =~= log.take(n));
    }
}

/// In a within-turn reading, the starts of a list of calls open each of
/// them, in order, and change nothing else.
pub proof fn lemma_watch_call_starts(b: Brackets, calls: Seq<ToolCallView>)
    requires
        b.in_turn,
    ensures
        b.watch_all(call_starts(calls)).orderly == b.orderly,
        b.watch_all(call_starts(calls)).in_turn,
        b.watch_all(call_starts(calls)).pairs == b.pairs,
        open_ids(b.watch_all(call_starts(calls)).open) == open_ids(b.open) + call_ids(calls),
    decreases calls.len(),
{
    let events = call_starts(calls);
    let ids = call_ids(calls);
    if calls.len() == 0 {
        assert(open_ids(b.open) + ids =~= open_ids(b.open));
    } else {
        let shorter = calls.drop_last();
        lemma_watch_call_starts(b, shorter);
        assert(events.drop_last() =~= call_starts(shorter));
        let before = b.watch_all(call_starts(shorter));
        let after = b.watch_all(events);
        assert(after == before.watch(events.last()));
        assert(open_ids(after.open) =~= open_ids(before.open).push(calls.last().id));
        assert(open_ids(b.open) + ids =~= (open_ids(b.open) + call_ids(shorter)).push(
            calls.last().id,
        ));
    }
}

/// In a within-turn reading whose open calls are the given ones, the ends
/// of those calls close each of them, in order, and leave none open.
pub proof fn lemma_watch_call_ends(
    b: Brackets,
    calls: Seq<ToolCallView>,
    results: Seq<ToolResultView>,
)
    requires
        b.in_turn,
        open_ids(b.open) == call_ids(calls),
    ensures
        b.watch_all(call_ends(calls, results)).orderly == b.orderly,
        b.watch_all(call_ends(calls, results)).in_turn,
        b.watch_all(call_ends(calls, results)).open.len() == 0,
{
    lemma_watch_call_ends_prefix(b, calls, results, calls.len() as int);
    assert(call_ends(calls, results).take(calls.len() as int) =~= call_ends(calls, results));
    assert(open_ids(b.open).len() == calls.len());
    assert(b.open.skip(calls.len() as int).len() == 0);
}

proof fn lemma_watch_call_ends_prefix(
    b: Brackets,
    calls: Seq<ToolCallView>,
    results: Seq<ToolResultView>,
    n: int,
)
    requires
        b.in_turn,
        open_ids(b.open) == call_ids(calls),
        0 <= n <= calls.len(),
    ensures
        b.watch_all(call_ends(calls, results).take(n)).orderly == b.orderly,
        b.watch_all(call_ends(calls, results).take(n)).in_turn,
        b.watch_all(call_ends(calls, results).take(n)).open == b.open.skip(n),
    decreases n,
{
    let events = call_ends(calls, results);
    assert(b.open.len() == calls.len()) by {
        assert(open_ids(b.open).len() == calls.len());
    }
    if n == 0 {
        assert(b.open.skip(0) =~= b.open);
    } else {
        lemma_watch_call_ends_prefix(b, calls, results, n - 1);
        assert(events.take(n).drop_last() =~= events.take(n - 1));
        assert(events.take(n).last() == call_end(calls, results, n - 1));
        let before = b.watch_all(events.take(n - 1));
        assert(before.open[0] == b.open[n - 1]);
        assert(open_ids(b.open)[n - 1] == calls[n - 1].id);
        assert(b.open[n - 1].id == calls[n - 1].id);
        assert(b.open.skip(n - 1).drop_first() =~= b.open.skip(n));
    }
}

/// In an orderly log the calls are bracketed: every end of a call has its
/// own start before it, with the same id and within the same turn; every
/// start has its own end after it or is still open; and no two calls share
/// a start or an end.
pub proof fn lemma_orderly_log_fits(log: Seq<EventView>)
    requires
        brackets(log).orderly,
    ensures
        fits(log, brackets(log)),
    decreases log.len(),
{
    if log.len() > 0 {
        let shorter = log.drop_last();
        let event = log.last();
        let before = brackets(shorter);
        let after = brackets(log);
        assert(after == before.watch(event));
        lemma_orderly_all_along(log, log.len() - 1);
        assert(log.take(log.len() - 1) =~= shorter);
        lemma_orderly_log_fits(shorter);
        let at = shorter.len() as int;
        assert(forall|j: int| 0 <= j < at ==> log[j] == shorter[j]);
        assert forall|k: int| 0 <= k < after.pairs.len() implies pair_holds(
            log,
            #[trigger] after.pairs[k],
        ) by {
            if k < before.pairs.len() {
                assert(pair_holds(shorter, before.pairs[k]));
                assert(after.pairs[k] == before.pairs[k]);
            } else {
                assert(open_holds(shorter, before.open[0]));
            }
        }
        assert forall|k: int| 0 <= k < after.open.len() implies open_holds(
            log,
            #[trigger] after.open[k],
        ) by {
            match event {
                EventView::ToolCallStart { .. } => {
                    if k < before.open.len() {
                        assert(open_holds(shorter, before.open[k]));
                    }
                },
                EventView::ToolCallEnd { .. } => {
                    assert(after.open[k] == before.open[k + 1]);
                    assert(open_holds(shorter, before.open[k + 1]));
                },
                _ => {
                    if !is_turn_mark(event) {
                        assert(open_holds(shorter, before.open[k]));
                    }
                },
            }
        }
        assert forall|k: int, l: int| 0 <= k < l < after.open.len() implies (
        #[trigger] after.open[k]).at < (#[trigger] after.open[l]).at by {
            match event {
                EventView::ToolCallStart { .. } => {
                    if l < before.open.len() {
                        assert(before.open[k].at < before.open[l].at);
                    } else {
                        assert(open_holds(shorter, before.open[k]));
                    }
                },
                EventView::ToolCallEnd { .. } => {
                    assert(before.open[k + 1].at < before.open[l + 1].at);
                },
                _ => {
                    if !is_turn_mark(event) {
                        assert(before.open[k].at < before.open[l].at);
                    }
                },
            }
        }
        assert forall|k: int, l: int| 0 <= k < l < after.pairs.len() implies (
        #[trigger] after.pairs[k]).ended_at < (#[trigger] after.pairs[l]).ended_at
            && after.pairs[k].started_at < after.pairs[l].started_at by {
            if l < before.pairs.len() {
                assert(before.pairs[k].ended_at < before.pairs[l].ended_at);
            } else {
                assert(pair_holds(shorter, before.pairs[k]));
                assert(before.pairs[k].started_at < before.open[0].at);
            }
        }
        assert forall|k: int, l: int|
            0 <= k < after.pairs.len() && 0 <= l < after.open.len() implies (
        #[trigger] after.pairs[k]).started_at < (#[trigger] after.open[l]).at by {
            match event {
                EventView::ToolCallStart { .. } => {
                    if l < before.open.len() {
                        assert(before.pairs[k].started_at < before.open[l].at);
                    } else {
                        assert(pair_holds(shorter, before.pairs[k]));
                    }
                },
                EventView::ToolCallEnd { .. } => {
                    if k < before.pairs.len() {
                        assert(before.pairs[k].started_at < before.open[l + 1].at);
                    } else {
                        assert(before.open[0].at < before.open[l + 1].at);
                    }
                },
                _ => {
                    if !is_turn_mark(event) {
                        assert(before.pairs[k].started_at < before.open[l].at);
                    }
                },
            }
        }
        assert forall|j: int| 0 <= j < log.len() && (#[trigger] log[j]) is ToolCallEnd implies exists|
            k: int,
        | 0 <= k < after.pairs.len() && (#[trigger] after.pairs[k]).ended_at == j by {
            if j < at {
                assert(shorter[j] is ToolCallEnd);
                let k = choose|k: int|
                    0 <= k < before.pairs.len() && (#[trigger] before.pairs[k]).ended_at == j;
                assert(after.pairs[k] == before.pairs[k]);
            } else {
                let k = after.pairs.len() - 1;
                assert(after.pairs[k].ended_at == j);
            }
        }
        assert forall|j: int|
            0 <= j < log.len() && (#[trigger] log[j]) is ToolCallStart implies (exists|k: int|
            0 <= k < after.pairs.len() && (#[trigger] after.pairs[k]).started_at == j) || (exists|
            k: int,
        | 0 <= k < after.open.len() && (#[trigger] after.open[k]).at == j) by {
            if j < at {
                assert(shorter[j] is ToolCallStart);
                if exists|k: int|
                    0 <= k < before.pairs.len() && (#[trigger] before.pairs[k]).started_at == j {
                    let k = choose|k: int|
                        0 <= k < before.pairs.len() && (#[trigger] before.pairs[k]).started_at == j;
                    assert(after.pairs[k] == before.pairs[k]);
                } else {
                    let k = choose|k: int|
                        0 <= k < before.open.len() && (#[trigger] before.open[k]).at == j;
                    match event {
                        EventView::ToolCallStart { .. } => {
                            assert(after.open[k] == before.open[k]);
                        },
                        EventView::ToolCallEnd { .. } => {
                            if k == 0 {
                                let p = after.pairs.len() - 1;
                                assert(after.pairs[p].started_at == j);
                            } else {
                                assert(after.open[k - 1] == before.open[k]);
                            }
                        },
                        _ => {
                            if !is_turn_mark(event) {
                                assert(after.open[k] == before.open[k]);
                            }
                        },
                    }
                }
            } else {
                let k = after.open.len() - 1;
                assert(after.open[k].at == j);
            }
        }
    }
}

} // verus!
