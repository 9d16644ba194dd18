//! What is written to the store is what is read back from it.

use vstd::prelude::*;
use crate::persistence::rows::{
    EventRow, EventRowView, FromColumns, MessageRow, MessageRowView, ToolExecutionRow,
    ToolExecutionRowView,
};
use crate::persistence::state::{
    embedding_bytes, event_insertion, keyed_statement, kv_write, le_bytes, memory_insertion,
    memory_search, message_insertion, tool_execution_insertion, ToolExecutionRecord, KV_DELETE_SQL,
    KV_GET_SQL,
};
use crate::persistence::value::SqlValueView;

verus! {

/// The row that a table hands back for an insertion: the id that the table
/// gave, the values that were bound, in their order, and the time of
/// creation.
pub open spec fn stored_row(
    id: i64,
    params: Seq<SqlValueView>,
    created_at: Seq<char>,
) -> Seq<SqlValueView> {
    seq![SqlValueView::Integer(id)] + params + seq![SqlValueView::Text(created_at)]
}

/// An event is read back as it was written.
pub proof fn lemma_event_reads_back(
    id: i64,
    created_at: Seq<char>,
    session_id: Seq<char>,
    event_type: Seq<char>,
    payload: Seq<char>,
)
    ensures
        EventRow::decoded(
            stored_row(id, event_insertion(session_id, event_type, payload).params, created_at),
        ) == Ok::<EventRowView, crate::persistence::value::ColumnError>(
            EventRowView { id, session_id, event_type, payload, created_at },
        ),
{
}

/// A message is read back as it was written.
pub proof fn lemma_message_reads_back(
    id: i64,
    created_at: Seq<char>,
    session_id: Seq<char>,
    turn_index: u32,
    role: Seq<char>,
    content: Seq<char>,
    token_count: Option<u32>,
)
    ensures
        MessageRow::decoded(
            stored_row(
                id,
                message_insertion(session_id, turn_index, role, content, token_count).params,
                created_at,
            ),
        ) == Ok::<MessageRowView, crate::persistence::value::ColumnError>(
            MessageRowView { id, session_id, turn_index, role, content, token_count, created_at },
        ),
{
    assert((turn_index as i64) as u32 == turn_index) by (bit_vector);
    if let Some(count) = token_count {
        assert((count as i64) as u32 == count) by (bit_vector);
    }
}

/// A tool execution is read back as it was written, whatever its duration.
pub proof fn lemma_tool_execution_reads_back(
    id: i64,
    created_at: Seq<char>,
    record: ToolExecutionRecord<'_>,
    args: Seq<char>,
)
    ensures
        ToolExecutionRow::decoded(
            stored_row(id, tool_execution_insertion(record, args).params, created_at),
        ) == Ok::<ToolExecutionRowView, crate::persistence::value::ColumnError>(
            ToolExecutionRowView {
                id,
                session_id: record.session_id@,
                turn_index: record.turn_index,
                tool_call_id: record.tool_call_id@,
                tool_name: record.tool_name@,
                args,
                output: match record.output {
                    Some(text) => Some(text@),
                    None => None,
                },
                is_error: record.is_error,
                duration_ms: record.duration_ms,
                verdict: record.verdict@,
                created_at,
            },
        ),
{
    let turn_index = record.turn_index;
    assert((turn_index as i64) as u32 == turn_index) by (bit_vector);
    if let Some(duration) = record.duration_ms {
        assert((duration as i64) as u64 == duration) by (bit_vector);
    }
}

/// The blob of an embedding holds four bytes for each component, those of
/// component `i` from position `4 * i` on, least significant first.
pub proof fn lemma_embedding_layout(words: Seq<u32>)
    ensures
        embedding_bytes(words).len() == 4 * words.len(),
        forall|i: int, k: int|
            0 <= i < words.len() && 0 <= k < 4 ==> #[trigger] embedding_bytes(words)[4 * i + k]
                == le_bytes(words[i])[k],
    decreases words.len(),
{
    if words.len() > 0 {
        let shorter = words.drop_last();
        lemma_embedding_layout(shorter);
        assert forall|i: int, k: int| 0 <= i < words.len() && 0 <= k < 4 implies #[trigger]
            embedding_bytes(words)[4 * i + k] == le_bytes(words[i])[k] by {
            if i < shorter.len() {
                assert(embedding_bytes(shorter)[4 * i + k] == le_bytes(shorter[i])[k]);
            }
        }
    }
}

/// A search asks with the bytes that an insertion of the same vector
/// stored, and for the session that the insertion named. Which rows the
/// database then ranks first is the database's to say.
pub proof fn lemma_search_asks_with_the_stored_bytes(
    session_id: Seq<char>,
    content: Seq<char>,
    vector: Seq<u32>,
    metadata: Seq<char>,
    limit: usize,
)
    ensures
        memory_search(session_id, vector, limit).params[0] == memory_insertion(
            session_id,
            content,
            vector,
            metadata,
        ).params[2],
        memory_search(session_id, vector, limit).params[1] == memory_insertion(
            session_id,
            content,
            vector,
            metadata,
        ).params[0],
{
}

/// Reading and deleting an entry of the harness store name the key under
/// which it was written, and the write binds the value as it was given.
/// What the table then holds is the database's to say.
pub proof fn lemma_entry_is_asked_for_by_its_key(key: Seq<char>, value: Seq<char>)
    ensures
        keyed_statement(KV_GET_SQL@, key).params[0] == kv_write(key, value).params[0],
        keyed_statement(KV_DELETE_SQL@, key).params[0] == kv_write(key, value).params[0],
        kv_write(key, value).params[1] == SqlValueView::Text(value),
{
}

} // verus!
