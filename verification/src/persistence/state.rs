//! The state store: which statement each of its operations runs.

use vstd::prelude::*;
pub use crate::persistence::rows::{EventRow, MemoryRow, MessageRow, ToolExecutionRow};
use vstd::string::StringExecFns;
use crate::json::{json_error_message, json_text, to_json_text};
use crate::persistence::value::{column_text, text_at, ColumnError, SqlValue, SqlValueView};
use crate::text::{decimal, decimal_string, join};
use crate::views::views;

verus! {

/// The version of the table layout that this library reads and writes.
pub const SCHEMA_VERSION: u32 = 1;

/// Largest value, in bytes, that the harness key-value store accepts.
pub const MAX_KV_VALUE_SIZE: usize = 1_048_576;

/// The path that names a database held in memory only.
pub const MEMORY_PATH: &'static str = ":memory:";

/// The script that creates every table and index that is not there yet.
pub const INIT_SCHEMA: &'static str = "
CREATE TABLE IF NOT EXISTS events (
    id          INTEGER PRIMARY KEY AUTOINCREMENT,
    session_id  TEXT NOT NULL,
    event_type  TEXT NOT NULL,
    payload     TEXT NOT NULL,
    created_at  TEXT NOT NULL DEFAULT (datetime('now'))
);

CREATE TABLE IF NOT EXISTS messages (
    id          INTEGER PRIMARY KEY AUTOINCREMENT,
    session_id  TEXT NOT NULL,
    turn_index  INTEGER NOT NULL,
    role        TEXT NOT NULL,
    content     TEXT NOT NULL,
    token_count INTEGER,
    created_at  TEXT NOT NULL DEFAULT (datetime('now'))
);

CREATE TABLE IF NOT EXISTS harness_kv (
    key         TEXT PRIMARY KEY,
    value       TEXT NOT NULL,
    expires_at  TEXT,
    updated_at  TEXT NOT NULL DEFAULT (datetime('now'))
);

CREATE TABLE IF NOT EXISTS tool_executions (
    id            INTEGER PRIMARY KEY AUTOINCREMENT,
    session_id    TEXT NOT NULL,
    turn_index    INTEGER NOT NULL,
    tool_call_id  TEXT NOT NULL,
    tool_name     TEXT NOT NULL,
    args          TEXT NOT NULL,
    output        TEXT,
    is_error      INTEGER NOT NULL DEFAULT 0,
    duration_ms   INTEGER,
    verdict       TEXT NOT NULL DEFAULT 'allow',
    created_at    TEXT NOT NULL DEFAULT (datetime('now'))
);

CREATE TABLE IF NOT EXISTS schema_info (
    key   TEXT PRIMARY KEY,
    value TEXT NOT NULL
);

CREATE INDEX IF NOT EXISTS idx_events_session ON events(session_id);
CREATE INDEX IF NOT EXISTS idx_messages_session ON messages(session_id);
CREATE INDEX IF NOT EXISTS idx_tool_executions_session ON tool_executions(session_id);

CREATE TABLE IF NOT EXISTS memories (
    id          INTEGER PRIMARY KEY AUTOINCREMENT,
    session_id  TEXT NOT NULL,
    content     TEXT NOT NULL,
    embedding   F32_BLOB(1536),
    metadata    TEXT,
    created_at  TEXT NOT NULL DEFAULT (datetime('now'))
);
";

pub const SELECT_SCHEMA_VERSION_SQL: &'static str =
    "SELECT value FROM schema_info WHERE key = 'version'";

pub const SET_SCHEMA_VERSION_SQL: &'static str =
    "INSERT OR REPLACE INTO schema_info (key, value) VALUES ('version', ?1)";

pub const INSERT_EVENT_SQL: &'static str =
    "INSERT INTO events (session_id, event_type, payload) VALUES (?1, ?2, ?3)";

pub const SELECT_EVENTS_SQL: &'static str =
    "SELECT id, session_id, event_type, payload, created_at FROM events WHERE session_id = ?1 ORDER BY id";

pub const LIST_SESSIONS_SQL: &'static str =
    "SELECT session_id FROM events GROUP BY session_id ORDER BY MAX(id) DESC LIMIT ?1 OFFSET ?2";

pub const INSERT_MESSAGE_SQL: &'static str =
    "INSERT INTO messages (session_id, turn_index, role, content, token_count) VALUES (?1, ?2, ?3, ?4, ?5)";

pub const SELECT_MESSAGES_SQL: &'static str =
    "SELECT id, session_id, turn_index, role, content, token_count, created_at FROM messages WHERE session_id = ?1 ORDER BY id";

pub const INSERT_TOOL_EXECUTION_SQL: &'static str =
    "INSERT INTO tool_executions (session_id, turn_index, tool_call_id, tool_name, args, output, is_error, duration_ms, verdict) VALUES (?1, ?2, ?3, ?4, ?5, ?6, ?7, ?8, ?9)";

pub const SELECT_TOOL_EXECUTIONS_SQL: &'static str =
    "SELECT id, session_id, turn_index, tool_call_id, tool_name, args, output, is_error, duration_ms, verdict, created_at FROM tool_executions WHERE session_id = ?1 ORDER BY id";

pub const INSERT_MEMORY_SQL: &'static str =
    "INSERT INTO memories (session_id, content, embedding, metadata) VALUES (?1, ?2, ?3, ?4)";

pub const SEARCH_MEMORIES_SQL: &'static str =
    "SELECT id, session_id, content, metadata, created_at, vector_distance_cos(embedding, ?1) as distance FROM memories WHERE session_id = ?2 ORDER BY distance ASC LIMIT ?3";

pub const KV_SET_SQL: &'static str =
    "INSERT OR REPLACE INTO harness_kv (key, value, updated_at) VALUES (?1, ?2, datetime('now'))";

pub const KV_GET_SQL: &'static str =
    "SELECT value FROM harness_kv WHERE key = ?1 AND (expires_at IS NULL OR expires_at > datetime('now'))";

pub const KV_DELETE_SQL: &'static str = "DELETE FROM harness_kv WHERE key = ?1";

/// One SQL statement and the values bound to its numbered parameters.
#[derive(Debug, Clone, PartialEq)]
pub struct Statement {
    pub sql: String,
    pub params: Vec<SqlValue>,
}

/// The mathematical content of a [`Statement`].
pub struct StatementView {
    pub sql: Seq<char>,
    pub params: Seq<SqlValueView>,
}

impl View for Statement {
    type V = StatementView;

    open spec fn view(&self) -> StatementView {
        StatementView { sql: self.sql@, params: views(self.params@) }
    }
}

/// Why the store refused an operation before any statement was run.
#[derive(Debug, PartialEq)]
pub enum StoreError {
    /// A JSON value could not be written as text; holds the encoder's message.
    Serialize(String),
    /// A key-value entry is larger than the store accepts.
    ValueTooLarge { size: usize, limit: usize },
    /// The database was written with another table layout; holds the version
    /// it records.
    IncompatibleSchema(String),
}

impl StoreError {
    /// The text shown for this error.
    pub open spec fn message_text(self) -> Seq<char> {
        match self {
            StoreError::Serialize(detail) => detail@,
            StoreError::ValueTooLarge { size, limit } => "KV value exceeds maximum size of "@
                + decimal(limit as nat) + " bytes (got "@ + decimal(size as nat) + ")"@,
            StoreError::IncompatibleSchema(found) => "Incompatible schema version: "@ + found@,
        }
    }

    /// Formats the error as text.
    pub fn message(&self) -> (res: String)
        ensures
            res@ == self.message_text(),
    {
        match self {
            StoreError::Serialize(detail) => detail.clone(),
            StoreError::ValueTooLarge { size, limit } => {
                let mut text = join(
                    "KV value exceeds maximum size of ",
                    decimal_string(*limit as u64).as_str(),
                );
                text.append(" bytes (got ");
                text.append(decimal_string(*size as u64).as_str());
                text.append(")");
                text
            },
            StoreError::IncompatibleSchema(found) => join(
                "Incompatible schema version: ",
                found.as_str(),
            ),
        }
    }
}

/// The integer that is stored for an optional 32-bit count.
pub open spec fn optional_count(count: Option<u32>) -> SqlValueView {
    match count {
        Some(n) => SqlValueView::Integer(n as i64),
        None => SqlValueView::Null,
    }
}

/// The integer that is stored for an optional duration: its 64 bits read as a
/// signed number.
pub open spec fn optional_duration(duration_ms: Option<u64>) -> SqlValueView {
    match duration_ms {
        Some(d) => SqlValueView::Integer(d as i64),
        None => SqlValueView::Null,
    }
}

/// The text that is stored for an optional output.
pub open spec fn optional_text(text: Option<Seq<char>>) -> SqlValueView {
    match text {
        Some(t) => SqlValueView::Text(t),
        None => SqlValueView::Null,
    }
}

/// The four bytes of a 32-bit word, least significant first.
pub open spec fn le_bytes(word: u32) -> Seq<u8> {
    seq![
        (word & 0xff) as u8,
        ((word >> 8) & 0xff) as u8,
        ((word >> 16) & 0xff) as u8,
        ((word >> 24) & 0xff) as u8,
    ]
}

/// The bytes of a vector of 32-bit words: each word's four bytes, least
/// significant first, one word after the other.
pub open spec fn embedding_bytes(words: Seq<u32>) -> Seq<u8>
    decreases words.len(),
{
    if words.len() == 0 {
        Seq::empty()
    } else {
        embedding_bytes(words.drop_last()) + le_bytes(words.last())
    }
}

/// Lays out an embedding as the blob that the `memories` table holds. Each
/// component is given by the bits of its 32-bit IEEE 754 form.
pub fn encode_embedding(words: &Vec<u32>) -> (bytes: Vec<u8>)
    ensures
        bytes@ == embedding_bytes(words@),
{
    let mut bytes: Vec<u8> = Vec::new();
    let mut i: usize = 0;
    while i < words.len()
        invariant
            0 <= i <= words.len(),
            bytes@ == embedding_bytes(words@.take(i as int)),
        decreases words.len() - i,
    {
        let word = words[i];
        proof {
            assert(words@.take(i as int + 1).drop_last() =~= words@.take(i as int));
            assert(words@.take(i as int + 1).last() == word);
        }
        let ghost before = bytes@;
        bytes.push(#[verifier::truncate] ((word & 0xff) as u8));
        bytes.push(#[verifier::truncate] (((word >> 8) & 0xff) as u8));
        bytes.push(#[verifier::truncate] (((word >> 16) & 0xff) as u8));
        bytes.push(#[verifier::truncate] (((word >> 24) & 0xff) as u8));
        assert(bytes@ =~= before + le_bytes(word));
        i = i + 1;
    }
    proof {
        assert(words@.take(i as int) =~= words@);
    }
    bytes
}

fn text_param(text: &str) -> (value: SqlValue)
    ensures
        value@ == SqlValueView::Text(text@),
{
    SqlValue::Text(String::from_str(text))
}

fn statement(sql: &str, params: Vec<SqlValue>) -> (st: Statement)
    ensures
        st@ == (StatementView { sql: sql@, params: views(params@) }),
{
    Statement { sql: String::from_str(sql), params }
}

/// The statement that appends an event whose payload has the given JSON text.
pub open spec fn event_insertion(
    session_id: Seq<char>,
    event_type: Seq<char>,
    payload: Seq<char>,
) -> StatementView {
    StatementView {
        sql: INSERT_EVENT_SQL@,
        params: seq![
            SqlValueView::Text(session_id),
            SqlValueView::Text(event_type),
            SqlValueView::Text(payload),
        ],
    }
}

/// The statement that appends a message whose content has the given JSON text.
pub open spec fn message_insertion(
    session_id: Seq<char>,
    turn_index: u32,
    role: Seq<char>,
    content: Seq<char>,
    token_count: Option<u32>,
) -> StatementView {
    StatementView {
        sql: INSERT_MESSAGE_SQL@,
        params: seq![
            SqlValueView::Text(session_id),
            SqlValueView::Integer(turn_index as i64),
            SqlValueView::Text(role),
            SqlValueView::Text(content),
            optional_count(token_count),
        ],
    }
}

/// What is recorded of one tool execution, apart from its arguments.
pub struct ToolExecutionRecord<'a> {
    pub session_id: &'a str,
    pub turn_index: u32,
    pub tool_call_id: &'a str,
    pub tool_name: &'a str,
    pub output: Option<&'a str>,
    pub is_error: bool,
    pub duration_ms: Option<u64>,
    pub verdict: &'a str,
}

/// The statement that records a tool execution whose arguments have the given
/// JSON text.
pub open spec fn tool_execution_insertion(
    record: ToolExecutionRecord<'_>,
    args: Seq<char>,
) -> StatementView {
    StatementView {
        sql: INSERT_TOOL_EXECUTION_SQL@,
        params: seq![
            SqlValueView::Text(record.session_id@),
            SqlValueView::Integer(record.turn_index as i64),
            SqlValueView::Text(record.tool_call_id@),
            SqlValueView::Text(record.tool_name@),
            SqlValueView::Text(args),
            optional_text(
                match record.output {
                    Some(text) => Some(text@),
                    None => None,
                },
            ),
            SqlValueView::Integer(
                if record.is_error {
                    1
                } else {
                    0
                },
            ),
            optional_duration(record.duration_ms),
            SqlValueView::Text(record.verdict@),
        ],
    }
}

/// The statement that stores a memory whose metadata has the given JSON text.
pub open spec fn memory_insertion(
    session_id: Seq<char>,
    content: Seq<char>,
    vector: Seq<u32>,
    metadata: Seq<char>,
) -> StatementView {
    StatementView {
        sql: INSERT_MEMORY_SQL@,
        params: seq![
            SqlValueView::Text(session_id),
            SqlValueView::Text(content),
            SqlValueView::Blob(embedding_bytes(vector)),
            SqlValueView::Text(metadata),
        ],
    }
}

/// The query for the memories of a session nearest to a vector.
pub open spec fn memory_search(
    session_id: Seq<char>,
    vector: Seq<u32>,
    limit: usize,
) -> StatementView {
    StatementView {
        sql: SEARCH_MEMORIES_SQL@,
        params: seq![
            SqlValueView::Blob(embedding_bytes(vector)),
            SqlValueView::Text(session_id),
            SqlValueView::Integer(limit as i64),
        ],
    }
}

/// The statement that writes an entry of the harness store.
pub open spec fn kv_write(key: Seq<char>, value: Seq<char>) -> StatementView {
    StatementView {
        sql: KV_SET_SQL@,
        params: seq![SqlValueView::Text(key), SqlValueView::Text(value)],
    }
}

/// A statement with one parameter, a text.
pub open spec fn keyed_statement(sql: Seq<char>, key: Seq<char>) -> StatementView {
    StatementView { sql, params: seq![SqlValueView::Text(key)] }
}

/// The durable store of a kernel: the event log, the message history, the log
/// of tool executions, the harness key-value store and the memories.
///
/// The store decides which statement each operation runs and how the rows
/// that come back are read. Running a statement against the database at
/// `db_path` is the caller's part.
#[derive(Debug, Clone)]
pub struct StateStore {
    pub db_path: String,
}

impl StateStore {
    /// A store over the database file at `db_path`.
    pub fn open(db_path: &str) -> (store: Self)
        ensures
            store.db_path@ == db_path@,
    {
        StateStore { db_path: String::from_str(db_path) }
    }

    /// A store over a database held in memory only.
    pub fn open_memory() -> (store: Self)
        ensures
            store.db_path@ == MEMORY_PATH@,
    {
        StateStore { db_path: String::from_str(MEMORY_PATH) }
    }

    /// The first two steps that prepare a database: the script that creates
    /// what is missing, then the query for the layout version that the
    /// database records. What the query answers goes to
    /// [`StateStore::record_schema_version`].
    pub fn init_schema(&self) -> (steps: (String, Statement))
        ensures
            steps.0@ == INIT_SCHEMA@,
            steps.1@ == (StatementView { sql: SELECT_SCHEMA_VERSION_SQL@, params: Seq::empty() }),
    {
        (String::from_str(INIT_SCHEMA), self.schema_version_query())
    }

    /// The last step that prepares a database: the statement that records
    /// this library's layout version. It is given only where the database
    /// records no version yet or this library's own; any other version is
    /// refused and nothing is to be written.
    pub fn record_schema_version(&self, recorded: Option<String>) -> (res: Result<
        Statement,
        StoreError,
    >)
        ensures
            match recorded {
                Some(found) if found@ != decimal(SCHEMA_VERSION as nat) => res matches Err(
                    StoreError::IncompatibleSchema(v),
                ) && v@ == found@,
                _ => res matches Ok(st) && st@ == keyed_statement(
                    SET_SCHEMA_VERSION_SQL@,
                    decimal(SCHEMA_VERSION as nat),
                ),
            },
    {
        match self.check_schema_version(recorded) {
            Err(e) => Err(e),
            Ok(()) => {
                let mut params: Vec<SqlValue> = Vec::new();
                params.push(SqlValue::Text(decimal_string(SCHEMA_VERSION as u64)));
                let st = statement(SET_SCHEMA_VERSION_SQL, params);
                assert(st@.params =~= seq![SqlValueView::Text(decimal(SCHEMA_VERSION as nat))]);
                Ok(st)
            },
        }
    }

    /// The query for the layout version that a database records.
    pub fn schema_version_query(&self) -> (st: Statement)
        ensures
            st@ == (StatementView { sql: SELECT_SCHEMA_VERSION_SQL@, params: Seq::empty() }),
    {
        let st = statement(SELECT_SCHEMA_VERSION_SQL, Vec::new());
        assert(st@.params =~= Seq::empty());
        st
    }

    /// Judges the layout version that a database records: none yet, or this
    /// library's own, is accepted; any other is refused.
    pub fn check_schema_version(&self, recorded: Option<String>) -> (res: Result<(), StoreError>)
        ensures
            match recorded {
                None => res is Ok,
                Some(found) => if found@ == decimal(SCHEMA_VERSION as nat) {
                    res is Ok
                } else {
                    res matches Err(StoreError::IncompatibleSchema(v)) && v@ == found@
                },
            },
    {
        match recorded {
            None => Ok(()),
            Some(found) => {
                let own = decimal_string(SCHEMA_VERSION as u64);
                if found == own {
                    Ok(())
                } else {
                    Err(StoreError::IncompatibleSchema(found))
                }
            },
        }
    }

    /// The statement that appends an event with an already serialized payload.
    pub fn event_statement(session_id: &str, event_type: &str, payload: String) -> (st: Statement)
        ensures
            st@ == event_insertion(session_id@, event_type@, payload@),
    {
        let mut params: Vec<SqlValue> = Vec::new();
        params.push(text_param(session_id));
        params.push(text_param(event_type));
        params.push(SqlValue::Text(payload));
        let st = statement(INSERT_EVENT_SQL, params);
        assert(st@.params =~= event_insertion(session_id@, event_type@, payload@).params);
        st
    }

    /// Appends an event to the log: serializes the payload and binds its
    /// text to the insertion. Every JSON value has a text, so this always
    /// gives the statement.
    pub fn insert_event(
        &self,
        session_id: &str,
        event_type: &str,
        payload: &serde_json::Value,
    ) -> (res: Result<Statement, StoreError>)
        ensures
            res matches Ok(st) && st@ == event_insertion(
                session_id@,
                event_type@,
                json_text(*payload),
            ),
    {
        match to_json_text(payload) {
            Ok(text) => Ok(Self::event_statement(session_id, event_type, text)),
            Err(error) => Err(StoreError::Serialize(json_error_message(&error))),
        }
    }

    /// The query for all events of a session, oldest first.
    pub fn get_events(&self, session_id: &str) -> (st: Statement)
        ensures
            st@ == keyed_statement(SELECT_EVENTS_SQL@, session_id@),
    {
        let mut params: Vec<SqlValue> = Vec::new();
        params.push(text_param(session_id));
        let st = statement(SELECT_EVENTS_SQL, params);
        assert(st@.params =~= seq![SqlValueView::Text(session_id@)]);
        st
    }

    /// The query for the sessions with the most recent activity: at most
    /// `limit` of them, after skipping `offset`.
    pub fn list_sessions(&self, limit: usize, offset: usize) -> (st: Statement)
        ensures
            st@ == (StatementView {
                sql: LIST_SESSIONS_SQL@,
                params: seq![
                    SqlValueView::Integer(limit as i64),
                    SqlValueView::Integer(offset as i64),
                ],
            }),
    {
        let mut params: Vec<SqlValue> = Vec::new();
        params.push(SqlValue::Integer(#[verifier::truncate] (limit as i64)));
        params.push(SqlValue::Integer(#[verifier::truncate] (offset as i64)));
        let st = statement(LIST_SESSIONS_SQL, params);
        assert(st@.params =~= seq![
            SqlValueView::Integer(limit as i64),
            SqlValueView::Integer(offset as i64),
        ]);
        st
    }

    /// The statement that appends a message with already serialized content.
    pub fn message_statement(
        session_id: &str,
        turn_index: u32,
        role: &str,
        content: String,
        token_count: Option<u32>,
    ) -> (st: Statement)
        ensures
            st@ == message_insertion(session_id@, turn_index, role@, content@, token_count),
    {
        let mut params: Vec<SqlValue> = Vec::new();
        params.push(text_param(session_id));
        params.push(SqlValue::Integer(turn_index as i64));
        params.push(text_param(role));
        params.push(SqlValue::Text(content));
        params.push(
            match token_count {
                Some(n) => SqlValue::Integer(n as i64),
                None => SqlValue::Null,
            },
        );
        let st = statement(INSERT_MESSAGE_SQL, params);
        assert(st@.params =~= message_insertion(
            session_id@,
            turn_index,
            role@,
            content@,
            token_count,
        ).params);
        st
    }

    /// Appends a message to the history of a session: serializes the
    /// content and binds its text to the insertion. This always gives the
    /// statement.
    pub fn insert_message(
        &self,
        session_id: &str,
        turn_index: u32,
        role: &str,
        content: &serde_json::Value,
        token_count: Option<u32>,
    ) -> (res: Result<Statement, StoreError>)
        ensures
            res matches Ok(st) && st@ == message_insertion(
                session_id@,
                turn_index,
                role@,
                json_text(*content),
                token_count,
            ),
    {
        match to_json_text(content) {
            Ok(text) => Ok(Self::message_statement(session_id, turn_index, role, text, token_count)),
            Err(error) => Err(StoreError::Serialize(json_error_message(&error))),
        }
    }

    /// The query for all messages of a session, oldest first.
    pub fn get_messages(&self, session_id: &str) -> (st: Statement)
        ensures
            st@ == keyed_statement(SELECT_MESSAGES_SQL@, session_id@),
    {
        let mut params: Vec<SqlValue> = Vec::new();
        params.push(text_param(session_id));
        let st = statement(SELECT_MESSAGES_SQL, params);
        assert(st@.params =~= seq![SqlValueView::Text(session_id@)]);
        st
    }

    /// The statement that records a tool execution with already serialized
    /// arguments.
    pub fn tool_execution_statement(record: &ToolExecutionRecord<'_>, args: String) -> (st:
        Statement)
        ensures
            st@ == tool_execution_insertion(*record, args@),
    {
        let mut params: Vec<SqlValue> = Vec::new();
        params.push(text_param(record.session_id));
        params.push(SqlValue::Integer(record.turn_index as i64));
        params.push(text_param(record.tool_call_id));
        params.push(text_param(record.tool_name));
        params.push(SqlValue::Text(args));
        params.push(
            match record.output {
                Some(text) => text_param(text),
                None => SqlValue::Null,
            },
        );
        params.push(
            SqlValue::Integer(
                if record.is_error {
                    1
                } else {
                    0
                },
            ),
        );
        params.push(
            match record.duration_ms {
                Some(d) => SqlValue::Integer(#[verifier::truncate] (d as i64)),
                None => SqlValue::Null,
            },
        );
        params.push(text_param(record.verdict));
        let st = statement(INSERT_TOOL_EXECUTION_SQL, params);
        assert(st@.params =~= tool_execution_insertion(*record, args@).params);
        st
    }

    /// Records a tool execution: serializes the arguments and binds their
    /// text to the insertion. This always gives the statement.
    pub fn insert_tool_execution(
        &self,
        session_id: &str,
        turn_index: u32,
        tool_call_id: &str,
        tool_name: &str,
        args: &serde_json::Value,
        output: Option<&str>,
        is_error: bool,
        duration_ms: Option<u64>,
        verdict: &str,
    ) -> (res: Result<Statement, StoreError>)
        ensures
            res matches Ok(st) && st@ == tool_execution_insertion(
                ToolExecutionRecord {
                    session_id,
                    turn_index,
                    tool_call_id,
                    tool_name,
                    output,
                    is_error,
                    duration_ms,
                    verdict,
                },
                json_text(*args),
            ),
    {
        let record = ToolExecutionRecord {
            session_id,
            turn_index,
            tool_call_id,
            tool_name,
            output,
            is_error,
            duration_ms,
            verdict,
        };
        match to_json_text(args) {
            Ok(text) => Ok(Self::tool_execution_statement(&record, text)),
            Err(error) => Err(StoreError::Serialize(json_error_message(&error))),
        }
    }

    /// The query for all tool executions of a session, oldest first.
    pub fn get_tool_executions(&self, session_id: &str) -> (st: Statement)
        ensures
            st@ == keyed_statement(SELECT_TOOL_EXECUTIONS_SQL@, session_id@),
    {
        let mut params: Vec<SqlValue> = Vec::new();
        params.push(text_param(session_id));
        let st = statement(SELECT_TOOL_EXECUTIONS_SQL, params);
        assert(st@.params =~= seq![SqlValueView::Text(session_id@)]);
        st
    }

    /// The statement that stores a memory with already serialized metadata.
    pub fn memory_statement(
        session_id: &str,
        content: &str,
        vector: &Vec<u32>,
        metadata: String,
    ) -> (st: Statement)
        ensures
            st@ == memory_insertion(session_id@, content@, vector@, metadata@),
    {
        let mut params: Vec<SqlValue> = Vec::new();
        params.push(text_param(session_id));
        params.push(text_param(content));
        params.push(SqlValue::Blob(encode_embedding(vector)));
        params.push(SqlValue::Text(metadata));
        let st = statement(INSERT_MEMORY_SQL, params);
        assert(st@.params =~= memory_insertion(session_id@, content@, vector@, metadata@).params);
        st
    }

    /// Stores a memory with its embedding, each component given by the bits
    /// of its 32-bit IEEE 754 form: serializes the metadata and binds its
    /// text to the insertion. This always gives the statement.
    pub fn insert_memory(
        &self,
        session_id: &str,
        content: &str,
        vector: &Vec<u32>,
        metadata: &serde_json::Value,
    ) -> (res: Result<Statement, StoreError>)
        ensures
            res matches Ok(st) && st@ == memory_insertion(
                session_id@,
                content@,
                vector@,
                json_text(*metadata),
            ),
    {
        match to_json_text(metadata) {
            Ok(text) => Ok(Self::memory_statement(session_id, content, vector, text)),
            Err(error) => Err(StoreError::Serialize(json_error_message(&error))),
        }
    }

    /// The query for the memories of a session that lie nearest to a vector
    /// by cosine distance, nearest first, at most `limit` of them.
    pub fn search_memories(&self, session_id: &str, vector: &Vec<u32>, limit: usize) -> (st:
        Statement)
        ensures
            st@ == memory_search(session_id@, vector@, limit),
    {
        let mut params: Vec<SqlValue> = Vec::new();
        params.push(SqlValue::Blob(encode_embedding(vector)));
        params.push(text_param(session_id));
        params.push(SqlValue::Integer(#[verifier::truncate] (limit as i64)));
        let st = statement(SEARCH_MEMORIES_SQL, params);
        assert(st@.params =~= seq![
            SqlValueView::Blob(embedding_bytes(vector@)),
            SqlValueView::Text(session_id@),
            SqlValueView::Integer(limit as i64),
        ]);
        st
    }

    /// Sets a key of the harness store. A value of more than
    /// [`MAX_KV_VALUE_SIZE`] bytes is refused; any other is bound to the
    /// statement that writes it.
    pub fn kv_set(&self, key: &str, value: &str) -> (res: Result<Statement, StoreError>)
        ensures
            match res {
                Ok(st) => value.len() <= MAX_KV_VALUE_SIZE && st@ == kv_write(key@, value@),
                Err(e) => value.len() > MAX_KV_VALUE_SIZE && e
                    == (StoreError::ValueTooLarge {
                    size: value.len(),
                    limit: MAX_KV_VALUE_SIZE,
                }),
            },
    {
        let size = value.len();
        if size > MAX_KV_VALUE_SIZE {
            return Err(StoreError::ValueTooLarge { size, limit: MAX_KV_VALUE_SIZE });
        }
        let mut params: Vec<SqlValue> = Vec::new();
        params.push(text_param(key));
        params.push(text_param(value));
        let st = statement(KV_SET_SQL, params);
        assert(st@.params =~= seq![SqlValueView::Text(key@), SqlValueView::Text(value@)]);
        Ok(st)
    }

    /// The query for the value of a key of the harness store. An entry that
    /// has expired is not returned.
    pub fn kv_get(&self, key: &str) -> (st: Statement)
        ensures
            st@ == keyed_statement(KV_GET_SQL@, key@),
    {
        let mut params: Vec<SqlValue> = Vec::new();
        params.push(text_param(key));
        let st = statement(KV_GET_SQL, params);
        assert(st@.params =~= seq![SqlValueView::Text(key@)]);
        st
    }

    /// The statement that removes a key of the harness store.
    pub fn kv_delete(&self, key: &str) -> (st: Statement)
        ensures
            st@ == keyed_statement(KV_DELETE_SQL@, key@),
    {
        let mut params: Vec<SqlValue> = Vec::new();
        params.push(text_param(key));
        let st = statement(KV_DELETE_SQL, params);
        assert(st@.params =~= seq![SqlValueView::Text(key@)]);
        st
    }
}

/// The single text that a one-column result set holds: that of its first
/// row, or none where it has no row.
pub open spec fn first_text(rows: Seq<Seq<SqlValueView>>) -> Result<Option<Seq<char>>, ColumnError> {
    if rows.len() == 0 {
        Ok(None)
    } else {
        match text_at(rows[0], 0) {
            Ok(text) => Ok(Some(text)),
            Err(e) => Err(e),
        }
    }
}

/// Reads the answer to a query for one text, such as [`StateStore::kv_get`].
pub fn read_first_text(rows: &Vec<Vec<SqlValue>>) -> (res: Result<Option<String>, ColumnError>)
    ensures
        match first_text(crate::persistence::rows::row_views(rows@)) {
            Ok(Some(text)) => res matches Ok(Some(s)) && s@ == text,
            Ok(None) => res matches Ok(None),
            Err(e) => res matches Err(err) && err == e,
        },
{
    if rows.len() == 0 {
        return Ok(None);
    }
    match column_text(&rows[0], 0) {
        Ok(text) => Ok(Some(text)),
        Err(e) => Err(e),
    }
}

} // verus!
