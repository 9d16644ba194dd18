use bedrock::persistence::rows::{
    read_rows, EventRow, MemoryRow, MessageRow, SqlNumber, ToolExecutionRow,
};
use bedrock::persistence::state::{
    read_first_text, StateStore, Statement, StoreError, MAX_KV_VALUE_SIZE, SCHEMA_VERSION,
};
use bedrock::persistence::value::SqlValue;

fn block_on<F: std::future::Future>(future: F) -> F::Output {
    tokio::runtime::Builder::new_current_thread()
        .enable_all()
        .build()
        .unwrap()
        .block_on(future)
}

fn json(text: &str) -> serde_json::Value {
    serde_json::from_str(text).unwrap()
}

fn to_turso(value: &SqlValue) -> turso::Value {
    match value {
        SqlValue::Null => turso::Value::Null,
        SqlValue::Integer(n) => turso::Value::Integer(*n),
        SqlValue::Real(bits) => turso::Value::Real(f64::from_bits(*bits)),
        SqlValue::Text(text) => turso::Value::Text(text.clone()),
        SqlValue::Blob(bytes) => turso::Value::Blob(bytes.clone()),
    }
}

fn from_turso(value: turso::Value) -> SqlValue {
    match value {
        turso::Value::Null => SqlValue::Null,
        turso::Value::Integer(n) => SqlValue::Integer(n),
        turso::Value::Real(x) => SqlValue::Real(x.to_bits()),
        turso::Value::Text(text) => SqlValue::Text(text),
        turso::Value::Blob(bytes) => SqlValue::Blob(bytes),
    }
}

/// A store together with the database connection that runs its statements.
struct Db {
    store: StateStore,
    _database: turso::Database,
    conn: turso::Connection,
}

impl Db {
    async fn connect(store: StateStore) -> Db {
        let database = turso::Builder::new_local(&store.db_path).build().await.unwrap();
        let conn = database.connect().unwrap();
        let db = Db { store, _database: database, conn };
        let (script, version_query) = db.store.init_schema();
        db.conn.execute_batch(script).await.unwrap();
        let recorded = read_first_text(&db.query(version_query).await).unwrap();
        db.execute(db.store.record_schema_version(recorded).unwrap()).await;
        db
    }

    async fn open_memory() -> Db {
        Db::connect(StateStore::open_memory()).await
    }

    async fn execute(&self, statement: Statement) {
        let params: Vec<turso::Value> = statement.params.iter().map(to_turso).collect();
        self.conn.execute(statement.sql, params).await.unwrap();
    }

    async fn query(&self, statement: Statement) -> Vec<Vec<SqlValue>> {
        let params: Vec<turso::Value> = statement.params.iter().map(to_turso).collect();
        let mut rows = self.conn.query(statement.sql, params).await.unwrap();
        let mut out = Vec::new();
        while let Some(row) = rows.next().await.unwrap() {
            let mut columns = Vec::new();
            for index in 0..row.column_count() {
                columns.push(from_turso(row.get_value(index).unwrap()));
            }
            out.push(columns);
        }
        out
    }

    async fn get_events(&self, session: &str) -> Vec<EventRow> {
        read_rows::<EventRow>(&self.query(self.store.get_events(session)).await).unwrap()
    }

    async fn kv_get(&self, key: &str) -> Option<String> {
        read_first_text(&self.query(self.store.kv_get(key)).await).unwrap()
    }
}

#[test]
fn test_schema_initialization() {
    block_on(async {
        let db = Db::open_memory().await;
        let rows = db.query(db.store.schema_version_query()).await;
        let version = read_first_text(&rows).unwrap().unwrap();
        assert_eq!(version, SCHEMA_VERSION.to_string());
    });
}

#[test]
fn test_insert_and_get_events() {
    block_on(async {
        let db = Db::open_memory().await;
        let session = "test-session-1";

        let start = json("{\"session_id\": \"test-session-1\"}");
        db.execute(db.store.insert_event(session, "agent_start", &start).unwrap()).await;
        let turn = json("{\"turn_index\": 0}");
        db.execute(db.store.insert_event(session, "turn_start", &turn).unwrap()).await;

        let events = db.get_events(session).await;
        assert_eq!(events.len(), 2);
        assert_eq!(events[0].event_type, "agent_start");
        assert_eq!(events[1].event_type, "turn_start");
        assert_eq!(events[0].payload, "{\"session_id\":\"test-session-1\"}");
        assert_eq!(events[1].payload, "{\"turn_index\":0}");
        assert!(events[0].id < events[1].id);
        assert_eq!(events[0].session_id, session);
    });
}

#[test]
fn test_events_isolated_by_session() {
    block_on(async {
        let db = Db::open_memory().await;
        let empty = json("{}");
        db.execute(db.store.insert_event("session-a", "agent_start", &empty).unwrap()).await;
        db.execute(db.store.insert_event("session-b", "agent_start", &empty).unwrap()).await;

        let events_a = db.get_events("session-a").await;
        let events_b = db.get_events("session-b").await;
        assert_eq!(events_a.len(), 1);
        assert_eq!(events_b.len(), 1);
    });
}

#[test]
fn test_insert_and_get_messages() {
    block_on(async {
        let db = Db::open_memory().await;
        let session = "test-session";
        let hello = json("[{\"type\": \"text\", \"text\": \"hello\"}]");
        let hi = json("[{\"type\": \"text\", \"text\": \"hi!\"}]");

        db.execute(db.store.insert_message(session, 0, "user", &hello, None).unwrap()).await;
        db.execute(
            db.store.insert_message(session, 0, "assistant", &hi, Some(10)).unwrap(),
        )
        .await;

        let rows = db.query(db.store.get_messages(session)).await;
        let msgs = read_rows::<MessageRow>(&rows).unwrap();
        assert_eq!(msgs.len(), 2);
        assert_eq!(msgs[0].role, "user");
        assert_eq!(msgs[1].role, "assistant");
        assert_eq!(msgs[1].token_count, Some(10));
        assert_eq!(msgs[0].token_count, None);
        assert_eq!(msgs[0].turn_index, 0);
        assert_eq!(msgs[0].content, "[{\"text\":\"hello\",\"type\":\"text\"}]");
    });
}

#[test]
fn test_insert_and_get_tool_executions() {
    block_on(async {
        let db = Db::open_memory().await;
        let session = "test-session";
        let args = json("{\"path\": \"main.rs\"}");

        db.execute(
            db.store
                .insert_tool_execution(
                    session,
                    0,
                    "call_1",
                    "read_file",
                    &args,
                    Some("fn main() {}"),
                    false,
                    Some(15),
                    "allow",
                )
                .unwrap(),
        )
        .await;

        let rows = db.query(db.store.get_tool_executions(session)).await;
        let execs = read_rows::<ToolExecutionRow>(&rows).unwrap();
        assert_eq!(execs.len(), 1);
        assert_eq!(execs[0].tool_name, "read_file");
        assert_eq!(execs[0].output, Some("fn main() {}".to_string()));
        assert!(!execs[0].is_error);
        assert_eq!(execs[0].duration_ms, Some(15));
        assert_eq!(execs[0].verdict, "allow");
    });
}

#[test]
fn test_tool_execution_with_error() {
    block_on(async {
        let db = Db::open_memory().await;
        let session = "test-session";
        let args = json("{\"command\": \"rm -rf /\"}");

        db.execute(
            db.store
                .insert_tool_execution(
                    session,
                    1,
                    "call_2",
                    "shell_exec",
                    &args,
                    Some("Permission denied"),
                    true,
                    Some(5),
                    "reject",
                )
                .unwrap(),
        )
        .await;

        let rows = db.query(db.store.get_tool_executions(session)).await;
        let execs = read_rows::<ToolExecutionRow>(&rows).unwrap();
        assert_eq!(execs.len(), 1);
        assert!(execs[0].is_error);
        assert_eq!(execs[0].verdict, "reject");
    });
}

#[test]
fn test_kv_set_get_delete() {
    block_on(async {
        let db = Db::open_memory().await;

        db.execute(db.store.kv_set("budget_remaining", "1000").unwrap()).await;
        let val = db.kv_get("budget_remaining").await;
        assert_eq!(val, Some("1000".to_string()));

        db.execute(db.store.kv_set("budget_remaining", "500").unwrap()).await;
        let val = db.kv_get("budget_remaining").await;
        assert_eq!(val, Some("500".to_string()));

        db.execute(db.store.kv_delete("budget_remaining")).await;
        let val = db.kv_get("budget_remaining").await;
        assert_eq!(val, None);
    });
}

#[test]
fn test_kv_get_nonexistent() {
    block_on(async {
        let db = Db::open_memory().await;
        let val = db.kv_get("nonexistent").await;
        assert_eq!(val, None);
    });
}

#[test]
fn test_file_based_store() {
    block_on(async {
        let dir = tempfile::TempDir::new().unwrap();
        let db_path = dir.path().join("test.db");
        let db_path_str = db_path.to_str().unwrap();
        let empty = json("{}");

        {
            let db = Db::connect(StateStore::open(db_path_str)).await;
            db.execute(db.store.insert_event("s1", "agent_start", &empty).unwrap()).await;
            db.execute(db.store.kv_set("key1", "value1").unwrap()).await;
        }

        {
            let db = Db::connect(StateStore::open(db_path_str)).await;
            let events = db.get_events("s1").await;
            assert_eq!(events.len(), 1);

            let val = db.kv_get("key1").await;
            assert_eq!(val, Some("value1".to_string()));
        }
    });
}

#[test]
fn list_sessions_orders_by_latest_activity() {
    block_on(async {
        let db = Db::open_memory().await;
        let empty = json("{}");
        db.execute(db.store.insert_event("first", "agent_start", &empty).unwrap()).await;
        db.execute(db.store.insert_event("second", "agent_start", &empty).unwrap()).await;
        db.execute(db.store.insert_event("first", "agent_end", &empty).unwrap()).await;

        let rows = db.query(db.store.list_sessions(10, 0)).await;
        let sessions = read_rows::<String>(&rows).unwrap();
        assert_eq!(sessions, vec!["first".to_string(), "second".to_string()]);

        let rows = db.query(db.store.list_sessions(1, 1)).await;
        let sessions = read_rows::<String>(&rows).unwrap();
        assert_eq!(sessions, vec!["second".to_string()]);
    });
}

#[test]
fn memory_search_returns_the_inserted_vector_first() {
    block_on(async {
        let db = Db::open_memory().await;
        let near: Vec<u32> = vec![1.0f32.to_bits(), 0.0f32.to_bits(), 0.0f32.to_bits()];
        let far: Vec<u32> = vec![0.0f32.to_bits(), 1.0f32.to_bits(), 0.0f32.to_bits()];
        let meta = json("{\"kind\": \"note\"}");
        db.execute(db.store.insert_memory("s", "far", &far, &meta).unwrap()).await;
        db.execute(db.store.insert_memory("s", "near", &near, &meta).unwrap()).await;
        db.execute(db.store.insert_memory("other", "elsewhere", &near, &meta).unwrap()).await;

        let rows = db.query(db.store.search_memories("s", &near, 5)).await;
        let found = read_rows::<MemoryRow>(&rows).unwrap();
        assert_eq!(found.len(), 2);
        assert_eq!(found[0].content, "near");
        assert_eq!(found[0].metadata, "{\"kind\":\"note\"}");
        let score = |row: &MemoryRow| match row.distance {
            SqlNumber::Real(bits) => 1.0 - f64::from_bits(bits),
            SqlNumber::Integer(n) => 1.0 - n as f64,
        };
        assert!(score(&found[0]) >= score(&found[1]));
        assert!((score(&found[0]) - 1.0).abs() < 1e-6);
    });
}

#[test]
fn kv_set_accepts_one_mebibyte_and_refuses_one_byte_more() {
    let store = StateStore::open_memory();
    let at_limit = "a".repeat(MAX_KV_VALUE_SIZE);
    let statement = store.kv_set("k", &at_limit).unwrap();
    assert_eq!(statement.params.len(), 2);

    let over = "a".repeat(MAX_KV_VALUE_SIZE + 1);
    match store.kv_set("k", &over) {
        Err(StoreError::ValueTooLarge { size, limit }) => {
            assert_eq!(size, 1_048_577);
            assert_eq!(limit, 1_048_576);
        }
        other => panic!("expected ValueTooLarge, got {:?}", other),
    }
    let message = store.kv_set("k", &over).unwrap_err().message();
    assert_eq!(message, "KV value exceeds maximum size of 1048576 bytes (got 1048577)");
}

#[test]
fn kv_round_trip_of_a_value_at_the_limit() {
    block_on(async {
        let db = Db::open_memory().await;
        let at_limit = "b".repeat(MAX_KV_VALUE_SIZE);
        db.execute(db.store.kv_set("big", &at_limit).unwrap()).await;
        assert_eq!(db.kv_get("big").await, Some(at_limit));
    });
}

#[test]
fn a_database_of_another_layout_is_not_written_to() {
    block_on(async {
        let dir = tempfile::TempDir::new().unwrap();
        let path = dir.path().join("old.db");
        let path = path.to_str().unwrap();
        {
            let db = Db::connect(StateStore::open(path)).await;
            db.conn
                .execute("UPDATE schema_info SET value = '7' WHERE key = 'version'", ())
                .await
                .unwrap();
        }
        let store = StateStore::open(path);
        let database = turso::Builder::new_local(path).build().await.unwrap();
        let conn = database.connect().unwrap();
        let db = Db { store, _database: database, conn };
        let (script, version_query) = db.store.init_schema();
        db.conn.execute_batch(script).await.unwrap();
        let recorded = read_first_text(&db.query(version_query).await).unwrap();
        assert_eq!(recorded, Some("7".to_string()));
        assert_eq!(
            db.store.record_schema_version(recorded),
            Err(StoreError::IncompatibleSchema("7".to_string()))
        );
    });
}

#[test]
fn the_size_limit_counts_bytes_not_characters() {
    let store = StateStore::open_memory();
    // 524288 characters of two bytes each are exactly one mebibyte.
    let at_limit = "é".repeat(MAX_KV_VALUE_SIZE / 2);
    assert_eq!(at_limit.chars().count(), 524_288);
    assert!(store.kv_set("k", &at_limit).is_ok());
    let over = format!("{}a", at_limit);
    assert_eq!(
        store.kv_set("k", &over),
        Err(StoreError::ValueTooLarge { size: 1_048_577, limit: 1_048_576 })
    );
}
