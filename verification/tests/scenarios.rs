use bedrock::inference::provider::{AssistantResult, InferenceMessage, ToolCall, Usage};
use bedrock::kernel::event::{ErrorStage, KernelEvent, VerdictKind};
use bedrock::kernel::session::SessionState;
use bedrock::kernel::turn::Kernel;
use bedrock::persistence::rows::{read_rows, EventRow, MessageRow};
use bedrock::persistence::state::{read_first_text, StateStore, Statement};
use bedrock::persistence::value::SqlValue;
use serde_json::Value;

fn block_on<F: std::future::Future>(future: F) -> F::Output {
    tokio::runtime::Builder::new_current_thread()
        .enable_all()
        .build()
        .unwrap()
        .block_on(future)
}

fn to_turso(value: &SqlValue) -> turso::Value {
    match value {
        SqlValue::Null => turso::Value::Null,
        SqlValue::Integer(n) => turso::Value::Integer(*n),
        SqlValue::Real(bits) => turso::Value::Real(f64::from_bits(*bits)),
        SqlValue::Text(text) => turso::Value::Text(text.clone()),
        SqlValue::Blob(bytes) => turso::Value::Blob(bytes.clone()),
    }
}

fn from_turso(value: turso::Value) -> SqlValue {
    match value {
        turso::Value::Null => SqlValue::Null,
        turso::Value::Integer(n) => SqlValue::Integer(n),
        turso::Value::Real(x) => SqlValue::Real(x.to_bits()),
        turso::Value::Text(text) => SqlValue::Text(text),
        turso::Value::Blob(bytes) => SqlValue::Blob(bytes),
    }
}

struct Db {
    store: StateStore,
    _database: turso::Database,
    conn: turso::Connection,
}

impl Db {
    async fn connect(store: StateStore) -> Db {
        let database = turso::Builder::new_local(&store.db_path).build().await.unwrap();
        let conn = database.connect().unwrap();
        let db = Db { store, _database: database, conn };
        let (script, version_query) = db.store.init_schema();
        db.conn.execute_batch(script).await.unwrap();
        let recorded = read_first_text(&db.query(version_query).await).unwrap();
        db.execute(db.store.record_schema_version(recorded).unwrap()).await;
        db
    }

    async fn execute(&self, statement: Statement) {
        let params: Vec<turso::Value> = statement.params.iter().map(to_turso).collect();
        self.conn.execute(statement.sql, params).await.unwrap();
    }

    async fn query(&self, statement: Statement) -> Vec<Vec<SqlValue>> {
        let params: Vec<turso::Value> = statement.params.iter().map(to_turso).collect();
        let mut rows = self.conn.query(statement.sql, params).await.unwrap();
        let mut out = Vec::new();
        while let Some(row) = rows.next().await.unwrap() {
            let mut columns = Vec::new();
            for index in 0..row.column_count() {
                columns.push(from_turso(row.get_value(index).unwrap()));
            }
            out.push(columns);
        }
        out
    }

    async fn publish(&self, session: &str, events: &[KernelEvent]) {
        for event in events {
            let statement =
                self.store.insert_event(session, event.kind_name(), &payload(event)).unwrap();
            self.execute(statement).await;
        }
    }

    async fn log_of(&self, session: &str) -> Vec<KernelEvent> {
        let rows = self.query(self.store.get_events(session)).await;
        read_rows::<EventRow>(&rows).unwrap().iter().map(decode).collect()
    }
}

fn object(fields: Vec<(&str, Value)>) -> Value {
    let mut map = serde_json::Map::new();
    for (key, value) in fields {
        map.insert(key.to_string(), value);
    }
    Value::Object(map)
}

fn calls_to_json(calls: &[ToolCall]) -> Value {
    Value::Array(
        calls
            .iter()
            .map(|c| {
                object(vec![
                    ("id", Value::from(c.id.clone())),
                    ("name", Value::from(c.name.clone())),
                    ("arguments", c.arguments.clone()),
                ])
            })
            .collect(),
    )
}

fn payload(event: &KernelEvent) -> Value {
    match event {
        KernelEvent::AgentStart | KernelEvent::AgentEnd | KernelEvent::HarnessReloaded => {
            object(vec![])
        }
        KernelEvent::TurnStart { turn_index } | KernelEvent::TurnEnd { turn_index } => {
            object(vec![("turn_index", Value::from(*turn_index))])
        }
        KernelEvent::UserMessage { content } => {
            object(vec![("content", Value::from(content.clone()))])
        }
        KernelEvent::AssistantMessage { content, tool_calls, usage, usage_reported } => {
            object(vec![
                ("content", Value::from(content.clone())),
                ("tool_calls", calls_to_json(tool_calls)),
                ("input_tokens", Value::from(usage.input_tokens)),
                ("output_tokens", Value::from(usage.output_tokens)),
                ("usage_reported", Value::from(*usage_reported)),
            ])
        }
        KernelEvent::ToolCallStart { id, name, args } => object(vec![
            ("id", Value::from(id.clone())),
            ("name", Value::from(name.clone())),
            ("args", args.clone()),
        ]),
        KernelEvent::ToolCallEnd { id, output, is_error, duration_ms, verdict, rewritten_args } => {
            object(vec![
                ("id", Value::from(id.clone())),
                ("output", Value::from(output.clone())),
                ("is_error", Value::from(*is_error)),
                ("duration_ms", Value::from(*duration_ms)),
                ("verdict", Value::from(verdict.as_str())),
                ("rewritten_args", rewritten_args.clone().unwrap_or(Value::Null)),
            ])
        }
        KernelEvent::Error { stage, message } => object(vec![
            ("stage", Value::from(stage.as_str())),
            ("message", Value::from(message.clone())),
        ]),
    }
}

fn decode(row: &EventRow) -> KernelEvent {
    let data: Value = serde_json::from_str(&row.payload).unwrap();
    let text = |key: &str| data[key].as_str().unwrap().to_string();
    let number = |key: &str| data[key].as_u64().unwrap();
    match row.event_type.as_str() {
        "agent_start" => KernelEvent::AgentStart,
        "agent_end" => KernelEvent::AgentEnd,
        "harness_reloaded" => KernelEvent::HarnessReloaded,
        "turn_start" => KernelEvent::TurnStart { turn_index: number("turn_index") as u32 },
        "turn_end" => KernelEvent::TurnEnd { turn_index: number("turn_index") as u32 },
        "user_message" => KernelEvent::UserMessage { content: text("content") },
        "assistant_message" => KernelEvent::AssistantMessage {
            content: text("content"),
            tool_calls: data["tool_calls"]
                .as_array()
                .unwrap()
                .iter()
                .map(|c| ToolCall {
                    id: c["id"].as_str().unwrap().to_string(),
                    name: c["name"].as_str().unwrap().to_string(),
                    arguments: c["arguments"].clone(),
                })
                .collect(),
            usage: Usage {
                input_tokens: number("input_tokens"),
                output_tokens: number("output_tokens"),
            },
            usage_reported: data["usage_reported"].as_bool().unwrap(),
        },
        "tool_call_start" => KernelEvent::ToolCallStart {
            id: text("id"),
            name: text("name"),
            args: data["args"].clone(),
        },
        "tool_call_end" => KernelEvent::ToolCallEnd {
            id: text("id"),
            output: text("output"),
            is_error: data["is_error"].as_bool().unwrap(),
            duration_ms: number("duration_ms"),
            verdict: VerdictKind::from_word(data["verdict"].as_str().unwrap()).unwrap(),
            rewritten_args: match &data["rewritten_args"] {
                Value::Null => None,
                other => Some(other.clone()),
            },
        },
        _ => KernelEvent::Error {
            stage: ErrorStage::from_word(data["stage"].as_str().unwrap()).unwrap(),
            message: text("message"),
        },
    }
}

/// Runs the one-shot conversation "hi" / "hello" and returns its kernel and log.
fn one_shot(session_id: &str) -> (Kernel, Vec<KernelEvent>) {
    let mut kernel = Kernel::new(SessionState::with_id(session_id.to_string()));
    kernel.enqueue("hi".to_string());
    let mut log = Vec::new();
    log.extend(kernel.begin_turn().0);
    let hello = AssistantResult {
        content: "hello".to_string(),
        tool_calls: vec![],
        usage: Some(Usage { input_tokens: 1, output_tokens: 1 }),
    };
    log.extend(kernel.on_inference(Ok(hello)).0);
    log.extend(kernel.end_session().0);
    (kernel, log)
}

#[test]
fn one_shot_stores_two_messages_of_turn_zero() {
    block_on(async {
        let db = Db::connect(StateStore::open_memory()).await;
        let (kernel, log) = one_shot("first");
        db.publish("first", &log).await;
        for message in &kernel.session().history {
            let content = Value::from(message.content.clone());
            let statement = db
                .store
                .insert_message("first", 0, message.role.as_str(), &content, None)
                .unwrap();
            db.execute(statement).await;
        }

        let stored: Vec<String> = read_rows::<EventRow>(&db.query(db.store.get_events("first")).await)
            .unwrap()
            .into_iter()
            .map(|row| row.event_type)
            .collect();
        assert_eq!(
            stored,
            vec!["agent_start", "turn_start", "user_message", "assistant_message", "turn_end", "agent_end"]
        );

        let messages = read_rows::<MessageRow>(&db.query(db.store.get_messages("first")).await).unwrap();
        assert_eq!(messages.len(), 2);
        assert_eq!(messages[0].role, "user");
        assert_eq!(messages[1].role, "assistant");
        assert_eq!(messages[0].turn_index, 0);
        assert_eq!(messages[1].turn_index, 0);
        assert_eq!(messages[0].content, "\"hi\"");
    });
}

#[test]
fn a_session_is_rebuilt_from_a_reopened_store() {
    block_on(async {
        let dir = tempfile::TempDir::new().unwrap();
        let path = dir.path().join("bedrock.db");
        let path = path.to_str().unwrap();
        let (kernel, log) = one_shot("first");
        {
            let db = Db::connect(StateStore::open(path)).await;
            db.publish("first", &log).await;
        }
        let db = Db::connect(StateStore::open(path)).await;
        let stored = db.log_of("first").await;
        assert_eq!(stored, log);

        let rebuilt = SessionState::replay("first".to_string(), &stored);
        assert_eq!(
            rebuilt.history,
            vec![
                InferenceMessage::user("hi".to_string()),
                InferenceMessage::assistant("hello".to_string(), vec![]),
            ]
        );
        assert_eq!(rebuilt.history, kernel.session().history);
        assert_eq!(rebuilt.turn_index, 1);
        assert_eq!(rebuilt.total_input_tokens, 1);
        assert_eq!(rebuilt.total_output_tokens, 1);

        // The rebuilt session goes on where the first one stopped.
        let mut resumed = Kernel::new(rebuilt);
        resumed.enqueue("more".to_string());
        let events = resumed.begin_turn().0;
        assert_eq!(events[1], KernelEvent::TurnStart { turn_index: 1 });
    });
}
