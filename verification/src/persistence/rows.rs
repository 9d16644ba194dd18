//! The rows of the store's tables and how they are read.

use vstd::prelude::*;
use crate::persistence::value::{
    column_integer, column_optional_integer, column_optional_text, column_text, integer_at,
    optional_integer_at, optional_text_at, text_at, ColumnError, SqlValue, SqlValueView,
};
use crate::views::views;

verus! {

/// The views of the rows of a result set, in order.
pub open spec fn row_views(rows: Seq<Vec<SqlValue>>) -> Seq<Seq<SqlValueView>> {
    Seq::new(rows.len(), |i: int| views(rows[i]@))
}

/// A record that is read from the columns of one row of a result set.
pub trait FromColumns: View + Sized {
    /// The record that a row stands for, or why it stands for none.
    spec fn decoded(row: Seq<SqlValueView>) -> Result<Self::V, ColumnError>;

    /// Reads the record from a row.
    fn from_columns(row: &Vec<SqlValue>) -> (res: Result<Self, ColumnError>)
        ensures
            match Self::decoded(views(row@)) {
                Ok(record) => res matches Ok(r) && r@ == record,
                Err(e) => res matches Err(err) && err == e,
            },
    ;
}

/// The records of a result set in order, or the error of the first row that
/// stands for none.
pub open spec fn decode_all<R: FromColumns>(rows: Seq<Seq<SqlValueView>>) -> Result<
    Seq<R::V>,
    ColumnError,
>
    decreases rows.len(),
{
    if rows.len() == 0 {
        Ok(Seq::empty())
    } else {
        match decode_all::<R>(rows.drop_last()) {
            Err(e) => Err(e),
            Ok(records) => match R::decoded(rows.last()) {
                Ok(record) => Ok(records.push(record)),
                Err(e) => Err(e),
            },
        }
    }
}

/// Reads every row of a result set, stopping at the first that cannot be read.
pub fn read_rows<R: FromColumns>(rows: &Vec<Vec<SqlValue>>) -> (res: Result<Vec<R>, ColumnError>)
    ensures
        match decode_all::<R>(row_views(rows@)) {
            Ok(records) => res matches Ok(items) && views(items@) == records,
            Err(e) => res matches Err(err) && err == e,
        },
{
    let mut items: Vec<R> = Vec::new();
    let mut i: usize = 0;
    proof {
        assert(views(items@) =~= Seq::<R::V>::empty());
        assert(row_views(rows@).take(0).len() == 0);
    }
    while i < rows.len()
        invariant
            0 <= i <= rows.len(),
            decode_all::<R>(row_views(rows@).take(i as int)) == Ok::<Seq<R::V>, ColumnError>(
                views(items@),
            ),
        decreases rows.len() - i,
    {
        proof {
            let all = row_views(rows@);
            assert(all.take(i as int + 1).drop_last() =~= all.take(i as int));
            assert(all.take(i as int + 1).last() == views(rows@[i as int]@));
        }
        match R::from_columns(&rows[i]) {
            Ok(item) => {
                proof {
                    assert(views(items@.push(item)) =~= views(items@).push(item@));
                }
                items.push(item);
            },
            Err(e) => {
                proof {
                    lemma_decode_all_error_persists::<R>(row_views(rows@), i as int + 1);
                }
                return Err(e);
            },
        }
        i = i + 1;
    }
    proof {
        assert(row_views(rows@).take(i as int) =~= row_views(rows@));
    }
    Ok(items)
}

/// Once a prefix of a result set fails to decode, the whole set fails with the
/// same error.
pub proof fn lemma_decode_all_error_persists<R: FromColumns>(
    rows: Seq<Seq<SqlValueView>>,
    n: int,
)
    requires
        0 <= n <= rows.len(),
        decode_all::<R>(rows.take(n)) is Err,
    ensures
        decode_all::<R>(rows) == decode_all::<R>(rows.take(n)),
    decreases rows.len() - n,
{
    if n == rows.len() {
        assert(rows.take(n) =~= rows);
    } else {
        assert(rows.take(n + 1).drop_last() =~= rows.take(n));
        lemma_decode_all_error_persists::<R>(rows, n + 1);
    }
}

/// A row of the `events` table.
#[derive(Debug, Clone, PartialEq)]
pub struct EventRow {
    pub id: i64,
    pub session_id: String,
    pub event_type: String,
    pub payload: String,
    pub created_at: String,
}

/// The mathematical content of an [`EventRow`].
pub struct EventRowView {
    pub id: i64,
    pub session_id: Seq<char>,
    pub event_type: Seq<char>,
    pub payload: Seq<char>,
    pub created_at: Seq<char>,
}

impl View for EventRow {
    type V = EventRowView;

    open spec fn view(&self) -> EventRowView {
        EventRowView {
            id: self.id,
            session_id: self.session_id@,
            event_type: self.event_type@,
            payload: self.payload@,
            created_at: self.created_at@,
        }
    }
}

impl FromColumns for EventRow {
    open spec fn decoded(row: Seq<SqlValueView>) -> Result<EventRowView, ColumnError> {
        match integer_at(row, 0) {
            Err(e) => Err(e),
            Ok(id) => match text_at(row, 1) {
                Err(e) => Err(e),
                Ok(session_id) => match text_at(row, 2) {
                    Err(e) => Err(e),
                    Ok(event_type) => match text_at(row, 3) {
                        Err(e) => Err(e),
                        Ok(payload) => match text_at(row, 4) {
                            Err(e) => Err(e),
                            Ok(created_at) => Ok(
                                EventRowView { id, session_id, event_type, payload, created_at },
                            ),
                        },
                    },
                },
            },
        }
    }

    fn from_columns(row: &Vec<SqlValue>) -> (res: Result<Self, ColumnError>) {
        let id = match column_integer(row, 0) {
            Ok(v) => v,
            Err(e) => { return Err(e); },
        };
        let session_id = match column_text(row, 1) {
            Ok(v) => v,
            Err(e) => { return Err(e); },
        };
        let event_type = match column_text(row, 2) {
            Ok(v) => v,
            Err(e) => { return Err(e); },
        };
        let payload = match column_text(row, 3) {
            Ok(v) => v,
            Err(e) => { return Err(e); },
        };
        let created_at = match column_text(row, 4) {
            Ok(v) => v,
            Err(e) => { return Err(e); },
        };
        Ok(EventRow { id, session_id, event_type, payload, created_at })
    }
}

impl FromColumns for String {
    open spec fn decoded(row: Seq<SqlValueView>) -> Result<Seq<char>, ColumnError> {
        text_at(row, 0)
    }

    fn from_columns(row: &Vec<SqlValue>) -> (res: Result<Self, ColumnError>) {
        column_text(row, 0)
    }
}

/// A row of the `messages` table.
#[derive(Debug, Clone, PartialEq)]
pub struct MessageRow {
    pub id: i64,
    pub session_id: String,
    pub turn_index: u32,
    pub role: String,
    pub content: String,
    pub token_count: Option<u32>,
    pub created_at: String,
}

/// The mathematical content of a [`MessageRow`].
pub struct MessageRowView {
    pub id: i64,
    pub session_id: Seq<char>,
    pub turn_index: u32,
    pub role: Seq<char>,
    pub content: Seq<char>,
    pub token_count: Option<u32>,
    pub created_at: Seq<char>,
}

impl View for MessageRow {
    type V = MessageRowView;

    open spec fn view(&self) -> MessageRowView {
        MessageRowView {
            id: self.id,
            session_id: self.session_id@,
            turn_index: self.turn_index,
            role: self.role@,
            content: self.content@,
            token_count: self.token_count,
            created_at: self.created_at@,
        }
    }
}

/// The low 32 bits of a stored integer, as an unsigned number.
pub open spec fn low_u32(n: i64) -> u32 {
    n as u32
}

/// The 64 bits of a stored integer, as an unsigned number.
pub open spec fn bits_u64(n: i64) -> u64 {
    n as u64
}

impl FromColumns for MessageRow {
    open spec fn decoded(row: Seq<SqlValueView>) -> Result<MessageRowView, ColumnError> {
        match integer_at(row, 0) {
            Err(e) => Err(e),
            Ok(id) => match text_at(row, 1) {
                Err(e) => Err(e),
                Ok(session_id) => match integer_at(row, 2) {
                    Err(e) => Err(e),
                    Ok(turn) => match text_at(row, 3) {
                        Err(e) => Err(e),
                        Ok(role) => match text_at(row, 4) {
                            Err(e) => Err(e),
                            Ok(content) => match optional_integer_at(row, 5) {
                                Err(e) => Err(e),
                                Ok(tokens) => match text_at(row, 6) {
                                    Err(e) => Err(e),
                                    Ok(created_at) => Ok(
                                        MessageRowView {
                                            id,
                                            session_id,
                                            turn_index: low_u32(turn),
                                            role,
                                            content,
                                            token_count: match tokens {
                                                Some(t) => Some(low_u32(t)),
                                                None => None,
                                            },
                                            created_at,
                                        },
                                    ),
                                },
                            },
                        },
                    },
                },
            },
        }
    }

    fn from_columns(row: &Vec<SqlValue>) -> (res: Result<Self, ColumnError>) {
        let id = match column_integer(row, 0) {
            Ok(v) => v,
            Err(e) => { return Err(e); },
        };
        let session_id = match column_text(row, 1) {
            Ok(v) => v,
            Err(e) => { return Err(e); },
        };
        let turn = match column_integer(row, 2) {
            Ok(v) => v,
            Err(e) => { return Err(e); },
        };
        let role = match column_text(row, 3) {
            Ok(v) => v,
            Err(e) => { return Err(e); },
        };
        let content = match column_text(row, 4) {
            Ok(v) => v,
            Err(e) => { return Err(e); },
        };
        let tokens = match column_optional_integer(row, 5) {
            Ok(v) => v,
            Err(e) => { return Err(e); },
        };
        let created_at = match column_text(row, 6) {
            Ok(v) => v,
            Err(e) => { return Err(e); },
        };
        let token_count = match tokens {
            Some(t) => Some(#[verifier::truncate] (t as u32)),
            None => None,
        };
        Ok(
            MessageRow {
                id,
                session_id,
                turn_index: #[verifier::truncate] (turn as u32),
                role,
                content,
                token_count,
                created_at,
            },
        )
    }
}

/// A row of the `tool_executions` table.
#[derive(Debug, Clone, PartialEq)]
pub struct ToolExecutionRow {
    pub id: i64,
    pub session_id: String,
    pub turn_index: u32,
    pub tool_call_id: String,
    pub tool_name: String,
    pub args: String,
    pub output: Option<String>,
    pub is_error: bool,
    pub duration_ms: Option<u64>,
    pub verdict: String,
    pub created_at: String,
}

/// The mathematical content of a [`ToolExecutionRow`].
pub struct ToolExecutionRowView {
    pub id: i64,
    pub session_id: Seq<char>,
    pub turn_index: u32,
    pub tool_call_id: Seq<char>,
    pub tool_name: Seq<char>,
    pub args: Seq<char>,
    pub output: Option<Seq<char>>,
    pub is_error: bool,
    pub duration_ms: Option<u64>,
    pub verdict: Seq<char>,
    pub created_at: Seq<char>,
}

impl View for ToolExecutionRow {
    type V = ToolExecutionRowView;

    open spec fn view(&self) -> ToolExecutionRowView {
        ToolExecutionRowView {
            id: self.id,
            session_id: self.session_id@,
            turn_index: self.turn_index,
            tool_call_id: self.tool_call_id@,
            tool_name: self.tool_name@,
            args: self.args@,
            output: match self.output {
                Some(text) => Some(text@),
                None => None,
            },
            is_error: self.is_error,
            duration_ms: self.duration_ms,
            verdict: self.verdict@,
            created_at: self.created_at@,
        }
    }
}

impl FromColumns for ToolExecutionRow {
    open spec fn decoded(row: Seq<SqlValueView>) -> Result<ToolExecutionRowView, ColumnError> {
        match integer_at(row, 0) {
            Err(e) => Err(e),
            Ok(id) => match text_at(row, 1) {
                Err(e) => Err(e),
                Ok(session_id) => match integer_at(row, 2) {
                    Err(e) => Err(e),
                    Ok(turn) => match text_at(row, 3) {
                        Err(e) => Err(e),
                        Ok(tool_call_id) => match text_at(row, 4) {
                            Err(e) => Err(e),
                            Ok(tool_name) => match text_at(row, 5) {
                                Err(e) => Err(e),
                                Ok(args) => match optional_text_at(row, 6) {
                                    Err(e) => Err(e),
                                    Ok(output) => match integer_at(row, 7) {
                                        Err(e) => Err(e),
                                        Ok(flag) => match optional_integer_at(row, 8) {
                                            Err(e) => Err(e),
                                            Ok(duration) => match text_at(row, 9) {
                                                Err(e) => Err(e),
                                                Ok(verdict) => match text_at(row, 10) {
                                                    Err(e) => Err(e),
                                                    Ok(created_at) => Ok(
                                                        ToolExecutionRowView {
                                                            id,
                                                            session_id,
                                                            turn_index: low_u32(turn),
                                                            tool_call_id,
                                                            tool_name,
                                                            args,
                                                            output,
                                                            is_error: flag != 0,
                                                            duration_ms: match duration {
                                                                Some(d) => Some(bits_u64(d)),
                                                                None => None,
                                                            },
                                                            verdict,
                                                            created_at,
                                                        },
                                                    ),
                                                },
                                            },
                                        },
                                    },
                                },
                            },
                        },
                    },
                },
            },
        }
    }

    fn from_columns(row: &Vec<SqlValue>) -> (res: Result<Self, ColumnError>) {
        let id = match column_integer(row, 0) {
            Ok(v) => v,
            Err(e) => { return Err(e); },
        };
        let session_id = match column_text(row, 1) {
            Ok(v) => v,
            Err(e) => { return Err(e); },
        };
        let turn = match column_integer(row, 2) {
            Ok(v) => v,
            Err(e) => { return Err(e); },
        };
        let tool_call_id = match column_text(row, 3) {
            Ok(v) => v,
            Err(e) => { return Err(e); },
        };
        let tool_name = match column_text(row, 4) {
            Ok(v) => v,
            Err(e) => { return Err(e); },
        };
        let args = match column_text(row, 5) {
            Ok(v) => v,
            Err(e) => { return Err(e); },
        };
        let output = match column_optional_text(row, 6) {
            Ok(v) => v,
            Err(e) => { return Err(e); },
        };
        let flag = match column_integer(row, 7) {
            Ok(v) => v,
            Err(e) => { return Err(e); },
        };
        let duration = match column_optional_integer(row, 8) {
            Ok(v) => v,
            Err(e) => { return Err(e); },
        };
        let verdict = match column_text(row, 9) {
            Ok(v) => v,
            Err(e) => { return Err(e); },
        };
        let created_at = match column_text(row, 10) {
            Ok(v) => v,
            Err(e) => { return Err(e); },
        };
        let duration_ms = match duration {
            Some(d) => Some(#[verifier::truncate] (d as u64)),
            None => None,
        };
        Ok(
            ToolExecutionRow {
                id,
                session_id,
                turn_index: #[verifier::truncate] (turn as u32),
                tool_call_id,
                tool_name,
                args,
                output,
                is_error: flag != 0,
                duration_ms,
                verdict,
                created_at,
            },
        )
    }
}

/// A number as a column holds it: an integer, or a real number given by the
/// bits of its 64-bit IEEE 754 form.
#[derive(Debug, Clone, Copy, PartialEq, Eq, Structural)]
pub enum SqlNumber {
    Integer(i64),
    Real(u64),
}

/// The number in column `index` of a row.
pub open spec fn number_at(row: Seq<SqlValueView>, index: int) -> Result<SqlNumber, ColumnError> {
    if !(0 <= index < row.len()) {
        Err(ColumnError::OutOfBounds { index: index as usize, columns: row.len() as usize })
    } else {
        match row[index] {
            SqlValueView::Integer(n) => Ok(SqlNumber::Integer(n)),
            SqlValueView::Real(bits) => Ok(SqlNumber::Real(bits)),
            SqlValueView::Null => Err(ColumnError::NullValue),
            _ => Err(ColumnError::InvalidColumnType),
        }
    }
}

/// Reads column `index` of a row as a number.
pub fn column_number(row: &Vec<SqlValue>, index: usize) -> (res: Result<SqlNumber, ColumnError>)
    ensures
        res == number_at(views(row@), index as int),
{
    if index >= row.len() {
        return Err(ColumnError::OutOfBounds { index, columns: row.len() });
    }
    match &row[index] {
        SqlValue::Integer(n) => Ok(SqlNumber::Integer(*n)),
        SqlValue::Real(bits) => Ok(SqlNumber::Real(*bits)),
        SqlValue::Null => Err(ColumnError::NullValue),
        _ => Err(ColumnError::InvalidColumnType),
    }
}

/// A row of the `memories` table as a similarity search returns it.
///
/// `distance` is the cosine distance between the stored vector and the one
/// searched for. The similarity score of the row is one minus that distance;
/// forming it takes floating-point arithmetic, which is left to the caller.
#[derive(Debug, Clone, PartialEq)]
pub struct MemoryRow {
    pub id: i64,
    pub session_id: String,
    pub content: String,
    pub metadata: String,
    pub created_at: String,
    pub distance: SqlNumber,
}

/// The mathematical content of a [`MemoryRow`].
pub struct MemoryRowView {
    pub id: i64,
    pub session_id: Seq<char>,
    pub content: Seq<char>,
    pub metadata: Seq<char>,
    pub created_at: Seq<char>,
    pub distance: SqlNumber,
}

impl View for MemoryRow {
    type V = MemoryRowView;

    open spec fn view(&self) -> MemoryRowView {
        MemoryRowView {
            id: self.id,
            session_id: self.session_id@,
            content: self.content@,
            metadata: self.metadata@,
            created_at: self.created_at@,
            distance: self.distance,
        }
    }
}

impl FromColumns for MemoryRow {
    open spec fn decoded(row: Seq<SqlValueView>) -> Result<MemoryRowView, ColumnError> {
        match integer_at(row, 0) {
            Err(e) => Err(e),
            Ok(id) => match text_at(row, 1) {
                Err(e) => Err(e),
                Ok(session_id) => match text_at(row, 2) {
                    Err(e) => Err(e),
                    Ok(content) => match text_at(row, 3) {
                        Err(e) => Err(e),
                        Ok(metadata) => match text_at(row, 4) {
                            Err(e) => Err(e),
                            Ok(created_at) => match number_at(row, 5) {
                                Err(e) => Err(e),
                                Ok(distance) => Ok(
                                    MemoryRowView {
                                        id,
                                        session_id,
                                        content,
                                        metadata,
                                        created_at,
                                        distance,
                                    },
                                ),
                            },
                        },
                    },
                },
            },
        }
    }

    fn from_columns(row: &Vec<SqlValue>) -> (res: Result<Self, ColumnError>) {
        let id = match column_integer(row, 0) {
            Ok(v) => v,
            Err(e) => { return Err(e); },
        };
        let session_id = match column_text(row, 1) {
            Ok(v) => v,
            Err(e) => { return Err(e); },
        };
        let content = match column_text(row, 2) {
            Ok(v) => v,
            Err(e) => { return Err(e); },
        };
        let metadata = match column_text(row, 3) {
            Ok(v) => v,
            Err(e) => { return Err(e); },
        };
        let created_at = match column_text(row, 4) {
            Ok(v) => v,
            Err(e) => { return Err(e); },
        };
        let distance = match column_number(row, 5) {
            Ok(v) => v,
            Err(e) => { return Err(e); },
        };
        Ok(MemoryRow { id, session_id, content, metadata, created_at, distance })
    }
}

} // verus!
