//! The values of SQL and the reading of a row's columns.

use vstd::prelude::*;
use crate::views::views;

verus! {

/// A value bound to a statement's parameter or read from a row's column.
///
/// A real number is held by the bits of its 64-bit IEEE 754 form.
#[derive(Debug, Clone, PartialEq)]
pub enum SqlValue {
    Null,
    Integer(i64),
    Real(u64),
    Text(String),
    Blob(Vec<u8>),
}

/// The mathematical content of an [`SqlValue`].
pub enum SqlValueView {
    Null,
    Integer(i64),
    Real(u64),
    Text(Seq<char>),
    Blob(Seq<u8>),
}

impl View for SqlValue {
    type V = SqlValueView;

    open spec fn view(&self) -> SqlValueView {
        match *self {
            SqlValue::Null => SqlValueView::Null,
            SqlValue::Integer(n) => SqlValueView::Integer(n),
            SqlValue::Real(bits) => SqlValueView::Real(bits),
            SqlValue::Text(text) => SqlValueView::Text(text@),
            SqlValue::Blob(bytes) => SqlValueView::Blob(bytes@),
        }
    }
}

/// Why a column could not be read as the type that was asked for.
#[derive(Debug, Clone, Copy, PartialEq, Eq, Structural)]
pub enum ColumnError {
    /// The row has no column at this index.
    OutOfBounds { index: usize, columns: usize },
    /// The column holds NULL where a value was required.
    NullValue,
    /// The column holds a value of another type.
    InvalidColumnType,
}

/// The integer in column `index` of a row.
pub open spec fn integer_at(row: Seq<SqlValueView>, index: int) -> Result<i64, ColumnError> {
    if !(0 <= index < row.len()) {
        Err(ColumnError::OutOfBounds { index: index as usize, columns: row.len() as usize })
    } else {
        match row[index] {
            SqlValueView::Integer(n) => Ok(n),
            SqlValueView::Null => Err(ColumnError::NullValue),
            _ => Err(ColumnError::InvalidColumnType),
        }
    }
}

/// The text in column `index` of a row.
pub open spec fn text_at(row: Seq<SqlValueView>, index: int) -> Result<Seq<char>, ColumnError> {
    if !(0 <= index < row.len()) {
        Err(ColumnError::OutOfBounds { index: index as usize, columns: row.len() as usize })
    } else {
        match row[index] {
            SqlValueView::Text(text) => Ok(text),
            SqlValueView::Null => Err(ColumnError::NullValue),
            _ => Err(ColumnError::InvalidColumnType),
        }
    }
}

/// The integer in column `index` of a row, or `None` where the column is NULL.
pub open spec fn optional_integer_at(row: Seq<SqlValueView>, index: int) -> Result<
    Option<i64>,
    ColumnError,
> {
    if 0 <= index < row.len() && row[index] is Null {
        Ok(None)
    } else {
        match integer_at(row, index) {
            Ok(n) => Ok(Some(n)),
            Err(e) => Err(e),
        }
    }
}

/// The text in column `index` of a row, or `None` where the column is NULL.
pub open spec fn optional_text_at(row: Seq<SqlValueView>, index: int) -> Result<
    Option<Seq<char>>,
    ColumnError,
> {
    if 0 <= index < row.len() && row[index] is Null {
        Ok(None)
    } else {
        match text_at(row, index) {
            Ok(text) => Ok(Some(text)),
            Err(e) => Err(e),
        }
    }
}

/// Reads column `index` of a row as an integer.
pub fn column_integer(row: &Vec<SqlValue>, index: usize) -> (res: Result<i64, ColumnError>)
    ensures
        res == integer_at(views(row@), index as int),
{
    if index >= row.len() {
        return Err(ColumnError::OutOfBounds { index, columns: row.len() });
    }
    match &row[index] {
        SqlValue::Integer(n) => Ok(*n),
        SqlValue::Null => Err(ColumnError::NullValue),
        _ => Err(ColumnError::InvalidColumnType),
    }
}

/// Reads column `index` of a row as text.
pub fn column_text(row: &Vec<SqlValue>, index: usize) -> (res: Result<String, ColumnError>)
    ensures
        match text_at(views(row@), index as int) {
            Ok(text) => res matches Ok(s) && s@ == text,
            Err(e) => res == Err::<String, ColumnError>(e),
        },
{
    if index >= row.len() {
        return Err(ColumnError::OutOfBounds { index, columns: row.len() });
    }
    match &row[index] {
        SqlValue::Text(text) => Ok(text.clone()),
        SqlValue::Null => Err(ColumnError::NullValue),
        _ => Err(ColumnError::InvalidColumnType),
    }
}

/// Reads column `index` of a row as an integer that may be NULL.
pub fn column_optional_integer(row: &Vec<SqlValue>, index: usize) -> (res: Result<
    Option<i64>,
    ColumnError,
>)
    ensures
        res == optional_integer_at(views(row@), index as int),
{
    if index < row.len() {
        if let SqlValue::Null = &row[index] {
            return Ok(None);
        }
    }
    match column_integer(row, index) {
        Ok(n) => Ok(Some(n)),
        Err(e) => Err(e),
    }
}

/// Reads column `index` of a row as text that may be NULL.
pub fn column_optional_text(row: &Vec<SqlValue>, index: usize) -> (res: Result<
    Option<String>,
    ColumnError,
>)
    ensures
        match optional_text_at(views(row@), index as int) {
            Ok(Some(text)) => res matches Ok(Some(s)) && s@ == text,
            Ok(None) => res == Ok::<Option<String>, ColumnError>(None),
            Err(e) => res == Err::<Option<String>, ColumnError>(e),
        },
{
    if index < row.len() {
        if let SqlValue::Null = &row[index] {
            return Ok(None);
        }
    }
    match column_text(row, index) {
        Ok(text) => Ok(Some(text)),
        Err(e) => Err(e),
    }
}

} // verus!
