//! The values that travel between the store and the database: what is
//! bound to a statement's parameters, and what a row's columns hold.

use crate::record::{optional_text, optional_texts, Timestamp};
use vstd::prelude::*;

verus! {

/// The SQL types of the table's columns.
#[derive(Clone, Copy, Debug, PartialEq, Eq, Structural)]
pub enum ColumnType {
    /// `TEXT`
    Text,
    /// `BIGINT`
    BigInt,
    /// `BOOLEAN`
    Boolean,
    /// `TIMESTAMP WITH TIME ZONE`
    TimestampTz,
    /// `TEXT[]`
    TextArray,
    /// `JSONB`
    Jsonb,
}

/// A value of one of the column types; `None` is SQL NULL.
#[derive(Clone, Debug, PartialEq, Eq)]
pub enum SqlValue {
    Text(Option<String>),
    BigInt(Option<i64>),
    Boolean(Option<bool>),
    TimestampTz(Option<Timestamp>),
    TextArray(Option<Vec<String>>),
    /// A JSON value as text.
    Jsonb(Option<String>),
}

/// The mathematical value of a [`SqlValue`].
pub enum SqlValueModel {
    Text(Option<Seq<char>>),
    BigInt(Option<int>),
    Boolean(Option<bool>),
    TimestampTz(Option<Timestamp>),
    TextArray(Option<Seq<Seq<char>>>),
    Jsonb(Option<Seq<char>>),
}

impl View for SqlValue {
    type V = SqlValueModel;

    open spec fn view(&self) -> SqlValueModel {
        match *self {
            SqlValue::Text(text) => SqlValueModel::Text(optional_text(text)),
            SqlValue::BigInt(number) => SqlValueModel::BigInt(
                match number {
                    Some(number) => Some(number as int),
                    None => None,
                },
            ),
            SqlValue::Boolean(flag) => SqlValueModel::Boolean(flag),
            SqlValue::TimestampTz(at) => SqlValueModel::TimestampTz(at),
            SqlValue::TextArray(list) => SqlValueModel::TextArray(optional_texts(list)),
            SqlValue::Jsonb(text) => SqlValueModel::Jsonb(optional_text(text)),
        }
    }
}

impl SqlValueModel {
    pub open spec fn column_type(self) -> ColumnType {
        match self {
            SqlValueModel::Text(_) => ColumnType::Text,
            SqlValueModel::BigInt(_) => ColumnType::BigInt,
            SqlValueModel::Boolean(_) => ColumnType::Boolean,
            SqlValueModel::TimestampTz(_) => ColumnType::TimestampTz,
            SqlValueModel::TextArray(_) => ColumnType::TextArray,
            SqlValueModel::Jsonb(_) => ColumnType::Jsonb,
        }
    }
}

/// The mathematical values of a list of SQL values.
pub open spec fn values_view(values: Seq<SqlValue>) -> Seq<SqlValueModel> {
    Seq::new(values.len(), |i: int| values[i]@)
}

impl SqlValue {
    /// The SQL type of the value.
    pub fn column_type(&self) -> (r: ColumnType)
        ensures
            r == self@.column_type(),
    {
        match self {
            SqlValue::Text(_) => ColumnType::Text,
            SqlValue::BigInt(_) => ColumnType::BigInt,
            SqlValue::Boolean(_) => ColumnType::Boolean,
            SqlValue::TimestampTz(_) => ColumnType::TimestampTz,
            SqlValue::TextArray(_) => ColumnType::TextArray,
            SqlValue::Jsonb(_) => ColumnType::Jsonb,
        }
    }
}

} // verus!
