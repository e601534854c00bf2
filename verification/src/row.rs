//! A row of the table, and the values of its columns.

use crate::record::{
    copy_optional_text, copy_text, copy_texts, optional_text, optional_texts, Timestamp,
};
use crate::value::{values_view, ColumnType, SqlValue, SqlValueModel};
use vstd::prelude::*;

verus! {

/// One row of the table, column by column.
#[derive(Clone, Debug, PartialEq, Eq)]
pub struct InfoRow {
    pub id: String,
    pub offset: i64,
    pub length: Option<i64>,
    pub path: Option<String>,
    pub created_at: Timestamp,
    pub deferred_size: bool,
    pub is_partial: bool,
    pub is_final: bool,
    /// `None` is SQL NULL.
    pub parts: Option<Vec<String>>,
    pub storage: String,
    /// The metadata as the text of a JSON object.
    pub metadata: String,
}

/// The mathematical value of an [`InfoRow`].
pub struct RowModel {
    pub id: Seq<char>,
    pub offset: int,
    pub length: Option<int>,
    pub path: Option<Seq<char>>,
    pub created_at: Timestamp,
    pub deferred_size: bool,
    pub is_partial: bool,
    pub is_final: bool,
    pub parts: Option<Seq<Seq<char>>>,
    pub storage: Seq<char>,
    pub metadata: Seq<char>,
}

impl View for InfoRow {
    type V = RowModel;

    open spec fn view(&self) -> RowModel {
        RowModel {
            id: self.id@,
            offset: self.offset as int,
            length: match self.length {
                Some(length) => Some(length as int),
                None => None,
            },
            path: optional_text(self.path),
            created_at: self.created_at,
            deferred_size: self.deferred_size,
            is_partial: self.is_partial,
            is_final: self.is_final,
            parts: optional_texts(self.parts),
            storage: self.storage@,
            metadata: self.metadata@,
        }
    }
}

/// The value of an optional row.
pub open spec fn optional_row(row: Option<InfoRow>) -> Option<RowModel> {
    match row {
        Some(row) => Some(row@),
        None => None,
    }
}

/// The SQL types of a row's columns, in the order of the table.
pub open spec fn column_types() -> Seq<ColumnType> {
    seq![
        ColumnType::Text,
        ColumnType::BigInt,
        ColumnType::BigInt,
        ColumnType::Text,
        ColumnType::TimestampTz,
        ColumnType::Boolean,
        ColumnType::Boolean,
        ColumnType::Boolean,
        ColumnType::TextArray,
        ColumnType::Text,
        ColumnType::Jsonb,
    ]
}

/// The values of a row's columns, in the order of the table: `id`,
/// `offset`, `length`, `path`, `created_at`, `deferred_size`, `is_partial`,
/// `is_final`, `parts`, `storage`, `metadata`.
pub open spec fn row_values(row: RowModel) -> Seq<SqlValueModel> {
    seq![
        SqlValueModel::Text(Some(row.id)),
        SqlValueModel::BigInt(Some(row.offset)),
        SqlValueModel::BigInt(row.length),
        SqlValueModel::Text(row.path),
        SqlValueModel::TimestampTz(Some(row.created_at)),
        SqlValueModel::Boolean(Some(row.deferred_size)),
        SqlValueModel::Boolean(Some(row.is_partial)),
        SqlValueModel::Boolean(Some(row.is_final)),
        SqlValueModel::TextArray(row.parts),
        SqlValueModel::Text(Some(row.storage)),
        SqlValueModel::Jsonb(Some(row.metadata)),
    ]
}

/// The row that a list of column values makes up: there are eleven of them,
/// each of its column's type, and only `length`, `path` and `parts` may be
/// NULL.
pub open spec fn values_row(values: Seq<SqlValueModel>) -> Option<RowModel> {
    if values.len() == 11 {
        match (
            values[0],
            values[1],
            values[2],
            values[3],
            values[4],
            values[5],
            values[6],
            values[7],
            values[8],
            values[9],
            values[10],
        ) {
            (
                SqlValueModel::Text(Some(id)),
                SqlValueModel::BigInt(Some(offset)),
                SqlValueModel::BigInt(length),
                SqlValueModel::Text(path),
                SqlValueModel::TimestampTz(Some(created_at)),
                SqlValueModel::Boolean(Some(deferred_size)),
                SqlValueModel::Boolean(Some(is_partial)),
                SqlValueModel::Boolean(Some(is_final)),
                SqlValueModel::TextArray(parts),
                SqlValueModel::Text(Some(storage)),
                SqlValueModel::Jsonb(Some(metadata)),
            ) => Some(
                RowModel {
                    id,
                    offset,
                    length,
                    path,
                    created_at,
                    deferred_size,
                    is_partial,
                    is_final,
                    parts,
                    storage,
                    metadata,
                },
            ),
            _ => None,
        }
    } else {
        None
    }
}

/// The values of a row make up the row again, and each is of its column's
/// type.
pub proof fn law_values_make_the_row(row: RowModel)
    ensures
        values_row(row_values(row)) == Some(row),
        row_values(row).len() == column_types().len(),
        forall|i: int|
            0 <= i < column_types().len() ==> (#[trigger] row_values(row)[i]).column_type()
                == column_types()[i],
{
}

/// The SQL types of a row's columns, in the order of the table.
pub fn row_column_types() -> (r: Vec<ColumnType>)
    ensures
        r@ == column_types(),
{
    let types = vec![
        ColumnType::Text,
        ColumnType::BigInt,
        ColumnType::BigInt,
        ColumnType::Text,
        ColumnType::TimestampTz,
        ColumnType::Boolean,
        ColumnType::Boolean,
        ColumnType::Boolean,
        ColumnType::TextArray,
        ColumnType::Text,
        ColumnType::Jsonb,
    ];
    assert(types@ =~= column_types());
    types
}

impl InfoRow {
    /// The values of the columns, in the order of the table.
    pub fn values(&self) -> (r: Vec<SqlValue>)
        ensures
            values_view(r@) == row_values(self@),
    {
        let values = vec![
            SqlValue::Text(Some(copy_text(&self.id))),
            SqlValue::BigInt(Some(self.offset)),
            SqlValue::BigInt(self.length),
            SqlValue::Text(copy_optional_text(&self.path)),
            SqlValue::TimestampTz(Some(self.created_at)),
            SqlValue::Boolean(Some(self.deferred_size)),
            SqlValue::Boolean(Some(self.is_partial)),
            SqlValue::Boolean(Some(self.is_final)),
            SqlValue::TextArray(
                match &self.parts {
                    Some(parts) => Some(copy_texts(parts)),
                    None => None,
                },
            ),
            SqlValue::Text(Some(copy_text(&self.storage))),
            SqlValue::Jsonb(Some(copy_text(&self.metadata))),
        ];
        assert(values_view(values@) =~= row_values(self@));
        values
    }

    /// The row that the column values make up, if they make one up.
    pub fn from_values(values: Vec<SqlValue>) -> (r: Option<InfoRow>)
        ensures
            optional_row(r) == values_row(values_view(values@)),
    {
        let mut values = values;
        if values.len() != 11 {
            return None;
        }
        let metadata = match values.pop() {
            Some(SqlValue::Jsonb(Some(metadata))) => metadata,
            _ => {
                return None;
            },
        };
        let storage = match values.pop() {
            Some(SqlValue::Text(Some(storage))) => storage,
            _ => {
                return None;
            },
        };
        let parts = match values.pop() {
            Some(SqlValue::TextArray(parts)) => parts,
            _ => {
                return None;
            },
        };
        let is_final = match values.pop() {
            Some(SqlValue::Boolean(Some(is_final))) => is_final,
            _ => {
                return None;
            },
        };
        let is_partial = match values.pop() {
            Some(SqlValue::Boolean(Some(is_partial))) => is_partial,
            _ => {
                return None;
            },
        };
        let deferred_size = match values.pop() {
            Some(SqlValue::Boolean(Some(deferred_size))) => deferred_size,
            _ => {
                return None;
            },
        };
        let created_at = match values.pop() {
            Some(SqlValue::TimestampTz(Some(created_at))) => created_at,
            _ => {
                return None;
            },
        };
        let path = match values.pop() {
            Some(SqlValue::Text(path)) => path,
            _ => {
                return None;
            },
        };
        let length = match values.pop() {
            Some(SqlValue::BigInt(length)) => length,
            _ => {
                return None;
            },
        };
        let offset = match values.pop() {
            Some(SqlValue::BigInt(Some(offset))) => offset,
            _ => {
                return None;
            },
        };
        let id = match values.pop() {
            Some(SqlValue::Text(Some(id))) => id,
            _ => {
                return None;
            },
        };
        Some(
            InfoRow {
                id,
                offset,
                length,
                path,
                created_at,
                deferred_size,
                is_partial,
                is_final,
                parts,
                storage,
                metadata,
            },
        )
    }
}

} // verus!
