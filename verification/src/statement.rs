//! The SQL statements of the store. Schema and table names are part of the
//! text; every value travels beside it as a bound parameter.

use crate::record::copy_text;
use crate::row::{row_values, InfoRow, RowModel};
use crate::value::{values_view, SqlValue, SqlValueModel};
use vstd::prelude::*;

verus! {

/// The five statements the store issues.
#[derive(Clone, Copy, Debug, PartialEq, Eq, Structural)]
pub enum StatementKind {
    CreateTable,
    Insert,
    Update,
    Select,
    Delete,
}

/// A statement: its text, and what its parameters `$1`, `$2`, ... are bound
/// to.
#[derive(Clone, Debug, PartialEq, Eq)]
pub enum Statement {
    /// Creates the table unless it exists. No parameters.
    CreateTable { text: String },
    /// Inserts `row`; the values of its columns are the parameters.
    Insert { text: String, row: InfoRow },
    /// Overwrites the row whose id is `row.id`; same parameters as an insert.
    Update { text: String, row: InfoRow },
    /// Selects the row whose id is `id`, the only parameter.
    Select { text: String, id: String },
    /// Deletes the row whose id is `id`, the only parameter.
    Delete { text: String, id: String },
}

/// The mathematical value of a [`Statement`].
pub enum StatementModel {
    CreateTable { text: Seq<char> },
    Insert { text: Seq<char>, row: RowModel },
    Update { text: Seq<char>, row: RowModel },
    Select { text: Seq<char>, id: Seq<char> },
    Delete { text: Seq<char>, id: Seq<char> },
}

impl View for Statement {
    type V = StatementModel;

    open spec fn view(&self) -> StatementModel {
        match *self {
            Statement::CreateTable { text } => StatementModel::CreateTable { text: text@ },
            Statement::Insert { text, row } => StatementModel::Insert { text: text@, row: row@ },
            Statement::Update { text, row } => StatementModel::Update { text: text@, row: row@ },
            Statement::Select { text, id } => StatementModel::Select { text: text@, id: id@ },
            Statement::Delete { text, id } => StatementModel::Delete { text: text@, id: id@ },
        }
    }
}

impl StatementModel {
    pub open spec fn kind(self) -> StatementKind {
        match self {
            StatementModel::CreateTable { .. } => StatementKind::CreateTable,
            StatementModel::Insert { .. } => StatementKind::Insert,
            StatementModel::Update { .. } => StatementKind::Update,
            StatementModel::Select { .. } => StatementKind::Select,
            StatementModel::Delete { .. } => StatementKind::Delete,
        }
    }

    pub open spec fn text(self) -> Seq<char> {
        match self {
            StatementModel::CreateTable { text } => text,
            StatementModel::Insert { text, .. } => text,
            StatementModel::Update { text, .. } => text,
            StatementModel::Select { text, .. } => text,
            StatementModel::Delete { text, .. } => text,
        }
    }

    /// The values bound to `$1`, `$2`, ... in this order.
    pub open spec fn parameters(self) -> Seq<SqlValueModel> {
        match self {
            StatementModel::CreateTable { .. } => seq![],
            StatementModel::Insert { row, .. } => row_values(row),
            StatementModel::Update { row, .. } => row_values(row),
            StatementModel::Select { id, .. } => seq![SqlValueModel::Text(Some(id))],
            StatementModel::Delete { id, .. } => seq![SqlValueModel::Text(Some(id))],
        }
    }
}

/// `head`, the table's qualified name, `tail`.
pub open spec fn sql_around(
    head: Seq<char>,
    schema: Seq<char>,
    table: Seq<char>,
    tail: Seq<char>,
) -> Seq<char> {
    head + schema + "."@ + table + tail
}

pub open spec fn create_table_sql(schema: Seq<char>, table: Seq<char>) -> Seq<char> {
    sql_around(
        "CREATE TABLE IF NOT EXISTS "@,
        schema,
        table,
        " (id TEXT PRIMARY KEY, \"offset\" BIGINT NOT NULL, length BIGINT, path TEXT, created_at TIMESTAMP WITH TIME ZONE NOT NULL, deferred_size BOOLEAN NOT NULL, is_partial BOOLEAN NOT NULL, is_final BOOLEAN NOT NULL, parts TEXT[], storage TEXT NOT NULL, metadata JSONB NOT NULL DEFAULT '{}'::jsonb)"@,
    )
}

pub open spec fn insert_sql(schema: Seq<char>, table: Seq<char>) -> Seq<char> {
    sql_around(
        "INSERT INTO "@,
        schema,
        table,
        " (id, \"offset\", length, path, created_at, deferred_size, is_partial, is_final, parts, storage, metadata) VALUES ($1, $2, $3, $4, $5, $6, $7, $8, $9, $10, $11)"@,
    )
}

pub open spec fn update_sql(schema: Seq<char>, table: Seq<char>) -> Seq<char> {
    sql_around(
        "UPDATE "@,
        schema,
        table,
        " SET \"offset\" = $2, length = $3, path = $4, created_at = $5, deferred_size = $6, is_partial = $7, is_final = $8, parts = $9, storage = $10, metadata = $11 WHERE id = $1"@,
    )
}

pub open spec fn select_sql(schema: Seq<char>, table: Seq<char>) -> Seq<char> {
    sql_around(
        "SELECT id, \"offset\", length, path, created_at, deferred_size, is_partial, is_final, parts, storage, metadata FROM "@,
        schema,
        table,
        " WHERE id = $1"@,
    )
}

pub open spec fn delete_sql(schema: Seq<char>, table: Seq<char>) -> Seq<char> {
    sql_around("DELETE FROM "@, schema, table, " WHERE id = $1"@)
}

/// Puts the table's qualified name between two pieces of SQL.
fn around(head: &str, schema: &str, table: &str, tail: &str) -> (r: String)
    ensures
        r@ == sql_around(head@, schema@, table@, tail@),
{
    let mut text = String::from_str(head);
    text.append(schema);
    text.append(".");
    text.append(table);
    text.append(tail);
    text
}

impl Statement {
    /// The statement that creates the table unless it exists, with the
    /// record's columns and a primary key on `id`.
    pub fn create_table(schema: &str, table: &str) -> (r: Statement)
        ensures
            r@ == (StatementModel::CreateTable { text: create_table_sql(schema@, table@) }),
    {
        Statement::CreateTable {
            text: around(
                "CREATE TABLE IF NOT EXISTS ",
                schema,
                table,
                " (id TEXT PRIMARY KEY, \"offset\" BIGINT NOT NULL, length BIGINT, path TEXT, created_at TIMESTAMP WITH TIME ZONE NOT NULL, deferred_size BOOLEAN NOT NULL, is_partial BOOLEAN NOT NULL, is_final BOOLEAN NOT NULL, parts TEXT[], storage TEXT NOT NULL, metadata JSONB NOT NULL DEFAULT '{}'::jsonb)",
            ),
        }
    }

    /// The statement that inserts `row`.
    pub fn insert(schema: &str, table: &str, row: InfoRow) -> (r: Statement)
        ensures
            r@ == (StatementModel::Insert { text: insert_sql(schema@, table@), row: row@ }),
    {
        Statement::Insert {
            text: around(
                "INSERT INTO ",
                schema,
                table,
                " (id, \"offset\", length, path, created_at, deferred_size, is_partial, is_final, parts, storage, metadata) VALUES ($1, $2, $3, $4, $5, $6, $7, $8, $9, $10, $11)",
            ),
            row,
        }
    }

    /// The statement that overwrites every column but `id` of the row whose
    /// id is `row.id`.
    pub fn update(schema: &str, table: &str, row: InfoRow) -> (r: Statement)
        ensures
            r@ == (StatementModel::Update { text: update_sql(schema@, table@), row: row@ }),
    {
        Statement::Update {
            text: around(
                "UPDATE ",
                schema,
                table,
                " SET \"offset\" = $2, length = $3, path = $4, created_at = $5, deferred_size = $6, is_partial = $7, is_final = $8, parts = $9, storage = $10, metadata = $11 WHERE id = $1",
            ),
            row,
        }
    }

    /// The statement that selects the row whose id is `id`.
    pub fn select(schema: &str, table: &str, id: &str) -> (r: Statement)
        ensures
            r@ == (StatementModel::Select { text: select_sql(schema@, table@), id: id@ }),
    {
        Statement::Select {
            text: around(
                "SELECT id, \"offset\", length, path, created_at, deferred_size, is_partial, is_final, parts, storage, metadata FROM ",
                schema,
                table,
                " WHERE id = $1",
            ),
            id: String::from_str(id),
        }
    }

    /// The statement that deletes the row whose id is `id`.
    pub fn delete(schema: &str, table: &str, id: &str) -> (r: Statement)
        ensures
            r@ == (StatementModel::Delete { text: delete_sql(schema@, table@), id: id@ }),
    {
        Statement::Delete {
            text: around("DELETE FROM ", schema, table, " WHERE id = $1"),
            id: String::from_str(id),
        }
    }

    /// Which of the five statements this is.
    pub fn kind(&self) -> (r: StatementKind)
        ensures
            r == self@.kind(),
    {
        match self {
            Statement::CreateTable { .. } => StatementKind::CreateTable,
            Statement::Insert { .. } => StatementKind::Insert,
            Statement::Update { .. } => StatementKind::Update,
            Statement::Select { .. } => StatementKind::Select,
            Statement::Delete { .. } => StatementKind::Delete,
        }
    }

    /// The values to bind to `$1`, `$2`, ... in this order. No value is ever
    /// part of the text.
    pub fn parameters(&self) -> (r: Vec<SqlValue>)
        ensures
            values_view(r@) == self@.parameters(),
    {
        match self {
            Statement::CreateTable { .. } => {
                let values: Vec<SqlValue> = Vec::new();
                assert(values_view(values@) =~= self@.parameters());
                values
            },
            Statement::Insert { row, .. } => row.values(),
            Statement::Update { row, .. } => row.values(),
            Statement::Select { id, .. } => {
                let values = vec![SqlValue::Text(Some(copy_text(id)))];
                assert(values_view(values@) =~= self@.parameters());
                values
            },
            Statement::Delete { id, .. } => {
                let values = vec![SqlValue::Text(Some(copy_text(id)))];
                assert(values_view(values@) =~= self@.parameters());
                values
            },
        }
    }

    /// The SQL text.
    pub fn text(&self) -> (r: &str)
        ensures
            r@ == self@.text(),
    {
        match self {
            Statement::CreateTable { text } => text.as_str(),
            Statement::Insert { text, .. } => text.as_str(),
            Statement::Update { text, .. } => text.as_str(),
            Statement::Select { text, .. } => text.as_str(),
            Statement::Delete { text, .. } => text.as_str(),
        }
    }
}

} // verus!
