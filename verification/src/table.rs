//! What the operations amount to on a table with a primary key on `id`.
//!
//! The table is a map from id to row. [`answer`] and [`after`] say what such
//! a table replies to a statement and what it holds afterwards;
//! [`carried_out`] follows an operation to its end. The laws below are proved
//! of the store's decisions against this table. That the database answers as
//! [`answer`] says is assumed, not proved.

use crate::call::{ActionModel, EventModel, ReplyModel};
use crate::codec::{decoded, encoded};
use crate::error::{unique_violation, ErrorKind, OperationKind, StoreErrorModel};
use crate::json::json_object_entries;
use crate::record::RecordModel;
use crate::row::{row_values, RowModel};
use crate::statement::StatementModel;
use crate::storage::StorageModel;
use vstd::prelude::*;

verus! {

/// The rows of the table, by id.
pub type TableModel = Map<Seq<char>, RowModel>;

/// What the table replies to a statement.
///
/// An insert of an id that is present violates the primary key; any other
/// insert, and an update or a delete of an id that is present, touches one
/// row; an update or a delete of an absent id touches none. A select gives
/// the values of the row with the id, if there is one.
pub open spec fn answer(table: TableModel, statement: StatementModel) -> EventModel {
    match statement {
        StatementModel::CreateTable { .. } => EventModel::Affected(0),
        StatementModel::Insert { row, .. } => if table.contains_key(row.id) {
            EventModel::Rejected(Some(unique_violation()))
        } else {
            EventModel::Affected(1)
        },
        StatementModel::Update { row, .. } => if table.contains_key(row.id) {
            EventModel::Affected(1)
        } else {
            EventModel::Affected(0)
        },
        StatementModel::Select { id, .. } => if table.contains_key(id) {
            EventModel::Fetched(Some(row_values(table[id])))
        } else {
            EventModel::Fetched(None)
        },
        StatementModel::Delete { id, .. } => if table.contains_key(id) {
            EventModel::Affected(1)
        } else {
            EventModel::Affected(0)
        },
    }
}

/// What the table holds after a statement.
pub open spec fn after(table: TableModel, statement: StatementModel) -> TableModel {
    match statement {
        StatementModel::Insert { row, .. } => if table.contains_key(row.id) {
            table
        } else {
            table.insert(row.id, row)
        },
        StatementModel::Update { row, .. } => if table.contains_key(row.id) {
            table.insert(row.id, row)
        } else {
            table
        },
        StatementModel::Delete { id, .. } => if table.contains_key(id) {
            table.remove(id)
        } else {
            table
        },
        _ => table,
    }
}

/// The table and the reply at the end of an operation that began with
/// `begun`, when the caller reports `Connected` for a connection if
/// `connects` holds and `ConnectFailed` if not, and reports for a statement
/// what the table answers. `None` if the operation has not ended after one
/// connection and one statement.
pub open spec fn carried_out(table: TableModel, begun: ActionModel, connects: bool) -> Option<
    (TableModel, ReplyModel),
> {
    let connected = match begun {
        ActionModel::Acquire(call) => call.next(
            if connects {
                EventModel::Connected
            } else {
                EventModel::ConnectFailed
            },
        ),
        _ => begun,
    };
    match connected {
        ActionModel::Finish(reply) => Some((table, reply)),
        ActionModel::Run(statement, call) => match call.next(answer(table, statement)) {
            ActionModel::Finish(reply) => Some((after(table, statement), reply)),
            _ => None,
        },
        ActionModel::Acquire(_) => None,
    }
}

/// The failure of an operation on `id`.
pub open spec fn failure(kind: ErrorKind, operation: OperationKind, id: Seq<char>) -> ReplyModel {
    ReplyModel::Failed(StoreErrorModel { kind, operation, id: Some(id) })
}

/// Whether `text` is a metadata column for `record`, one that reads back as
/// the record's metadata. The text that `set_info` writes is one.
pub open spec fn holds_metadata(text: Seq<char>, record: RecordModel) -> bool {
    json_object_entries(text) == Some(record.metadata)
}

/// Creating a record whose id is absent stores its row, and reading the id
/// then gives the record back as the table keeps it: equal in every field,
/// but that an empty list of parts has become no list. The creation time
/// is one that the column keeps exactly.
pub proof fn law_get_after_create(
    storage: StorageModel,
    table: TableModel,
    record: RecordModel,
    text: Seq<char>,
)
    requires
        record.storable(),
        record.created_at.kept_exactly(),
        !table.contains_key(record.id),
    ensures
        holds_metadata(text, record) ==> {
            &&& encoded(record, Some(text)) matches Ok(row)
            &&& carried_out(table, storage.set_info(record, true, Some(text)), true) == Some(
                (table.insert(record.id, row), ReplyModel::Done),
            )
            &&& carried_out(table.insert(record.id, row), storage.get_info(record.id), true)
                == Some((table.insert(record.id, row), ReplyModel::Record(record.normalized())))
        },
{
    crate::codec::law_round_trip(record, text);
}

/// Updating a record whose id is present overwrites its row, and reading the
/// id then gives the new record as the table keeps it. The creation time
/// is one that the column keeps exactly.
pub proof fn law_get_after_update(
    storage: StorageModel,
    table: TableModel,
    record: RecordModel,
    text: Seq<char>,
)
    requires
        record.storable(),
        record.created_at.kept_exactly(),
        table.contains_key(record.id),
    ensures
        holds_metadata(text, record) ==> {
            &&& encoded(record, Some(text)) matches Ok(row)
            &&& carried_out(table, storage.set_info(record, false, Some(text)), true) == Some(
                (table.insert(record.id, row), ReplyModel::Done),
            )
            &&& carried_out(table.insert(record.id, row), storage.get_info(record.id), true)
                == Some((table.insert(record.id, row), ReplyModel::Record(record.normalized())))
        },
{
    crate::codec::law_round_trip(record, text);
}

/// Creating a record whose id is present fails with `DuplicateRecord` and
/// leaves the table as it was.
pub proof fn law_create_existing(
    storage: StorageModel,
    table: TableModel,
    record: RecordModel,
    text: Seq<char>,
)
    requires
        record.storable(),
        table.contains_key(record.id),
    ensures
        carried_out(table, storage.set_info(record, true, Some(text)), true) == Some(
            (table, failure(ErrorKind::DuplicateRecord, OperationKind::SetInfo, record.id)),
        ),
{
}

/// Of two creations with one id, on a table where the id is absent, the
/// first succeeds and the second fails with `DuplicateRecord`, whatever the
/// two records hold besides.
pub proof fn law_create_twice(
    storage: StorageModel,
    table: TableModel,
    first: RecordModel,
    first_text: Seq<char>,
    second: RecordModel,
    second_text: Seq<char>,
)
    requires
        first.storable(),
        second.storable(),
        first.id == second.id,
        !table.contains_key(first.id),
    ensures
        carried_out(table, storage.set_info(first, true, Some(first_text)), true) matches Some(
            (stored, reply),
        ) && reply == ReplyModel::Done && carried_out(
            stored,
            storage.set_info(second, true, Some(second_text)),
            true,
        ) == Some((stored, failure(ErrorKind::DuplicateRecord, OperationKind::SetInfo, second.id))),
{
}

/// Updating a record whose id is absent fails with `NotFound` and leaves the
/// table as it was.
pub proof fn law_update_unknown(
    storage: StorageModel,
    table: TableModel,
    record: RecordModel,
    text: Seq<char>,
)
    requires
        record.storable(),
        !table.contains_key(record.id),
    ensures
        carried_out(table, storage.set_info(record, false, Some(text)), true) == Some(
            (table, failure(ErrorKind::NotFound, OperationKind::SetInfo, record.id)),
        ),
{
}

/// Reading and removing an id that is absent both fail with `NotFound` and
/// leave the table as it was.
pub proof fn law_unknown_id(storage: StorageModel, table: TableModel, id: Seq<char>)
    requires
        !table.contains_key(id),
    ensures
        carried_out(table, storage.get_info(id), true) == Some(
            (table, failure(ErrorKind::NotFound, OperationKind::GetInfo, id)),
        ),
        carried_out(table, storage.remove_info(id), true) == Some(
            (table, failure(ErrorKind::NotFound, OperationKind::RemoveInfo, id)),
        ),
{
}

/// Whether every row of the table stands under its own id.
pub open spec fn keyed(table: TableModel) -> bool {
    forall|id: Seq<char>| table.contains_key(id) ==> (#[trigger] table[id]).id == id
}

/// The empty table is keyed, and a statement leaves a keyed table keyed.
pub proof fn law_keyed_is_kept(table: TableModel, statement: StatementModel)
    requires
        keyed(table),
    ensures
        keyed(Map::<Seq<char>, RowModel>::empty()),
        keyed(after(table, statement)),
{
}

/// Reading an id on a keyed table leaves the table as it was. It fails with
/// `NotFound` exactly where the id is absent. Where the id is present and
/// its row holds a record, it gives that record, and the record has the id
/// that was asked for; where the row holds none, it fails with a
/// serialization error.
pub proof fn law_get_info(storage: StorageModel, table: TableModel, id: Seq<char>)
    requires
        keyed(table),
    ensures
        carried_out(table, storage.get_info(id), true) matches Some((left, reply)) && left
            == table && (reply == failure(ErrorKind::NotFound, OperationKind::GetInfo, id)
            <==> !table.contains_key(id)) && (table.contains_key(id) ==> match decoded(
            table[id],
        ) {
            Ok(record) => reply == ReplyModel::Record(record) && record.id == id,
            Err(_) => reply == failure(
                ErrorKind::SerializationError,
                OperationKind::GetInfo,
                id,
            ),
        }),
{
}

/// Removing succeeds exactly on an id that is present, and reading the id
/// after that fails with `NotFound`.
pub proof fn law_get_after_remove(storage: StorageModel, table: TableModel, id: Seq<char>)
    ensures
        carried_out(table, storage.remove_info(id), true) matches Some((left, reply)) && (reply
            == ReplyModel::Done <==> table.contains_key(id)) && (reply == ReplyModel::Done
            ==> carried_out(left, storage.get_info(id), true) == Some(
            (left, failure(ErrorKind::NotFound, OperationKind::GetInfo, id)),
        )),
{
}

/// Without a connection, storing a record that has a row fails with
/// `ConnectionError`, and the table is not touched.
pub proof fn law_unreachable_set_info(
    storage: StorageModel,
    table: TableModel,
    record: RecordModel,
    create: bool,
    text: Seq<char>,
)
    requires
        record.storable(),
    ensures
        carried_out(table, storage.set_info(record, create, Some(text)), false) == Some(
            (table, failure(ErrorKind::ConnectionError, OperationKind::SetInfo, record.id)),
        ),
{
}

/// Without a connection, reading and removing fail with `ConnectionError`
/// and provisioning fails with `StorageUnavailable`; the table is not
/// touched.
pub proof fn law_unreachable(storage: StorageModel, table: TableModel, id: Seq<char>)
    ensures
        carried_out(table, storage.get_info(id), false) == Some(
            (table, failure(ErrorKind::ConnectionError, OperationKind::GetInfo, id)),
        ),
        carried_out(table, storage.remove_info(id), false) == Some(
            (table, failure(ErrorKind::ConnectionError, OperationKind::RemoveInfo, id)),
        ),
        carried_out(table, storage.prepare(), false) == Some(
            (
                table,
                ReplyModel::Failed(
                    StoreErrorModel {
                        kind: ErrorKind::StorageUnavailable,
                        operation: OperationKind::Prepare,
                        id: None,
                    },
                ),
            ),
        ),
{
}

/// Provisioning succeeds on every table and changes no row, however often
/// it is repeated.
pub proof fn law_prepare_is_idempotent(storage: StorageModel, table: TableModel)
    ensures
        carried_out(table, storage.prepare(), true) == Some((table, ReplyModel::Done)),
{
}

/// Reading ends with a record or a failure; provisioning, storing and
/// removing end done or with a failure.
pub proof fn law_only_reading_gives_a_record(
    storage: StorageModel,
    table: TableModel,
    record: RecordModel,
    create: bool,
    metadata: Option<Seq<char>>,
    id: Seq<char>,
    connects: bool,
)
    ensures
        carried_out(table, storage.get_info(id), connects) matches Some((_, reply)) && !(reply
            is Done),
        carried_out(table, storage.prepare(), connects) matches Some((_, reply)) && !(reply
            is Record),
        carried_out(table, storage.set_info(record, create, metadata), connects) matches Some(
            (_, reply),
        ) && !(reply is Record),
        carried_out(table, storage.remove_info(id), connects) matches Some((_, reply)) && !(reply
            is Record),
{
}

/// Whether an operation ends after at most one connection and one statement
/// and, where it fails, leaves the table as it was.
pub open spec fn all_or_nothing(table: TableModel, begun: ActionModel, connects: bool) -> bool {
    carried_out(table, begun, connects) matches Some((left, reply)) && (reply is Failed ==> left
        == table)
}

/// Every operation of the store ends after at most one connection and one
/// statement, and one that fails leaves the table as it was.
pub proof fn law_all_or_nothing(
    storage: StorageModel,
    table: TableModel,
    record: RecordModel,
    create: bool,
    metadata: Option<Seq<char>>,
    id: Seq<char>,
    connects: bool,
)
    ensures
        all_or_nothing(table, storage.prepare(), connects),
        all_or_nothing(table, storage.set_info(record, create, metadata), connects),
        all_or_nothing(table, storage.get_info(id), connects),
        all_or_nothing(table, storage.remove_info(id), connects),
{
}

} // verus!
