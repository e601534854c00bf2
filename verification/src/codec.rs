//! Conversion between an upload record and the row that stores it.

use crate::error::ErrorKind;
use crate::json::{json_object_entries, json_object_text, read_metadata, write_metadata};
use crate::record::{
    copy_optional_text, copy_text, copy_texts, optional_text, optional_texts, RecordModel,
    UploadRecord,
};
use crate::row::{InfoRow, RowModel};
use vstd::prelude::*;

verus! {

/// The value of a conversion's outcome.
pub open spec fn row_outcome(r: Result<InfoRow, ErrorKind>) -> Result<RowModel, ErrorKind> {
    match r {
        Ok(row) => Ok(row@),
        Err(kind) => Err(kind),
    }
}

/// The value of a conversion's outcome.
pub open spec fn record_outcome(r: Result<UploadRecord, ErrorKind>) -> Result<
    RecordModel,
    ErrorKind,
> {
    match r {
        Ok(record) => Ok(record@),
        Err(kind) => Err(kind),
    }
}

/// The row for a record, given the JSON text of its metadata (`None` where
/// the metadata could not be written). A record whose offset or length
/// exceeds the signed 64-bit range has no row.
pub open spec fn encoded(record: RecordModel, metadata: Option<Seq<char>>) -> Result<
    RowModel,
    ErrorKind,
> {
    if record.storable() && metadata is Some {
        Ok(
            RowModel {
                id: record.id,
                offset: record.offset as int,
                length: match record.length {
                    Some(length) => Some(length as int),
                    None => None,
                },
                path: record.path,
                created_at: record.created_at,
                deferred_size: record.deferred_size,
                is_partial: record.is_partial,
                is_final: record.is_final,
                parts: record.normalized().parts,
                storage: record.storage,
                metadata: metadata->0,
            },
        )
    } else {
        Err(ErrorKind::SerializationError)
    }
}

/// The record that a row holds. A row with a negative offset or length, or
/// whose metadata is no JSON object of strings, holds none.
pub open spec fn decoded(row: RowModel) -> Result<RecordModel, ErrorKind> {
    if row.offset < 0 || (row.length matches Some(length) && length < 0) {
        Err(ErrorKind::SerializationError)
    } else {
        match json_object_entries(row.metadata) {
            Some(metadata) => Ok(
                RecordModel {
                    id: row.id,
                    offset: row.offset as nat,
                    length: match row.length {
                        Some(length) => Some(length as nat),
                        None => None,
                    },
                    path: row.path,
                    created_at: row.created_at,
                    deferred_size: row.deferred_size,
                    is_partial: row.is_partial,
                    is_final: row.is_final,
                    parts: row.parts,
                    storage: row.storage,
                    metadata,
                },
            ),
            None => Err(ErrorKind::SerializationError),
        }
    }
}

/// A row that was made from a record, with a metadata text that reads back
/// as the record's metadata, decodes to the record as the table keeps it.
pub proof fn law_round_trip(record: RecordModel, text: Seq<char>)
    requires
        record.storable(),
    ensures
        json_object_entries(text) == Some(record.metadata) ==> (encoded(record, Some(text))
            matches Ok(row) && decoded(row) == Ok::<RecordModel, ErrorKind>(record.normalized())),
{
}

/// A record without an empty list of parts is kept as it is.
pub proof fn law_normalized_is_identity(record: RecordModel)
    ensures
        record.normalized() == record <==> !(record.parts matches Some(parts) && parts.len() == 0),
{
}

/// The value of an unsigned count as a signed 64-bit column, if it fits.
pub fn to_column(value: u64) -> (r: Option<i64>)
    ensures
        r == if value <= i64::MAX {
            Some(value as i64)
        } else {
            None
        },
{
    if value <= 0x7fff_ffff_ffff_ffff {
        Some(value as i64)
    } else {
        None
    }
}

/// The count that a signed 64-bit column holds, if it is not negative.
pub fn from_column(value: i64) -> (r: Option<u64>)
    ensures
        r == if value >= 0 {
            Some(value as u64)
        } else {
            None
        },
{
    if value >= 0 {
        Some(value as u64)
    } else {
        None
    }
}

/// The `parts` column for a record's list of parts: NULL for no list and for
/// an empty one.
pub fn parts_column(parts: &Option<Vec<String>>) -> (r: Option<Vec<String>>)
    ensures
        optional_texts(r) == match optional_texts(*parts) {
            Some(list) if list.len() > 0 => Some(list),
            _ => None,
        },
{
    match parts {
        Some(list) => {
            if list.len() > 0 {
                Some(copy_texts(list))
            } else {
                None
            }
        },
        None => None,
    }
}

/// Makes the row for a record from the JSON text of its metadata.
pub fn encode_row_with(record: &UploadRecord, metadata: Option<String>) -> (r: Result<
    InfoRow,
    ErrorKind,
>)
    ensures
        row_outcome(r) == encoded(record@, optional_text(metadata)),
{
    let offset = match to_column(record.offset) {
        Some(offset) => offset,
        None => {
            return Err(ErrorKind::SerializationError);
        },
    };
    let length = match record.length {
        Some(length) => match to_column(length) {
            Some(length) => Some(length),
            None => {
                return Err(ErrorKind::SerializationError);
            },
        },
        None => None,
    };
    let metadata = match metadata {
        Some(metadata) => metadata,
        None => {
            return Err(ErrorKind::SerializationError);
        },
    };
    Ok(
        InfoRow {
            id: copy_text(&record.id),
            offset,
            length,
            path: copy_optional_text(&record.path),
            created_at: record.created_at,
            deferred_size: record.deferred_size,
            is_partial: record.is_partial,
            is_final: record.is_final,
            parts: parts_column(&record.parts),
            storage: copy_text(&record.storage),
            metadata,
        },
    )
}

/// Makes the row for a record: the metadata goes to JSON, offset and length
/// to signed 64-bit columns, an empty list of parts to NULL.
///
/// The row is the one that [`encoded`] gives for the JSON text of the
/// metadata, and it decodes to the record again. It fails, with a
/// serialization error, exactly where offset or length do not fit.
pub fn encode_row(record: &UploadRecord) -> (r: Result<InfoRow, ErrorKind>)
    ensures
        row_outcome(r) == encoded(record@, Some(json_object_text(record@.metadata))),
        r is Ok <==> record@.storable(),
        r matches Ok(row) ==> json_object_entries(row.metadata@) == Some(record@.metadata),
        r matches Ok(row) ==> decoded(row@) == Ok::<RecordModel, ErrorKind>(
            record@.normalized(),
        ),
{
    let metadata = write_metadata(&record.metadata);
    proof {
        if metadata is Some && record@.storable() {
            law_round_trip(record@, metadata->0@);
        }
    }
    encode_row_with(record, metadata)
}

/// Reads a record from a row.
pub fn decode_row(row: InfoRow) -> (r: Result<UploadRecord, ErrorKind>)
    ensures
        record_outcome(r) == decoded(row@),
{
    let offset = match from_column(row.offset) {
        Some(offset) => offset,
        None => {
            return Err(ErrorKind::SerializationError);
        },
    };
    let length = match row.length {
        Some(length) => match from_column(length) {
            Some(length) => Some(length),
            None => {
                return Err(ErrorKind::SerializationError);
            },
        },
        None => None,
    };
    let metadata = match read_metadata(row.metadata.as_str()) {
        Some(metadata) => metadata,
        None => {
            return Err(ErrorKind::SerializationError);
        },
    };
    Ok(
        UploadRecord {
            id: row.id,
            offset,
            length,
            path: row.path,
            created_at: row.created_at,
            deferred_size: row.deferred_size,
            is_partial: row.is_partial,
            is_final: row.is_final,
            parts: row.parts,
            storage: row.storage,
            metadata,
        },
    )
}

} // verus!
