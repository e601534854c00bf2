//! The in-memory record of one upload session.

use std::collections::HashMap;
use vstd::prelude::*;

verus! {

/// A point in time: seconds and nanoseconds since the Unix epoch, in UTC.
#[derive(Clone, Copy, Debug, PartialEq, Eq, Structural)]
pub struct Timestamp {
    pub seconds: i64,
    pub nanoseconds: u32,
}

/// The first second that a `chrono::DateTime<Utc>` can hold: the beginning
/// of the year -262143.
pub const FIRST_SECOND: i64 = -8_334_601_228_800;

/// The last second that a `chrono::DateTime<Utc>` can hold: the end of the
/// year 262142.
pub const LAST_SECOND: i64 = 8_210_266_876_799;

impl Timestamp {
    /// Whether the point in time is one that a column of type `TIMESTAMP
    /// WITH TIME ZONE` gives back as it was written: a whole number of
    /// microseconds, at a second that chrono can hold. Any other point in
    /// time is rounded to microseconds on the way, or cannot be bound.
    pub open spec fn kept_exactly(self) -> bool {
        &&& FIRST_SECOND <= self.seconds <= LAST_SECOND
        &&& self.nanoseconds < 1_000_000_000
        &&& self.nanoseconds % 1000 == 0
    }

    /// Whether the column gives the point in time back as it was written.
    pub fn is_kept_exactly(&self) -> (r: bool)
        ensures
            r == self.kept_exactly(),
    {
        FIRST_SECOND <= self.seconds && self.seconds <= LAST_SECOND && self.nanoseconds
            < 1_000_000_000 && self.nanoseconds % 1000 == 0
    }
}

/// What the store keeps about one upload.
#[derive(Clone, Debug, PartialEq, Eq)]
pub struct UploadRecord {
    /// Unique identifier, the primary key.
    pub id: String,
    /// Bytes received so far.
    pub offset: u64,
    /// Total expected size; absent while the size is deferred.
    pub length: Option<u64>,
    /// Where the payload lives.
    pub path: Option<String>,
    /// Creation time. The table keeps it to the microsecond.
    pub created_at: Timestamp,
    /// Whether the final length was unknown at creation.
    pub deferred_size: bool,
    /// Whether this is a fragment awaiting concatenation.
    pub is_partial: bool,
    /// Whether this is the concatenation of parts.
    pub is_final: bool,
    /// Ids of the parts, in order.
    pub parts: Option<Vec<String>>,
    /// Tag of the payload storage that owns the upload.
    pub storage: String,
    /// User-supplied key/value pairs.
    pub metadata: HashMap<String, String>,
}

/// The mathematical value of an [`UploadRecord`].
pub struct RecordModel {
    pub id: Seq<char>,
    pub offset: nat,
    pub length: Option<nat>,
    pub path: Option<Seq<char>>,
    pub created_at: Timestamp,
    pub deferred_size: bool,
    pub is_partial: bool,
    pub is_final: bool,
    pub parts: Option<Seq<Seq<char>>>,
    pub storage: Seq<char>,
    pub metadata: Map<Seq<char>, Seq<char>>,
}

/// The character sequences of a list of strings.
pub open spec fn texts(list: Seq<String>) -> Seq<Seq<char>> {
    Seq::new(list.len(), |i: int| list[i]@)
}

/// The character sequence of an optional string.
pub open spec fn optional_text(text: Option<String>) -> Option<Seq<char>> {
    match text {
        Some(text) => Some(text@),
        None => None,
    }
}

/// The character sequences of an optional list of strings.
pub open spec fn optional_texts(list: Option<Vec<String>>) -> Option<Seq<Seq<char>>> {
    match list {
        Some(list) => Some(texts(list@)),
        None => None,
    }
}

impl View for UploadRecord {
    type V = RecordModel;

    open spec fn view(&self) -> RecordModel {
        RecordModel {
            id: self.id@,
            offset: self.offset as nat,
            length: match self.length {
                Some(length) => Some(length as nat),
                None => None,
            },
            path: optional_text(self.path),
            created_at: self.created_at,
            deferred_size: self.deferred_size,
            is_partial: self.is_partial,
            is_final: self.is_final,
            parts: optional_texts(self.parts),
            storage: self.storage@,
            metadata: self.metadata.deep_view(),
        }
    }
}

impl RecordModel {
    /// Whether offset and length fit the signed 64-bit columns that hold them.
    pub open spec fn storable(self) -> bool {
        &&& self.offset <= i64::MAX
        &&& self.length matches Some(length) ==> length <= i64::MAX
    }

    /// The record as the table keeps it: an empty list of parts is stored as
    /// no list at all.
    pub open spec fn normalized(self) -> RecordModel {
        RecordModel {
            parts: match self.parts {
                Some(parts) if parts.len() > 0 => Some(parts),
                _ => None,
            },
            ..self
        }
    }
}

/// A copy of a string.
pub fn copy_text(text: &String) -> (r: String)
    ensures
        r@ == text@,
{
    text.clone()
}

/// A copy of an optional string.
pub fn copy_optional_text(text: &Option<String>) -> (r: Option<String>)
    ensures
        optional_text(r) == optional_text(*text),
{
    match text {
        Some(text) => Some(text.clone()),
        None => None,
    }
}

/// A copy of a list of strings.
pub fn copy_texts(list: &Vec<String>) -> (r: Vec<String>)
    ensures
        texts(r@) == texts(list@),
{
    let mut copy: Vec<String> = Vec::new();
    let mut i: usize = 0;
    while i < list.len()
        invariant
            i <= list.len(),
            copy.len() == i,
            forall|k: int| 0 <= k < i ==> copy[k]@ == list[k]@,
        decreases list.len() - i,
    {
        copy.push(list[i].clone());
        i += 1;
    }
    assert(texts(copy@) =~= texts(list@));
    copy
}

} // verus!
