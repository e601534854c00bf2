//! The typed errors of the store.

use vstd::prelude::*;

verus! {

/// The operation during which an error arose.
#[derive(Clone, Copy, Debug, PartialEq, Eq, Structural)]
pub enum OperationKind {
    Prepare,
    SetInfo,
    GetInfo,
    RemoveInfo,
}

/// What went wrong.
#[derive(Clone, Copy, Debug, PartialEq, Eq, Structural)]
pub enum ErrorKind {
    /// The pool could not establish or validate a connection.
    ConnectionError,
    /// No row matches the id.
    NotFound,
    /// An insert met a row with the same id.
    DuplicateRecord,
    /// A record could not be written as a row, or a row could not be read as a record.
    SerializationError,
    /// The database refused a statement for a reason unrelated to row matching.
    StorageUnavailable,
}

/// An error together with the operation that raised it and the id it was about.
#[derive(Clone, Debug, PartialEq, Eq)]
pub struct StoreError {
    pub kind: ErrorKind,
    pub operation: OperationKind,
    pub id: Option<String>,
}

/// The mathematical value of a [`StoreError`].
pub struct StoreErrorModel {
    pub kind: ErrorKind,
    pub operation: OperationKind,
    pub id: Option<Seq<char>>,
}

impl View for StoreError {
    type V = StoreErrorModel;

    open spec fn view(&self) -> StoreErrorModel {
        StoreErrorModel {
            kind: self.kind,
            operation: self.operation,
            id: match self.id {
                Some(id) => Some(id@),
                None => None,
            },
        }
    }
}

/// SQLSTATE of a unique-constraint violation.
pub open spec fn unique_violation() -> Seq<char> {
    "23505"@
}

/// The kind of error that a rejected statement stands for: a unique violation
/// on an insert is a duplicate, everything else makes the storage unavailable.
pub open spec fn rejection_kind(insert: bool, sql_state: Option<Seq<char>>) -> ErrorKind {
    if insert && sql_state == Some(unique_violation()) {
        ErrorKind::DuplicateRecord
    } else {
        ErrorKind::StorageUnavailable
    }
}

/// The kind of error reported when no connection could be had: provisioning
/// treats it as unavailable storage, the record operations as a connection error.
pub open spec fn connect_failure_kind(operation: OperationKind) -> ErrorKind {
    if operation == OperationKind::Prepare {
        ErrorKind::StorageUnavailable
    } else {
        ErrorKind::ConnectionError
    }
}

impl OperationKind {
    pub open spec fn name_spec(self) -> Seq<char> {
        match self {
            OperationKind::Prepare => "prepare"@,
            OperationKind::SetInfo => "set_info"@,
            OperationKind::GetInfo => "get_info"@,
            OperationKind::RemoveInfo => "remove_info"@,
        }
    }

    /// The operation's name, for messages.
    pub fn name(self) -> (r: &'static str)
        ensures
            r@ == self.name_spec(),
    {
        match self {
            OperationKind::Prepare => "prepare",
            OperationKind::SetInfo => "set_info",
            OperationKind::GetInfo => "get_info",
            OperationKind::RemoveInfo => "remove_info",
        }
    }
}

impl ErrorKind {
    pub open spec fn name_spec(self) -> Seq<char> {
        match self {
            ErrorKind::ConnectionError => "connection error"@,
            ErrorKind::NotFound => "not found"@,
            ErrorKind::DuplicateRecord => "duplicate record"@,
            ErrorKind::SerializationError => "serialization error"@,
            ErrorKind::StorageUnavailable => "storage unavailable"@,
        }
    }

    /// The kind's name, for messages.
    pub fn name(self) -> (r: &'static str)
        ensures
            r@ == self.name_spec(),
    {
        match self {
            ErrorKind::ConnectionError => "connection error",
            ErrorKind::NotFound => "not found",
            ErrorKind::DuplicateRecord => "duplicate record",
            ErrorKind::SerializationError => "serialization error",
            ErrorKind::StorageUnavailable => "storage unavailable",
        }
    }

    /// Classifies a statement that the database rejected, by its SQLSTATE.
    pub fn of_rejection(insert: bool, sql_state: &Option<String>) -> (r: ErrorKind)
        ensures
            r == rejection_kind(
                insert,
                match *sql_state {
                    Some(code) => Some(code@),
                    None => None,
                },
            ),
    {
        match sql_state {
            Some(code) => {
                let unique = String::from_str("23505");
                if insert && *code == unique {
                    ErrorKind::DuplicateRecord
                } else {
                    ErrorKind::StorageUnavailable
                }
            },
            None => ErrorKind::StorageUnavailable,
        }
    }

    /// The kind reported when the pool handed out no connection.
    pub fn of_connect_failure(operation: OperationKind) -> (r: ErrorKind)
        ensures
            r == connect_failure_kind(operation),
    {
        match operation {
            OperationKind::Prepare => ErrorKind::StorageUnavailable,
            _ => ErrorKind::ConnectionError,
        }
    }
}

impl StoreError {
    pub open spec fn message_spec(self) -> Seq<char> {
        let head = self.operation.name_spec() + ": "@ + self.kind.name_spec();
        match self.id {
            Some(id) => head + " ("@ + id@ + ")"@,
            None => head,
        }
    }

    /// A line for the log: the operation, the kind and, where there is one, the id.
    pub fn message(&self) -> (r: String)
        ensures
            r@ == self.message_spec(),
    {
        let mut text = String::from_str(self.operation.name());
        text.append(": ");
        text.append(self.kind.name());
        match &self.id {
            Some(id) => {
                text.append(" (");
                text.append(id.as_str());
                text.append(")");
            },
            None => {},
        }
        text
    }
}

} // verus!
