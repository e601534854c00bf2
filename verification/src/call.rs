//! One storage operation as a sequence of decisions. The caller does the
//! waiting: it takes a connection from the pool, runs the statement, and
//! reports each outcome as an [`Event`]; the call answers with the next
//! [`Action`].

use crate::codec::{decode_row, decoded};
use crate::driver::{sql_state, sql_state_of};
use crate::error::{
    connect_failure_kind, rejection_kind, ErrorKind, OperationKind, StoreError, StoreErrorModel,
};
use crate::record::{optional_text, RecordModel, UploadRecord};
use crate::row::{values_row, InfoRow};
use crate::statement::{Statement, StatementKind, StatementModel};
use crate::value::{values_view, SqlValue, SqlValueModel};
use vstd::prelude::*;

verus! {

/// What the caller reports back.
#[derive(Clone, Debug, PartialEq, Eq)]
pub enum Event {
    /// The pool handed out a live connection.
    Connected,
    /// The pool could not establish or validate a connection.
    ConnectFailed,
    /// The statement ran and touched this many rows.
    Affected(u64),
    /// The query ran and gave a row with these column values, or no row.
    Fetched(Option<Vec<SqlValue>>),
    /// The query gave a row of which a column could not be read as a value
    /// of its type.
    Unreadable,
    /// A value of the statement could not be handed to the driver as a
    /// parameter, so the statement was not run.
    Unbound,
    /// The statement failed: the driver could not send it or the database
    /// refused it. The SQLSTATE, where the database gave one.
    Rejected(Option<String>),
}

/// The mathematical value of an [`Event`].
pub enum EventModel {
    Connected,
    ConnectFailed,
    Affected(nat),
    Fetched(Option<Seq<SqlValueModel>>),
    Unreadable,
    Unbound,
    Rejected(Option<Seq<char>>),
}

impl View for Event {
    type V = EventModel;

    open spec fn view(&self) -> EventModel {
        match *self {
            Event::Connected => EventModel::Connected,
            Event::ConnectFailed => EventModel::ConnectFailed,
            Event::Affected(rows) => EventModel::Affected(rows as nat),
            Event::Fetched(row) => EventModel::Fetched(
                match row {
                    Some(values) => Some(values_view(values@)),
                    None => None,
                },
            ),
            Event::Unreadable => EventModel::Unreadable,
            Event::Unbound => EventModel::Unbound,
            Event::Rejected(state) => EventModel::Rejected(optional_text(state)),
        }
    }
}

/// How an operation ended.
#[derive(Clone, Debug, PartialEq, Eq)]
pub enum Reply {
    /// The statement was applied.
    Done,
    /// The record that was asked for.
    Record(UploadRecord),
    /// The operation failed as a whole.
    Failed(StoreError),
}

/// The mathematical value of a [`Reply`].
pub enum ReplyModel {
    Done,
    Record(RecordModel),
    Failed(StoreErrorModel),
}

impl View for Reply {
    type V = ReplyModel;

    open spec fn view(&self) -> ReplyModel {
        match *self {
            Reply::Done => ReplyModel::Done,
            Reply::Record(record) => ReplyModel::Record(record@),
            Reply::Failed(error) => ReplyModel::Failed(error@),
        }
    }
}

/// Where a call stands.
#[derive(Clone, Debug, PartialEq, Eq)]
pub enum Phase {
    /// Waiting for a connection on which to run the statement.
    Connecting(Statement),
    /// Waiting for the outcome of a statement of this kind.
    Running(StatementKind),
}

/// The mathematical value of a [`Phase`].
pub enum PhaseModel {
    Connecting(StatementModel),
    Running(StatementKind),
}

impl View for Phase {
    type V = PhaseModel;

    open spec fn view(&self) -> PhaseModel {
        match *self {
            Phase::Connecting(statement) => PhaseModel::Connecting(statement@),
            Phase::Running(kind) => PhaseModel::Running(kind),
        }
    }
}

/// An operation under way.
#[derive(Clone, Debug, PartialEq, Eq)]
pub struct Call {
    pub operation: OperationKind,
    /// The id the operation is about, where it has one.
    pub id: Option<String>,
    pub phase: Phase,
}

/// The mathematical value of a [`Call`].
pub struct CallModel {
    pub operation: OperationKind,
    pub id: Option<Seq<char>>,
    pub phase: PhaseModel,
}

impl View for Call {
    type V = CallModel;

    open spec fn view(&self) -> CallModel {
        CallModel { operation: self.operation, id: optional_text(self.id), phase: self.phase@ }
    }
}

/// What the caller is to do next.
#[derive(Clone, Debug, PartialEq, Eq)]
pub enum Action {
    /// Take a connection from the pool and report `Connected` or
    /// `ConnectFailed` to the call.
    Acquire(Call),
    /// Run the statement on the connection and report its outcome to the call.
    Run(Statement, Call),
    /// Give the connection back, if one is held: the operation has ended.
    Finish(Reply),
}

/// The mathematical value of an [`Action`].
pub enum ActionModel {
    Acquire(CallModel),
    Run(StatementModel, CallModel),
    Finish(ReplyModel),
}

impl View for Action {
    type V = ActionModel;

    open spec fn view(&self) -> ActionModel {
        match *self {
            Action::Acquire(call) => ActionModel::Acquire(call@),
            Action::Run(statement, call) => ActionModel::Run(statement@, call@),
            Action::Finish(reply) => ActionModel::Finish(reply@),
        }
    }
}

impl CallModel {
    /// The failure of this call with the given kind.
    pub open spec fn failed(self, kind: ErrorKind) -> ReplyModel {
        ReplyModel::Failed(StoreErrorModel { kind, operation: self.operation, id: self.id })
    }

    /// How the call ends when a statement of the given kind had the given
    /// outcome.
    ///
    /// A statement that ran ends the call well, except that an update or a
    /// delete that touched no row did not find its record. A query that gave
    /// no row did not find it either; the row it gave is decoded, and where
    /// its values make up no row, or the row holds no record, that is a
    /// serialization error. So it is where a row could not be read, or the
    /// row of an insert or an update could not be bound. A rejected
    /// statement is classified by its SQLSTATE. An outcome that the kind of
    /// statement cannot have leaves the storage unavailable.
    pub open spec fn settled(self, kind: StatementKind, event: EventModel) -> ReplyModel {
        match event {
            EventModel::Affected(rows) => match kind {
                StatementKind::CreateTable | StatementKind::Insert => ReplyModel::Done,
                StatementKind::Update | StatementKind::Delete => if rows == 0 {
                    self.failed(ErrorKind::NotFound)
                } else {
                    ReplyModel::Done
                },
                StatementKind::Select => self.failed(ErrorKind::StorageUnavailable),
            },
            EventModel::Fetched(row) => if kind == StatementKind::Select {
                match row {
                    Some(values) => match values_row(values) {
                        Some(row) => match decoded(row) {
                            Ok(record) => ReplyModel::Record(record),
                            Err(kind) => self.failed(kind),
                        },
                        None => self.failed(ErrorKind::SerializationError),
                    },
                    None => self.failed(ErrorKind::NotFound),
                }
            } else {
                self.failed(ErrorKind::StorageUnavailable)
            },
            EventModel::Unreadable => if kind == StatementKind::Select {
                self.failed(ErrorKind::SerializationError)
            } else {
                self.failed(ErrorKind::StorageUnavailable)
            },
            EventModel::Unbound => if kind == StatementKind::Insert || kind
                == StatementKind::Update {
                self.failed(ErrorKind::SerializationError)
            } else {
                self.failed(ErrorKind::StorageUnavailable)
            },
            EventModel::Rejected(state) => self.failed(
                rejection_kind(kind == StatementKind::Insert, state),
            ),
            EventModel::Connected | EventModel::ConnectFailed => self.failed(
                ErrorKind::StorageUnavailable,
            ),
        }
    }

    /// The action that answers an event.
    ///
    /// While connecting, a connection makes the call run its statement, and
    /// a failure to connect ends it. While running, the event settles the
    /// call. Any other event ends it with the storage unavailable.
    pub open spec fn next(self, event: EventModel) -> ActionModel {
        match self.phase {
            PhaseModel::Connecting(statement) => match event {
                EventModel::Connected => ActionModel::Run(
                    statement,
                    CallModel { phase: PhaseModel::Running(statement.kind()), ..self },
                ),
                EventModel::ConnectFailed => ActionModel::Finish(
                    self.failed(connect_failure_kind(self.operation)),
                ),
                _ => ActionModel::Finish(self.failed(ErrorKind::StorageUnavailable)),
            },
            PhaseModel::Running(kind) => ActionModel::Finish(self.settled(kind, event)),
        }
    }
}

impl Reply {
    /// The result of an operation that gives no record back: provisioning,
    /// storing, removing.
    pub fn applied(self) -> (r: Result<(), StoreError>)
        ensures
            match self@ {
                ReplyModel::Failed(error) => r matches Err(e) && e@ == error,
                _ => r is Ok,
            },
    {
        match self {
            Reply::Failed(error) => Err(error),
            _ => Ok(()),
        }
    }

    /// The result of reading the record with the given id. A reply without
    /// a record, which no read ends with, counts as unavailable storage.
    pub fn record(self, id: &str) -> (r: Result<UploadRecord, StoreError>)
        ensures
            match self@ {
                ReplyModel::Record(record) => r matches Ok(found) && found@ == record,
                ReplyModel::Failed(error) => r matches Err(e) && e@ == error,
                ReplyModel::Done => r matches Err(e) && e@ == (StoreErrorModel {
                    kind: ErrorKind::StorageUnavailable,
                    operation: OperationKind::GetInfo,
                    id: Some(id@),
                }),
            },
    {
        match self {
            Reply::Record(record) => Ok(record),
            Reply::Failed(error) => Err(error),
            Reply::Done => Err(
                StoreError {
                    kind: ErrorKind::StorageUnavailable,
                    operation: OperationKind::GetInfo,
                    id: Some(String::from_str(id)),
                },
            ),
        }
    }
}

impl Event {
    /// The event for a statement that failed with `error`: a rejection with
    /// the SQLSTATE of the error, where it has one.
    pub fn rejected(error: &tokio_postgres::Error) -> (r: Event)
        ensures
            r@ == EventModel::Rejected(sql_state_of(*error)),
    {
        Event::Rejected(sql_state(error))
    }
}

impl Call {
    /// A call that waits for a connection to run `statement` on.
    pub fn new(operation: OperationKind, id: Option<String>, statement: Statement) -> (r: Call)
        ensures
            r@ == (CallModel {
                operation,
                id: optional_text(id),
                phase: PhaseModel::Connecting(statement@),
            }),
    {
        Call { operation, id, phase: Phase::Connecting(statement) }
    }

    /// The failure of this call with the given kind.
    pub fn fail(self, kind: ErrorKind) -> (r: Reply)
        ensures
            r@ == self@.failed(kind),
    {
        Reply::Failed(StoreError { kind, operation: self.operation, id: self.id })
    }

    /// Ends the call on the outcome of its statement.
    pub fn settle(self, kind: StatementKind, event: Event) -> (r: Reply)
        ensures
            r@ == self@.settled(kind, event@),
    {
        match event {
            Event::Affected(rows) => match kind {
                StatementKind::CreateTable | StatementKind::Insert => Reply::Done,
                StatementKind::Update | StatementKind::Delete => if rows == 0 {
                    self.fail(ErrorKind::NotFound)
                } else {
                    Reply::Done
                },
                StatementKind::Select => self.fail(ErrorKind::StorageUnavailable),
            },
            Event::Fetched(row) => match kind {
                StatementKind::Select => match row {
                    Some(values) => match InfoRow::from_values(values) {
                        Some(row) => match decode_row(row) {
                            Ok(record) => Reply::Record(record),
                            Err(kind) => self.fail(kind),
                        },
                        None => self.fail(ErrorKind::SerializationError),
                    },
                    None => self.fail(ErrorKind::NotFound),
                },
                _ => self.fail(ErrorKind::StorageUnavailable),
            },
            Event::Unreadable => match kind {
                StatementKind::Select => self.fail(ErrorKind::SerializationError),
                _ => self.fail(ErrorKind::StorageUnavailable),
            },
            Event::Unbound => match kind {
                StatementKind::Insert | StatementKind::Update => self.fail(
                    ErrorKind::SerializationError,
                ),
                _ => self.fail(ErrorKind::StorageUnavailable),
            },
            Event::Rejected(state) => {
                let insert = match kind {
                    StatementKind::Insert => true,
                    _ => false,
                };
                self.fail(ErrorKind::of_rejection(insert, &state))
            },
            Event::Connected | Event::ConnectFailed => self.fail(ErrorKind::StorageUnavailable),
        }
    }

    /// Answers an event with the next action.
    pub fn step(self, event: Event) -> (r: Action)
        ensures
            r@ == self@.next(event@),
    {
        let Call { operation, id, phase } = self;
        match phase {
            Phase::Connecting(statement) => match event {
                Event::Connected => {
                    let kind = statement.kind();
                    Action::Run(statement, Call { operation, id, phase: Phase::Running(kind) })
                },
                Event::ConnectFailed => Action::Finish(
                    Reply::Failed(
                        StoreError { kind: ErrorKind::of_connect_failure(operation), operation, id },
                    ),
                ),
                _ => Action::Finish(
                    Reply::Failed(StoreError { kind: ErrorKind::StorageUnavailable, operation, id }),
                ),
            },
            Phase::Running(kind) => {
                let call = Call { operation, id, phase: Phase::Running(kind) };
                Action::Finish(call.settle(kind, event))
            },
        }
    }
}

} // verus!
