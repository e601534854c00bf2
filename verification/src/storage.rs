//! The store: its configuration, and how each of its four operations begins.

use crate::call::{Action, ActionModel, Call, CallModel, PhaseModel, Reply, ReplyModel};
use crate::codec::{decoded, encode_row_with, encoded};
use crate::driver::{connection_settings, settings_for, TransportSecurity};
use crate::error::{ErrorKind, OperationKind, StoreError, StoreErrorModel};
use crate::json::{json_object_entries, json_object_text, write_metadata};
use crate::record::{copy_text, optional_text, RecordModel, UploadRecord};
use crate::statement::{
    create_table_sql, delete_sql, insert_sql, select_sql, update_sql, Statement, StatementModel,
};
use vstd::prelude::*;

verus! {

/// The most connections the pool may hold open at once.
pub const MAX_OPEN_CONNECTIONS: u64 = 100;

/// The query that probes a pooled connection before it is handed out: the
/// empty query, which a live connection answers without doing anything.
pub fn liveness_probe() -> (r: &'static str)
    ensures
        r@ == Seq::<char>::empty(),
{
    proof {
        reveal_strlit("");
    }
    assert(""@ =~= Seq::<char>::empty());
    ""
}

/// Where the database is, and which table holds the records.
#[derive(Clone, Debug)]
pub struct PostgresInfoStorageConfig {
    pub host: String,
    pub port: u16,
    pub user: String,
    pub password: String,
    pub db_name: String,
    pub table_name: String,
    pub schema_name: String,
}

/// The store. It keeps what its configuration named: where its pool
/// connects to, and the qualified name of its table.
#[derive(Clone, Debug)]
pub struct PostgresInfoStorage {
    config: PostgresInfoStorageConfig,
}

/// The mathematical value of a configuration, and of the store made from it.
pub struct StorageModel {
    pub host: Seq<char>,
    pub port: u16,
    pub user: Seq<char>,
    pub password: Seq<char>,
    pub db_name: Seq<char>,
    pub table_name: Seq<char>,
    pub schema_name: Seq<char>,
}

impl View for PostgresInfoStorageConfig {
    type V = StorageModel;

    open spec fn view(&self) -> StorageModel {
        StorageModel {
            host: self.host@,
            port: self.port,
            user: self.user@,
            password: self.password@,
            db_name: self.db_name@,
            table_name: self.table_name@,
            schema_name: self.schema_name@,
        }
    }
}

impl View for PostgresInfoStorage {
    type V = StorageModel;

    closed spec fn view(&self) -> StorageModel {
        self.config@
    }
}

impl StorageModel {
    /// Provisioning waits for a connection to create the table on.
    pub open spec fn prepare(self) -> ActionModel {
        ActionModel::Acquire(
            CallModel {
                operation: OperationKind::Prepare,
                id: None,
                phase: PhaseModel::Connecting(
                    StatementModel::CreateTable {
                        text: create_table_sql(self.schema_name, self.table_name),
                    },
                ),
            },
        )
    }

    /// Storing a record, given the JSON text of its metadata: with a row for
    /// the record, the call waits for a connection to insert it (`create`)
    /// or to update it; without one, it ends at once with a serialization
    /// error and takes no connection.
    pub open spec fn set_info(
        self,
        record: RecordModel,
        create: bool,
        metadata: Option<Seq<char>>,
    ) -> ActionModel {
        match encoded(record, metadata) {
            Ok(row) => ActionModel::Acquire(
                CallModel {
                    operation: OperationKind::SetInfo,
                    id: Some(record.id),
                    phase: PhaseModel::Connecting(
                        if create {
                            StatementModel::Insert {
                                text: insert_sql(self.schema_name, self.table_name),
                                row,
                            }
                        } else {
                            StatementModel::Update {
                                text: update_sql(self.schema_name, self.table_name),
                                row,
                            }
                        },
                    ),
                },
            ),
            Err(kind) => ActionModel::Finish(
                ReplyModel::Failed(
                    StoreErrorModel { kind, operation: OperationKind::SetInfo, id: Some(record.id) },
                ),
            ),
        }
    }

    /// Reading a record waits for a connection to select its row on.
    pub open spec fn get_info(self, id: Seq<char>) -> ActionModel {
        ActionModel::Acquire(
            CallModel {
                operation: OperationKind::GetInfo,
                id: Some(id),
                phase: PhaseModel::Connecting(
                    StatementModel::Select {
                        text: select_sql(self.schema_name, self.table_name),
                        id,
                    },
                ),
            },
        )
    }

    /// Removing a record waits for a connection to delete its row on.
    pub open spec fn remove_info(self, id: Seq<char>) -> ActionModel {
        ActionModel::Acquire(
            CallModel {
                operation: OperationKind::RemoveInfo,
                id: Some(id),
                phase: PhaseModel::Connecting(
                    StatementModel::Delete {
                        text: delete_sql(self.schema_name, self.table_name),
                        id,
                    },
                ),
            },
        )
    }
}

impl PostgresInfoStorage {
    /// Makes a store for the database and table that `config` names. It
    /// opens no connection and always succeeds.
    pub fn new(config: &PostgresInfoStorageConfig) -> (r: Result<Self, StoreError>)
        ensures
            r matches Ok(storage) && storage@ == config@,
    {
        Ok(
            PostgresInfoStorage {
                config: PostgresInfoStorageConfig {
                    host: copy_text(&config.host),
                    port: config.port,
                    user: copy_text(&config.user),
                    password: copy_text(&config.password),
                    db_name: copy_text(&config.db_name),
                    table_name: copy_text(&config.table_name),
                    schema_name: copy_text(&config.schema_name),
                },
            },
        )
    }

    /// What the store was made from.
    pub fn config(&self) -> (r: &PostgresInfoStorageConfig)
        ensures
            r@ == self@,
    {
        &self.config
    }

    /// The settings with which the pool opens each connection: the host,
    /// port, user, password and database of the configuration, with
    /// transport security off.
    pub fn settings(&self) -> (r: tokio_postgres::Config)
        ensures
            r == settings_for(
                self@.host,
                self@.port,
                self@.user,
                self@.password,
                self@.db_name,
                TransportSecurity::Off,
            ),
    {
        self.settings_with(TransportSecurity::Off)
    }

    /// The settings for connections to the configured database whose
    /// transport is secured as `security` says.
    pub fn settings_with(&self, security: TransportSecurity) -> (r: tokio_postgres::Config)
        ensures
            r == settings_for(
                self@.host,
                self@.port,
                self@.user,
                self@.password,
                self@.db_name,
                security,
            ),
    {
        connection_settings(
            self.config.host.as_str(),
            self.config.port,
            self.config.user.as_str(),
            self.config.password.as_str(),
            self.config.db_name.as_str(),
            security,
        )
    }

    /// The name of the table.
    pub fn table_name(&self) -> (r: &str)
        ensures
            r@ == self@.table_name,
    {
        self.config.table_name.as_str()
    }

    /// The name of the table's schema.
    pub fn schema_name(&self) -> (r: &str)
        ensures
            r@ == self@.schema_name,
    {
        self.config.schema_name.as_str()
    }

    /// Begins provisioning: one statement that creates the table unless it
    /// exists.
    pub fn prepare(&self) -> (r: Action)
        ensures
            r@ == self@.prepare(),
    {
        let statement = Statement::create_table(self.schema_name(), self.table_name());
        Action::Acquire(Call::new(OperationKind::Prepare, None, statement))
    }

    /// Begins storing `record` with the JSON text of its metadata at hand
    /// (`None` where it could not be written).
    pub fn set_info_with(
        &self,
        record: &UploadRecord,
        create: bool,
        metadata: Option<String>,
    ) -> (r: Action)
        ensures
            r@ == self@.set_info(record@, create, optional_text(metadata)),
    {
        let id = Some(copy_text(&record.id));
        match encode_row_with(record, metadata) {
            Ok(row) => {
                let statement = if create {
                    Statement::insert(self.schema_name(), self.table_name(), row)
                } else {
                    Statement::update(self.schema_name(), self.table_name(), row)
                };
                Action::Acquire(Call::new(OperationKind::SetInfo, id, statement))
            },
            Err(kind) => Action::Finish(
                Reply::Failed(StoreError { kind, operation: OperationKind::SetInfo, id }),
            ),
        }
    }

    /// Begins storing `record`: an insert where `create` holds, else an
    /// update of the row with the record's id.
    ///
    /// The metadata is written as JSON first. Where offset or length exceed
    /// the signed 64-bit range, the call ends at once with a serialization
    /// error and takes no connection. Otherwise the JSON text reads back as
    /// the metadata, and the row of the statement decodes to the record as
    /// the table keeps it.
    pub fn set_info(&self, record: &UploadRecord, create: bool) -> (r: Action)
        ensures
            r@ == self@.set_info(record@, create, Some(json_object_text(record@.metadata))),
            r@ is Acquire <==> record@.storable(),
            r@ is Acquire ==> json_object_entries(json_object_text(record@.metadata)) == Some(
                record@.metadata,
            ),
            r@ is Acquire ==> (encoded(record@, Some(json_object_text(record@.metadata)))
                matches Ok(row) && decoded(row) == Ok::<RecordModel, ErrorKind>(
                record@.normalized(),
            )),
    {
        let metadata = write_metadata(&record.metadata);
        proof {
            if metadata is Some && record@.storable() {
                crate::codec::law_round_trip(record@, metadata->0@);
            }
        }
        self.set_info_with(record, create, metadata)
    }

    /// Begins reading the record with the given id.
    pub fn get_info(&self, id: &str) -> (r: Action)
        ensures
            r@ == self@.get_info(id@),
    {
        let statement = Statement::select(self.schema_name(), self.table_name(), id);
        Action::Acquire(Call::new(OperationKind::GetInfo, Some(String::from_str(id)), statement))
    }

    /// Begins removing the record with the given id.
    pub fn remove_info(&self, id: &str) -> (r: Action)
        ensures
            r@ == self@.remove_info(id@),
    {
        let statement = Statement::delete(self.schema_name(), self.table_name(), id);
        Action::Acquire(Call::new(OperationKind::RemoveInfo, Some(String::from_str(id)), statement))
    }
}

} // verus!
