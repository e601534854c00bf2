use tokio::io::AsyncWriteExt;
use tokio_postgres::tls::NoTls;
use upload_info_store::call::{Action, Call, Event, Phase, Reply};
use upload_info_store::error::{ErrorKind, OperationKind, StoreError};
use upload_info_store::statement::StatementKind;
use upload_info_store::storage::{PostgresInfoStorage, PostgresInfoStorageConfig};

fn storage() -> PostgresInfoStorage {
    PostgresInfoStorage::new(&PostgresInfoStorageConfig {
        host: "localhost".into(),
        port: 5432,
        user: "postgres".into(),
        password: "postgres".into(),
        db_name: "uploads".into(),
        table_name: "file_info".into(),
        schema_name: "public".into(),
    })
    .unwrap()
}

/// The error that the driver makes of a server's refusal with the given
/// SQLSTATE. The server is the far end of a pipe in memory, and answers the
/// driver's first message with the refusal.
fn refusal(state: &str) -> tokio_postgres::Error {
    let mut fields = Vec::new();
    for (field, value) in [(b'S', "ERROR"), (b'V', "ERROR"), (b'C', state), (b'M', "refused")] {
        fields.push(field);
        fields.extend_from_slice(value.as_bytes());
        fields.push(0);
    }
    fields.push(0);
    let mut message = vec![b'E'];
    message.extend_from_slice(&((fields.len() + 4) as i32).to_be_bytes());
    message.extend_from_slice(&fields);

    let runtime = tokio::runtime::Builder::new_current_thread().build().unwrap();
    runtime.block_on(async {
        let (near, mut far) = tokio::io::duplex(4096);
        far.write_all(&message).await.unwrap();
        match storage().settings().connect_raw(near, NoTls).await {
            Ok(_) => panic!("the server refused nothing"),
            Err(error) => error,
        }
    })
}

fn running(kind: StatementKind) -> Call {
    Call {
        operation: OperationKind::SetInfo,
        id: Some("abc".to_string()),
        phase: Phase::Running(kind),
    }
}

fn failed(kind: ErrorKind) -> Action {
    Action::Finish(Reply::Failed(StoreError {
        kind,
        operation: OperationKind::SetInfo,
        id: Some("abc".to_string()),
    }))
}

#[test]
fn a_rejection_carries_the_sqlstate_of_the_error() {
    assert_eq!(
        Event::rejected(&refusal("23505")),
        Event::Rejected(Some("23505".to_string()))
    );
    assert_eq!(
        Event::rejected(&refusal("42501")),
        Event::Rejected(Some("42501".to_string()))
    );
    assert_eq!(
        Event::rejected(&refusal("ZZ123")),
        Event::Rejected(Some("ZZ123".to_string()))
    );
}

#[test]
fn a_unique_violation_of_the_server_is_a_duplicate_record() {
    let error = refusal("23505");
    assert_eq!(
        running(StatementKind::Insert).step(Event::rejected(&error)),
        failed(ErrorKind::DuplicateRecord)
    );
    assert_eq!(
        running(StatementKind::Update).step(Event::rejected(&error)),
        failed(ErrorKind::StorageUnavailable)
    );
}

#[test]
fn another_refusal_of_the_server_is_unavailable_storage() {
    assert_eq!(
        running(StatementKind::Insert).step(Event::rejected(&refusal("42501"))),
        failed(ErrorKind::StorageUnavailable)
    );
    assert_eq!(
        running(StatementKind::Insert).step(Event::rejected(&refusal("23503"))),
        failed(ErrorKind::StorageUnavailable)
    );
}

#[test]
fn an_error_that_is_not_the_servers_has_no_sqlstate() {
    let error = "port=none".parse::<tokio_postgres::Config>().unwrap_err();
    assert_eq!(Event::rejected(&error), Event::Rejected(None));
}
