use pg_pipeline::connection::Connection;
use pg_pipeline::error::Error;
use pg_pipeline::generic_client::Client;
use pg_pipeline::generic_client::GenericClient;
use pg_pipeline::query::encode;
use pg_pipeline::query::execute;
use pg_pipeline::query::query;
use pg_pipeline::query::query_portal;
use pg_pipeline::query::start;
use pg_pipeline::stream::Phase;
use pg_pipeline::types::Format;
use pg_pipeline::types::Portal;
use pg_pipeline::types::Statement;
use pg_pipeline::types::Type;
use std::sync::Arc;

fn statement() -> Arc<Statement> {
    Arc::new(Statement { name: "s0".to_string(), params: vec![Type { oid: 23 }], columns: vec![] })
}

fn written(connection: &mut Connection) -> Vec<u8> {
    connection.poll_request().unwrap().to_vec()
}

#[test]
fn query_sends_the_encoded_request_and_starts_before_bind_complete() {
    let mut connection = Connection::new();
    let formats = [Format::Text, Format::Binary];
    let stream = query(&mut connection, statement(), &[4i32], &[], &formats).unwrap();
    assert_eq!(stream.phase, Phase::AwaitingBindComplete);
    assert_eq!(stream.responses.id, 0);
    assert_eq!(stream.statement.name, "s0");
    let expected = encode(&mut Connection::new(), &statement(), &[4i32], &[], &formats).unwrap().to_vec();
    assert_eq!(written(&mut connection), expected);
    assert!(connection.poll_request().is_none());
}

#[test]
fn execute_asks_for_binary_results() {
    let mut connection = Connection::new();
    let execution = execute(&mut connection, statement(), &[4i32], &[Format::Binary]).unwrap();
    assert_eq!(execution.phase, Phase::AwaitingBindComplete);
    assert_eq!(execution.responses.id, 0);
    let expected = encode(&mut Connection::new(), &statement(), &[4i32], &[Format::Binary], &[Format::Binary])
        .unwrap()
        .to_vec();
    assert_eq!(written(&mut connection), expected);
}

#[test]
fn a_request_that_cannot_be_encoded_is_not_sent() {
    let mut connection = Connection::new();
    let none: [i32; 0] = [];
    assert!(matches!(
        query(&mut connection, statement(), &none, &[], &[]),
        Err(Error::ParameterCount { expected: 1, actual: 0 })
    ));
    assert!(matches!(
        execute(&mut connection, statement(), &[1i32, 2], &[]),
        Err(Error::ParameterCount { expected: 1, actual: 2 })
    ));
    assert!(matches!(execute(&mut connection, statement(), &["a".to_string()], &[]), Err(Error::ToSql(0))));
    assert!(connection.poll_request().is_none());
    assert_eq!(query(&mut connection, statement(), &[1i32], &[], &[]).unwrap().responses.id, 0);
}

#[test]
fn a_closed_connection_takes_no_request() {
    let mut connection = Connection::new();
    connection.close();
    assert!(matches!(query(&mut connection, statement(), &[1i32], &[], &[]), Err(Error::Closed)));
    assert!(matches!(execute(&mut connection, statement(), &[1i32], &[]), Err(Error::Closed)));
    let portal = Portal { name: "p".to_string(), statement: statement() };
    assert!(matches!(query_portal(&mut connection, &portal, 1), Err(Error::Closed)));
    assert!(matches!(start(&mut connection, bytes::Bytes::new()), Err(Error::Closed)));
}

#[test]
fn query_portal_sends_execute_without_sync_and_starts_streaming() {
    let mut connection = Connection::new();
    let portal = Portal { name: "p1".to_string(), statement: statement() };
    let stream = query_portal(&mut connection, &portal, 10).unwrap();
    assert_eq!(stream.phase, Phase::Streaming);
    assert!(Arc::ptr_eq(&stream.statement, &portal.statement));
    let expected: Vec<u8> = vec![b'E', 0, 0, 0, 11, b'p', b'1', 0, 0, 0, 0, 10];
    assert_eq!(written(&mut connection), expected);
}

#[test]
fn query_portal_writes_a_negative_limit_in_twos_complement() {
    let mut connection = Connection::new();
    let portal = Portal { name: String::new(), statement: statement() };
    query_portal(&mut connection, &portal, -1).unwrap();
    let expected: Vec<u8> = vec![b'E', 0, 0, 0, 9, 0, 255, 255, 255, 255];
    assert_eq!(written(&mut connection), expected);
    query_portal(&mut connection, &portal, 0x0102_0304).unwrap();
    assert_eq!(written(&mut connection)[6..10].to_vec(), vec![1u8, 2, 3, 4]);
}

#[test]
fn query_portal_rejects_a_name_with_a_zero_byte() {
    let mut connection = Connection::new();
    let portal = Portal { name: "p\0".to_string(), statement: statement() };
    assert!(matches!(query_portal(&mut connection, &portal, 0), Err(Error::Encode)));
    assert!(connection.poll_request().is_none());
}

#[test]
fn start_queues_the_bytes_as_they_are() {
    let mut connection = Connection::new();
    assert_eq!(start(&mut connection, bytes::Bytes::from_static(b"raw")).unwrap().id, 0);
    assert_eq!(written(&mut connection), b"raw".to_vec());
}

#[test]
fn a_client_and_a_transaction_send_the_same_requests() {
    let mut client = Client::new();
    let formats = [Format::Text];
    client.query_raw(statement(), &[1i32], &[], &formats).unwrap();
    client.execute_raw(statement(), &[2i32], &[Format::Binary]).unwrap();
    client.query(statement(), &[3i32]).unwrap();
    client.execute(statement(), &[4i32]).unwrap();
    let mut through_client = vec![];
    while let Some(request) = client.inner.poll_request() {
        through_client.push(request.to_vec());
    }
    let mut other = Client::new();
    {
        let mut transaction = other.transaction();
        assert_eq!(transaction.query_raw(statement(), &[1i32], &[], &formats).unwrap().responses.id, 0);
        assert_eq!(
            transaction.execute_raw(statement(), &[2i32], &[Format::Binary]).unwrap().responses.id,
            1
        );
        let rows = transaction.query(statement(), &[3i32]).unwrap();
        assert_eq!(rows.stream.phase, Phase::AwaitingBindComplete);
        assert_eq!(rows.stream.responses.id, 2);
        assert!(rows.rows.is_empty());
        assert_eq!(transaction.execute(statement(), &[4i32]).unwrap().responses.id, 3);
        let none: [i32; 0] = [];
        assert!(matches!(
            transaction.query(statement(), &none),
            Err(Error::ParameterCount { expected: 1, actual: 0 })
        ));
    }
    let mut through_transaction = vec![];
    while let Some(request) = other.inner.poll_request() {
        through_transaction.push(request.to_vec());
    }
    assert_eq!(through_client.len(), 4);
    assert_eq!(through_client, through_transaction);
    let mut scratch = Connection::new();
    assert_eq!(
        through_client[2],
        encode(&mut scratch, &statement(), &[3i32], &[], &[Format::Binary]).unwrap().to_vec()
    );
    assert_eq!(
        through_client[3],
        encode(&mut scratch, &statement(), &[4i32], &[], &[Format::Binary]).unwrap().to_vec()
    );
}

#[test]
fn statements_and_portals_show_what_they_hold() {
    let statement = Arc::new(Statement::new(
        "s9".to_string(),
        vec![Type { oid: 23 }, Type::text()],
        vec![pg_pipeline::types::Column { name: "c".to_string(), type_: Type { oid: 25 } }],
    ));
    assert_eq!(statement.name(), "s9");
    assert_eq!(statement.params().to_vec(), vec![Type { oid: 23 }, Type { oid: 25 }]);
    assert_eq!(statement.columns().len(), 1);
    assert_eq!(statement.columns()[0].name(), "c");
    let portal = Portal { name: "p9".to_string(), statement: statement.clone() };
    assert_eq!(portal.name(), "p9");
    assert!(Arc::ptr_eq(portal.statement(), &statement));
}

#[test]
fn one_row_queries_send_what_a_query_sends() {
    let mut client = Client::new();
    let one = client.query_one(statement(), &[1i32]).unwrap();
    assert_eq!(one.rows.stream.phase, Phase::AwaitingBindComplete);
    assert_eq!(one.rows.stream.responses.id, 0);
    assert!(one.rows.rows.is_empty());
    let first = written(&mut client.inner);
    {
        let mut transaction = client.transaction();
        let optional = transaction.query_opt(statement(), &[1i32]).unwrap();
        assert_eq!(optional.rows.stream.responses.id, 1);
        let none: [i32; 0] = [];
        assert!(matches!(
            transaction.query_one(statement(), &none),
            Err(Error::ParameterCount { expected: 1, actual: 0 })
        ));
    }
    assert_eq!(written(&mut client.inner), first);
    assert_eq!(first, encode(&mut Connection::new(), &statement(), &[1i32], &[], &[Format::Binary]).unwrap().to_vec());
}

#[test]
fn a_transaction_in_a_transaction_works_on_the_same_connection() {
    let mut client = Client::new();
    {
        let mut outer = client.transaction();
        assert_eq!(outer.execute(statement(), &[1i32]).unwrap().responses.id, 0);
        {
            let mut inner = outer.transaction();
            assert_eq!(inner.execute(statement(), &[2i32]).unwrap().responses.id, 1);
        }
        assert_eq!(outer.query(statement(), &[3i32]).unwrap().stream.responses.id, 2);
    }
    assert_eq!(client.execute(statement(), &[4i32]).unwrap().responses.id, 3);
    let mut count = 0;
    while client.inner.poll_request().is_some() {
        count += 1;
    }
    assert_eq!(count, 4);
}
