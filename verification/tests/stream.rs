use linked_hash_map::LinkedHashMap;
use pg_pipeline::catalogue::parse_codes;
use pg_pipeline::connection::Responses;
use pg_pipeline::error::Error;
use pg_pipeline::message::BackendMessage;
use pg_pipeline::message::ErrorField;
use pg_pipeline::sqlstate::SqlState;
use pg_pipeline::sqlstate::SqlStateRegistry;
use pg_pipeline::stream::at_most_one;
use pg_pipeline::stream::exactly_one;
use pg_pipeline::stream::rows_affected;
use pg_pipeline::stream::Row;
use pg_pipeline::stream::Execution;
use pg_pipeline::stream::OneRow;
use pg_pipeline::stream::OptionalRow;
use pg_pipeline::stream::Phase;
use pg_pipeline::stream::Poll;
use pg_pipeline::stream::RowStream;
use pg_pipeline::stream::Rows;
use pg_pipeline::types::Column;
use pg_pipeline::types::Statement;
use pg_pipeline::types::Type;
use std::sync::Arc;

fn registry() -> SqlStateRegistry {
    SqlStateRegistry::new(&parse_codes("23505 E ERRCODE_UNIQUE_VIOLATION\n").unwrap()).unwrap()
}

fn statement() -> Arc<Statement> {
    Arc::new(Statement {
        name: "s1".to_string(),
        params: vec![],
        columns: vec![Column { name: "n".to_string(), type_: Type { oid: 23 } }],
    })
}

fn stream(phase: Phase) -> RowStream {
    RowStream { statement: statement(), responses: Responses { id: 3 }, phase }
}

fn execution() -> Execution {
    Execution { responses: Responses { id: 0 }, phase: Phase::AwaitingBindComplete }
}

fn error(code: &str) -> BackendMessage {
    BackendMessage::ErrorResponse(vec![
        ErrorField { kind: b'S', value: "ERROR".to_string() },
        ErrorField { kind: b'C', value: code.to_string() },
        ErrorField { kind: b'M', value: "duplicate key".to_string() },
        ErrorField { kind: b'C', value: "00000".to_string() },
    ])
}

fn complete(tag: &str) -> BackendMessage {
    BackendMessage::CommandComplete(tag.as_bytes().to_vec())
}

fn drain(stream: &mut RowStream, messages: Vec<BackendMessage>) -> (usize, usize, usize) {
    let registry = registry();
    let (mut rows, mut errors, mut ends) = (0, 0, 0);
    for message in messages {
        match stream.poll_next(message, &registry) {
            Poll::Pending => {}
            Poll::Ready(Some(Ok(_))) => rows += 1,
            Poll::Ready(Some(Err(_))) => errors += 1,
            Poll::Ready(None) => ends += 1,
        }
    }
    (rows, errors, ends)
}

#[test]
fn rows_then_command_complete_give_the_rows_and_a_clean_end() {
    for n in [0usize, 1, 5] {
        let mut stream = stream(Phase::AwaitingBindComplete);
        let mut messages = vec![BackendMessage::BindComplete];
        for i in 0..n {
            messages.push(BackendMessage::DataRow(vec![Some(vec![i as u8])]));
        }
        messages.push(complete(&format!("SELECT {}", n)));
        assert_eq!(drain(&mut stream, messages), (n, 0, 1));
        assert_eq!(stream.phase, Phase::Done);
    }
}

#[test]
fn a_row_carries_its_cells_and_the_stream_s_statement() {
    let mut stream = stream(Phase::Streaming);
    let cells = vec![Some(vec![0, 0, 0, 9]), None];
    match stream.poll_next(BackendMessage::DataRow(cells.clone()), &registry()) {
        Poll::Ready(Some(Ok(row))) => {
            assert_eq!(row.cells, cells);
            assert!(Arc::ptr_eq(&row.statement, &stream.statement));
            assert_eq!(row.statement.columns[0].name, "n");
        }
        other => panic!("{:?}", other),
    }
    assert_eq!(stream.phase, Phase::Streaming);
    assert_eq!(stream.responses.id, 3);
}

#[test]
fn an_error_response_gives_no_row_and_one_classified_error() {
    let mut stream = stream(Phase::AwaitingBindComplete);
    let registry = registry();
    assert!(matches!(stream.poll_next(BackendMessage::BindComplete, &registry), Poll::Pending));
    match stream.poll_next(error("23505"), &registry) {
        Poll::Ready(Some(Err(Error::Db(db)))) => {
            assert_eq!(db.code, registry.classify("23505"));
            assert!(matches!(db.code, SqlState::Canonical(_)));
            assert_eq!(db.fields.len(), 4);
            assert_eq!(db.fields[2].value, "duplicate key");
        }
        other => panic!("{:?}", other),
    }
    assert_eq!(stream.phase, Phase::Done);
    assert!(matches!(stream.poll_next(BackendMessage::DataRow(vec![]), &registry), Poll::Ready(None)));
}

#[test]
fn an_unknown_error_code_is_kept_verbatim() {
    let mut stream = stream(Phase::Streaming);
    match stream.poll_next(error("ZZ999"), &registry()) {
        Poll::Ready(Some(Err(Error::Db(db)))) => {
            assert!(matches!(db.code, SqlState::Other(_)));
            assert_eq!(db.code.code(), "ZZ999");
        }
        other => panic!("{:?}", other),
    }
}

#[test]
fn an_error_response_without_a_code_is_a_parse_error() {
    let fields = vec![ErrorField { kind: b'M', value: "m".to_string() }];
    let mut stream = stream(Phase::Streaming);
    assert!(matches!(
        stream.poll_next(BackendMessage::ErrorResponse(fields), &registry()),
        Poll::Ready(Some(Err(Error::Parse)))
    ));
    let registry = SqlStateRegistry::new(&LinkedHashMap::new()).unwrap();
    assert!(matches!(Error::db(vec![], &registry), Error::Parse));
}

#[test]
fn the_first_message_must_be_bind_complete() {
    let others = vec![
        BackendMessage::DataRow(vec![]),
        complete("SELECT 0"),
        BackendMessage::EmptyQueryResponse,
        BackendMessage::PortalSuspended,
        error("23505"),
        BackendMessage::Other,
    ];
    for message in others {
        let mut stream = stream(Phase::AwaitingBindComplete);
        assert!(matches!(
            stream.poll_next(message, &registry()),
            Poll::Ready(Some(Err(Error::UnexpectedMessage)))
        ));
        assert_eq!(stream.phase, Phase::Failed);
        assert!(matches!(stream.poll_next(BackendMessage::BindComplete, &registry()), Poll::Ready(None)));
        assert_eq!(stream.phase, Phase::Failed);
    }
}

#[test]
fn every_end_of_a_result_ends_the_stream() {
    for message in [complete("SELECT 2"), BackendMessage::EmptyQueryResponse, BackendMessage::PortalSuspended] {
        let mut stream = stream(Phase::Streaming);
        assert!(matches!(stream.poll_next(message, &registry()), Poll::Ready(None)));
        assert_eq!(stream.phase, Phase::Done);
    }
}

#[test]
fn a_message_out_of_place_fails_the_stream() {
    for message in [BackendMessage::BindComplete, BackendMessage::Other] {
        let mut stream = stream(Phase::Streaming);
        assert!(matches!(
            stream.poll_next(message, &registry()),
            Poll::Ready(Some(Err(Error::UnexpectedMessage)))
        ));
        assert_eq!(stream.phase, Phase::Failed);
    }
}

fn count(messages: Vec<BackendMessage>) -> (Vec<Option<Result<u64, Error>>>, Phase) {
    let registry = registry();
    let mut execution = execution();
    let mut seen = vec![];
    for message in messages {
        seen.push(match execution.poll(message, &registry) {
            Poll::Pending => None,
            Poll::Ready(result) => Some(result),
        });
    }
    (seen, execution.phase)
}

#[test]
fn execute_reports_the_affected_rows() {
    let (seen, phase) = count(vec![BackendMessage::BindComplete, complete("INSERT 0 5")]);
    assert!(matches!(seen[0], None));
    assert!(matches!(seen[1], Some(Ok(5))));
    assert_eq!(phase, Phase::Done);
}

#[test]
fn a_count_behind_bind_complete_reads_the_tag_at_once() {
    let registry = registry();
    let mut execution = Execution { responses: Responses { id: 0 }, phase: Phase::Streaming };
    assert!(matches!(execution.poll(complete("INSERT 0 5"), &registry), Poll::Ready(Ok(5))));
    assert_eq!(execution.phase, Phase::Done);
    let mut execution = Execution { responses: Responses { id: 0 }, phase: Phase::Streaming };
    assert!(matches!(execution.poll(complete("CREATE TABLE"), &registry), Poll::Ready(Ok(0))));
}

#[test]
fn execute_reports_zero_for_a_tag_without_a_number() {
    let (seen, _) = count(vec![BackendMessage::BindComplete, complete("CREATE TABLE")]);
    assert!(matches!(seen[1], Some(Ok(0))));
}

#[test]
fn execute_passes_over_rows_and_counts_an_empty_query_as_zero() {
    let (seen, phase) = count(vec![
        BackendMessage::BindComplete,
        BackendMessage::DataRow(vec![]),
        BackendMessage::DataRow(vec![]),
        BackendMessage::EmptyQueryResponse,
        complete("SELECT 2"),
    ]);
    assert!(matches!(seen[1], None));
    assert!(matches!(seen[2], None));
    assert!(matches!(seen[3], Some(Ok(0))));
    assert!(matches!(seen[4], None));
    assert_eq!(phase, Phase::Done);
}

#[test]
fn execute_fails_on_messages_out_of_place() {
    let (seen, phase) = count(vec![complete("INSERT 0 1")]);
    assert!(matches!(seen[0], Some(Err(Error::UnexpectedMessage))));
    assert_eq!(phase, Phase::Failed);
    let (seen, phase) = count(vec![BackendMessage::BindComplete, BackendMessage::PortalSuspended]);
    assert!(matches!(seen[1], Some(Err(Error::UnexpectedMessage))));
    assert_eq!(phase, Phase::Failed);
    let (seen, _) = count(vec![BackendMessage::BindComplete, BackendMessage::BindComplete]);
    assert!(matches!(seen[1], Some(Err(Error::UnexpectedMessage))));
}

#[test]
fn execute_reports_the_server_s_error() {
    let (seen, phase) = count(vec![BackendMessage::BindComplete, error("23505")]);
    match &seen[1] {
        Some(Err(Error::Db(db))) => assert_eq!(db.code.code(), "23505"),
        other => panic!("{:?}", other),
    }
    assert_eq!(phase, Phase::Done);
}

#[test]
fn execute_rejects_a_tag_that_is_not_text() {
    let (seen, phase) = count(vec![
        BackendMessage::BindComplete,
        BackendMessage::CommandComplete(vec![b'X', b' ', 0xff, b' ', b'5']),
    ]);
    assert!(matches!(seen[1], Some(Err(Error::Parse))));
    assert_eq!(phase, Phase::Done);
}

#[test]
fn rows_affected_reads_the_last_token() {
    assert_eq!(rows_affected("INSERT 0 5"), 5);
    assert_eq!(rows_affected("CREATE TABLE"), 0);
    assert_eq!(rows_affected("UPDATE 42"), 42);
    assert_eq!(rows_affected("7"), 7);
    assert_eq!(rows_affected("SELECT 007"), 7);
    assert_eq!(rows_affected("SELECT +12"), 12);
    assert_eq!(rows_affected(""), 0);
    assert_eq!(rows_affected(" "), 0);
    assert_eq!(rows_affected("SELECT +"), 0);
    assert_eq!(rows_affected("SELECT ++1"), 0);
    assert_eq!(rows_affected("SELECT -1"), 0);
    assert_eq!(rows_affected("SELECT 1x"), 0);
    assert_eq!(rows_affected("SELECT \u{663}"), 0);
    assert_eq!(rows_affected("COPY 18446744073709551615"), u64::MAX);
    assert_eq!(rows_affected("COPY 18446744073709551616"), 0);
    assert_eq!(rows_affected("COPY 99999999999999999999999"), 0);
}

#[test]
fn the_last_token_is_delimited_by_any_white_space() {
    assert_eq!(rows_affected("UPDATE\t7"), 7);
    assert_eq!(rows_affected("MOVE 5\t6"), 6);
    assert_eq!(rows_affected("INSERT 0 5 "), 5);
    assert_eq!(rows_affected("INSERT 0 5 \r\n"), 5);
    assert_eq!(rows_affected("\u{3000}9\u{a0}"), 9);
    assert_eq!(rows_affected("SELECT\u{2003}31"), 31);
    assert_eq!(rows_affected(" 3"), 3);
    assert_eq!(rows_affected("SELECT 3 x "), 0);
    assert_eq!(rows_affected("SELECT\u{200b}3"), 0);
    let (seen, _) = count(vec![BackendMessage::BindComplete, complete("UPDATE\t7")]);
    assert!(matches!(seen[1], Some(Ok(7))));
}

fn rows(n: u8) -> Vec<Row> {
    (0..n).map(|i| Row { statement: statement(), cells: vec![Some(vec![i])] }).collect()
}

#[test]
fn one_row_is_the_one_row() {
    assert_eq!(exactly_one(rows(1)).unwrap().cells, vec![Some(vec![0u8])]);
    assert_eq!(at_most_one(rows(1)).unwrap().unwrap().cells, vec![Some(vec![0u8])]);
    assert!(at_most_one(rows(0)).unwrap().is_none());
}

#[test]
fn another_number_of_rows_is_an_error() {
    assert!(matches!(exactly_one(rows(0)), Err(Error::RowCount)));
    assert!(matches!(exactly_one(rows(2)), Err(Error::RowCount)));
    assert!(matches!(at_most_one(rows(2)), Err(Error::RowCount)));
    assert!(matches!(at_most_one(rows(9)), Err(Error::RowCount)));
}

#[test]
fn a_row_is_read_by_its_statement_s_columns() {
    let row = Row { statement: statement(), cells: vec![Some(vec![1, 2]), None] };
    assert_eq!(row.columns().len(), 1);
    assert_eq!(row.columns()[0].name(), "n");
    assert_eq!(row.columns()[0].type_().oid, 23);
    assert_eq!(row.len(), 2);
    assert!(!row.is_empty());
    assert_eq!(row.get(0), Some(&[1u8, 2][..]));
    assert_eq!(row.get(1), None);
    assert_eq!(row.get(2), None);
    assert!(Row { statement: statement(), cells: vec![] }.is_empty());
}

#[test]
fn the_count_agrees_with_splitting_at_white_space_and_parsing() {
    let tokens = ["", "0", "5", "05", "+5", "-5", "+", "++5", "5+", "1 2", " 3", "4 ", "x9", "9x", "\t7",
        "8\t", "\u{85}6", "6\u{2028}", "18446744073709551615", "18446744073709551616",
        "184467440737095516150", "00000000000000000000001", "+18446744073709551615",
        "1844674407370955161\u{665}", "\u{663}"];
    for head in ["", "INSERT 0 ", "SELECT ", "  ", "UPDATE\t", "X\u{a0}"] {
        for token in tokens {
            let tag = format!("{}{}", head, token);
            let expected: u64 = tag.split_whitespace().last().map_or(0, |t| t.parse().unwrap_or(0));
            assert_eq!(rows_affected(&tag), expected, "{:?}", tag);
        }
    }
}

fn gather(messages: Vec<BackendMessage>) -> (Vec<Option<Result<usize, Error>>>, Rows) {
    let registry = registry();
    let mut rows = Rows::new(stream(Phase::AwaitingBindComplete));
    let mut seen = vec![];
    for message in messages {
        seen.push(match rows.poll(message, &registry) {
            Poll::Pending => None,
            Poll::Ready(Ok(all)) => {
                for (i, row) in all.iter().enumerate() {
                    assert_eq!(row.cells, vec![Some(vec![i as u8])]);
                }
                Some(Ok(all.len()))
            }
            Poll::Ready(Err(e)) => Some(Err(e)),
        });
    }
    (seen, rows)
}

fn numbered(n: u8) -> Vec<BackendMessage> {
    let mut messages = vec![BackendMessage::BindComplete];
    messages.extend((0..n).map(|i| BackendMessage::DataRow(vec![Some(vec![i])])));
    messages
}

#[test]
fn gathered_rows_come_together_and_in_order_at_the_end() {
    for n in [0u8, 1, 7] {
        let mut messages = numbered(n);
        messages.push(complete(&format!("SELECT {}", n)));
        let (seen, rows) = gather(messages);
        assert_eq!(seen.len(), n as usize + 2);
        assert!(seen[..n as usize + 1].iter().all(|item| item.is_none()));
        assert!(matches!(seen[n as usize + 1], Some(Ok(count)) if count == n as usize));
        assert!(rows.rows.is_empty());
        assert_eq!(rows.stream.phase, Phase::Done);
    }
}

#[test]
fn an_error_comes_in_place_of_the_gathered_rows() {
    let mut messages = numbered(3);
    messages.push(error("23505"));
    let (seen, rows) = gather(messages);
    assert!(matches!(&seen[4], Some(Err(Error::Db(db))) if db.code.code() == "23505"));
    assert_eq!(rows.rows.len(), 3);
    let (seen, _) = gather(vec![BackendMessage::DataRow(vec![])]);
    assert!(matches!(seen[0], Some(Err(Error::UnexpectedMessage))));
}

#[test]
fn a_suspended_portal_hands_out_what_was_fetched() {
    let mut messages = numbered(2);
    messages.push(BackendMessage::PortalSuspended);
    messages.push(BackendMessage::DataRow(vec![]));
    let (seen, _) = gather(messages);
    assert!(matches!(seen[3], Some(Ok(2))));
    assert!(matches!(seen[4], Some(Ok(0))));
}

fn fed(n: u8) -> Vec<BackendMessage> {
    let mut messages = numbered(n);
    messages.push(complete("SELECT"));
    messages
}

#[test]
fn an_only_row_comes_at_the_end_of_the_result() {
    let registry = registry();
    let mut one = OneRow { rows: Rows::new(stream(Phase::AwaitingBindComplete)) };
    let mut seen = vec![];
    for message in fed(1) {
        seen.push(one.poll(message, &registry));
    }
    assert!(matches!(seen[0], Poll::Pending));
    assert!(matches!(seen[1], Poll::Pending));
    assert!(matches!(&seen[2], Poll::Ready(Ok(row)) if row.cells == vec![Some(vec![0u8])]));
    assert_eq!(one.rows.stream.phase, Phase::Done);
    let mut optional = OptionalRow { rows: Rows::new(stream(Phase::AwaitingBindComplete)) };
    let last = fed(1).into_iter().map(|message| optional.poll(message, &registry)).last();
    assert!(matches!(last, Some(Poll::Ready(Ok(Some(_))))));
}

#[test]
fn no_row_is_allowed_but_not_enough_where_one_is_asked_for() {
    let registry = registry();
    let mut one = OneRow { rows: Rows::new(stream(Phase::AwaitingBindComplete)) };
    let last = fed(0).into_iter().map(|message| one.poll(message, &registry)).last();
    assert!(matches!(last, Some(Poll::Ready(Err(Error::RowCount)))));
    let mut optional = OptionalRow { rows: Rows::new(stream(Phase::AwaitingBindComplete)) };
    let last = fed(0).into_iter().map(|message| optional.poll(message, &registry)).last();
    assert!(matches!(last, Some(Poll::Ready(Ok(None)))));
}

#[test]
fn more_rows_than_one_are_an_error_for_both() {
    let registry = registry();
    let mut one = OneRow { rows: Rows::new(stream(Phase::AwaitingBindComplete)) };
    let last = fed(2).into_iter().map(|message| one.poll(message, &registry)).last();
    assert!(matches!(last, Some(Poll::Ready(Err(Error::RowCount)))));
    let mut optional = OptionalRow { rows: Rows::new(stream(Phase::AwaitingBindComplete)) };
    let last = fed(3).into_iter().map(|message| optional.poll(message, &registry)).last();
    assert!(matches!(last, Some(Poll::Ready(Err(Error::RowCount)))));
}

#[test]
fn the_server_s_error_comes_in_place_of_the_only_row() {
    let registry = registry();
    let mut one = OneRow { rows: Rows::new(stream(Phase::Streaming)) };
    assert!(matches!(
        one.poll(error("23505"), &registry),
        Poll::Ready(Err(Error::Db(db))) if db.code.code() == "23505"
    ));
    let mut optional = OptionalRow { rows: Rows::new(stream(Phase::AwaitingBindComplete)) };
    assert!(matches!(
        optional.poll(BackendMessage::DataRow(vec![]), &registry),
        Poll::Ready(Err(Error::UnexpectedMessage))
    ));
}
