use questdb_cli::output::{Column, Datum, OutputFormat, Row, TypeTag};
use questdb_cli::query::{
    execute_query_command, failure, show, Emit, QueryEvent, QueryRun, QueryStatus,
};

fn columns() -> Vec<Column> {
    vec![
        Column { name: "id".to_string(), type_tag: TypeTag::Int32 },
        Column { name: "s".to_string(), type_tag: TypeTag::Varchar },
    ]
}

fn row_event(id: i32, s: Option<&str>) -> QueryEvent {
    QueryEvent::Row {
        columns: columns(),
        row: Row { values: vec![Some(Datum::Int32(id)), s.map(|t| Datum::Varchar(t.to_string()))] },
    }
}

fn out(text: &str) -> Emit {
    Emit::Stdout(text.to_string())
}

fn err(text: &str) -> Emit {
    Emit::Stderr(text.to_string())
}

#[test]
fn new_run_is_running_and_empty() {
    let run = QueryRun::new(OutputFormat::Csv, "query");
    assert_eq!(run.format, OutputFormat::Csv);
    assert_eq!(run.context, "query");
    assert!(run.columns.is_empty());
    assert!(run.held.is_empty());
    assert_eq!(run.seen, 0);
    assert!(!run.cancelling);
    assert_eq!(run.status, QueryStatus::Running);
    assert!(!run.is_over());
}

#[test]
fn select_one_in_table_format() {
    let mut run = QueryRun::new(OutputFormat::Table, "query");
    let event = QueryEvent::Row {
        columns: vec![Column { name: "?column?".to_string(), type_tag: TypeTag::Int32 }],
        row: Row { values: vec![Some(Datum::Int32(1))] },
    };
    assert_eq!(run.on_event(event), vec![]);
    assert_eq!(run.seen, 1);
    assert_eq!(run.held.len(), 1);
    assert_eq!(run.columns.len(), 1);
    let printed = run.on_event(QueryEvent::Finished);
    assert_eq!(
        printed,
        vec![out("+----------+\n| ?column? |\n+----------+\n| 1        |\n+----------+\n")]
    );
    assert_eq!(run.status, QueryStatus::Completed);
    assert!(run.is_over());
    assert!(run.held.is_empty());
}

#[test]
fn csv_is_printed_when_the_rows_have_ended() {
    let mut run = QueryRun::new(OutputFormat::Csv, "query");
    assert_eq!(run.on_event(row_event(1, Some("a"))), vec![]);
    assert_eq!(run.on_event(row_event(2, None)), vec![]);
    assert_eq!(run.on_event(QueryEvent::Finished), vec![out("id,s\n1,a\n2,NULL\n")]);
    assert_eq!(run.status, QueryStatus::Completed);
    assert_eq!(run.seen, 2);
}

#[test]
fn vertical_rows_are_printed_as_they_arrive() {
    let mut run = QueryRun::new(OutputFormat::Vertical, "query");
    assert_eq!(run.on_event(row_event(1, Some("a"))), vec![out("Row 1:\n  id: 1\n  s: a\n\n")]);
    assert_eq!(run.on_event(row_event(2, None)), vec![out("Row 2:\n  id: 2\n  s: NULL\n\n")]);
    assert!(run.held.is_empty());
    assert_eq!(run.on_event(QueryEvent::Finished), vec![]);
    assert_eq!(run.status, QueryStatus::Completed);
}

#[test]
fn record_rows_are_printed_as_they_arrive() {
    let mut run = QueryRun::new(OutputFormat::Record, "query");
    assert_eq!(run.on_event(row_event(1, Some("a"))), vec![out("id: 1, s: a\n")]);
    assert_eq!(run.on_event(row_event(2, Some("b"))), vec![out("id: 2, s: b\n")]);
    assert_eq!(run.on_event(QueryEvent::Finished), vec![]);
}

#[test]
fn no_rows_in_every_format() {
    let formats = vec![
        (OutputFormat::Table, "(No rows returned)\n"),
        (OutputFormat::Csv, "(No rows returned)\n"),
        (OutputFormat::Json, "[]\n"),
        (OutputFormat::Vertical, "(No rows returned)\n"),
        (OutputFormat::Record, "(No rows returned)\n"),
    ];
    for (format, expected) in formats {
        let mut run = QueryRun::new(format, "query");
        assert_eq!(run.on_event(QueryEvent::Finished), vec![out(expected)]);
        assert_eq!(run.status, QueryStatus::Completed);
    }
}

#[test]
fn columns_of_the_first_row_stand_for_all() {
    let mut run = QueryRun::new(OutputFormat::Record, "query");
    run.on_event(row_event(1, Some("a")));
    let renamed = QueryEvent::Row {
        columns: vec![
            Column { name: "x".to_string(), type_tag: TypeTag::Int32 },
            Column { name: "y".to_string(), type_tag: TypeTag::Varchar },
        ],
        row: Row { values: vec![Some(Datum::Int32(2)), None] },
    };
    assert_eq!(run.on_event(renamed), vec![out("id: 2, s: NULL\n")]);
    assert_eq!(run.columns, columns());
}

#[test]
fn a_row_that_cannot_be_read_ends_the_run() {
    let mut run = QueryRun::new(OutputFormat::Csv, "query");
    run.on_event(row_event(1, Some("a")));
    let printed = run.on_event(QueryEvent::RowError("connection reset".to_string()));
    assert_eq!(printed, vec![out("id,s\n1,a\n"), err("Error processing row: connection reset\n")]);
    assert_eq!(run.status, QueryStatus::Failed);
    assert!(run.held.is_empty());
    assert_eq!(run.on_event(row_event(2, None)), vec![]);
    assert_eq!(run.on_event(QueryEvent::Finished), vec![]);
    assert_eq!(run.status, QueryStatus::Failed);

    let mut empty = QueryRun::new(OutputFormat::Table, "query");
    assert_eq!(
        empty.on_event(QueryEvent::RowError("gone".to_string())),
        vec![err("Error processing row: gone\n")]
    );

    let mut streamed = QueryRun::new(OutputFormat::Record, "query");
    streamed.on_event(row_event(1, Some("a")));
    assert_eq!(
        streamed.on_event(QueryEvent::RowError("gone".to_string())),
        vec![err("Error processing row: gone\n")]
    );
    assert_eq!(streamed.status, QueryStatus::Failed);
}

#[test]
fn a_refused_statement_is_reported_under_its_name() {
    let mut run = QueryRun::new(OutputFormat::Table, "\\dt");
    assert_eq!(
        run.on_event(QueryEvent::Failed("syntax error".to_string())),
        vec![err("Error executing \\dt: syntax error\n")]
    );
    assert_eq!(run.status, QueryStatus::Failed);
    assert!(run.is_over());
}

#[test]
fn a_cancelled_statement_prints_no_rows_that_were_held() {
    let mut run = QueryRun::new(OutputFormat::Json, "query");
    run.on_event(row_event(1, Some("a")));
    assert_eq!(run.on_event(QueryEvent::Cancelled), vec![err("Query canceled.\n")]);
    assert_eq!(run.status, QueryStatus::Cancelled);
    assert!(run.held.is_empty());
    assert_eq!(run.on_event(QueryEvent::Finished), vec![]);
    assert_eq!(run.on_event(QueryEvent::Cancelled), vec![]);
    assert_eq!(run.status, QueryStatus::Cancelled);
}

#[test]
fn a_row_that_cannot_be_shown_ends_a_streamed_run() {
    let mut run = QueryRun::new(OutputFormat::Vertical, "query");
    run.on_event(row_event(1, Some("a")));
    let bad = QueryEvent::Row {
        columns: columns(),
        row: Row { values: vec![Some(Datum::Boolean(true)), None] },
    };
    assert_eq!(
        run.on_event(bad),
        vec![err("Error executing query: row 1, column 0: the value is not of the column's type\n")]
    );
    assert_eq!(run.status, QueryStatus::Failed);
    assert_eq!(run.seen, 1);
}

#[test]
fn a_row_that_cannot_be_shown_fails_a_held_run_at_its_end() {
    let mut run = QueryRun::new(OutputFormat::Table, "query in script");
    run.on_event(row_event(1, Some("a")));
    let short = QueryEvent::Row { columns: columns(), row: Row { values: vec![None] } };
    assert_eq!(run.on_event(short), vec![]);
    assert_eq!(
        run.on_event(QueryEvent::Finished),
        vec![err("Error executing query in script: row 1 does not hold one value for each column\n")]
    );
    assert_eq!(run.status, QueryStatus::Failed);
}

#[test]
fn more_rows_than_can_be_counted_end_the_run() {
    let mut run = QueryRun::new(OutputFormat::Record, "query");
    run.seen = usize::MAX;
    assert_eq!(
        run.on_event(row_event(1, None)),
        vec![err("Error executing query: too many rows\n")]
    );
    assert_eq!(run.status, QueryStatus::Failed);
    assert_eq!(run.seen, usize::MAX);
}

#[test]
fn reports() {
    assert_eq!(failure("query", "boom"), err("Error executing query: boom\n"));
    assert_eq!(show(Ok("text".to_string()), "query"), out("text"));
    assert_eq!(
        show(Err(questdb_cli::output::FormatError::Renderer), "\\dwal"),
        err("Error executing \\dwal: the output could not be rendered\n")
    );
}

#[test]
fn a_statement_begins_its_run() {
    let run = execute_query_command(" SELECT 1 ", "CSV").unwrap();
    assert_eq!(run, QueryRun::new(OutputFormat::Csv, "query"));
    let fallback = execute_query_command("SELECT 1", "bogus").unwrap();
    assert_eq!(fallback.format, OutputFormat::Table);
    assert_eq!(fallback.status, QueryStatus::Running);
    assert_eq!(execute_query_command("", "table"), None);
    assert_eq!(execute_query_command(" \t\n ", "table"), None);
}

#[test]
fn an_error_after_the_request_to_stop_is_a_cancellation() {
    let mut run = QueryRun::new(OutputFormat::Csv, "query");
    run.on_event(row_event(1, Some("a")));
    assert_eq!(run.on_event(QueryEvent::CancelRequested), vec![]);
    assert!(run.cancelling);
    assert_eq!(run.status, QueryStatus::Running);
    assert_eq!(run.on_event(row_event(2, None)), vec![]);
    assert_eq!(
        run.on_event(QueryEvent::RowError("canceling statement due to user request".to_string())),
        vec![err("Query canceled.\n")]
    );
    assert_eq!(run.status, QueryStatus::Cancelled);
    assert!(run.held.is_empty());

    let mut refused = QueryRun::new(OutputFormat::Record, "query");
    refused.on_event(QueryEvent::CancelRequested);
    assert_eq!(
        refused.on_event(QueryEvent::Failed("57014".to_string())),
        vec![err("Query canceled.\n")]
    );
    assert_eq!(refused.status, QueryStatus::Cancelled);
}

#[test]
fn a_statement_that_ends_before_it_is_stopped_has_completed() {
    let mut run = QueryRun::new(OutputFormat::Record, "query");
    run.on_event(QueryEvent::CancelRequested);
    assert_eq!(run.on_event(row_event(1, Some("a"))), vec![out("id: 1, s: a\n")]);
    assert_eq!(run.on_event(QueryEvent::Finished), vec![]);
    assert_eq!(run.status, QueryStatus::Completed);
    assert_eq!(run.on_event(QueryEvent::CancelRequested), vec![]);
    assert_eq!(run.status, QueryStatus::Completed);
}
