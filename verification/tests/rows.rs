use oracle_driver::error::ExecutionError;
use oracle_driver::error::PoolExhausted;
use oracle_driver::rows::FetchedRow;
use oracle_driver::rows::Header;
use oracle_driver::rows::Rows;
use oracle_driver::classify::StatementKind;
use oracle_driver::task::QueryResultsWithMetadata;

fn header(name: &str, data_type: &str) -> Header {
    Header { name: name.to_string(), data_type: data_type.to_string() }
}

fn row(columns: Vec<Header>, values: &[&str]) -> FetchedRow {
    FetchedRow { columns, values: values.iter().map(|v| v.to_string()).collect() }
}

fn id_and_name() -> Vec<Header> {
    vec![header("ID", "NUMBER"), header("NAME", "VARCHAR2(20)")]
}

#[test]
fn read_without_rows_has_no_headers_and_no_rows() {
    let rows = Rows::from_fetched(Vec::new());
    assert_eq!(rows, Rows { headers: Vec::new(), rows: Vec::new(), rows_affected: None });
}

#[test]
fn read_takes_headers_from_the_first_row() {
    let rows = Rows::from_fetched(vec![
        Some(row(id_and_name(), &["1", "ann"])),
        Some(row(id_and_name(), &["2", "bob"])),
    ]);
    assert_eq!(rows.headers, id_and_name());
    assert_eq!(
        rows.rows,
        vec![vec!["1".to_string(), "ann".to_string()], vec!["2".to_string(), "bob".to_string()]]
    );
    assert_eq!(rows.rows_affected, None);
}

#[test]
fn read_keeps_the_order_of_rows() {
    let rows = Rows::from_fetched(vec![
        Some(row(id_and_name(), &["3", "c"])),
        Some(row(id_and_name(), &["1", "a"])),
        Some(row(id_and_name(), &["2", "b"])),
    ]);
    let ids: Vec<&str> = rows.rows.iter().map(|r| r[0].as_str()).collect();
    assert_eq!(ids, vec!["3", "1", "2"]);
}

#[test]
fn read_passes_over_rows_that_failed_to_fetch() {
    let rows = Rows::from_fetched(vec![
        None,
        Some(row(id_and_name(), &["1", "ann"])),
        None,
        Some(row(id_and_name(), &["2", "bob"])),
        None,
    ]);
    assert_eq!(rows.headers, id_and_name());
    assert_eq!(rows.rows.len(), 2);
    assert_eq!(rows.rows[0], vec!["1".to_string(), "ann".to_string()]);
    assert_eq!(rows.rows[1], vec!["2".to_string(), "bob".to_string()]);
}

#[test]
fn read_of_only_failed_rows_is_empty() {
    let rows = Rows::from_fetched(vec![None, None]);
    assert_eq!(rows, Rows { headers: Vec::new(), rows: Vec::new(), rows_affected: None });
}

#[test]
fn later_rows_do_not_change_the_headers() {
    let rows = Rows::from_fetched(vec![
        Some(row(vec![header("A", "NUMBER")], &["1"])),
        Some(row(vec![header("B", "DATE"), header("C", "CLOB")], &["x", "y"])),
    ]);
    assert_eq!(rows.headers, vec![header("A", "NUMBER")]);
    assert_eq!(rows.rows, vec![vec!["1".to_string()], vec!["x".to_string(), "y".to_string()]]);
}

#[test]
fn a_first_row_without_columns_gives_no_headers() {
    let rows = Rows::from_fetched(vec![
        Some(row(Vec::new(), &[])),
        Some(row(vec![header("A", "NUMBER")], &["1"])),
    ]);
    assert_eq!(rows.headers, Vec::new());
    assert_eq!(rows.rows, vec![Vec::new(), vec!["1".to_string()]]);
}

#[test]
fn mutation_reports_only_the_count() {
    assert_eq!(
        Rows::affected(Some(7)),
        Rows { headers: Vec::new(), rows: Vec::new(), rows_affected: Some(7) }
    );
}

#[test]
fn unknown_count_is_not_zero() {
    let unknown = Rows::affected(None);
    let zero = Rows::affected(Some(0));
    assert_eq!(unknown.rows_affected, None);
    assert_eq!(zero.rows_affected, Some(0));
    assert_ne!(unknown, zero);
    assert!(unknown.headers.is_empty() && unknown.rows.is_empty());
    assert!(zero.headers.is_empty() && zero.rows.is_empty());
}

#[test]
fn query_failure_message_has_its_prefix() {
    let error = ExecutionError::Query("ORA-00942: table or view does not exist".to_string());
    assert_eq!(error.message(), "Error executing query: ORA-00942: table or view does not exist");
}

#[test]
fn statement_failure_message_has_its_prefix() {
    let error = ExecutionError::Statement("ORA-00001: unique constraint violated".to_string());
    assert_eq!(error.message(), "Error executing statement: ORA-00001: unique constraint violated");
}

#[test]
fn pool_failure_message_is_the_detail() {
    let error = ExecutionError::Pool(PoolExhausted { detail: "DPI-1010: not connected".to_string() });
    assert_eq!(error.message(), "DPI-1010: not connected");
}

#[test]
fn failure_message_of_empty_detail_is_the_prefix() {
    assert_eq!(ExecutionError::Query(String::new()).message(), "Error executing query: ");
    assert_eq!(ExecutionError::Statement(String::new()).message(), "Error executing statement: ");
    assert_eq!(ExecutionError::Pool(PoolExhausted { detail: String::new() }).message(), "");
}

#[test]
fn read_worker_result_shapes_the_rows() {
    let out = QueryResultsWithMetadata::of_read(Ok(vec![
        None,
        Some(row(id_and_name(), &["1", "ann"])),
    ]));
    assert_eq!(out.statement_kind, StatementKind::ReadQuery);
    assert_eq!(
        out.results,
        Ok(Rows {
            headers: id_and_name(),
            rows: vec![vec!["1".to_string(), "ann".to_string()]],
            rows_affected: None,
        })
    );
}

#[test]
fn read_worker_result_of_no_rows_is_empty_and_no_error() {
    let out = QueryResultsWithMetadata::of_read(Ok(Vec::new()));
    assert_eq!(out.statement_kind, StatementKind::ReadQuery);
    assert_eq!(out.results, Ok(Rows { headers: Vec::new(), rows: Vec::new(), rows_affected: None }));
}

#[test]
fn read_worker_result_keeps_the_failure() {
    let failure = ExecutionError::Query("ORA-00904: invalid identifier".to_string());
    let out = QueryResultsWithMetadata::of_read(Err(failure.clone()));
    assert_eq!(out.statement_kind, StatementKind::ReadQuery);
    assert_eq!(out.results, Err(failure));
}

#[test]
fn transaction_worker_result_reports_only_the_count() {
    let out = QueryResultsWithMetadata::of_mutation(Ok(Some(12)));
    assert_eq!(out.statement_kind, StatementKind::MutatingStatement);
    assert_eq!(out.results, Ok(Rows { headers: Vec::new(), rows: Vec::new(), rows_affected: Some(12) }));
    let out = QueryResultsWithMetadata::of_mutation(Ok(None));
    assert_eq!(out.results, Ok(Rows { headers: Vec::new(), rows: Vec::new(), rows_affected: None }));
}

#[test]
fn transaction_worker_result_keeps_the_failure() {
    let failure = ExecutionError::Statement("ORA-02291: integrity constraint violated".to_string());
    let out = QueryResultsWithMetadata::of_mutation(Err(failure.clone()));
    assert_eq!(out.statement_kind, StatementKind::MutatingStatement);
    assert_eq!(out.results, Err(failure));
}
