use oracle_driver::classify::classify;
use oracle_driver::classify::first_statement;
use oracle_driver::classify::FirstStatement;
use oracle_driver::classify::ParsedStatement;
use oracle_driver::classify::StatementKind;
use oracle_driver::error::ClassifyError;

fn parsed(text: &str, is_query: bool) -> ParsedStatement {
    ParsedStatement { text: text.to_string(), is_query }
}

#[test]
fn select_is_a_read_query() {
    let first = classify("SELECT 1 FROM dual").unwrap();
    assert_eq!(
        first,
        FirstStatement { text: "SELECT 1 FROM dual".to_string(), kind: StatementKind::ReadQuery }
    );
}

#[test]
fn update_is_a_mutating_statement() {
    let first = classify("UPDATE t SET x=1").unwrap();
    assert_eq!(first.kind, StatementKind::MutatingStatement);
    assert_eq!(first.text, "UPDATE t SET x = 1");
}

#[test]
fn insert_and_delete_are_mutating_statements() {
    assert_eq!(
        classify("INSERT INTO t (x) VALUES (1)").unwrap().kind,
        StatementKind::MutatingStatement
    );
    assert_eq!(classify("DELETE FROM t WHERE x = 1").unwrap().kind, StatementKind::MutatingStatement);
}

#[test]
fn statement_text_is_written_back_by_the_parser() {
    let first = classify("select  1   from dual;").unwrap();
    assert_eq!(first.text, "SELECT 1 FROM dual");
    assert_eq!(first.kind, StatementKind::ReadQuery);
}

#[test]
fn first_of_several_statements_is_taken() {
    let first = classify("SELECT 1 FROM dual; DELETE FROM t").unwrap();
    assert_eq!(
        first,
        FirstStatement { text: "SELECT 1 FROM dual".to_string(), kind: StatementKind::ReadQuery }
    );
    let first = classify("DELETE FROM t; SELECT 1 FROM dual").unwrap();
    assert_eq!(
        first,
        FirstStatement { text: "DELETE FROM t".to_string(), kind: StatementKind::MutatingStatement }
    );
}

#[test]
fn empty_text_is_rejected() {
    assert_eq!(classify(""), Err(ClassifyError::Empty));
    assert_eq!(classify("   \n\t"), Err(ClassifyError::Empty));
    assert_eq!(classify(";"), Err(ClassifyError::Empty));
}

#[test]
fn unparsable_text_is_rejected_with_the_parser_message() {
    match classify("SELEC 1 FROM dual") {
        Err(ClassifyError::Unparsable(message)) => {
            assert!(message.starts_with("sql parser error: "), "{}", message);
        },
        other => panic!("expected an unparsable statement, got {:?}", other),
    }
    assert!(matches!(classify("SELECT 'open"), Err(ClassifyError::Unparsable(_))));
}

#[test]
fn a_query_in_second_place_does_not_save_a_broken_start() {
    assert!(matches!(classify("UPDATE; SELECT 1"), Err(ClassifyError::Unparsable(_))));
}

#[test]
fn first_statement_of_a_parser_failure_keeps_the_message() {
    assert_eq!(
        first_statement(Err("sql parser error: boom".to_string())),
        Err(ClassifyError::Unparsable("sql parser error: boom".to_string()))
    );
}

#[test]
fn first_statement_of_no_statement_is_empty() {
    assert_eq!(first_statement(Ok(Vec::new())), Err(ClassifyError::Empty));
}

#[test]
fn first_statement_picks_the_head_and_its_kind() {
    let picked =
        first_statement(Ok(vec![parsed("DELETE FROM t", false), parsed("SELECT 1", true)]));
    assert_eq!(
        picked,
        Ok(FirstStatement { text: "DELETE FROM t".to_string(), kind: StatementKind::MutatingStatement })
    );
    let picked = first_statement(Ok(vec![parsed("SELECT 1", true)]));
    assert_eq!(
        picked,
        Ok(FirstStatement { text: "SELECT 1".to_string(), kind: StatementKind::ReadQuery })
    );
}

#[test]
fn classification_failures_render_as_text() {
    assert_eq!(ClassifyError::Empty.message(), "Parsed query is empty");
    assert_eq!(ClassifyError::Unparsable("sql parser error: boom".to_string()).message(), "sql parser error: boom");
    let message = classify("SELEC 1").unwrap_err().message();
    assert!(message.starts_with("sql parser error: "), "{}", message);
}
