use crate::error::ClassifyError;
use crate::error::ClassifyErrorView;
use sqlparser::ast::Statement;
use sqlparser::dialect::GenericDialect;
use sqlparser::parser::Parser;
use vstd::prelude::*;

verus! {

/// How a statement was classified before it is run.
#[derive(Clone, Copy, Debug, PartialEq, Eq, Structural)]
pub enum StatementKind {
    /// The statement only reads: its worker borrows a pooled connection and gives
    /// it back when it ends.
    ReadQuery,
    /// The statement may change data or open a transaction: its connection is kept
    /// until the caller commits or rolls back.
    MutatingStatement,
}

/// One statement as the parser saw it: its text, written back out by the parser,
/// and whether it is a query.
#[derive(Clone, Debug, PartialEq, Eq)]
pub struct ParsedStatement {
    pub text: String,
    pub is_query: bool,
}

impl View for ParsedStatement {
    type V = (Seq<char>, bool);

    open spec fn view(&self) -> (Seq<char>, bool) {
        (self.text@, self.is_query)
    }
}

impl DeepView for ParsedStatement {
    type V = (Seq<char>, bool);

    open spec fn deep_view(&self) -> (Seq<char>, bool) {
        self@
    }
}

/// The statement that will run: the first one of the text, and its kind.
#[derive(Clone, Debug, PartialEq, Eq)]
pub struct FirstStatement {
    pub text: String,
    pub kind: StatementKind,
}

/// A `FirstStatement` as text.
pub struct FirstStatementView {
    pub text: Seq<char>,
    pub kind: StatementKind,
}

impl View for FirstStatement {
    type V = FirstStatementView;

    open spec fn view(&self) -> FirstStatementView {
        FirstStatementView { text: self.text@, kind: self.kind }
    }
}

/// What the SQL parser makes of `sql` under the generic dialect: the statements in
/// order, each with its text and whether it is a query, or the parser's message.
pub uninterp spec fn parsed_sql(sql: Seq<char>) -> Result<Seq<(Seq<char>, bool)>, Seq<char>>;

/// An outcome of parsing, as text.
pub open spec fn parse_view(parsed: Result<Vec<ParsedStatement>, String>) -> Result<
    Seq<(Seq<char>, bool)>,
    Seq<char>,
> {
    match parsed {
        Ok(statements) => Ok(statements.deep_view()),
        Err(message) => Err(message@),
    }
}

/// A classification, as text.
pub open spec fn classify_view(outcome: Result<FirstStatement, ClassifyError>) -> Result<
    FirstStatementView,
    ClassifyErrorView,
> {
    match outcome {
        Ok(first) => Ok(first@),
        Err(error) => Err(error@),
    }
}

/// The kind of a statement that is, or is not, a query.
pub open spec fn kind_of(is_query: bool) -> StatementKind {
    if is_query {
        StatementKind::ReadQuery
    } else {
        StatementKind::MutatingStatement
    }
}

/// The classification that follows from an outcome of parsing: the first statement
/// with its kind; a failure where the parser failed or found no statement.
pub open spec fn classification(parsed: Result<Seq<(Seq<char>, bool)>, Seq<char>>) -> Result<
    FirstStatementView,
    ClassifyErrorView,
> {
    match parsed {
        Err(message) => Err(ClassifyErrorView::Unparsable(message)),
        Ok(statements) => if statements.len() == 0 {
            Err(ClassifyErrorView::Empty)
        } else {
            Ok(FirstStatementView { text: statements[0].0, kind: kind_of(statements[0].1) })
        },
    }
}

/// `sqlparser::parser::Parser::parse_sql` under `GenericDialect`: parsing is a
/// function of the text alone, and this hands its outcome over as plain values.
/// Each statement is rendered by its `Display` impl and marked as a query where it
/// is the `Statement::Query` variant; a failure is rendered by the `Display` impl
/// of `ParserError`. What the parser accepts is not stated here, only named, but
/// for one fact: a text without a single character has no token, and the parser
/// returns no statement for it.
#[verifier::external_body]
fn parse_sql(sql: &str) -> (parsed: Result<Vec<ParsedStatement>, String>)
    ensures
        parse_view(parsed) == parsed_sql(sql@),
        sql@.len() == 0 ==> parsed is Ok && parsed->Ok_0@.len() == 0,
{
    match Parser::parse_sql(&GenericDialect {}, sql) {
        Ok(statements) => Ok(
            statements.iter().map(
                |s| ParsedStatement { text: s.to_string(), is_query: matches!(s, Statement::Query(_)) },
            ).collect(),
        ),
        Err(error) => Err(error.to_string()),
    }
}

/// Picks the statement to run out of what the parser returned.
pub fn first_statement(parsed: Result<Vec<ParsedStatement>, String>) -> (outcome: Result<
    FirstStatement,
    ClassifyError,
>)
    ensures
        classify_view(outcome) == classification(parse_view(parsed)),
{
    match parsed {
        Err(message) => Err(ClassifyError::Unparsable(message)),
        Ok(mut statements) => {
            if statements.len() == 0 {
                Err(ClassifyError::Empty)
            } else {
                let ParsedStatement { text, is_query } = statements.swap_remove(0);
                let kind = if is_query {
                    StatementKind::ReadQuery
                } else {
                    StatementKind::MutatingStatement
                };
                Ok(FirstStatement { text, kind })
            }
        },
    }
}

/// Classifies `sql`: parses it and picks its first statement. Fails where the text
/// holds no statement, as an empty text does, or the parser rejects it.
pub fn classify(sql: &str) -> (outcome: Result<FirstStatement, ClassifyError>)
    ensures
        classify_view(outcome) == classification(parsed_sql(sql@)),
        sql@.len() == 0 ==> outcome is Err && outcome->Err_0 is Empty,
{
    first_statement(parse_sql(sql))
}

} // verus!
