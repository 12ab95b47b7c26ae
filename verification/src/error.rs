use vstd::prelude::*;
use vstd::string::StringExecFns;

verus! {

/// Why a statement could not be classified. No task is created for it.
#[derive(Clone, Debug, PartialEq, Eq)]
pub enum ClassifyError {
    /// The text holds no statement at all.
    Empty,
    /// The text is not SQL that the parser accepts; the parser's message is kept.
    Unparsable(String),
}

/// A `ClassifyError` as text.
pub enum ClassifyErrorView {
    Empty,
    Unparsable(Seq<char>),
}

impl View for ClassifyError {
    type V = ClassifyErrorView;

    open spec fn view(&self) -> ClassifyErrorView {
        match self {
            ClassifyError::Empty => ClassifyErrorView::Empty,
            ClassifyError::Unparsable(message) => ClassifyErrorView::Unparsable(message@),
        }
    }
}

impl ClassifyError {
    /// The text shown for this failure: a fixed sentence where there was nothing
    /// to run, else the parser's message as it came.
    pub open spec fn message_text(&self) -> Seq<char> {
        match self {
            ClassifyError::Empty => "Parsed query is empty"@,
            ClassifyError::Unparsable(message) => message@,
        }
    }

    /// Renders this failure for display.
    pub fn message(&self) -> (text: String)
        ensures
            text@ == self.message_text(),
    {
        match self {
            ClassifyError::Empty => String::from_str("Parsed query is empty"),
            ClassifyError::Unparsable(message) => message.clone(),
        }
    }
}

/// The pool had no connection to give. The failure is transient; `detail` is the
/// backend's own account of it.
#[derive(Clone, Debug, PartialEq, Eq)]
pub struct PoolExhausted {
    pub detail: String,
}

/// Why a statement was not started. The slot is left as it was.
#[derive(Clone, Debug, PartialEq, Eq)]
pub enum StartError {
    /// The text could not be classified, so no worker was asked for.
    Classify(ClassifyError),
    /// The statement needs a connection of its own and the pool had none to give.
    Pool(PoolExhausted),
}

impl StartError {
    /// The text shown for this failure: that of the classification, or the
    /// backend's account of the pool as it came.
    pub open spec fn message_text(&self) -> Seq<char> {
        match self {
            StartError::Classify(error) => error.message_text(),
            StartError::Pool(exhausted) => exhausted.detail@,
        }
    }

    /// Renders this failure for display.
    pub fn message(&self) -> (text: String)
        ensures
            text@ == self.message_text(),
    {
        match self {
            StartError::Classify(error) => error.message(),
            StartError::Pool(exhausted) => exhausted.detail.clone(),
        }
    }
}

/// A failure while a statement ran. It travels as data inside the result of the
/// task, so that a failed statement can still be shown and, where a connection is
/// held, rolled back.
#[derive(Clone, Debug, PartialEq, Eq)]
pub enum ExecutionError {
    /// No connection could be checked out for a read.
    Pool(PoolExhausted),
    /// The backend rejected or failed a read query.
    Query(String),
    /// The backend rejected or failed a mutating statement.
    Statement(String),
}

impl ExecutionError {
    /// The text shown for this failure: the backend's detail, behind a prefix that
    /// says which kind of statement failed. A pool failure is shown as it came.
    pub open spec fn message_text(&self) -> Seq<char> {
        match self {
            ExecutionError::Pool(exhausted) => exhausted.detail@,
            ExecutionError::Query(detail) => "Error executing query: "@ + detail@,
            ExecutionError::Statement(detail) => "Error executing statement: "@ + detail@,
        }
    }

    /// Renders this failure for display.
    pub fn message(&self) -> (text: String)
        ensures
            text@ == self.message_text(),
    {
        match self {
            ExecutionError::Pool(exhausted) => exhausted.detail.clone(),
            ExecutionError::Query(detail) => String::from_str("Error executing query: ").concat(
                detail.as_str(),
            ),
            ExecutionError::Statement(detail) => String::from_str(
                "Error executing statement: ",
            ).concat(detail.as_str()),
        }
    }
}

} // verus!
