//! What can go wrong in one invocation, in four categories.

use vstd::prelude::*;

verus! {

/// Which of the two connections of the bootstrap could not be opened.
#[derive(Clone, Copy, Debug, PartialEq, Eq, Structural)]
pub enum ConnectStage {
    /// The connection to the health service, before any check was made.
    Health,
    /// The connection to the download service, after the health check
    /// had succeeded.
    Download,
}

/// Why a command was turned down before the daemon was contacted.
#[derive(Clone, Copy, Debug, PartialEq, Eq, Structural)]
pub enum Invalid {
    /// The task identifier is empty, or holds a space or a character
    /// outside printable ASCII.
    MalformedTaskId,
    /// The source path is empty or holds a NUL character.
    MalformedSourcePath,
    /// An import asked for no replica at all.
    ZeroReplicas,
    /// The source file does not exist or cannot be read.
    UnreadableSource,
}

/// The four categories of failure.
#[derive(Clone, Copy, Debug, PartialEq, Eq, Structural)]
pub enum ErrorKind {
    Connection,
    ServiceUnavailable,
    Validation,
    Operation,
}

/// A failure of one invocation. Causes reported by the daemon or by the
/// operating system are carried as they were received.
#[derive(Debug, PartialEq, Eq)]
pub enum Error {
    /// The endpoint could not be reached.
    Connection { stage: ConnectStage, cause: String },
    /// The daemon was reached but its download service is not ready:
    /// either it said so (`None`) or the health call itself failed, and
    /// `failure` holds what the call reported.
    ServiceUnavailable { failure: Option<String> },
    /// The command was malformed; nothing was sent to the daemon.
    Validation { reason: Invalid },
    /// The daemon accepted the bootstrap and then refused the operation.
    Operation { cause: String },
}

/// The mathematical value of an [`Error`].
pub enum ErrorView {
    Connection { stage: ConnectStage, cause: Seq<char> },
    ServiceUnavailable { failure: Option<Seq<char>> },
    Validation { reason: Invalid },
    Operation { cause: Seq<char> },
}

impl View for Error {
    type V = ErrorView;

    open spec fn view(&self) -> ErrorView {
        match *self {
            Error::Connection { stage, cause } => ErrorView::Connection { stage, cause: cause@ },
            Error::ServiceUnavailable { failure } => ErrorView::ServiceUnavailable {
                failure: match failure {
                    Some(text) => Some(text@),
                    None => None,
                },
            },
            Error::Validation { reason } => ErrorView::Validation { reason },
            Error::Operation { cause } => ErrorView::Operation { cause: cause@ },
        }
    }
}

/// The words every message of a category begins with.
pub open spec fn category_prefix(kind: ErrorKind) -> Seq<char> {
    match kind {
        ErrorKind::Connection => "connection error: "@,
        ErrorKind::ServiceUnavailable => "service unavailable: "@,
        ErrorKind::Validation => "validation error: "@,
        ErrorKind::Operation => "operation error: "@,
    }
}

/// What is wrong with a command that was turned down, in words.
pub open spec fn reason_text(reason: Invalid) -> Seq<char> {
    match reason {
        Invalid::MalformedTaskId => "the task identifier is malformed"@,
        Invalid::MalformedSourcePath => "the source path is malformed"@,
        Invalid::ZeroReplicas => "the replica count must not be zero"@,
        Invalid::UnreadableSource => "the source file is missing or unreadable"@,
    }
}

impl ErrorView {
    /// The category of the failure.
    pub open spec fn kind(self) -> ErrorKind {
        match self {
            ErrorView::Connection { .. } => ErrorKind::Connection,
            ErrorView::ServiceUnavailable { .. } => ErrorKind::ServiceUnavailable,
            ErrorView::Validation { .. } => ErrorKind::Validation,
            ErrorView::Operation { .. } => ErrorKind::Operation,
        }
    }

    /// What follows the category in the message.
    pub open spec fn detail(self) -> Seq<char> {
        match self {
            ErrorView::Connection { stage: ConnectStage::Health, cause } => {
                "health service unreachable: "@ + cause
            },
            ErrorView::Connection { stage: ConnectStage::Download, cause } => {
                "download service unreachable: "@ + cause
            },
            ErrorView::ServiceUnavailable { failure: None } => {
                "the download service is not serving"@
            },
            ErrorView::ServiceUnavailable { failure: Some(text) } => {
                "health check failed: "@ + text
            },
            ErrorView::Validation { reason } => reason_text(reason),
            ErrorView::Operation { cause } => cause,
        }
    }

    /// The message shown to the operator: the category, then the detail.
    pub open spec fn message(self) -> Seq<char> {
        category_prefix(self.kind()) + self.detail()
    }
}

impl Error {
    /// The category this failure belongs to.
    pub fn kind(&self) -> (kind: ErrorKind)
        ensures
            kind == self@.kind(),
    {
        match self {
            Error::Connection { .. } => ErrorKind::Connection,
            Error::ServiceUnavailable { .. } => ErrorKind::ServiceUnavailable,
            Error::Validation { .. } => ErrorKind::Validation,
            Error::Operation { .. } => ErrorKind::Operation,
        }
    }

    /// The message shown to the operator. It begins with the category and
    /// ends with the cause as it was received.
    pub fn message(&self) -> (text: String)
        ensures
            text@ == self@.message(),
    {
        match self {
            Error::Connection { stage, cause } => {
                let head = "connection error: ".to_owned();
                let head = match stage {
                    ConnectStage::Health => head.concat("health service unreachable: "),
                    ConnectStage::Download => head.concat("download service unreachable: "),
                };
                let text = head.concat(cause.as_str());
                assert(text@ =~= self@.message());
                text
            },
            Error::ServiceUnavailable { failure } => {
                let head = "service unavailable: ".to_owned();
                match failure {
                    None => head.concat("the download service is not serving"),
                    Some(reported) => {
                        let text = head.concat("health check failed: ").concat(reported.as_str());
                        assert(text@ =~= self@.message());
                        text
                    },
                }
            },
            Error::Validation { reason } => {
                let head = "validation error: ".to_owned();
                match reason {
                    Invalid::MalformedTaskId => head.concat("the task identifier is malformed"),
                    Invalid::MalformedSourcePath => head.concat("the source path is malformed"),
                    Invalid::ZeroReplicas => head.concat("the replica count must not be zero"),
                    Invalid::UnreadableSource => head.concat(
                        "the source file is missing or unreadable",
                    ),
                }
            },
            Error::Operation { cause } => "operation error: ".to_owned().concat(cause.as_str()),
        }
    }
}

/// Two failures of different categories never print the same message:
/// already the first character tells them apart.
pub proof fn messages_tell_categories_apart(a: ErrorView, b: ErrorView)
    requires
        a.kind() != b.kind(),
    ensures
        a.message() != b.message(),
{
    reveal_strlit("connection error: ");
    reveal_strlit("service unavailable: ");
    reveal_strlit("validation error: ");
    reveal_strlit("operation error: ");
    assert(a.message()[0] == category_prefix(a.kind())[0]);
    assert(b.message()[0] == category_prefix(b.kind())[0]);
    assert(a.message()[0] != b.message()[0]);
}

/// The message keeps the cause it was given: the cause is the tail of the
/// message, unchanged.
pub proof fn message_ends_with_cause(error: ErrorView, cause: Seq<char>)
    requires
        error matches ErrorView::Connection { cause: c, .. } && c == cause
            || error == (ErrorView::ServiceUnavailable { failure: Some(cause) })
            || error == (ErrorView::Operation { cause }),
    ensures
        cause.len() <= error.message().len(),
        error.message().subrange(error.message().len() - cause.len(), error.message().len() as int)
            == cause,
{
    let text = error.message();
    assert(text.subrange(text.len() - cause.len(), text.len() as int) =~= cause);
}

} // verus!
