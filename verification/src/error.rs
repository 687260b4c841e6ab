//! Failure causes of the underlying connection and their classification into
//! the two error kinds that callers see.
use vstd::prelude::*;

verus! {

/// Category of a call-scoped failure.
#[derive(Clone, Copy, Debug, PartialEq, Eq, Structural)]
pub enum IoErrorKind {
    ConnectionReset,
    Unsupported,
    TimedOut,
    ConnectionRefused,
    Other,
}

/// Error returned by a call on a connection handle.
#[derive(Clone, Debug, PartialEq, Eq)]
pub enum TransportError {
    /// The call failed; the connection may still be usable.
    Io { kind: IoErrorKind, description: String },
    /// The connection is gone.
    Disconnected { connection_error: Option<String> },
}

/// Mathematical value of a [`TransportError`].
pub enum TransportErrorView {
    Io { kind: IoErrorKind, description: Seq<char> },
    Disconnected { connection_error: Option<Seq<char>> },
}

impl View for TransportError {
    type V = TransportErrorView;

    open spec fn view(&self) -> TransportErrorView {
        match *self {
            TransportError::Io { kind, description } => TransportErrorView::Io {
                kind,
                description: description@,
            },
            TransportError::Disconnected { connection_error } => TransportErrorView::Disconnected {
                connection_error: match connection_error {
                    Some(d) => Some(d@),
                    None => None,
                },
            },
        }
    }
}

/// Every way in which an operation on the connection or on one of its streams
/// can fail. The texts are the descriptions that the transport gives.
#[derive(Clone, Debug, PartialEq, Eq)]
pub enum FailureCause {
    /// The peer implements no supported protocol version.
    VersionMismatch,
    /// The peer violated the transport protocol.
    TransportError(String),
    /// The peer reset the connection.
    Reset,
    /// The connection idled past its timeout.
    TimedOut,
    /// The peer's transport closed the connection.
    ConnectionClosed(String),
    /// The peer's application closed the connection.
    ApplicationClosed(String),
    /// This endpoint closed the connection.
    LocallyClosed,
    /// The peer stopped accepting data on the stream.
    Stopped(String),
    /// The connection was lost while the stream was in use.
    ConnectionLost(String),
    /// The stream is finished, reset or unknown.
    UnknownStream,
    /// Early data was rejected by the peer.
    ZeroRttRejected,
    /// A local I/O operation failed.
    Io(IoErrorKind, String),
}

/// Mathematical value of a [`FailureCause`].
pub enum FailureCauseView {
    VersionMismatch,
    TransportError(Seq<char>),
    Reset,
    TimedOut,
    ConnectionClosed(Seq<char>),
    ApplicationClosed(Seq<char>),
    LocallyClosed,
    Stopped(Seq<char>),
    ConnectionLost(Seq<char>),
    UnknownStream,
    ZeroRttRejected,
    Io(IoErrorKind, Seq<char>),
}

impl View for FailureCause {
    type V = FailureCauseView;

    open spec fn view(&self) -> FailureCauseView {
        match *self {
            FailureCause::VersionMismatch => FailureCauseView::VersionMismatch,
            FailureCause::TransportError(d) => FailureCauseView::TransportError(d@),
            FailureCause::Reset => FailureCauseView::Reset,
            FailureCause::TimedOut => FailureCauseView::TimedOut,
            FailureCause::ConnectionClosed(d) => FailureCauseView::ConnectionClosed(d@),
            FailureCause::ApplicationClosed(d) => FailureCauseView::ApplicationClosed(d@),
            FailureCause::LocallyClosed => FailureCauseView::LocallyClosed,
            FailureCause::Stopped(d) => FailureCauseView::Stopped(d@),
            FailureCause::ConnectionLost(d) => FailureCauseView::ConnectionLost(d@),
            FailureCause::UnknownStream => FailureCauseView::UnknownStream,
            FailureCause::ZeroRttRejected => FailureCauseView::ZeroRttRejected,
            FailureCause::Io(kind, d) => FailureCauseView::Io(kind, d@),
        }
    }
}

/// The classification table: the error that each failure cause becomes.
pub open spec fn classify(cause: FailureCauseView) -> TransportErrorView {
    match cause {
        FailureCauseView::VersionMismatch => TransportErrorView::Io {
            kind: IoErrorKind::Unsupported,
            description: "Quic version mismatch"@,
        },
        FailureCauseView::TransportError(d) => TransportErrorView::Io {
            kind: IoErrorKind::Unsupported,
            description: d,
        },
        FailureCauseView::Reset => TransportErrorView::Io {
            kind: IoErrorKind::ConnectionReset,
            description: "connection reset"@,
        },
        FailureCauseView::TimedOut => TransportErrorView::Io {
            kind: IoErrorKind::TimedOut,
            description: "timed out"@,
        },
        FailureCauseView::ConnectionClosed(d) => TransportErrorView::Disconnected {
            connection_error: Some(d),
        },
        FailureCauseView::ApplicationClosed(d) => TransportErrorView::Disconnected {
            connection_error: Some(d),
        },
        FailureCauseView::LocallyClosed => TransportErrorView::Disconnected {
            connection_error: Some("Connection closed locally"@),
        },
        FailureCauseView::Stopped(d) => TransportErrorView::Io {
            kind: IoErrorKind::ConnectionReset,
            description: d,
        },
        FailureCauseView::ConnectionLost(d) => TransportErrorView::Disconnected {
            connection_error: Some(d),
        },
        FailureCauseView::UnknownStream => TransportErrorView::Io {
            kind: IoErrorKind::ConnectionReset,
            description: "unknown quic stream"@,
        },
        FailureCauseView::ZeroRttRejected => TransportErrorView::Io {
            kind: IoErrorKind::ConnectionRefused,
            description: "zero rtt rejected"@,
        },
        FailureCauseView::Io(kind, d) => TransportErrorView::Io { kind, description: d },
    }
}

/// Whether a cause means that the connection itself is gone.
pub open spec fn connection_is_gone(cause: FailureCauseView) -> bool {
    cause is ConnectionClosed || cause is ApplicationClosed || cause is LocallyClosed
        || cause is ConnectionLost
}

/// Whether a cause is one that the connection reports when it is lost.
pub open spec fn is_connection_cause(cause: FailureCauseView) -> bool {
    cause is VersionMismatch || cause is TransportError || cause is Reset || cause is TimedOut
        || cause is ConnectionClosed || cause is ApplicationClosed || cause is LocallyClosed
}

/// Whether a cause is one that a write to a stream reports.
pub open spec fn is_write_cause(cause: FailureCauseView) -> bool {
    cause is Stopped || cause is ConnectionLost || cause is UnknownStream
        || cause is ZeroRttRejected
}

/// Every cause is classified, as exactly one of the two kinds, and the kind
/// is `Disconnected` exactly for the causes that end the connection.
pub proof fn classification_is_exhaustive(cause: FailureCauseView)
    ensures
        classify(cause) is Io <==> !connection_is_gone(cause),
        classify(cause) is Disconnected <==> connection_is_gone(cause),
        classify(cause) is Disconnected ==> classify(cause)->connection_error is Some,
{
}

impl TransportError {
    /// Classifies a failure cause.
    pub fn from_cause(cause: FailureCause) -> (r: TransportError)
        ensures
            r@ == classify(cause@),
    {
        match cause {
            FailureCause::VersionMismatch => TransportError::Io {
                kind: IoErrorKind::Unsupported,
                description: "Quic version mismatch".to_owned(),
            },
            FailureCause::TransportError(d) => TransportError::Io {
                kind: IoErrorKind::Unsupported,
                description: d,
            },
            FailureCause::Reset => TransportError::Io {
                kind: IoErrorKind::ConnectionReset,
                description: "connection reset".to_owned(),
            },
            FailureCause::TimedOut => TransportError::Io {
                kind: IoErrorKind::TimedOut,
                description: "timed out".to_owned(),
            },
            FailureCause::ConnectionClosed(d) => TransportError::Disconnected {
                connection_error: Some(d),
            },
            FailureCause::ApplicationClosed(d) => TransportError::Disconnected {
                connection_error: Some(d),
            },
            FailureCause::LocallyClosed => TransportError::Disconnected {
                connection_error: Some("Connection closed locally".to_owned()),
            },
            FailureCause::Stopped(d) => TransportError::Io {
                kind: IoErrorKind::ConnectionReset,
                description: d,
            },
            FailureCause::ConnectionLost(d) => TransportError::Disconnected {
                connection_error: Some(d),
            },
            FailureCause::UnknownStream => TransportError::Io {
                kind: IoErrorKind::ConnectionReset,
                description: "unknown quic stream".to_owned(),
            },
            FailureCause::ZeroRttRejected => TransportError::Io {
                kind: IoErrorKind::ConnectionRefused,
                description: "zero rtt rejected".to_owned(),
            },
            FailureCause::Io(kind, d) => TransportError::Io { kind, description: d },
        }
    }

    /// Whether the connection that gave this error is gone.
    pub fn is_disconnected(&self) -> (r: bool)
        ensures
            r == (self@ is Disconnected),
    {
        match self {
            TransportError::Io { .. } => false,
            TransportError::Disconnected { .. } => true,
        }
    }

    /// The text that describes this error, if it has one.
    pub fn description(&self) -> (r: Option<String>)
        ensures
            match self@ {
                TransportErrorView::Io { description, .. } => r is Some && r->0@ == description,
                TransportErrorView::Disconnected { connection_error } => match connection_error {
                    Some(d) => r is Some && r->0@ == d,
                    None => r is None,
                },
            },
    {
        match self {
            TransportError::Io { description, .. } => Some(description.clone()),
            TransportError::Disconnected { connection_error } => match connection_error {
                Some(d) => Some(d.clone()),
                None => None,
            },
        }
    }
}

/// `quinn::ConnectionError`, carried through as an opaque value.
#[verifier::external_type_specification]
#[verifier::external_body]
pub struct ExConnectionError(quinn::ConnectionError);

/// `quinn::WriteError`, carried through as an opaque value.
#[verifier::external_type_specification]
#[verifier::external_body]
pub struct ExWriteError(quinn::WriteError);

/// The cause that stands for a `quinn::ConnectionError`: the cause of the
/// same name as its variant, with the `Display` text of what the variant
/// carries.
pub uninterp spec fn connection_cause(e: quinn::ConnectionError) -> FailureCauseView;

/// The cause that stands for a `quinn::WriteError`: the cause of the same
/// name as its variant, with the `Display` text of what the variant carries.
pub uninterp spec fn write_cause(e: quinn::WriteError) -> FailureCauseView;

/// The category of a `std::io::Error`, where its kind is one of the four
/// that the closed set of categories names.
pub uninterp spec fn io_kind(e: std::io::Error) -> Option<IoErrorKind>;

/// Tells the variants of `quinn::ConnectionError` apart, one cause for each,
/// and takes the description of a variant that carries data from the
/// `Display` text of what it carries. Not proved: which cause stands for
/// which variant. Claimed: the result is the value named `connection_cause`
/// of the error, a function of the error alone, and is one of the seven
/// causes that this function can give.
#[verifier::external_body]
fn connection_error_cause(e: quinn::ConnectionError) -> (r: FailureCause)
    ensures
        r@ == connection_cause(e),
        is_connection_cause(r@),
{
    match e {
        quinn::ConnectionError::VersionMismatch => FailureCause::VersionMismatch,
        quinn::ConnectionError::TransportError(x) => FailureCause::TransportError(x.to_string()),
        quinn::ConnectionError::Reset => FailureCause::Reset,
        quinn::ConnectionError::TimedOut => FailureCause::TimedOut,
        quinn::ConnectionError::ConnectionClosed(x) => FailureCause::ConnectionClosed(x.to_string()),
        quinn::ConnectionError::ApplicationClosed(x) => FailureCause::ApplicationClosed(x.to_string()),
        quinn::ConnectionError::LocallyClosed => FailureCause::LocallyClosed,
    }
}

/// Tells the variants of `quinn::WriteError` apart, one cause for each, and
/// takes the description of a variant that carries data from the `Display`
/// text of what it carries. Not proved: which cause stands for which
/// variant. Claimed: the result is the value named `write_cause` of the
/// error, a function of the error alone, and is one of the four causes that
/// this function can give.
#[verifier::external_body]
fn write_error_cause(e: quinn::WriteError) -> (r: FailureCause)
    ensures
        r@ == write_cause(e),
        is_write_cause(r@),
{
    match e {
        quinn::WriteError::Stopped(code) => FailureCause::Stopped(code.to_string()),
        quinn::WriteError::ConnectionLost(x) => FailureCause::ConnectionLost(x.to_string()),
        quinn::WriteError::UnknownStream => FailureCause::UnknownStream,
        quinn::WriteError::ZeroRttRejected => FailureCause::ZeroRttRejected,
    }
}

/// `std::io::Error`, carried through as an opaque value.
#[verifier::external_type_specification]
#[verifier::external_body]
pub struct ExIoError(std::io::Error);

/// `std::io::Error::kind`, where it is one of the four kinds that the
/// closed set of categories names; `None` for every other kind. Claimed:
/// the result is the value named `io_kind` of the error, a function of the
/// error alone.
#[verifier::external_body]
fn io_error_kind(e: &std::io::Error) -> (r: Option<IoErrorKind>)
    ensures
        r == io_kind(*e),
{
    match e.kind() {
        std::io::ErrorKind::ConnectionReset => Some(IoErrorKind::ConnectionReset),
        std::io::ErrorKind::Unsupported => Some(IoErrorKind::Unsupported),
        std::io::ErrorKind::TimedOut => Some(IoErrorKind::TimedOut),
        std::io::ErrorKind::ConnectionRefused => Some(IoErrorKind::ConnectionRefused),
        _ => None,
    }
}

/// The `Display` text of a `std::io::Error`. Nothing is claimed of the
/// result.
#[verifier::external_body]
fn io_error_text(e: &std::io::Error) -> (r: String) {
    e.to_string()
}

impl From<std::io::Error> for FailureCause {
    /// The cause that stands for a failed local I/O operation: its text and
    /// its category, which is `Other` for a kind that the closed set does
    /// not name.
    fn from(value: std::io::Error) -> (r: FailureCause)
        ensures
            match r@ {
                FailureCauseView::Io(kind, _) => kind == match io_kind(value) {
                    Some(named) => named,
                    None => IoErrorKind::Other,
                },
                _ => false,
            },
    {
        let kind = match io_error_kind(&value) {
            Some(kind) => kind,
            None => IoErrorKind::Other,
        };
        let text = io_error_text(&value);
        FailureCause::Io(kind, text)
    }
}

impl vstd::std_specs::convert::FromSpecImpl<std::io::Error> for FailureCause {
    open spec fn obeys_from_spec() -> bool {
        false
    }

    open spec fn from_spec(value: std::io::Error) -> FailureCause {
        arbitrary()
    }
}

impl From<quinn::ConnectionError> for FailureCause {
    /// The cause that stands for the reason for which a connection was lost.
    fn from(value: quinn::ConnectionError) -> (r: FailureCause)
        ensures
            r@ == connection_cause(value),
            is_connection_cause(r@),
    {
        connection_error_cause(value)
    }
}

impl vstd::std_specs::convert::FromSpecImpl<quinn::ConnectionError> for FailureCause {
    open spec fn obeys_from_spec() -> bool {
        false
    }

    open spec fn from_spec(value: quinn::ConnectionError) -> FailureCause {
        arbitrary()
    }
}

impl From<quinn::WriteError> for FailureCause {
    /// The cause that stands for the reason for which a stream write failed.
    fn from(value: quinn::WriteError) -> (r: FailureCause)
        ensures
            r@ == write_cause(value),
            is_write_cause(r@),
    {
        write_error_cause(value)
    }
}

impl vstd::std_specs::convert::FromSpecImpl<quinn::WriteError> for FailureCause {
    open spec fn obeys_from_spec() -> bool {
        false
    }

    open spec fn from_spec(value: quinn::WriteError) -> FailureCause {
        arbitrary()
    }
}

impl From<quinn::ConnectionError> for TransportError {
    /// Classifies the reason for which a connection was lost.
    fn from(value: quinn::ConnectionError) -> (r: TransportError)
        ensures
            r@ == classify(connection_cause(value)),
            is_connection_cause(connection_cause(value)),
    {
        let cause = connection_error_cause(value);
        TransportError::from_cause(cause)
    }
}

impl vstd::std_specs::convert::FromSpecImpl<quinn::ConnectionError> for TransportError {
    open spec fn obeys_from_spec() -> bool {
        false
    }

    open spec fn from_spec(value: quinn::ConnectionError) -> TransportError {
        arbitrary()
    }
}

impl From<quinn::WriteError> for TransportError {
    /// Classifies the reason for which a write to a stream failed.
    fn from(value: quinn::WriteError) -> (r: TransportError)
        ensures
            r@ == classify(write_cause(value)),
            is_write_cause(write_cause(value)),
    {
        let cause = write_error_cause(value);
        TransportError::from_cause(cause)
    }
}

impl vstd::std_specs::convert::FromSpecImpl<quinn::WriteError> for TransportError {
    open spec fn obeys_from_spec() -> bool {
        false
    }

    open spec fn from_spec(value: quinn::WriteError) -> TransportError {
        arbitrary()
    }
}

} // verus!
