use quic_transport::error::{FailureCause, IoErrorKind, TransportError};
use std::io::{Error, ErrorKind};

fn io(kind: IoErrorKind, description: &str) -> TransportError {
    TransportError::Io { kind, description: description.to_string() }
}

fn disconnected(description: &str) -> TransportError {
    TransportError::Disconnected { connection_error: Some(description.to_string()) }
}

#[test]
fn version_mismatch_is_unsupported_io() {
    assert_eq!(
        TransportError::from_cause(FailureCause::VersionMismatch),
        io(IoErrorKind::Unsupported, "Quic version mismatch")
    );
}

#[test]
fn transport_violation_is_unsupported_io_with_its_text() {
    assert_eq!(
        TransportError::from_cause(FailureCause::TransportError("PROTOCOL_VIOLATION".to_string())),
        io(IoErrorKind::Unsupported, "PROTOCOL_VIOLATION")
    );
}

#[test]
fn reset_is_connection_reset_io() {
    assert_eq!(
        TransportError::from_cause(FailureCause::Reset),
        io(IoErrorKind::ConnectionReset, "connection reset")
    );
}

#[test]
fn timeout_is_timed_out_io() {
    assert_eq!(
        TransportError::from_cause(FailureCause::TimedOut),
        io(IoErrorKind::TimedOut, "timed out")
    );
}

#[test]
fn closes_are_disconnected() {
    assert_eq!(
        TransportError::from_cause(FailureCause::ConnectionClosed("the peer left".to_string())),
        disconnected("the peer left")
    );
    assert_eq!(
        TransportError::from_cause(FailureCause::ApplicationClosed("done (code 3)".to_string())),
        disconnected("done (code 3)")
    );
    assert_eq!(
        TransportError::from_cause(FailureCause::LocallyClosed),
        disconnected("Connection closed locally")
    );
    assert_eq!(
        TransportError::from_cause(FailureCause::ConnectionLost("timed out".to_string())),
        disconnected("timed out")
    );
}

#[test]
fn stream_causes_are_io() {
    assert_eq!(
        TransportError::from_cause(FailureCause::Stopped("17".to_string())),
        io(IoErrorKind::ConnectionReset, "17")
    );
    assert_eq!(
        TransportError::from_cause(FailureCause::UnknownStream),
        io(IoErrorKind::ConnectionReset, "unknown quic stream")
    );
    assert_eq!(
        TransportError::from_cause(FailureCause::ZeroRttRejected),
        io(IoErrorKind::ConnectionRefused, "zero rtt rejected")
    );
}

#[test]
fn local_io_failure_keeps_kind_and_text() {
    for kind in [
        IoErrorKind::ConnectionReset,
        IoErrorKind::Unsupported,
        IoErrorKind::TimedOut,
        IoErrorKind::ConnectionRefused,
        IoErrorKind::Other,
    ] {
        assert_eq!(
            TransportError::from_cause(FailureCause::Io(kind, "broken pipe".to_string())),
            io(kind, "broken pipe")
        );
    }
}

#[test]
fn every_cause_is_one_of_the_two_kinds() {
    let text = || "x".to_string();
    let table = vec![
        (FailureCause::VersionMismatch, false),
        (FailureCause::TransportError(text()), false),
        (FailureCause::Reset, false),
        (FailureCause::TimedOut, false),
        (FailureCause::ConnectionClosed(text()), true),
        (FailureCause::ApplicationClosed(text()), true),
        (FailureCause::LocallyClosed, true),
        (FailureCause::Stopped(text()), false),
        (FailureCause::ConnectionLost(text()), true),
        (FailureCause::UnknownStream, false),
        (FailureCause::ZeroRttRejected, false),
        (FailureCause::Io(IoErrorKind::Other, text()), false),
    ];
    for (cause, gone) in table {
        let first = TransportError::from_cause(cause.clone());
        let second = TransportError::from_cause(cause);
        assert_eq!(first, second);
        assert_eq!(first.is_disconnected(), gone);
        assert!(first.description().is_some());
    }
}

#[test]
fn description_of_a_bare_disconnect_is_none() {
    let e = TransportError::Disconnected { connection_error: None };
    assert!(e.is_disconnected());
    assert_eq!(e.description(), None);
}

#[test]
fn connection_errors_of_the_transport_are_classified() {
    assert_eq!(
        TransportError::from(quinn::ConnectionError::VersionMismatch),
        io(IoErrorKind::Unsupported, "Quic version mismatch")
    );
    assert_eq!(
        TransportError::from(quinn::ConnectionError::Reset),
        io(IoErrorKind::ConnectionReset, "connection reset")
    );
    assert_eq!(
        TransportError::from(quinn::ConnectionError::TimedOut),
        io(IoErrorKind::TimedOut, "timed out")
    );
    assert_eq!(
        TransportError::from(quinn::ConnectionError::LocallyClosed),
        disconnected("Connection closed locally")
    );
    let close = quinn::ApplicationClose {
        error_code: quinn::VarInt::from_u32(3),
        reason: bytes::Bytes::from_static(b"done"),
    };
    assert_eq!(
        TransportError::from(quinn::ConnectionError::ApplicationClosed(close)),
        disconnected("done (code 3)")
    );
}

#[test]
fn write_errors_of_the_transport_are_classified() {
    assert_eq!(
        TransportError::from(quinn::WriteError::Stopped(quinn::VarInt::from_u32(17))),
        io(IoErrorKind::ConnectionReset, "17")
    );
    assert_eq!(
        TransportError::from(quinn::WriteError::ConnectionLost(quinn::ConnectionError::TimedOut)),
        disconnected("timed out")
    );
    assert_eq!(
        TransportError::from(quinn::WriteError::UnknownStream),
        io(IoErrorKind::ConnectionReset, "unknown quic stream")
    );
    assert_eq!(
        TransportError::from(quinn::WriteError::ZeroRttRejected),
        io(IoErrorKind::ConnectionRefused, "zero rtt rejected")
    );
}

#[test]
fn causes_of_the_transport_keep_their_variant() {
    assert_eq!(FailureCause::from(quinn::ConnectionError::Reset), FailureCause::Reset);
    assert_eq!(FailureCause::from(quinn::ConnectionError::TimedOut), FailureCause::TimedOut);
    assert_eq!(
        FailureCause::from(quinn::ConnectionError::VersionMismatch),
        FailureCause::VersionMismatch
    );
    assert_eq!(
        FailureCause::from(quinn::ConnectionError::LocallyClosed),
        FailureCause::LocallyClosed
    );
    assert_eq!(FailureCause::from(quinn::WriteError::UnknownStream), FailureCause::UnknownStream);
    assert_eq!(
        FailureCause::from(quinn::WriteError::ZeroRttRejected),
        FailureCause::ZeroRttRejected
    );
    assert_eq!(
        FailureCause::from(quinn::WriteError::ConnectionLost(quinn::ConnectionError::Reset)),
        FailureCause::ConnectionLost("reset by peer".to_string())
    );
}

#[test]
fn local_io_errors_keep_their_category_and_text() {
    assert_eq!(
        FailureCause::from(Error::new(ErrorKind::TimedOut, "late")),
        FailureCause::Io(IoErrorKind::TimedOut, "late".to_string())
    );
    assert_eq!(
        FailureCause::from(Error::new(ErrorKind::ConnectionReset, "gone")),
        FailureCause::Io(IoErrorKind::ConnectionReset, "gone".to_string())
    );
    assert_eq!(
        FailureCause::from(Error::new(ErrorKind::ConnectionRefused, "no")),
        FailureCause::Io(IoErrorKind::ConnectionRefused, "no".to_string())
    );
    assert_eq!(
        FailureCause::from(Error::new(ErrorKind::Unsupported, "what")),
        FailureCause::Io(IoErrorKind::Unsupported, "what".to_string())
    );
    assert_eq!(
        FailureCause::from(Error::new(ErrorKind::NotConnected, "unknown stream")),
        FailureCause::Io(IoErrorKind::Other, "unknown stream".to_string())
    );
    assert_eq!(
        TransportError::from_cause(FailureCause::from(Error::new(ErrorKind::InvalidData, "bad"))),
        io(IoErrorKind::Other, "bad")
    );
}
