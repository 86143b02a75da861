use rumble::error::{Error, LogicError, ProtocolError, TransportError};

#[test]
fn every_error_describes_itself() {
    assert_eq!(Error::Transport(TransportError::IoFailure).describe(), "stream i/o failed");
    assert_eq!(Error::Transport(TransportError::Closed).describe(), "stream closed");
    assert_eq!(Error::Protocol(ProtocolError::IncompleteFrame).describe(), "incomplete frame");
    assert_eq!(Error::Protocol(ProtocolError::UnknownTag).describe(), "unknown tag");
    assert_eq!(Error::Protocol(ProtocolError::MalformedLength).describe(), "malformed length");
    assert_eq!(Error::Protocol(ProtocolError::MalformedPayload).describe(), "malformed payload");
    assert_eq!(Error::Logic(LogicError::NotSynchronized).describe(), "not synchronized");
    assert_eq!(Error::Logic(LogicError::Unsendable).describe(), "unsendable message kind");
}
