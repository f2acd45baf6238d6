use playwith::error::ProtocolError;
use playwith::{set_logger, Error, ErrorKind, LevelFilter};

#[test]
fn new_keeps_kind_and_message() {
    let error = Error::new(ErrorKind::Bluetooth, "cannot create session".to_string());
    assert_eq!(error.kind, ErrorKind::Bluetooth);
    assert_eq!(error.message, "cannot create session");
}

#[test]
fn from_kind_has_no_message() {
    let error = Error::from(ErrorKind::Io);
    assert_eq!(error, Error::new(ErrorKind::Io, String::new()));
    let error: Error = ErrorKind::Other.into();
    assert_eq!(error.kind, ErrorKind::Other);
    assert_eq!(error.message, "");
}

#[test]
fn error_without_message_renders_its_kind() {
    assert_eq!(Error::from(ErrorKind::Bluetooth).to_text(), "bluetooth");
    assert_eq!(Error::from(ErrorKind::Io).to_text(), "io");
    assert_eq!(Error::from(ErrorKind::Other).to_text(), "other");
    assert_eq!(
        Error::from(ErrorKind::Protocol(ProtocolError::InvalidType)).to_text(),
        "protocol"
    );
}

#[test]
fn error_with_message_renders_kind_and_message() {
    let error = Error::new(ErrorKind::Bluetooth, "cannot get adapter hci0".to_string());
    assert_eq!(error.to_text(), "bluetooth: cannot get adapter hci0");
    let error = Error::new(ErrorKind::Io, "broken pipe".to_string());
    assert_eq!(error.to_text(), "io: broken pipe");
    assert_eq!(
        Error::protocol(ProtocolError::InvalidLength).to_text(),
        "protocol: invalid output length"
    );
}

#[test]
fn other_error_renders_its_message_alone() {
    let error = Error::new(ErrorKind::Other, "cannot set class for adapter hci0".to_string());
    assert_eq!(error.to_text(), "cannot set class for adapter hci0");
}

#[test]
fn protocol_errors_have_their_messages() {
    let table = [
        (ProtocolError::InvalidLength, "invalid output length"),
        (ProtocolError::InvalidDirection, "invalid output direction"),
        (ProtocolError::InvalidType, "invalid output type"),
        (ProtocolError::UnknownSubcommand, "unknown subcommand"),
        (ProtocolError::OutOfRange, "flash read out of range"),
        (ProtocolError::AddressMismatch, "channels connected from different devices"),
    ];
    for (reason, message) in table {
        assert_eq!(reason.message(), message);
        let error = Error::protocol(reason);
        assert_eq!(error.kind, ErrorKind::Protocol(reason));
        assert_eq!(error.message, message);
    }
}

#[test]
fn kinds_have_their_labels() {
    assert_eq!(ErrorKind::Bluetooth.label(), "bluetooth");
    assert_eq!(ErrorKind::Io.label(), "io");
    assert_eq!(ErrorKind::Protocol(ProtocolError::OutOfRange).label(), "protocol");
    assert_eq!(ErrorKind::Other.label(), "other");
}

#[test]
fn verbosity_selects_the_level() {
    assert_eq!(set_logger(0), LevelFilter::Info);
    assert_eq!(set_logger(1), LevelFilter::Debug);
    assert_eq!(set_logger(2), LevelFilter::Trace);
    assert_eq!(set_logger(3), LevelFilter::Trace);
    assert_eq!(set_logger(usize::MAX), LevelFilter::Trace);
}
