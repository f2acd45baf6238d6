//! Errors reported by the emulated controller.

use vstd::prelude::*;

verus! {

/// Why a frame or a pairing attempt violates the controller protocol.
#[derive(Clone, Copy, Debug, PartialEq, Eq, Structural)]
pub enum ProtocolError {
    /// The frame is shorter than its layout needs.
    InvalidLength,
    /// The frame does not start with the tag of its direction.
    InvalidDirection,
    /// The report type of the frame is not known.
    InvalidType,
    /// The subcommand identifier is not known.
    UnknownSubcommand,
    /// A flash read reaches beyond the memory image.
    OutOfRange,
    /// The two channels were connected from different remote addresses.
    AddressMismatch,
}

/// Enumeration of error kinds.
#[derive(Clone, Copy, Debug, PartialEq, Eq, Structural)]
pub enum ErrorKind {
    /// Represents the Bluetooth error.
    Bluetooth,
    /// Represents the IO error.
    Io,
    /// Represents the protocol error.
    Protocol(ProtocolError),
    /// Represents the other error.
    Other,
}

impl ProtocolError {
    /// The message an error of this reason carries.
    pub open spec fn spec_message(self) -> Seq<char> {
        match self {
            ProtocolError::InvalidLength => "invalid output length"@,
            ProtocolError::InvalidDirection => "invalid output direction"@,
            ProtocolError::InvalidType => "invalid output type"@,
            ProtocolError::UnknownSubcommand => "unknown subcommand"@,
            ProtocolError::OutOfRange => "flash read out of range"@,
            ProtocolError::AddressMismatch => "channels connected from different devices"@,
        }
    }

    /// Returns the message an error of this reason carries.
    pub fn message(self) -> (text: String)
        ensures
            text@ == self.spec_message(),
    {
        match self {
            ProtocolError::InvalidLength => String::from_str("invalid output length"),
            ProtocolError::InvalidDirection => String::from_str("invalid output direction"),
            ProtocolError::InvalidType => String::from_str("invalid output type"),
            ProtocolError::UnknownSubcommand => String::from_str("unknown subcommand"),
            ProtocolError::OutOfRange => String::from_str("flash read out of range"),
            ProtocolError::AddressMismatch => String::from_str(
                "channels connected from different devices",
            ),
        }
    }
}

impl ErrorKind {
    /// The text that stands for the kind in a rendered error.
    pub open spec fn spec_label(self) -> Seq<char> {
        match self {
            ErrorKind::Bluetooth => "bluetooth"@,
            ErrorKind::Io => "io"@,
            ErrorKind::Protocol(_) => "protocol"@,
            ErrorKind::Other => "other"@,
        }
    }

    /// Returns the text that stands for the kind in a rendered error.
    pub fn label(self) -> (text: String)
        ensures
            text@ == self.spec_label(),
    {
        match self {
            ErrorKind::Bluetooth => String::from_str("bluetooth"),
            ErrorKind::Io => String::from_str("io"),
            ErrorKind::Protocol(_) => String::from_str("protocol"),
            ErrorKind::Other => String::from_str("other"),
        }
    }
}

/// Represents an error.
#[derive(Clone, Debug, PartialEq, Eq)]
pub struct Error {
    /// Represents the error kind.
    pub kind: ErrorKind,
    /// Represents the detailed message.
    pub message: String,
}

/// What an `Error` is, as plain values.
pub struct ErrorModel {
    pub kind: ErrorKind,
    pub message: Seq<char>,
}

impl View for Error {
    type V = ErrorModel;

    open spec fn view(&self) -> ErrorModel {
        ErrorModel { kind: self.kind, message: self.message@ }
    }
}

impl ErrorModel {
    /// The protocol error of reason `reason`, with its message.
    pub open spec fn protocol(reason: ProtocolError) -> ErrorModel {
        ErrorModel { kind: ErrorKind::Protocol(reason), message: reason.spec_message() }
    }

    /// The rendered form: the kind alone when there is no message, the message
    /// alone for the other kind, and both with a colon between them otherwise.
    pub open spec fn text(self) -> Seq<char> {
        if self.message.len() == 0 {
            self.kind.spec_label()
        } else if self.kind == ErrorKind::Other {
            self.message
        } else {
            self.kind.spec_label() + ": "@ + self.message
        }
    }
}

impl Error {
    /// Creates a `Error`.
    pub fn new(kind: ErrorKind, message: String) -> (error: Error)
        ensures
            error@ == (ErrorModel { kind: kind, message: message@ }),
    {
        Error { kind, message }
    }

    /// Creates the protocol error of the given reason, with its message.
    pub fn protocol(reason: ProtocolError) -> (error: Error)
        ensures
            error@ == ErrorModel::protocol(reason),
    {
        Error { kind: ErrorKind::Protocol(reason), message: reason.message() }
    }

    /// Renders the error as a line of text.
    pub fn to_text(&self) -> (text: String)
        ensures
            text@ == self@.text(),
    {
        if self.message.as_str().is_empty() {
            self.kind.label()
        } else {
            match self.kind {
                ErrorKind::Other => self.message.clone(),
                _ => {
                    let mut text = self.kind.label();
                    text.append(": ");
                    text.append(self.message.as_str());
                    text
                },
            }
        }
    }
}

impl From<ErrorKind> for Error {
    /// An error of the given kind without a message.
    fn from(kind: ErrorKind) -> (error: Error)
        ensures
            error@ == (ErrorModel { kind: kind, message: Seq::<char>::empty() }),
    {
        Error::new(kind, String::new())
    }
}

/// The conversion is described by the contract of `from` itself, over the
/// view of the error, and not by a value of `from_spec`.
impl vstd::std_specs::convert::FromSpecImpl<ErrorKind> for Error {
    open spec fn obeys_from_spec() -> bool {
        false
    }

    open spec fn from_spec(kind: ErrorKind) -> Error {
        arbitrary()
    }
}

} // verus!
