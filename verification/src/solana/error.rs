//! The shared error type of the transports, and the mapping of transport
//! failures into it.

use vstd::prelude::*;
use vstd::string::*;

verus! {

/// `std::io::ErrorKind`, the kinds of I/O error of the standard library. The
/// kinds are read as they are declared, so that a contract can name one.
#[verifier::external_type_specification]
pub struct ExIoErrorKind(std::io::ErrorKind);

/// `std::io::Error`, carried through without a look inside.
#[verifier::external_type_specification]
#[verifier::external_body]
pub struct ExIoError(std::io::Error);

/// The kind of an I/O error.
pub uninterp spec fn io_kind_of(error: std::io::Error) -> std::io::ErrorKind;

/// `std::io::Error::kind`: the kind of the error, which is a function of the
/// error.
pub assume_specification[ std::io::Error::kind ](error: &std::io::Error) -> (kind:
    std::io::ErrorKind)
    ensures
        kind == io_kind_of(*error),
;

/// The classes into which every failure of a handshake falls.
#[derive(Debug, Clone, Copy, PartialEq, Eq, Structural)]
pub enum ErrorKind {
    /// The endpoint cannot be used to form a connection.
    AddressResolution,
    /// The socket or the WebSocket could not be connected, or was closed.
    Connection,
    /// The TLS handshake or a certificate failed.
    Tls,
    /// A malformed frame, a capacity that was exceeded, an unexpected message.
    Protocol,
    /// Text was required and the payload was not UTF-8.
    Encoding,
    /// A read or a write failed.
    Io,
    /// Any other failure of the transport layer.
    Other,
}

/// An I/O error of the standard library, as plain values.
#[derive(Debug)]
pub struct IoFailure {
    /// The kind the error was made with.
    pub kind: std::io::ErrorKind,
    /// What the error displays.
    pub message: String,
}

/// What an [`IoFailure`] holds.
pub struct PlainIoFailure {
    pub kind: std::io::ErrorKind,
    pub message: Seq<char>,
}

impl View for IoFailure {
    type V = PlainIoFailure;

    open spec fn view(&self) -> PlainIoFailure {
        PlainIoFailure { kind: self.kind, message: self.message@ }
    }
}

impl IoFailure {
    /// Reads the kind and the message off an I/O error: the message is what
    /// the error displays.
    pub fn from_io(error: &std::io::Error) -> (failure: IoFailure)
        ensures
            failure.kind == io_kind_of(*error),
            to_string_from_display_ensures::<std::io::Error>(error, failure.message),
    {
        let kind = error.kind();
        let message = error.to_string();
        IoFailure { kind, message }
    }
}

/// A failure of a handshake: its class, the kind of I/O error under which it
/// surfaces, and its cause in words.
#[derive(Debug)]
pub struct TransportError {
    /// The class of the failure.
    pub kind: ErrorKind,
    /// The kind of the I/O error that stands for the failure.
    pub io_kind: std::io::ErrorKind,
    /// The message of the failure that was mapped.
    pub cause: String,
}

/// What a [`TransportError`] holds.
pub struct Failure {
    pub kind: ErrorKind,
    pub io_kind: std::io::ErrorKind,
    pub cause: Seq<char>,
}

impl View for TransportError {
    type V = Failure;

    open spec fn view(&self) -> Failure {
        Failure { kind: self.kind, io_kind: self.io_kind, cause: self.cause@ }
    }
}

impl Failure {
    /// The failure that an I/O error of class `kind` maps to: the error's own
    /// kind and message are kept.
    pub open spec fn of_io(kind: ErrorKind, failure: PlainIoFailure) -> Failure {
        Failure { kind, io_kind: failure.kind, cause: failure.message }
    }

    /// The same failure, met while the connection was being made: a plain
    /// I/O failure is then a failure to connect.
    pub open spec fn while_connecting(self) -> Failure {
        if self.kind == ErrorKind::Io {
            Failure { kind: ErrorKind::Connection, io_kind: self.io_kind, cause: self.cause }
        } else {
            self
        }
    }
}

impl TransportError {
    /// A failure of the given class, I/O kind and cause.
    pub fn new(kind: ErrorKind, io_kind: std::io::ErrorKind, cause: String) -> (error:
        TransportError)
        ensures
            error@ == (Failure { kind, io_kind, cause: cause@ }),
    {
        TransportError { kind, io_kind, cause }
    }

    /// Maps an I/O failure into the class `kind`, keeping its kind and message.
    pub fn from_io(kind: ErrorKind, failure: IoFailure) -> (error: TransportError)
        ensures
            error@ == Failure::of_io(kind, failure@),
    {
        TransportError { kind, io_kind: failure.kind, cause: failure.message }
    }

    /// Classes the failure as one met while the connection was being made.
    pub fn while_connecting(self) -> (error: TransportError)
        ensures
            error@ == self@.while_connecting(),
    {
        match self.kind {
            ErrorKind::Io => TransportError {
                kind: ErrorKind::Connection,
                io_kind: self.io_kind,
                cause: self.cause,
            },
            _ => self,
        }
    }

    /// A line that names the class and the cause.
    pub fn message(&self) -> (line: String)
        ensures
            line@ == kind_name(self.kind) + ": "@ + self.cause@,
    {
        let mut line = String::from_str(self.kind.name());
        line.append(": ");
        line.append(self.cause.as_str());
        line
    }
}

/// The name under which a class of failure is reported.
pub open spec fn kind_name(kind: ErrorKind) -> Seq<char> {
    match kind {
        ErrorKind::AddressResolution => "AddressResolutionError"@,
        ErrorKind::Connection => "ConnectionError"@,
        ErrorKind::Tls => "TlsError"@,
        ErrorKind::Protocol => "ProtocolError"@,
        ErrorKind::Encoding => "EncodingError"@,
        ErrorKind::Io => "IoError"@,
        ErrorKind::Other => "OtherError"@,
    }
}

impl ErrorKind {
    /// The name under which the class is reported.
    pub fn name(self) -> (name: &'static str)
        ensures
            name@ == kind_name(self),
    {
        match self {
            ErrorKind::AddressResolution => "AddressResolutionError",
            ErrorKind::Connection => "ConnectionError",
            ErrorKind::Tls => "TlsError",
            ErrorKind::Protocol => "ProtocolError",
            ErrorKind::Encoding => "EncodingError",
            ErrorKind::Io => "IoError",
            ErrorKind::Other => "OtherError",
        }
    }
}

} // verus!
