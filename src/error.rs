use vstd::prelude::*;

verus! {

/// Why a run of bytes is not a well-formed control frame.
#[derive(Clone, Copy, Debug, PartialEq, Eq, Structural)]
pub enum DecodeError {
    /// The header sets bits that the frame format keeps at zero.
    ReservedBits,
    /// The header announces a message identifier of length zero.
    EmptyMessageId,
    /// The message identifier is not UTF-8.
    InvalidMessageId,
    /// The stream ended inside a frame.
    Truncated,
}

/// Kind of an operating-system I/O failure, as far as the client tells
/// them apart.
#[derive(Clone, Copy, Debug, PartialEq, Eq, Structural)]
pub enum IoKind {
    ConnectionRefused,
    TimedOut,
    InvalidInput,
    InvalidData,
    UnexpectedEof,
    Other,
}

/// An I/O failure: its kind and the text that describes it.
#[derive(Debug, PartialEq, Eq)]
pub struct IoFailure {
    pub kind: IoKind,
    pub message: String,
}

/// Errors of a request to a supervisor's control gateway.
#[derive(Debug, PartialEq, Eq)]
pub enum SrvClientError {
    /// Nothing listens at the endpoint.
    ConnectionRefused,
    /// The remote closed the connection before it replied.
    ConnectionClosed,
    /// The CLI configuration could not be read; the text says why.
    CliConfigError(String),
    /// No secret is set and none is found at the path held.
    CtlSecretNotFound(String),
    /// A reply could not be decoded.
    Decode(DecodeError),
    /// Any other I/O failure.
    Io(IoFailure),
    /// The remote answered with an error; the payload in the message
    /// catalog's encoding.
    NetErr(Vec<u8>),
    /// A colour specification could not be parsed; the text says why.
    ParseColor(String),
}

/// The client error that an I/O failure stands for.
pub open spec fn io_error(e: IoFailure) -> SrvClientError {
    if e.kind == IoKind::ConnectionRefused {
        SrvClientError::ConnectionRefused
    } else {
        SrvClientError::Io(e)
    }
}

impl SrvClientError {
    /// The client error that an I/O failure stands for: a refused
    /// connection has a variant of its own.
    pub fn from_io(e: IoFailure) -> (r: SrvClientError)
        ensures
            r == io_error(e),
    {
        match e.kind {
            IoKind::ConnectionRefused => SrvClientError::ConnectionRefused,
            _ => SrvClientError::Io(e),
        }
    }
}

/// Text of a decode error.
pub open spec fn decode_error_message(e: DecodeError) -> Seq<char> {
    match e {
        DecodeError::ReservedBits => "frame header sets reserved bits"@,
        DecodeError::EmptyMessageId => "frame has an empty message identifier"@,
        DecodeError::InvalidMessageId => "frame's message identifier is not UTF-8"@,
        DecodeError::Truncated => "stream ended inside a frame"@,
    }
}

/// Text of a client error, for the user. A refused and a closed connection
/// each say what to do about it.
pub open spec fn error_message(e: SrvClientError) -> Seq<char> {
    match e {
        SrvClientError::ConnectionClosed => CONNECTION_CLOSED_TEXT@,
        SrvClientError::ConnectionRefused => CONNECTION_REFUSED_TEXT@,
        SrvClientError::CliConfigError(m) => m@,
        SrvClientError::CtlSecretNotFound(path) => "No Supervisor CtlGateway secret set in `cli.toml` or found at "@
            + path@ + SECRET_NOT_FOUND_ADVICE@,
        SrvClientError::Decode(d) => decode_error_message(d),
        SrvClientError::Io(f) => f.message@,
        SrvClientError::NetErr(_) => "The Supervisor answered the request with an error"@,
        SrvClientError::ParseColor(m) => m@,
    }
}

pub const CONNECTION_CLOSED_TEXT: &'static str = "The connection was unexpectedly closed.\n\nThis may be because the given Supervisor is in the middle of an orderly shutdown,\nand is no longer processing command requests.";

pub const CONNECTION_REFUSED_TEXT: &'static str = "Unable to contact the Supervisor.\n\nIf the Supervisor you are contacting is local, this probably means it is not running. You can run a Supervisor in the foreground with:\n\nbio sup run\n\nOr try restarting the Supervisor through your operating system's init process or Windows service.";

pub const SECRET_NOT_FOUND_ADVICE: &'static str = ". Run `bio setup` or run the Supervisor for the first time before attempting to command the Supervisor.";

impl DecodeError {
    /// Text of the error.
    pub fn message(&self) -> (r: String)
        ensures
            r@ == decode_error_message(*self),
    {
        match self {
            DecodeError::ReservedBits => String::from_str("frame header sets reserved bits"),
            DecodeError::EmptyMessageId => String::from_str("frame has an empty message identifier"),
            DecodeError::InvalidMessageId => String::from_str("frame's message identifier is not UTF-8"),
            DecodeError::Truncated => String::from_str("stream ended inside a frame"),
        }
    }
}

impl SrvClientError {
    /// Text of the error, for the user.
    pub fn message(&self) -> (r: String)
        ensures
            r@ == error_message(*self),
    {
        match self {
            SrvClientError::ConnectionClosed => String::from_str(CONNECTION_CLOSED_TEXT),
            SrvClientError::ConnectionRefused => String::from_str(CONNECTION_REFUSED_TEXT),
            SrvClientError::CliConfigError(m) => m.clone(),
            SrvClientError::CtlSecretNotFound(path) => String::from_str(
                "No Supervisor CtlGateway secret set in `cli.toml` or found at ",
            ).concat(path.as_str()).concat(SECRET_NOT_FOUND_ADVICE),
            SrvClientError::Decode(d) => d.message(),
            SrvClientError::Io(f) => f.message.clone(),
            SrvClientError::NetErr(_) => String::from_str(
                "The Supervisor answered the request with an error",
            ),
            SrvClientError::ParseColor(m) => m.clone(),
        }
    }
}

} // verus!
