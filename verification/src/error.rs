use vstd::prelude::*;
use vstd::std_specs::convert::FromSpecImpl;
use vstd::string::StringExecFns;

verus! {

pub type Result<T> = core::result::Result<T, Error>;

/// The class of a failed socket operation, as the operating system reported it.
#[derive(Clone, Copy, Debug, PartialEq, Eq, Structural)]
pub enum IoFailure {
    ConnectionRefused,
    ConnectionReset,
    ConnectionAborted,
    NetworkUnreachable,
    HostUnreachable,
    TimedOut,
    Other,
}

/// The broad families into which the errors of a session fall.
#[derive(Clone, Copy, Debug, PartialEq, Eq, Structural)]
pub enum ErrorClass {
    ProtocolViolation,
    UnsupportedFeature,
    ConnectFailed,
    ResolutionFailed,
    IoError,
    InvalidUdpClient,
}

/// Everything that can end a session.
#[derive(Clone, Copy, Debug, PartialEq, Eq, Structural)]
pub enum Error {
    /// The greeting does not start with version 5.
    NotSocks5,
    /// The greeting does not offer "no authentication required".
    NoAcceptableAuthMethod,
    /// The request has a wrong version or a non-zero reserved octet.
    InvalidRequest,
    /// The address type octet is none of 1, 3 and 4.
    UnsupportedAddressType,
    /// The bytes of a domain name are not UTF-8.
    InvalidDomain,
    /// The command is neither CONNECT nor UDP ASSOCIATE.
    UnsupportedCommand,
    /// A client datagram is truncated or its three leading octets are not all zero.
    InvalidUdpRequest,
    /// The first datagram came from an address other than the client's.
    InvalidUdpClient,
    /// A name resolved to no address.
    ResolutionFailed,
    /// The outbound connection could not be opened.
    ConnectFailed(IoFailure),
    /// A read, write or bind failed.
    Io(IoFailure),
    /// A value that had to be there was absent.
    Missing,
}

/// Marks the outside failures that turn into an [`Error`] as they are.
pub trait IntoError {

}

impl IntoError for IoFailure {

}

pub const REPLY_SUCCEEDED: u8 = 0;

pub const REPLY_GENERAL_FAILURE: u8 = 1;

pub const REPLY_NOT_ALLOWED: u8 = 2;

pub const REPLY_NETWORK_UNREACHABLE: u8 = 3;

pub const REPLY_HOST_UNREACHABLE: u8 = 4;

pub const REPLY_CONNECTION_REFUSED: u8 = 5;

pub const REPLY_TTL_EXPIRED: u8 = 6;

pub const REPLY_COMMAND_NOT_SUPPORTED: u8 = 7;

pub const REPLY_ADDRESS_TYPE_NOT_SUPPORTED: u8 = 8;

impl IoFailure {
    /// Whether a relay of datagrams passes over this failure: the destination refused or reset,
    /// was unreachable, or the connection was aborted.
    pub open spec fn transient(self) -> bool {
        self == IoFailure::ConnectionRefused || self == IoFailure::ConnectionReset || self
            == IoFailure::ConnectionAborted || self == IoFailure::NetworkUnreachable || self
            == IoFailure::HostUnreachable
    }

    /// The reply code that tells the client of this failure to connect.
    pub open spec fn code(self) -> u8 {
        match self {
            IoFailure::ConnectionRefused => REPLY_CONNECTION_REFUSED,
            IoFailure::NetworkUnreachable => REPLY_NETWORK_UNREACHABLE,
            IoFailure::HostUnreachable => REPLY_HOST_UNREACHABLE,
            _ => REPLY_GENERAL_FAILURE,
        }
    }

    pub fn is_transient(&self) -> (t: bool)
        ensures
            t == self.transient(),
    {
        match self {
            IoFailure::ConnectionRefused => true,
            IoFailure::ConnectionReset => true,
            IoFailure::ConnectionAborted => true,
            IoFailure::NetworkUnreachable => true,
            IoFailure::HostUnreachable => true,
            IoFailure::TimedOut => false,
            IoFailure::Other => false,
        }
    }

    pub fn reply_code(&self) -> (c: u8)
        ensures
            c == self.code(),
            c != REPLY_SUCCEEDED,
    {
        match self {
            IoFailure::ConnectionRefused => REPLY_CONNECTION_REFUSED,
            IoFailure::NetworkUnreachable => REPLY_NETWORK_UNREACHABLE,
            IoFailure::HostUnreachable => REPLY_HOST_UNREACHABLE,
            _ => REPLY_GENERAL_FAILURE,
        }
    }
}

impl Error {
    /// The family of this error.
    pub open spec fn class_of(self) -> ErrorClass {
        match self {
            Error::NotSocks5 | Error::NoAcceptableAuthMethod | Error::InvalidRequest
            | Error::InvalidDomain | Error::InvalidUdpRequest => ErrorClass::ProtocolViolation,
            Error::UnsupportedAddressType | Error::UnsupportedCommand => ErrorClass::UnsupportedFeature,
            Error::ConnectFailed(_) => ErrorClass::ConnectFailed,
            Error::ResolutionFailed => ErrorClass::ResolutionFailed,
            Error::InvalidUdpClient => ErrorClass::InvalidUdpClient,
            Error::Io(_) | Error::Missing => ErrorClass::IoError,
        }
    }

    /// The reply code that reports this error to the client.
    pub open spec fn code(self) -> u8 {
        match self {
            Error::UnsupportedAddressType => REPLY_ADDRESS_TYPE_NOT_SUPPORTED,
            Error::UnsupportedCommand => REPLY_COMMAND_NOT_SUPPORTED,
            Error::ResolutionFailed => REPLY_HOST_UNREACHABLE,
            Error::ConnectFailed(kind) => kind.code(),
            _ => REPLY_GENERAL_FAILURE,
        }
    }

    /// The words that describe this error.
    pub open spec fn text(self) -> Seq<char> {
        match self {
            Error::NotSocks5 => "Not socks5 request!"@,
            Error::NoAcceptableAuthMethod => "No supported authentication method!"@,
            Error::InvalidRequest => "Invalid request!"@,
            Error::UnsupportedAddressType => "Invalid address type!"@,
            Error::InvalidDomain => "Invalid domain!"@,
            Error::UnsupportedCommand => "Unsupported request command!"@,
            Error::InvalidUdpRequest => "Invalid socks5 udp request!"@,
            Error::InvalidUdpClient => "Invalid client!"@,
            Error::ResolutionFailed => "No addresses to send data to!"@,
            Error::ConnectFailed(_) => "Connect failed!"@,
            Error::Io(_) => "I/O error!"@,
            Error::Missing => "NoneError"@,
        }
    }

    pub fn class(&self) -> (c: ErrorClass)
        ensures
            c == self.class_of(),
    {
        match self {
            Error::NotSocks5 => ErrorClass::ProtocolViolation,
            Error::NoAcceptableAuthMethod => ErrorClass::ProtocolViolation,
            Error::InvalidRequest => ErrorClass::ProtocolViolation,
            Error::InvalidDomain => ErrorClass::ProtocolViolation,
            Error::InvalidUdpRequest => ErrorClass::ProtocolViolation,
            Error::UnsupportedAddressType => ErrorClass::UnsupportedFeature,
            Error::UnsupportedCommand => ErrorClass::UnsupportedFeature,
            Error::ConnectFailed(_) => ErrorClass::ConnectFailed,
            Error::ResolutionFailed => ErrorClass::ResolutionFailed,
            Error::InvalidUdpClient => ErrorClass::InvalidUdpClient,
            Error::Io(_) => ErrorClass::IoError,
            Error::Missing => ErrorClass::IoError,
        }
    }

    pub fn reply_code(&self) -> (c: u8)
        ensures
            c == self.code(),
            c != REPLY_SUCCEEDED,
    {
        match self {
            Error::UnsupportedAddressType => REPLY_ADDRESS_TYPE_NOT_SUPPORTED,
            Error::UnsupportedCommand => REPLY_COMMAND_NOT_SUPPORTED,
            Error::ResolutionFailed => REPLY_HOST_UNREACHABLE,
            Error::ConnectFailed(kind) => kind.reply_code(),
            _ => REPLY_GENERAL_FAILURE,
        }
    }

    pub fn message(&self) -> (m: String)
        ensures
            m@ == self.text(),
    {
        match self {
            Error::NotSocks5 => String::from_str("Not socks5 request!"),
            Error::NoAcceptableAuthMethod => String::from_str("No supported authentication method!"),
            Error::InvalidRequest => String::from_str("Invalid request!"),
            Error::UnsupportedAddressType => String::from_str("Invalid address type!"),
            Error::InvalidDomain => String::from_str("Invalid domain!"),
            Error::UnsupportedCommand => String::from_str("Unsupported request command!"),
            Error::InvalidUdpRequest => String::from_str("Invalid socks5 udp request!"),
            Error::InvalidUdpClient => String::from_str("Invalid client!"),
            Error::ResolutionFailed => String::from_str("No addresses to send data to!"),
            Error::ConnectFailed(_) => String::from_str("Connect failed!"),
            Error::Io(_) => String::from_str("I/O error!"),
            Error::Missing => String::from_str("NoneError"),
        }
    }
}

impl From<IoFailure> for Error {
    fn from(kind: IoFailure) -> (e: Error) {
        Error::Io(kind)
    }
}

impl FromSpecImpl<IoFailure> for Error {
    open spec fn obeys_from_spec() -> bool {
        true
    }

    open spec fn from_spec(kind: IoFailure) -> Error {
        Error::Io(kind)
    }
}

} // verus!
