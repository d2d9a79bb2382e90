use sock5s::error::{
    Error, ErrorClass, IoFailure, REPLY_ADDRESS_TYPE_NOT_SUPPORTED, REPLY_COMMAND_NOT_SUPPORTED,
    REPLY_CONNECTION_REFUSED, REPLY_GENERAL_FAILURE, REPLY_HOST_UNREACHABLE,
    REPLY_NETWORK_UNREACHABLE, REPLY_NOT_ALLOWED, REPLY_SUCCEEDED, REPLY_TTL_EXPIRED,
};
use sock5s::tcp::connect_failed;
use sock5s::util::{IntoResult, ToHex};

#[test]
fn reply_code_values() {
    assert_eq!(REPLY_SUCCEEDED, 0);
    assert_eq!(REPLY_GENERAL_FAILURE, 1);
    assert_eq!(REPLY_NOT_ALLOWED, 2);
    assert_eq!(REPLY_NETWORK_UNREACHABLE, 3);
    assert_eq!(REPLY_HOST_UNREACHABLE, 4);
    assert_eq!(REPLY_CONNECTION_REFUSED, 5);
    assert_eq!(REPLY_TTL_EXPIRED, 6);
    assert_eq!(REPLY_COMMAND_NOT_SUPPORTED, 7);
    assert_eq!(REPLY_ADDRESS_TYPE_NOT_SUPPORTED, 8);
}

#[test]
fn reply_codes_of_connect_failures() {
    assert_eq!(IoFailure::ConnectionRefused.reply_code(), 5);
    assert_eq!(IoFailure::HostUnreachable.reply_code(), 4);
    assert_eq!(IoFailure::NetworkUnreachable.reply_code(), 3);
    assert_eq!(IoFailure::ConnectionReset.reply_code(), 1);
    assert_eq!(IoFailure::ConnectionAborted.reply_code(), 1);
    assert_eq!(IoFailure::TimedOut.reply_code(), 1);
    assert_eq!(IoFailure::Other.reply_code(), 1);
}

#[test]
fn reply_codes_of_errors() {
    assert_eq!(Error::UnsupportedAddressType.reply_code(), 8);
    assert_eq!(Error::UnsupportedCommand.reply_code(), 7);
    assert_eq!(Error::ResolutionFailed.reply_code(), 4);
    assert_eq!(Error::ConnectFailed(IoFailure::ConnectionRefused).reply_code(), 5);
    assert_eq!(Error::ConnectFailed(IoFailure::NetworkUnreachable).reply_code(), 3);
    assert_eq!(Error::ConnectFailed(IoFailure::Other).reply_code(), 1);
    assert_eq!(Error::Io(IoFailure::ConnectionRefused).reply_code(), 1);
    assert_eq!(Error::InvalidRequest.reply_code(), 1);
    assert_eq!(connect_failed(IoFailure::HostUnreachable).reply_code(), 4);
}

#[test]
fn transient_failure_classes() {
    assert!(IoFailure::ConnectionRefused.is_transient());
    assert!(IoFailure::ConnectionReset.is_transient());
    assert!(IoFailure::ConnectionAborted.is_transient());
    assert!(IoFailure::NetworkUnreachable.is_transient());
    assert!(IoFailure::HostUnreachable.is_transient());
    assert!(!IoFailure::TimedOut.is_transient());
    assert!(!IoFailure::Other.is_transient());
}

#[test]
fn error_classes() {
    assert_eq!(Error::NotSocks5.class(), ErrorClass::ProtocolViolation);
    assert_eq!(Error::NoAcceptableAuthMethod.class(), ErrorClass::ProtocolViolation);
    assert_eq!(Error::InvalidRequest.class(), ErrorClass::ProtocolViolation);
    assert_eq!(Error::InvalidDomain.class(), ErrorClass::ProtocolViolation);
    assert_eq!(Error::InvalidUdpRequest.class(), ErrorClass::ProtocolViolation);
    assert_eq!(Error::UnsupportedAddressType.class(), ErrorClass::UnsupportedFeature);
    assert_eq!(Error::UnsupportedCommand.class(), ErrorClass::UnsupportedFeature);
    assert_eq!(Error::ConnectFailed(IoFailure::Other).class(), ErrorClass::ConnectFailed);
    assert_eq!(Error::ResolutionFailed.class(), ErrorClass::ResolutionFailed);
    assert_eq!(Error::InvalidUdpClient.class(), ErrorClass::InvalidUdpClient);
    assert_eq!(Error::Io(IoFailure::Other).class(), ErrorClass::IoError);
    assert_eq!(Error::Missing.class(), ErrorClass::IoError);
}

#[test]
fn error_messages() {
    assert_eq!(Error::NotSocks5.message(), "Not socks5 request!");
    assert_eq!(Error::NoAcceptableAuthMethod.message(), "No supported authentication method!");
    assert_eq!(Error::InvalidRequest.message(), "Invalid request!");
    assert_eq!(Error::UnsupportedAddressType.message(), "Invalid address type!");
    assert_eq!(Error::InvalidDomain.message(), "Invalid domain!");
    assert_eq!(Error::UnsupportedCommand.message(), "Unsupported request command!");
    assert_eq!(Error::InvalidUdpRequest.message(), "Invalid socks5 udp request!");
    assert_eq!(Error::InvalidUdpClient.message(), "Invalid client!");
    assert_eq!(Error::ResolutionFailed.message(), "No addresses to send data to!");
    assert_eq!(Error::ConnectFailed(IoFailure::Other).message(), "Connect failed!");
    assert_eq!(Error::Io(IoFailure::Other).message(), "I/O error!");
    assert_eq!(Error::Missing.message(), "NoneError");
}

#[test]
fn io_failure_becomes_io_error() {
    assert_eq!(Error::from(IoFailure::TimedOut), Error::Io(IoFailure::TimedOut));
    let e: Error = IoFailure::ConnectionReset.into();
    assert_eq!(e, Error::Io(IoFailure::ConnectionReset));
}

#[test]
fn absent_value_is_an_error() {
    assert_eq!(Some(7u8).into_result(), Ok(7));
    assert_eq!(None::<u8>.into_result(), Err(Error::Missing));
}

#[test]
fn bytes_in_hexadecimal() {
    assert_eq!([0x05u8, 0x01, 0x00, 0xff, 0xa9][..].to_hex(), "050100ffa9");
    assert_eq!([0u8; 0][..].to_hex(), "");
    assert_eq!([0x0fu8, 0xf0][..].to_hex(), "0ff0");
    assert_eq!(b"\x12\x34\x56\x78\x9a\xbc\xde\xf0"[..].to_hex(), "123456789abcdef0");
}
