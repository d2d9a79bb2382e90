//! The protocol engine of a SOCKS5 proxy server, free of sockets: the address codec, the
//! handshake as a state machine, and the decisions of the TCP and UDP relays. The caller
//! reads, writes, connects and resolves, and hands plain values in and out.

pub mod acceptor;
pub mod connector;
pub mod error;
pub mod target;
pub mod tcp;
pub mod udp;
pub mod util;
