use crate::acceptor::{succeeded, success_reply, Socks5Acceptor, Stage};
use crate::error::{Error, Result};
use crate::target::{
    decode, law_canonical_idempotent, law_decode_wire, push_all, wire_len, Endpoint, Socks5Target,
    Target,
};
use vstd::prelude::*;
use vstd::slice::slice_subrange;

verus! {

/// What a datagram from the client says: the destination, and where the payload starts.
/// A datagram is refused where its three leading octets are not all zero or where it ends
/// before its address field does.
pub open spec fn datagram(data: Seq<u8>) -> Result<(Target, int)> {
    if data.len() < 5 || data[0] != 0 || data[1] != 0 || data[2] != 0 {
        Err(Error::InvalidUdpRequest)
    } else {
        match wire_len(data.subrange(3, data.len() as int)) {
            None => Err(Error::UnsupportedAddressType),
            Some(n) => if data.len() < 3 + n {
                Err(Error::InvalidUdpRequest)
            } else {
                match decode(data.subrange(3, 3 + n)) {
                    Err(e) => Err(e),
                    Ok(t) => Ok((t, 3 + n)),
                }
            },
        }
    }
}

/// The header of a datagram for the client that came from `from`: three zero octets and the
/// wire form of the canonical source.
pub open spec fn datagram_header(from: Target) -> Seq<u8> {
    seq![0u8, 0u8, 0u8] + from.canonical().wire()
}

/// Reads the header of a datagram from the client.
pub fn parse_datagram(data: &[u8]) -> (r: Result<(Socks5Target, usize)>)
    ensures
        match r {
            Ok((t, offset)) => datagram(data@) == Ok::<(Target, int), Error>((t@, offset as int))
                && 7 <= offset <= data@.len(),
            Err(e) => datagram(data@) == Err::<(Target, int), Error>(e),
        },
{
    let len = data.len();
    if len < 5 || data[0] != 0 || data[1] != 0 || data[2] != 0 {
        return Err(Error::InvalidUdpRequest);
    }
    let n = match Socks5Target::target_len(slice_subrange(data, 3, len)) {
        Ok(n) => n,
        Err(e) => {
            return Err(e);
        },
    };
    if len - 3 < n {
        return Err(Error::InvalidUdpRequest);
    }
    let field = slice_subrange(data, 3, 3 + n);
    assert(field@[0] == data@.subrange(3, len as int)[0]);
    assert(field@[1] == data@.subrange(3, len as int)[1]);
    match Socks5Target::try_parse(field) {
        Ok(t) => Ok((t, 3 + n)),
        Err(e) => Err(e),
    }
}

/// Builds the header that precedes, in a datagram for the client, a payload that came
/// from `from`.
pub fn encode_header(from: &Endpoint) -> (header: Vec<u8>)
    ensures
        header@ == datagram_header(from@),
{
    let mut header: Vec<u8> = Vec::new();
    header.push(0);
    header.push(0);
    header.push(0);
    assert(header@ =~= seq![0u8, 0u8, 0u8]);
    let address = from.encode();
    push_all(&mut header, address.as_slice());
    header
}

/// The client of a UDP association: the peer of the control connection, with the port that
/// the client announced in its request. Port 0 stands for "the port of the first sender".
#[derive(Clone, Copy, Debug, PartialEq, Eq)]
pub struct Socks5UdpClient {
    pub client_addr: Endpoint,
}

impl Socks5UdpClient {
    pub fn new(client_addr: Endpoint) -> (client: Socks5UdpClient)
        ensures
            client.client_addr == client_addr,
    {
        Self { client_addr }
    }

    /// The peer to connect to before any datagram has come: the announced one, if the
    /// client announced a port.
    pub fn declared(&self) -> (peer: Option<Endpoint>)
        ensures
            peer == if self.client_addr@.port != 0 {
                Some(self.client_addr)
            } else {
                None::<Endpoint>
            },
    {
        if self.client_addr.port() != 0 {
            Some(self.client_addr)
        } else {
            None
        }
    }

    /// The peer to hold on to once the first datagram has come from `from`: the announced
    /// one, if the client announced a port; else the sender, if it has the address of the
    /// client. Any other first sender ends the session.
    pub fn confirm(&self, from: &Endpoint) -> (r: Result<Endpoint>)
        ensures
            r == if self.client_addr@.port != 0 {
                Ok::<Endpoint, Error>(self.client_addr)
            } else if from@.host == self.client_addr@.host {
                Ok::<Endpoint, Error>(*from)
            } else {
                Err::<Endpoint, Error>(Error::InvalidUdpClient)
            },
    {
        if self.client_addr.port() != 0 {
            Ok(self.client_addr)
        } else if from.ip().same(&self.client_addr.ip()) {
            Ok(*from)
        } else {
            Err(Error::InvalidUdpClient)
        }
    }
}

impl Socks5Acceptor {
    /// The address to bind the client's UDP socket to: the local address of the control
    /// connection, with a port that the system picks.
    pub fn udp_bind_address(local: &Endpoint) -> (bind: Endpoint)
        ensures
            bind@ == (Target { host: local@.host, port: 0 }),
    {
        local.with_port(0)
    }

    /// Starts a UDP association once the client's UDP socket is bound to `bound`: the reply
    /// that tells the client of that address, and the client to expect, which is the peer of
    /// the control connection with the port that the request names.
    pub fn associate_udp(&self, bound: &Endpoint) -> (r: Result<(Vec<u8>, Socks5UdpClient)>)
        requires
            self.wf(),
            self.stage() == Stage::UdpAssociate,
        ensures
            match decode(self.bytes().subrange(3, self.bytes().len() as int)) {
                Err(e) => r == Err::<(Vec<u8>, Socks5UdpClient), Error>(e),
                Ok(t) => r is Ok && r->Ok_0.0@ == success_reply(bound@.canonical().wire())
                    && r->Ok_0.1.client_addr@ == (Target { host: self.peer()@.host, port: t.port }),
            },
    {
        let port = match self.target() {
            Ok(target) => target.port(),
            Err(e) => {
                return Err(e);
            },
        };
        let client = Socks5UdpClient::new(self.peer_addr().with_port(port));
        let address = bound.encode();
        Ok((succeeded(address.as_slice()), client))
    }
}

/// A datagram made of the header for a source and any payload reads back as the canonical
/// form of that source, with the payload right behind the header.
pub proof fn law_header_round_trip(from: Endpoint, payload: Seq<u8>)
    ensures
        datagram(datagram_header(from@) + payload) == Ok::<(Target, int), Error>(
            (from@.canonical(), datagram_header(from@).len() as int),
        ),
{
    let t = from@.canonical();
    let w = t.wire();
    let data = datagram_header(from@) + payload;
    law_canonical_idempotent(from@);
    law_decode_wire(t);
    let rest = data.subrange(3, data.len() as int);
    assert(rest[0] == w[0] && rest[1] == w[1]);
    assert(data.subrange(3, 3 + w.len() as int) =~= w);
}

} // verus!
