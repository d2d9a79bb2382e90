use crate::error::{Error, Result};
use vstd::prelude::*;
use vstd::slice::{slice_subrange, slice_to_vec};
use vstd::utf8::*;

verus! {

/// The host a client names: a numeric address, as its octets in network order, or a domain
/// name, as its characters.
pub enum Host {
    V4(Seq<u8>),
    V6(Seq<u8>),
    Domain(Seq<char>),
}

/// A host and a port: what every address of this library stands for.
pub struct Target {
    pub host: Host,
    pub port: u16,
}

/// The twelve octets that precede an IPv4 address mapped into IPv6.
pub open spec fn mapped_prefix() -> Seq<u8> {
    seq![0u8, 0u8, 0u8, 0u8, 0u8, 0u8, 0u8, 0u8, 0u8, 0u8, 0xffu8, 0xffu8]
}

/// Whether every octet of `bytes` is zero.
pub open spec fn all_zeros(bytes: Seq<u8>) -> bool {
    forall|i: int| 0 <= i < bytes.len() ==> bytes[i] == 0
}

/// The port that two octets in network order spell.
pub open spec fn port_of(hi: u8, lo: u8) -> u16 {
    (hi as int * 256 + lo as int) as u16
}

/// The two octets of a port, in network order.
pub open spec fn port_bytes(port: u16) -> Seq<u8> {
    seq![(port / 256) as u8, (port % 256) as u8]
}

impl Host {
    /// A numeric host has as many octets as its family asks for, and the UTF-8 form of a
    /// domain name fits under one length octet.
    pub open spec fn wf(self) -> bool {
        match self {
            Host::V4(ip) => ip.len() == 4,
            Host::V6(ip) => ip.len() == 16,
            Host::Domain(name) => encode_utf8(name).len() <= 255,
        }
    }

    /// An IPv6 address that holds a mapped IPv4 address.
    pub open spec fn is_mapped(self) -> bool {
        match self {
            Host::V6(ip) => ip.len() == 16 && ip.subrange(0, 12) == mapped_prefix(),
            _ => false,
        }
    }

    /// A mapped IPv4 address becomes that IPv4 address; every other host stays.
    pub open spec fn canonical(self) -> Host {
        match self {
            Host::V6(ip) => if self.is_mapped() {
                Host::V4(ip.subrange(12, 16))
            } else {
                self
            },
            _ => self,
        }
    }

    /// An IPv4 address becomes its mapped IPv6 form; every other host stays.
    pub open spec fn mapped(self) -> Host {
        match self {
            Host::V4(ip) => Host::V6(mapped_prefix() + ip),
            _ => self,
        }
    }

    /// The address whose octets are all zero.
    pub open spec fn unspecified(self) -> bool {
        match self {
            Host::V4(ip) => all_zeros(ip),
            Host::V6(ip) => all_zeros(ip),
            Host::Domain(_) => false,
        }
    }
}

impl Target {
    pub open spec fn wf(self) -> bool {
        self.host.wf()
    }

    pub open spec fn canonical(self) -> Target {
        Target { host: self.host.canonical(), port: self.port }
    }

    pub open spec fn mapped(self) -> Target {
        Target { host: self.host.mapped(), port: self.port }
    }

    /// The wire form: the address type, the address, the port in network order.
    pub open spec fn wire(self) -> Seq<u8> {
        match self.host {
            Host::V4(ip) => seq![1u8] + ip + port_bytes(self.port),
            Host::V6(ip) => seq![4u8] + ip + port_bytes(self.port),
            Host::Domain(name) => seq![3u8, encode_utf8(name).len() as u8] + encode_utf8(name)
                + port_bytes(self.port),
        }
    }
}

/// The length of the wire form that starts with the octets `data`, read off its first two
/// octets; `None` for an address type other than 1, 3 and 4.
pub open spec fn wire_len(data: Seq<u8>) -> Option<int>
    recommends
        data.len() >= 2,
{
    if data[0] == 1 {
        Some(7)
    } else if data[0] == 4 {
        Some(19)
    } else if data[0] == 3 {
        Some(4 + data[1])
    } else {
        None
    }
}

/// What a whole wire form says.
pub open spec fn decode(data: Seq<u8>) -> Result<Target>
    recommends
        data.len() >= 2,
        wire_len(data) is Some ==> data.len() == wire_len(data)->0,
{
    if data[0] == 1 {
        Ok(Target { host: Host::V4(data.subrange(1, 5)), port: port_of(data[5], data[6]) })
    } else if data[0] == 4 {
        Ok(Target { host: Host::V6(data.subrange(1, 17)), port: port_of(data[17], data[18]) })
    } else if data[0] == 3 {
        let end = 2 + data[1];
        if valid_utf8(data.subrange(2, end)) {
            Ok(
                Target {
                    host: Host::Domain(decode_utf8(data.subrange(2, end))),
                    port: port_of(data[end], data[end + 1]),
                },
            )
        } else {
            Err(Error::InvalidDomain)
        }
    } else {
        Err(Error::UnsupportedAddressType)
    }
}

/// A numeric address of either family.
#[derive(Clone, Copy, Debug, PartialEq, Eq)]
pub enum IpAddress {
    V4([u8; 4]),
    V6([u8; 16]),
}

/// An IPv4 address and a port.
#[derive(Clone, Copy, Debug, PartialEq, Eq)]
pub struct SocketV4 {
    pub ip: [u8; 4],
    pub port: u16,
}

/// An IPv6 address and a port.
#[derive(Clone, Copy, Debug, PartialEq, Eq)]
pub struct SocketV6 {
    pub ip: [u8; 16],
    pub port: u16,
}

/// The address of a socket: a numeric address and a port.
#[derive(Clone, Copy, Debug, PartialEq, Eq)]
pub enum Endpoint {
    V4(SocketV4),
    V6(SocketV6),
}

/// The destination that a request or a datagram names.
#[derive(Debug, PartialEq, Eq)]
pub enum Socks5Target {
    V4(SocketV4),
    V6(SocketV6),
    Domain((String, u16)),
}

impl View for IpAddress {
    type V = Host;

    open spec fn view(&self) -> Host {
        match self {
            IpAddress::V4(ip) => Host::V4(ip@),
            IpAddress::V6(ip) => Host::V6(ip@),
        }
    }
}

impl View for Endpoint {
    type V = Target;

    open spec fn view(&self) -> Target {
        match self {
            Endpoint::V4(a) => Target { host: Host::V4(a.ip@), port: a.port },
            Endpoint::V6(a) => Target { host: Host::V6(a.ip@), port: a.port },
        }
    }
}

impl View for Socks5Target {
    type V = Target;

    open spec fn view(&self) -> Target {
        match self {
            Socks5Target::V4(a) => Target { host: Host::V4(a.ip@), port: a.port },
            Socks5Target::V6(a) => Target { host: Host::V6(a.ip@), port: a.port },
            Socks5Target::Domain(x) => Target { host: Host::Domain(x.0@), port: x.1 },
        }
    }
}

/// `String::from_utf8` of std: the bytes become a string exactly when they are UTF-8, and the
/// string then holds the characters that they encode.
#[verifier::external_body]
fn string_from_utf8(bytes: Vec<u8>) -> (s: Option<String>)
    ensures
        s is Some <==> valid_utf8(bytes@),
        s is Some ==> s->0@ == decode_utf8(bytes@),
{
    match String::from_utf8(bytes) {
        Ok(s) => Some(s),
        Err(_) => None,
    }
}

fn read_port(hi: u8, lo: u8) -> (port: u16)
    ensures
        port == port_of(hi, lo),
{
    (hi as u16) * 256 + (lo as u16)
}

fn push_port(out: &mut Vec<u8>, port: u16)
    ensures
        final(out)@ == old(out)@ + port_bytes(port),
{
    out.push((port / 256) as u8);
    out.push((port % 256) as u8);
    assert(final(out)@ =~= old(out)@ + port_bytes(port));
}

pub(crate) fn push_all(out: &mut Vec<u8>, bytes: &[u8])
    ensures
        final(out)@ == old(out)@ + bytes@,
{
    let mut i: usize = 0;
    while i < bytes.len()
        invariant
            i <= bytes.len(),
            out@ == old(out)@ + bytes@.subrange(0, i as int),
        decreases bytes.len() - i,
    {
        out.push(bytes[i]);
        assert(out@ =~= old(out)@ + bytes@.subrange(0, i + 1));
        i = i + 1;
    }
    assert(bytes@.subrange(0, bytes.len() as int) =~= bytes@);
}

fn all_zero(bytes: &[u8]) -> (r: bool)
    ensures
        r == all_zeros(bytes@),
{
    let mut i: usize = 0;
    while i < bytes.len()
        invariant
            i <= bytes.len(),
            forall|j: int| 0 <= j < i ==> bytes@[j] == 0,
        decreases bytes.len() - i,
    {
        if bytes[i] != 0 {
            return false;
        }
        i = i + 1;
    }
    true
}

fn same_bytes(a: &[u8], b: &[u8]) -> (r: bool)
    ensures
        r == (a@ == b@),
{
    if a.len() != b.len() {
        return false;
    }
    let mut i: usize = 0;
    while i < a.len()
        invariant
            i <= a.len(),
            a.len() == b.len(),
            forall|j: int| 0 <= j < i ==> a@[j] == b@[j],
        decreases a.len() - i,
    {
        if a[i] != b[i] {
            return false;
        }
        i = i + 1;
    }
    assert(a@ =~= b@);
    true
}

impl IpAddress {
    /// Whether two addresses are of one family and agree octet by octet.
    pub fn same(&self, other: &IpAddress) -> (r: bool)
        ensures
            r == (self@ == other@),
    {
        match (self, other) {
            (IpAddress::V4(a), IpAddress::V4(b)) => same_bytes(a.as_slice(), b.as_slice()),
            (IpAddress::V6(a), IpAddress::V6(b)) => same_bytes(a.as_slice(), b.as_slice()),
            _ => false,
        }
    }

    /// Whether every octet of the address is zero.
    pub fn is_unspecified(&self) -> (r: bool)
        ensures
            r == self@.unspecified(),
    {
        match self {
            IpAddress::V4(a) => all_zero(a.as_slice()),
            IpAddress::V6(a) => all_zero(a.as_slice()),
        }
    }
}

impl Endpoint {
    pub fn new(ip: IpAddress, port: u16) -> (e: Endpoint)
        ensures
            e@ == (Target { host: ip@, port }),
    {
        match ip {
            IpAddress::V4(ip) => Endpoint::V4(SocketV4 { ip, port }),
            IpAddress::V6(ip) => Endpoint::V6(SocketV6 { ip, port }),
        }
    }

    pub fn ip(&self) -> (ip: IpAddress)
        ensures
            ip@ == self@.host,
    {
        match self {
            Endpoint::V4(a) => IpAddress::V4(a.ip),
            Endpoint::V6(a) => IpAddress::V6(a.ip),
        }
    }

    pub fn port(&self) -> (port: u16)
        ensures
            port == self@.port,
    {
        match self {
            Endpoint::V4(a) => a.port,
            Endpoint::V6(a) => a.port,
        }
    }

    /// The same address with another port.
    pub fn with_port(&self, port: u16) -> (e: Endpoint)
        ensures
            e@ == (Target { host: self@.host, port }),
    {
        match self {
            Endpoint::V4(a) => Endpoint::V4(SocketV4 { ip: a.ip, port }),
            Endpoint::V6(a) => Endpoint::V6(SocketV6 { ip: a.ip, port }),
        }
    }

    /// A mapped IPv4 address is handed back as that IPv4 address, anything else as it is.
    pub fn to_canonical(&self) -> (e: Endpoint)
        ensures
            e@ == self@.canonical(),
    {
        match self {
            Endpoint::V4(a) => *self,
            Endpoint::V6(a) => {
                let ip = &a.ip;
                let zeros = ip[0] == 0 && ip[1] == 0 && ip[2] == 0 && ip[3] == 0 && ip[4] == 0
                    && ip[5] == 0 && ip[6] == 0 && ip[7] == 0 && ip[8] == 0 && ip[9] == 0;
                if zeros && ip[10] == 0xff && ip[11] == 0xff {
                    let v4: [u8; 4] = [ip[12], ip[13], ip[14], ip[15]];
                    assert(ip@.subrange(0, 12) =~= mapped_prefix());
                    assert(v4@ =~= ip@.subrange(12, 16));
                    Endpoint::V4(SocketV4 { ip: v4, port: a.port })
                } else {
                    proof {
                        let p = ip@.subrange(0, 12);
                        if p == mapped_prefix() {
                            assert(p[0] == ip@[0] && p[1] == ip@[1] && p[2] == ip@[2] && p[3]
                                == ip@[3] && p[4] == ip@[4] && p[5] == ip@[5] && p[6] == ip@[6]
                                && p[7] == ip@[7] && p[8] == ip@[8] && p[9] == ip@[9] && p[10]
                                == ip@[10] && p[11] == ip@[11]);
                            assert(false);
                        }
                    }
                    *self
                }
            },
        }
    }

    /// An IPv4 address is handed back in its mapped IPv6 form, an IPv6 address as it is.
    pub fn to_mapped(&self) -> (e: Endpoint)
        ensures
            e@ == self@.mapped(),
    {
        match self {
            Endpoint::V4(a) => {
                let ip: [u8; 16] = [
                    0,
                    0,
                    0,
                    0,
                    0,
                    0,
                    0,
                    0,
                    0,
                    0,
                    0xff,
                    0xff,
                    a.ip[0],
                    a.ip[1],
                    a.ip[2],
                    a.ip[3],
                ];
                assert(ip@ =~= mapped_prefix() + a.ip@);
                Endpoint::V6(SocketV6 { ip, port: a.port })
            },
            Endpoint::V6(_) => *self,
        }
    }

    /// The wire form of the canonical address.
    pub fn encode(&self) -> (bytes: Vec<u8>)
        ensures
            bytes@ == self@.canonical().wire(),
    {
        let mut out: Vec<u8> = Vec::new();
        match self.to_canonical() {
            Endpoint::V4(a) => {
                out.push(1);
                push_all(&mut out, a.ip.as_slice());
                push_port(&mut out, a.port);
            },
            Endpoint::V6(a) => {
                out.push(4);
                push_all(&mut out, a.ip.as_slice());
                push_port(&mut out, a.port);
            },
        }
        out
    }
}

impl Socks5Target {
    fn parse_ipv4(data: &[u8]) -> (t: Socks5Target)
        requires
            data@.len() == 6,
        ensures
            t@ == (Target {
                host: Host::V4(data@.subrange(0, 4)),
                port: port_of(data@[4], data@[5]),
            }),
    {
        let ip: [u8; 4] = [data[0], data[1], data[2], data[3]];
        assert(ip@ =~= data@.subrange(0, 4));
        Socks5Target::V4(SocketV4 { ip, port: read_port(data[4], data[5]) })
    }

    fn parse_ipv6(data: &[u8]) -> (t: Socks5Target)
        requires
            data@.len() == 18,
        ensures
            t@ == (Target {
                host: Host::V6(data@.subrange(0, 16)),
                port: port_of(data@[16], data@[17]),
            }),
    {
        let ip: [u8; 16] = [
            data[0],
            data[1],
            data[2],
            data[3],
            data[4],
            data[5],
            data[6],
            data[7],
            data[8],
            data[9],
            data[10],
            data[11],
            data[12],
            data[13],
            data[14],
            data[15],
        ];
        assert(ip@ =~= data@.subrange(0, 16));
        Socks5Target::V6(SocketV6 { ip, port: read_port(data[16], data[17]) })
    }

    fn parse_domain(data: &[u8]) -> (r: Result<Socks5Target>)
        requires
            data@.len() >= 1,
            data@.len() == 3 + data@[0],
        ensures
            valid_utf8(data@.subrange(1, data@.len() - 2)) ==> r is Ok && r->Ok_0@ == (Target {
                host: Host::Domain(decode_utf8(data@.subrange(1, data@.len() - 2))),
                port: port_of(data@[data@.len() - 2], data@[data@.len() - 1]),
            }),
            !valid_utf8(data@.subrange(1, data@.len() - 2)) ==> r == Err::<Socks5Target, Error>(
                Error::InvalidDomain,
            ),
    {
        let len = data.len();
        let name = slice_to_vec(slice_subrange(data, 1, len - 2));
        match string_from_utf8(name) {
            Some(domain) => {
                let port = read_port(data[len - 2], data[len - 1]);
                Ok(Socks5Target::Domain((domain, port)))
            },
            None => Err(Error::InvalidDomain),
        }
    }

    /// The length of the address field that starts at `data`, address type and port
    /// included, as far as its first two octets tell.
    pub fn target_len(data: &[u8]) -> (r: Result<usize>)
        requires
            data@.len() >= 2,
        ensures
            r == match wire_len(data@) {
                Some(n) => Ok::<usize, Error>(n as usize),
                None => Err::<usize, Error>(Error::UnsupportedAddressType),
            },
            data@[0] == 1 ==> r == Ok::<usize, Error>(7),
            data@[0] == 4 ==> r == Ok::<usize, Error>(19),
            data@[0] == 3 ==> r == Ok::<usize, Error>((4 + data@[1]) as usize),
            data@[0] != 1 && data@[0] != 3 && data@[0] != 4 ==> r is Err,
    {
        match data[0] {
            1 => Ok(7),
            4 => Ok(19),
            3 => Ok(4 + data[1] as usize),
            _ => Err(Error::UnsupportedAddressType),
        }
    }

    /// Decodes a whole address field.
    pub fn try_parse(data: &[u8]) -> (r: Result<Socks5Target>)
        requires
            data@.len() >= 2,
            wire_len(data@) is Some ==> data@.len() == wire_len(data@)->0,
        ensures
            match r {
                Ok(t) => decode(data@) == Ok::<Target, Error>(t@),
                Err(e) => decode(data@) == Err::<Target, Error>(e),
            },
            r is Ok ==> r->Ok_0@.wf(),
    {
        let len = data.len();
        match data[0] {
            1 => {
                let rest = slice_subrange(data, 1, len);
                assert(rest@.subrange(0, 4) =~= data@.subrange(1, 5));
                Ok(Self::parse_ipv4(rest))
            },
            4 => {
                let rest = slice_subrange(data, 1, len);
                assert(rest@.subrange(0, 16) =~= data@.subrange(1, 17));
                Ok(Self::parse_ipv6(rest))
            },
            3 => {
                let rest = slice_subrange(data, 1, len);
                assert(rest@.subrange(1, rest@.len() - 2) =~= data@.subrange(2, 2 + data@[1]));
                proof {
                    let name = data@.subrange(2, 2 + data@[1]);
                    if valid_utf8(name) {
                        decode_utf8_encode_utf8(name);
                    }
                }
                Self::parse_domain(rest)
            },
            _ => Err(Error::UnsupportedAddressType),
        }
    }

    pub fn port(&self) -> (port: u16)
        ensures
            port == self@.port,
    {
        match self {
            Socks5Target::V4(x) => x.port,
            Socks5Target::V6(x) => x.port,
            Socks5Target::Domain(x) => x.1,
        }
    }

    /// The socket address of a numeric target; a domain name has none until it is resolved.
    pub fn endpoint(&self) -> (e: Option<Endpoint>)
        ensures
            match e {
                Some(e) => !(self@.host is Domain) && e@ == self@,
                None => self@.host is Domain,
            },
            self matches Socks5Target::V4(a) ==> e == Some(Endpoint::V4(*a)),
            self matches Socks5Target::V6(a) ==> e == Some(Endpoint::V6(*a)),
    {
        match self {
            Socks5Target::V4(x) => Some(Endpoint::V4(*x)),
            Socks5Target::V6(x) => Some(Endpoint::V6(*x)),
            Socks5Target::Domain(_) => None,
        }
    }
}

/// Two octets read as a port and written out again are the same two octets, and a port
/// written out and read back is the same port.
pub proof fn lemma_port_round_trip(hi: u8, lo: u8, port: u16)
    ensures
        port_bytes(port).len() == 2,
        port_of(port_bytes(port)[0], port_bytes(port)[1]) == port,
        port_bytes(port_of(hi, lo)) == seq![hi, lo],
{
    assert(port_bytes(port_of(hi, lo)) =~= seq![hi, lo]);
}

/// Decoding the wire form of a target gives the target back, and the length that the first
/// two octets announce is the length of the whole.
pub proof fn law_decode_wire(t: Target)
    requires
        t.wf(),
    ensures
        t.wire().len() >= 4,
        wire_len(t.wire()) == Some(t.wire().len() as int),
        decode(t.wire()) == Ok::<Target, Error>(t),
{
    let w = t.wire();
    lemma_port_round_trip(0, 0, t.port);
    match t.host {
        Host::V4(ip) => {
            assert(w.subrange(1, 5) =~= ip);
        },
        Host::V6(ip) => {
            assert(w.subrange(1, 17) =~= ip);
        },
        Host::Domain(name) => {
            let bytes = encode_utf8(name);
            assert(w[1] == bytes.len());
            assert(w.subrange(2, 2 + w[1]) =~= bytes);
            encode_utf8_valid_utf8(name);
            encode_utf8_decode_utf8(name);
        },
    }
}

/// Encoding what a wire form decodes to gives the wire form back.
pub proof fn law_wire_decode(data: Seq<u8>)
    requires
        data.len() >= 2,
        wire_len(data) == Some(data.len() as int),
        decode(data) is Ok,
    ensures
        decode(data)->Ok_0.wf(),
        decode(data)->Ok_0.wire() == data,
{
    let t = decode(data)->Ok_0;
    if data[0] == 1 {
        lemma_port_round_trip(data[5], data[6], 0);
        assert(t.wire() =~= data);
    } else if data[0] == 4 {
        lemma_port_round_trip(data[17], data[18], 0);
        assert(t.wire() =~= data);
    } else {
        let end = 2 + data[1];
        let name = data.subrange(2, end);
        decode_utf8_encode_utf8(name);
        lemma_port_round_trip(data[end], data[end + 1], 0);
        assert(t.wire() =~= data);
    }
}

/// Making an address canonical a second time changes nothing.
pub proof fn law_canonical_idempotent(t: Target)
    ensures
        t.canonical().canonical() == t.canonical(),
        t.wf() ==> t.canonical().wf(),
{
}

/// An IPv4 address that is mapped into IPv6 and made canonical again is the address it was.
pub proof fn law_mapped_canonical(t: Target)
    requires
        t.wf(),
        t.host is V4,
    ensures
        t.mapped().host.is_mapped(),
        t.mapped().canonical() == t,
{
    let ip = t.host->V4_0;
    let m = mapped_prefix() + ip;
    assert(m.subrange(0, 12) =~= mapped_prefix());
    assert(m.subrange(12, 16) =~= ip);
}

/// What `encode` writes for a socket address decodes to the canonical form of that address,
/// and encoding the decoded address writes the same octets again.
pub proof fn law_encode_round_trip(addr: Endpoint)
    ensures
        decode(addr@.canonical().wire()) == Ok::<Target, Error>(addr@.canonical()),
        decode(addr@.canonical().wire())->Ok_0.canonical().wire() == addr@.canonical().wire(),
{
    law_canonical_idempotent(addr@);
    law_decode_wire(addr@.canonical());
}

} // verus!
