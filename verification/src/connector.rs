use crate::error::{Error, IoFailure, Result};
use crate::target::{Endpoint, Host, IpAddress, SocketV4, SocketV6, Socks5Target, Target};
use crate::udp::{datagram, parse_datagram};
use vstd::prelude::*;

verus! {

/// What to do with one datagram from the client.
pub enum Route {
    /// Send the payload, which starts at the given offset, to the destination.
    Send(Target, int),
    /// Pass over the datagram.
    Drop,
    /// Look the name up, record the answers, and ask again.
    Resolve(Seq<char>, u16),
}

/// What to do with one datagram from the client.
#[derive(Debug, PartialEq, Eq)]
pub enum Forward {
    /// Send the payload, which starts at `payload`, to `to`.
    Send { to: Endpoint, payload: usize },
    /// Pass over the datagram.
    Drop,
    /// Look the name up, hand the answers to `resolved`, and ask again.
    Resolve { domain: String, port: u16 },
}

impl View for Forward {
    type V = Route;

    open spec fn view(&self) -> Route {
        match self {
            Forward::Send { to, payload } => Route::Send(to@, *payload as int),
            Forward::Drop => Route::Drop,
            Forward::Resolve { domain, port } => Route::Resolve(domain@, *port),
        }
    }
}

/// The wildcard address that the outbound socket is bound to: the IPv6 one for both
/// families, the IPv4 one where only IPv4 is to be had.
pub open spec fn wildcard(ipv4_only: bool) -> Target {
    if ipv4_only {
        Target { host: Host::V4(seq![0u8, 0u8, 0u8, 0u8]), port: 0 }
    } else {
        Target {
            host: Host::V6(
                seq![0u8, 0u8, 0u8, 0u8, 0u8, 0u8, 0u8, 0u8, 0u8, 0u8, 0u8, 0u8, 0u8, 0u8, 0u8, 0u8],
            ),
            port: 0,
        }
    }
}

/// The entry that records that a name has no usable address.
pub open spec fn negative() -> Host {
    Host::V4(seq![0u8, 0u8, 0u8, 0u8])
}

/// Where a payload for a numeric destination goes. On a socket for both families an IPv4
/// address goes out in its mapped form. On a socket for IPv4 alone a mapped address goes
/// out as the IPv4 address it holds, and any other IPv6 address has nowhere to go.
pub open spec fn destination(ipv4_only: bool, t: Target) -> Option<Target> {
    if ipv4_only {
        if t.canonical().host is V4 {
            Some(t.canonical())
        } else {
            None
        }
    } else {
        Some(t.mapped())
    }
}

/// Whether an answer of the resolver can be used: any on a socket for both families, the
/// IPv4 ones alone on a socket for IPv4.
pub open spec fn usable(ipv4_only: bool, answer: Host) -> bool {
    !ipv4_only || answer is V4
}

/// The first answer that can be used, if there is one.
pub open spec fn first_usable(ipv4_only: bool, answers: Seq<IpAddress>) -> Option<Host>
    decreases answers.len(),
{
    if answers.len() == 0 {
        None
    } else if usable(ipv4_only, answers[0]@) {
        Some(answers[0]@)
    } else {
        first_usable(ipv4_only, answers.drop_first())
    }
}

/// What a lookup leaves in the cache: the first usable answer, or the negative entry.
pub open spec fn entry(ipv4_only: bool, answers: Seq<IpAddress>) -> Host {
    match first_usable(ipv4_only, answers) {
        Some(host) => host,
        None => negative(),
    }
}

/// The route of a payload whose destination is numeric.
pub open spec fn route_to(ipv4_only: bool, t: Target, offset: int) -> Route {
    match destination(ipv4_only, t) {
        Some(to) => Route::Send(to, offset),
        None => Route::Drop,
    }
}

/// The route of a datagram from the client. A numeric destination is used as it stands. A
/// name goes by the cache: one that is not there is to be looked up, one with the
/// unspecified address is passed over, any other goes to the address on record.
pub open spec fn route(ipv4_only: bool, cache: Map<Seq<char>, Host>, data: Seq<u8>) -> Result<
    Route,
> {
    match datagram(data) {
        Err(e) => Err(e),
        Ok((t, offset)) => Ok(
            match t.host {
                Host::Domain(name) => if !cache.contains_key(name) {
                    Route::Resolve(name, t.port)
                } else if cache[name].unspecified() {
                    Route::Drop
                } else {
                    route_to(ipv4_only, Target { host: cache[name], port: t.port }, offset)
                },
                _ => route_to(ipv4_only, t, offset),
            },
        ),
    }
}

/// What a list of names and addresses records: each name with the address that was put
/// down for it last.
pub open spec fn recorded(entries: Seq<(String, IpAddress)>) -> Map<Seq<char>, Host>
    decreases entries.len(),
{
    if entries.len() == 0 {
        Map::empty()
    } else {
        recorded(entries.drop_last()).insert(entries.last().0@, entries.last().1@)
    }
}

/// Whether a failed send or receive on the relay is passed over, so that the relay goes on.
pub fn after_failure(kind: IoFailure) -> (r: Result<()>)
    ensures
        r == if kind.transient() {
            Ok::<(), Error>(())
        } else {
            Err::<(), Error>(Error::Io(kind))
        },
{
    if kind.is_transient() {
        Ok(())
    } else {
        Err(Error::Io(kind))
    }
}

/// The relay of one UDP association: the destination of the request that opened it, the
/// kind of its outbound socket, and the names looked up so far.
pub struct Socks5Connector {
    target: Socks5Target,
    ipv4_only: bool,
    host_cache: Vec<(String, IpAddress)>,
}

impl Socks5Connector {
    pub closed spec fn target(&self) -> Target {
        self.target@
    }

    /// Whether the outbound socket takes IPv4 alone.
    pub closed spec fn ipv4_only(&self) -> bool {
        self.ipv4_only
    }

    /// The names looked up so far, each with its address; the unspecified address stands
    /// for a name without a usable address.
    pub closed spec fn cache(&self) -> Map<Seq<char>, Host> {
        recorded(self.host_cache@)
    }

    pub fn new(target: Socks5Target) -> (connector: Socks5Connector)
        ensures
            connector.target() == target@,
            !connector.ipv4_only(),
            connector.cache() == Map::<Seq<char>, Host>::empty(),
    {
        Self { target, ipv4_only: false, host_cache: Vec::new() }
    }

    /// The socket address of the target, if the target is numeric.
    pub fn endpoint(&self) -> (e: Option<Endpoint>)
        ensures
            match e {
                Some(e) => !(self.target().host is Domain) && e@ == self.target(),
                None => self.target().host is Domain,
            },
    {
        self.target.endpoint()
    }

    /// Whether no name is on record yet.
    pub fn cache_is_empty(&self) -> (r: bool)
        ensures
            r == (self.cache() == Map::<Seq<char>, Host>::empty()),
    {
        let r = self.host_cache.len() == 0;
        proof {
            let entries = self.host_cache@;
            if entries.len() > 0 {
                assert(recorded(entries).contains_key(entries.last().0@));
            }
        }
        r
    }

    /// Says where to bind the outbound socket, and fixes the kind of socket for the session.
    /// The first attempt is on the IPv6 wildcard, for both families. Where that attempt
    /// failed, the second is on the IPv4 wildcard, for IPv4 alone. The socket is bound
    /// before the relay starts: once a name is on record the kind of socket stays.
    pub fn udp_bind(&mut self, dual_stack_failed: bool) -> (bind: Endpoint)
        requires
            old(self).cache() == Map::<Seq<char>, Host>::empty(),
        ensures
            bind@ == wildcard(dual_stack_failed),
            final(self).ipv4_only() == dual_stack_failed,
            final(self).target() == old(self).target(),
            final(self).cache() == old(self).cache(),
    {
        self.ipv4_only = dual_stack_failed;
        if dual_stack_failed {
            let ip: [u8; 4] = [0, 0, 0, 0];
            assert(ip@ =~= seq![0u8, 0u8, 0u8, 0u8]);
            Endpoint::V4(SocketV4 { ip, port: 0 })
        } else {
            let ip: [u8; 16] = [0, 0, 0, 0, 0, 0, 0, 0, 0, 0, 0, 0, 0, 0, 0, 0];
            assert(ip@ =~= seq![
                0u8,
                0u8,
                0u8,
                0u8,
                0u8,
                0u8,
                0u8,
                0u8,
                0u8,
                0u8,
                0u8,
                0u8,
                0u8,
                0u8,
                0u8,
                0u8,
            ]);
            Endpoint::V6(SocketV6 { ip, port: 0 })
        }
    }

    pub fn is_ipv4_only(&self) -> (r: bool)
        ensures
            r == self.ipv4_only(),
    {
        self.ipv4_only
    }

    /// What the cache holds for `domain`, if anything.
    pub fn cached(&self, domain: &String) -> (r: Option<IpAddress>)
        ensures
            match r {
                Some(ip) => self.cache().contains_key(domain@) && self.cache()[domain@] == ip@,
                None => !self.cache().contains_key(domain@),
            },
    {
        let mut found: Option<IpAddress> = None;
        let mut i: usize = 0;
        while i < self.host_cache.len()
            invariant
                i <= self.host_cache@.len(),
                match found {
                    Some(ip) => recorded(self.host_cache@.take(i as int)).contains_key(domain@)
                        && recorded(self.host_cache@.take(i as int))[domain@] == ip@,
                    None => !recorded(self.host_cache@.take(i as int)).contains_key(domain@),
                },
            decreases self.host_cache@.len() - i,
        {
            assert(self.host_cache@.take(i + 1).drop_last() =~= self.host_cache@.take(i as int));
            if self.host_cache[i].0 == *domain {
                found = Some(self.host_cache[i].1);
            }
            i = i + 1;
        }
        assert(self.host_cache@.take(i as int) =~= self.host_cache@);
        found
    }

    /// Records the answers of the resolver for `domain`: the first one that the outbound
    /// socket can use, or, where there is none, the unspecified address. A resolver that
    /// failed has no answers.
    pub fn resolved(&mut self, domain: String, answers: &[IpAddress])
        ensures
            final(self).cache() == old(self).cache().insert(
                domain@,
                entry(old(self).ipv4_only(), answers@),
            ),
            final(self).ipv4_only() == old(self).ipv4_only(),
            final(self).target() == old(self).target(),
    {
        let mut chosen: IpAddress = IpAddress::V4([0, 0, 0, 0]);
        assert(chosen@ == negative()) by {
            assert(chosen@->V4_0 =~= seq![0u8, 0u8, 0u8, 0u8]);
        }
        let mut found = false;
        let mut i: usize = 0;
        assert(answers@.subrange(0, answers@.len() as int) =~= answers@);
        while i < answers.len() && !found
            invariant
                i <= answers@.len(),
                !found ==> chosen@ == negative() && first_usable(self.ipv4_only, answers@)
                    == first_usable(
                    self.ipv4_only,
                    answers@.subrange(i as int, answers@.len() as int),
                ),
                found ==> first_usable(self.ipv4_only, answers@) == Some(chosen@),
            decreases answers@.len() - i + if found { 0int } else { 1int },
        {
            let ghost rest = answers@.subrange(i as int, answers@.len() as int);
            assert(rest.drop_first() =~= answers@.subrange(i + 1, answers@.len() as int));
            assert(rest[0] == answers@[i as int]);
            let usable = match answers[i] {
                IpAddress::V4(_) => true,
                IpAddress::V6(_) => !self.ipv4_only,
            };
            if usable {
                chosen = answers[i];
                found = true;
            } else {
                i = i + 1;
            }
        }
        proof {
            if !found {
                assert(answers@.subrange(i as int, answers@.len() as int).len() == 0);
            }
            let ghost before = self.host_cache@;
            assert(before.push((domain, chosen)).drop_last() =~= before);
        }
        self.host_cache.push((domain, chosen));
    }

    /// Decides what to do with one datagram from the client.
    pub fn forward_udp(&self, data: &[u8]) -> (r: Result<Forward>)
        ensures
            match r {
                Ok(f) => route(self.ipv4_only(), self.cache(), data@) == Ok::<Route, Error>(f@),
                Err(e) => route(self.ipv4_only(), self.cache(), data@) == Err::<Route, Error>(e),
            },
            r matches Ok(Forward::Send { payload, .. }) ==> payload <= data@.len(),
    {
        let (target, offset) = match parse_datagram(data) {
            Ok(parsed) => parsed,
            Err(e) => {
                return Err(e);
            },
        };
        let to = match target {
            Socks5Target::V4(a) => Endpoint::V4(a),
            Socks5Target::V6(a) => Endpoint::V6(a),
            Socks5Target::Domain((domain, port)) => match self.cached(&domain) {
                None => {
                    return Ok(Forward::Resolve { domain, port });
                },
                Some(ip) => {
                    if ip.is_unspecified() {
                        return Ok(Forward::Drop);
                    }
                    Endpoint::new(ip, port)
                },
            },
        };
        Ok(self.send_to(to, offset))
    }

    /// The route of a payload for the numeric destination `to`.
    pub fn send_to(&self, to: Endpoint, payload: usize) -> (f: Forward)
        ensures
            f@ == route_to(self.ipv4_only(), to@, payload as int),
    {
        if self.ipv4_only {
            match to.to_canonical() {
                Endpoint::V4(a) => Forward::Send { to: Endpoint::V4(a), payload },
                Endpoint::V6(_) => Forward::Drop,
            }
        } else {
            Forward::Send { to: to.to_mapped(), payload }
        }
    }
}

/// On a socket for IPv4 alone only the pure IPv6 destinations are passed over: an IPv4
/// destination is sent to as it stands, and a mapped one is sent to as the IPv4 address it
/// holds. On a socket for both families nothing is passed over, and an IPv4 destination
/// goes out in its mapped form.
pub proof fn law_numeric_routes(t: Target, offset: int)
    requires
        t.wf(),
        !(t.host is Domain),
    ensures
        route_to(true, t, offset) == if t.host is V4 {
            Route::Send(t, offset)
        } else if t.host.is_mapped() {
            Route::Send(t.canonical(), offset)
        } else {
            Route::Drop
        },
        route_to(false, t, offset) == Route::Send(t.mapped(), offset),
        t.host is V6 ==> route_to(false, t, offset) == Route::Send(t, offset),
{
}

/// A name is looked up exactly once. A datagram for a name that is not on record asks for a
/// lookup. When the answers are on record, no datagram for that name asks again, whatever
/// the answers were and whatever other name is looked up afterwards.
pub proof fn law_single_lookup(
    ipv4_only: bool,
    cache: Map<Seq<char>, Host>,
    name: Seq<char>,
    answers: Seq<IpAddress>,
    other: Seq<char>,
    others: Seq<IpAddress>,
    data: Seq<u8>,
)
    requires
        datagram(data) is Ok,
        datagram(data)->Ok_0.0.host == Host::Domain(name),
    ensures
        !cache.contains_key(name) ==> route(ipv4_only, cache, data) == Ok::<Route, Error>(
            Route::Resolve(name, datagram(data)->Ok_0.0.port),
        ),
        !(route(ipv4_only, cache.insert(name, entry(ipv4_only, answers)), data)->Ok_0 is Resolve),
        !(route(
            ipv4_only,
            cache.insert(name, entry(ipv4_only, answers)).insert(other, entry(ipv4_only, others)),
            data,
        )->Ok_0 is Resolve),
{
}

/// A name without a usable answer is on record with the unspecified address, and every
/// datagram for it is passed over from then on.
pub proof fn law_negative_entry(
    ipv4_only: bool,
    cache: Map<Seq<char>, Host>,
    name: Seq<char>,
    answers: Seq<IpAddress>,
    data: Seq<u8>,
)
    requires
        datagram(data) is Ok,
        datagram(data)->Ok_0.0.host == Host::Domain(name),
        first_usable(ipv4_only, answers) is None,
    ensures
        route(ipv4_only, cache.insert(name, entry(ipv4_only, answers)), data) == Ok::<Route, Error>(
            Route::Drop,
        ),
{
}

} // verus!
