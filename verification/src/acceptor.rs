use crate::error::{Error, Result, REPLY_SUCCEEDED};
use crate::target::{decode, push_all, wire_len, Endpoint, Socks5Target, Target};
use vstd::prelude::*;
use vstd::slice::slice_subrange;

verus! {

pub const VERSION: u8 = 5;

pub const NO_AUTHENTICATION: u8 = 0;

pub const NO_ACCEPTABLE_METHOD: u8 = 0xff;

pub const CONNECT: u8 = 1;

pub const UDP_ASSOCIATE: u8 = 3;

/// Where a session stands.
#[derive(Clone, Copy, Debug, PartialEq, Eq, Structural)]
pub enum Stage {
    AwaitingGreeting,
    AwaitingRequest,
    TcpConnect,
    UdpAssociate,
    Closed,
}

/// What one phase of the handshake asks of the caller next.
#[derive(Debug, PartialEq, Eq)]
pub enum Step {
    /// Read exactly this many more octets from the client and hand them over.
    Read(usize),
    /// The phase is over: write these octets, if any, to the client.
    Done(Vec<u8>),
    /// Write these octets, if any, to the client, then close with this error.
    Fail(Vec<u8>, Error),
}

/// What the session asks of the caller next.
#[derive(Debug, PartialEq, Eq)]
pub enum Action {
    /// Read exactly this many more octets from the client and hand them over.
    Read(usize),
    /// Write these octets to the client, then go on with no new octets.
    Write(Vec<u8>),
    /// Write these octets, if any, to the client, then close with this error.
    Close(Vec<u8>, Error),
    /// Open a TCP connection to the target and relay.
    Connect(Socks5Target),
    /// Set up a UDP relay for the client.
    Associate(Socks5Target),
}

/// The model of a [`Step`].
pub enum Outcome {
    Read(int),
    Done(Seq<u8>),
    Fail(Seq<u8>, Error),
}

/// The model of an [`Action`].
pub enum Decision {
    Read(int),
    Write(Seq<u8>),
    Close(Seq<u8>, Error),
    Connect(Target),
    Associate(Target),
}

impl View for Step {
    type V = Outcome;

    open spec fn view(&self) -> Outcome {
        match self {
            Step::Read(n) => Outcome::Read(*n as int),
            Step::Done(reply) => Outcome::Done(reply@),
            Step::Fail(reply, error) => Outcome::Fail(reply@, *error),
        }
    }
}

impl View for Action {
    type V = Decision;

    open spec fn view(&self) -> Decision {
        match self {
            Action::Read(n) => Decision::Read(*n as int),
            Action::Write(reply) => Decision::Write(reply@),
            Action::Close(reply, error) => Decision::Close(reply@, *error),
            Action::Connect(target) => Decision::Connect(target@),
            Action::Associate(target) => Decision::Associate(target@),
        }
    }
}

/// What the greeting read so far calls for: more octets while it is incomplete, a silent
/// close for a version other than 5, and else the choice of "no authentication" if the
/// client offers it, the refusal of all methods if not.
pub open spec fn greeting_outcome(bytes: Seq<u8>) -> Outcome {
    if bytes.len() < 2 {
        Outcome::Read(2 - bytes.len())
    } else if bytes[0] != VERSION {
        Outcome::Fail(Seq::empty(), Error::NotSocks5)
    } else if bytes.len() < 2 + bytes[1] {
        Outcome::Read(2 + bytes[1] - bytes.len())
    } else if bytes.subrange(2, 2 + bytes[1]).contains(NO_AUTHENTICATION) {
        Outcome::Done(seq![VERSION, NO_AUTHENTICATION])
    } else {
        Outcome::Fail(seq![VERSION, NO_ACCEPTABLE_METHOD], Error::NoAcceptableAuthMethod)
    }
}

/// The length of the whole request whose first five octets are those of `bytes`, if its
/// address type is known.
pub open spec fn request_len(bytes: Seq<u8>) -> Option<int>
    recommends
        bytes.len() >= 5,
{
    match wire_len(bytes.subrange(3, bytes.len() as int)) {
        Some(n) => Some(3 + n),
        None => None,
    }
}

/// What the request read so far calls for: more octets while it is incomplete, a silent
/// close for a wrong version or reserved octet, code 8 for an unknown address type, code 7
/// for a command other than CONNECT and UDP ASSOCIATE, and else nothing more.
pub open spec fn request_outcome(bytes: Seq<u8>) -> Outcome {
    if bytes.len() < 5 {
        Outcome::Read(5 - bytes.len())
    } else if bytes[0] != VERSION || bytes[2] != 0 {
        Outcome::Fail(Seq::empty(), Error::InvalidRequest)
    } else {
        match request_len(bytes) {
            None => Outcome::Fail(seq![VERSION, 8u8], Error::UnsupportedAddressType),
            Some(n) => if bytes.len() < n {
                Outcome::Read(n - bytes.len())
            } else if bytes[1] != CONNECT && bytes[1] != UDP_ASSOCIATE {
                Outcome::Fail(seq![VERSION, 7u8], Error::UnsupportedCommand)
            } else {
                Outcome::Done(Seq::empty())
            },
        }
    }
}

/// Whether `bytes` is one whole request for CONNECT or UDP ASSOCIATE and nothing more.
pub open spec fn whole_request(bytes: Seq<u8>) -> bool {
    &&& bytes.len() >= 5
    &&& request_outcome(bytes) == Outcome::Done(Seq::empty())
    &&& request_len(bytes) == Some(bytes.len() as int)
}

/// Where a whole request leads: to the relay that its command names, or to a close without
/// a reply where its domain name is not UTF-8.
pub open spec fn dispatch(bytes: Seq<u8>) -> Decision
    recommends
        whole_request(bytes),
{
    match decode(bytes.subrange(3, bytes.len() as int)) {
        Err(e) => Decision::Close(Seq::empty(), e),
        Ok(t) => if bytes[1] == UDP_ASSOCIATE {
            Decision::Associate(t)
        } else {
            Decision::Connect(t)
        },
    }
}

/// What a session that awaits octets does with the octets it has, `bytes`.
pub open spec fn decision(stage: Stage, bytes: Seq<u8>) -> Decision
    recommends
        stage == Stage::AwaitingGreeting || stage == Stage::AwaitingRequest,
{
    if stage == Stage::AwaitingGreeting {
        match greeting_outcome(bytes) {
            Outcome::Read(n) => Decision::Read(n),
            Outcome::Done(reply) => Decision::Write(reply),
            Outcome::Fail(reply, e) => Decision::Close(reply, e),
        }
    } else {
        match request_outcome(bytes) {
            Outcome::Read(n) => Decision::Read(n),
            Outcome::Done(_) => dispatch(bytes.subrange(0, request_len(bytes)->0)),
            Outcome::Fail(reply, e) => Decision::Close(reply, e),
        }
    }
}

/// The reply that tells of success: the version, the code of success, a zero octet, and the
/// address field of the address that the server uses on the client's behalf.
pub open spec fn success_reply(address: Seq<u8>) -> Seq<u8> {
    seq![VERSION, REPLY_SUCCEEDED, 0u8] + address
}

/// The reply that tells of a failure: the version, the octet 1, the code, and the address
/// field that the client sent in its request.
pub open spec fn failure_reply(code: u8, address: Seq<u8>) -> Seq<u8> {
    seq![VERSION, 1u8, code] + address
}

/// Builds the reply that tells of success, with the address field `address`.
pub fn succeeded(address: &[u8]) -> (bytes: Vec<u8>)
    ensures
        bytes@ == success_reply(address@),
{
    let mut out: Vec<u8> = Vec::new();
    out.push(VERSION);
    out.push(REPLY_SUCCEEDED);
    out.push(0);
    assert(out@ =~= seq![VERSION, REPLY_SUCCEEDED, 0u8]);
    push_all(&mut out, address);
    out
}

/// Builds the reply that tells of a failure, with `code` and the address field `address`.
pub fn failed(code: u8, address: &[u8]) -> (bytes: Vec<u8>)
    ensures
        bytes@ == failure_reply(code, address@),
{
    let mut out: Vec<u8> = Vec::new();
    out.push(VERSION);
    out.push(1);
    out.push(code);
    assert(out@ =~= seq![VERSION, 1u8, code]);
    push_all(&mut out, address);
    out
}

fn contains_zero(bytes: &[u8]) -> (r: bool)
    ensures
        r == bytes@.contains(0u8),
{
    let mut i: usize = 0;
    while i < bytes.len()
        invariant
            i <= bytes.len(),
            forall|j: int| 0 <= j < i ==> bytes@[j] != 0,
        decreases bytes.len() - i,
    {
        if bytes[i] == 0 {
            return true;
        }
        i = i + 1;
    }
    false
}

/// One client connection on its way through the handshake: the peer, the octets of the
/// message being read, and the stage.
pub struct Socks5Acceptor {
    peer: Endpoint,
    buf: Vec<u8>,
    stage: Stage,
}

impl Socks5Acceptor {
    /// The address of the client.
    pub closed spec fn peer(&self) -> Endpoint {
        self.peer
    }

    /// The octets of the message that is being read, or of the request once it is whole.
    pub closed spec fn bytes(&self) -> Seq<u8> {
        self.buf@
    }

    pub closed spec fn stage(&self) -> Stage {
        self.stage
    }

    /// Once a relay is chosen the session holds the whole request, and the relay is the one
    /// that the request's command names.
    pub open spec fn wf(&self) -> bool {
        &&& self.stage() == Stage::TcpConnect ==> whole_request(self.bytes()) && self.bytes()[1]
            == CONNECT
        &&& self.stage() == Stage::UdpAssociate ==> whole_request(self.bytes()) && self.bytes()[1]
            == UDP_ASSOCIATE
    }

    /// A session with the client at `peer` that awaits the greeting.
    pub fn new(peer: Endpoint) -> (acceptor: Socks5Acceptor)
        ensures
            acceptor.wf(),
            acceptor.peer() == peer,
            acceptor.bytes() == Seq::<u8>::empty(),
            acceptor.stage() == Stage::AwaitingGreeting,
    {
        Socks5Acceptor { peer, buf: Vec::new(), stage: Stage::AwaitingGreeting }
    }

    pub fn peer_addr(&self) -> (peer: Endpoint)
        ensures
            peer == self.peer(),
    {
        self.peer
    }

    pub fn current_stage(&self) -> (stage: Stage)
        ensures
            stage == self.stage(),
    {
        self.stage
    }

    /// Takes the next octets of the greeting and says what they call for. The session
    /// awaits the request once a method is chosen, and is closed once the greeting fails.
    pub fn authenticate(&mut self, data: &[u8]) -> (step: Step)
        requires
            old(self).stage() == Stage::AwaitingGreeting,
        ensures
            step@ == greeting_outcome(old(self).bytes() + data@),
            final(self).peer() == old(self).peer(),
            final(self).wf(),
            match step {
                Step::Read(_) => final(self).stage() == Stage::AwaitingGreeting
                    && final(self).bytes() == old(self).bytes() + data@,
                Step::Done(_) => final(self).stage() == Stage::AwaitingRequest
                    && final(self).bytes() == Seq::<u8>::empty(),
                Step::Fail(_, _) => final(self).stage() == Stage::Closed && final(self).bytes()
                    == old(self).bytes() + data@,
            },
    {
        push_all(&mut self.buf, data);
        let len = self.buf.len();
        if len < 2 {
            return Step::Read(2 - len);
        }
        if self.buf[0] != VERSION {
            self.stage = Stage::Closed;
            return Step::Fail(Vec::new(), Error::NotSocks5);
        }
        let end: usize = 2 + self.buf[1] as usize;
        if len < end {
            return Step::Read(end - len);
        }
        if contains_zero(slice_subrange(self.buf.as_slice(), 2, end)) {
            self.buf.clear();
            self.stage = Stage::AwaitingRequest;
            let mut reply: Vec<u8> = Vec::new();
            reply.push(VERSION);
            reply.push(NO_AUTHENTICATION);
            assert(reply@ =~= seq![VERSION, NO_AUTHENTICATION]);
            Step::Done(reply)
        } else {
            self.stage = Stage::Closed;
            let mut reply: Vec<u8> = Vec::new();
            reply.push(VERSION);
            reply.push(NO_ACCEPTABLE_METHOD);
            assert(reply@ =~= seq![VERSION, NO_ACCEPTABLE_METHOD]);
            Step::Fail(reply, Error::NoAcceptableAuthMethod)
        }
    }

    /// Takes the next octets of the request and says what they call for. Once the request is
    /// whole the session holds exactly its octets and stands at the relay that its command
    /// names; once the request fails the session is closed.
    pub fn accept_command(&mut self, data: &[u8]) -> (step: Step)
        requires
            old(self).stage() == Stage::AwaitingRequest,
        ensures
            step@ == request_outcome(old(self).bytes() + data@),
            final(self).peer() == old(self).peer(),
            final(self).wf(),
            match step {
                Step::Read(_) => final(self).stage() == Stage::AwaitingRequest
                    && final(self).bytes() == old(self).bytes() + data@,
                Step::Done(_) => {
                    let all = old(self).bytes() + data@;
                    &&& final(self).bytes() == all.subrange(0, request_len(all)->0)
                    &&& final(self).stage() == if all[1] == CONNECT {
                        Stage::TcpConnect
                    } else {
                        Stage::UdpAssociate
                    }
                },
                Step::Fail(_, _) => final(self).stage() == Stage::Closed && final(self).bytes()
                    == old(self).bytes() + data@,
            },
    {
        push_all(&mut self.buf, data);
        let ghost all = self.buf@;
        let len = self.buf.len();
        if len < 5 {
            return Step::Read(5 - len);
        }
        if self.buf[0] != VERSION || self.buf[2] != 0 {
            self.stage = Stage::Closed;
            return Step::Fail(Vec::new(), Error::InvalidRequest);
        }
        let total: usize = match Socks5Target::target_len(
            slice_subrange(self.buf.as_slice(), 3, len),
        ) {
            Ok(n) => n + 3,
            Err(e) => {
                self.stage = Stage::Closed;
                let mut reply: Vec<u8> = Vec::new();
                reply.push(VERSION);
                reply.push(8);
                assert(reply@ =~= seq![VERSION, 8u8]);
                return Step::Fail(reply, e);
            },
        };
        if len < total {
            return Step::Read(total - len);
        }
        if self.buf[1] != CONNECT && self.buf[1] != UDP_ASSOCIATE {
            self.stage = Stage::Closed;
            let mut reply: Vec<u8> = Vec::new();
            reply.push(VERSION);
            reply.push(7);
            assert(reply@ =~= seq![VERSION, 7u8]);
            return Step::Fail(reply, Error::UnsupportedCommand);
        }
        self.buf.truncate(total);
        self.stage = if self.buf[1] == CONNECT {
            Stage::TcpConnect
        } else {
            Stage::UdpAssociate
        };
        proof {
            let kept = self.buf@;
            assert(kept.subrange(3, kept.len() as int) =~= all.subrange(3, total as int));
            assert(all.subrange(3, total as int)[0] == all.subrange(3, all.len() as int)[0]);
            assert(all.subrange(3, total as int)[1] == all.subrange(3, all.len() as int)[1]);
        }
        Step::Done(Vec::new())
    }

    /// The destination that the request names.
    pub fn target(&self) -> (r: Result<Socks5Target>)
        requires
            self.wf(),
            self.stage() == Stage::TcpConnect || self.stage() == Stage::UdpAssociate,
        ensures
            match r {
                Ok(t) => decode(self.bytes().subrange(3, self.bytes().len() as int)) == Ok::<
                    Target,
                    Error,
                >(t@),
                Err(e) => decode(self.bytes().subrange(3, self.bytes().len() as int)) == Err::<
                    Target,
                    Error,
                >(e),
            },
    {
        let len = self.buf.len();
        Socks5Target::try_parse(slice_subrange(self.buf.as_slice(), 3, len))
    }

    /// The relay that the request calls for, with its destination.
    pub fn command(&self) -> (action: Action)
        requires
            self.wf(),
            self.stage() == Stage::TcpConnect || self.stage() == Stage::UdpAssociate,
        ensures
            action@ == dispatch(self.bytes()),
    {
        match self.target() {
            Err(e) => Action::Close(Vec::new(), e),
            Ok(target) => if self.buf[1] == UDP_ASSOCIATE {
                Action::Associate(target)
            } else {
                Action::Connect(target)
            },
        }
    }

    /// Takes the next octets from the client, whatever the phase, and says what to do next:
    /// read on, write the choice of method, close, or start the relay that the request
    /// names. A request whose domain name is not UTF-8 closes the session without a reply.
    pub fn accept(&mut self, data: &[u8]) -> (action: Action)
        requires
            old(self).stage() == Stage::AwaitingGreeting || old(self).stage()
                == Stage::AwaitingRequest,
        ensures
            action@ == decision(old(self).stage(), old(self).bytes() + data@),
            final(self).peer() == old(self).peer(),
            final(self).wf(),
            match action {
                Action::Read(_) => final(self).stage() == old(self).stage() && final(self).bytes()
                    == old(self).bytes() + data@,
                Action::Write(_) => final(self).stage() == Stage::AwaitingRequest
                    && final(self).bytes() == Seq::<u8>::empty(),
                Action::Close(_, _) => final(self).stage() == Stage::Closed,
                Action::Connect(_) => final(self).stage() == Stage::TcpConnect,
                Action::Associate(_) => final(self).stage() == Stage::UdpAssociate,
            },
    {
        match self.stage {
            Stage::AwaitingGreeting => match self.authenticate(data) {
                Step::Read(n) => Action::Read(n),
                Step::Done(reply) => Action::Write(reply),
                Step::Fail(reply, e) => Action::Close(reply, e),
            },
            _ => match self.accept_command(data) {
                Step::Read(n) => Action::Read(n),
                Step::Fail(reply, e) => Action::Close(reply, e),
                Step::Done(_) => {
                    let action = self.command();
                    match action {
                        Action::Close(_, _) => {
                            self.stage = Stage::Closed;
                        },
                        _ => {},
                    }
                    action
                },
            },
        }
    }

    /// The reply that tells the client of success, with the address `bound` that the server
    /// uses on its behalf.
    pub fn connected(self, bound: &Endpoint) -> (bytes: Vec<u8>)
        ensures
            bytes@ == success_reply(bound@.canonical().wire()),
    {
        let address = bound.encode();
        succeeded(address.as_slice())
    }

    /// The reply that tells the client of a failure, with the code `resp` and the address
    /// field of the client's own request.
    pub fn closed(self, resp: u8) -> (bytes: Vec<u8>)
        requires
            self.wf(),
            self.stage() == Stage::TcpConnect || self.stage() == Stage::UdpAssociate,
        ensures
            bytes@ == failure_reply(resp, self.bytes().subrange(3, self.bytes().len() as int)),
    {
        let len = self.buf.len();
        failed(resp, slice_subrange(self.buf.as_slice(), 3, len))
    }
}

/// The greeting is read in at most two pieces. A session never asks for zero octets, and
/// once it has the two leading octets and the methods it asked for, it decides.
pub proof fn law_greeting_progress(have: Seq<u8>, more: Seq<u8>)
    requires
        greeting_outcome(have) == Outcome::Read(more.len() as int),
    ensures
        more.len() > 0,
        have.len() >= 2 ==> !(greeting_outcome(have + more) is Read),
        have.len() < 2 && greeting_outcome(have + more) is Read ==> greeting_outcome(have + more)
            == Outcome::Read((have + more)[1] as int),
{
}

/// The request is read in at most two pieces. A session never asks for zero octets, and
/// once it has the five leading octets and the rest it asked for, it decides.
pub proof fn law_request_progress(have: Seq<u8>, more: Seq<u8>)
    requires
        request_outcome(have) == Outcome::Read(more.len() as int),
    ensures
        more.len() > 0,
        have.len() >= 5 ==> !(request_outcome(have + more) is Read),
{
    if have.len() >= 5 {
        let all = have + more;
        assert(all.subrange(3, all.len() as int)[0] == have.subrange(3, have.len() as int)[0]);
        assert(all.subrange(3, all.len() as int)[1] == have.subrange(3, have.len() as int)[1]);
    }
}

/// A reply to a failure carries the code of that failure, which is never the code of
/// success, and is never the reply that tells of success, whatever the addresses.
pub proof fn law_failure_is_never_success(e: Error, address: Seq<u8>, bound: Seq<u8>)
    ensures
        failure_reply(e.code(), address)[2] == e.code(),
        failure_reply(e.code(), address)[2] != REPLY_SUCCEEDED,
        failure_reply(e.code(), address)[1] != REPLY_SUCCEEDED,
        failure_reply(e.code(), address) != success_reply(bound),
{
    assert(success_reply(bound)[1] == REPLY_SUCCEEDED);
}

} // verus!
