use crate::acceptor::{failure_reply, success_reply, Socks5Acceptor, Stage};
use crate::connector::Socks5Connector;
use crate::error::{Error, IoFailure, Result, REPLY_SUCCEEDED};
use crate::target::{Endpoint, Target};
use vstd::prelude::*;

verus! {

/// The address to open the outbound connection to: a numeric target itself, and for a name
/// the first answer of the resolver.
pub open spec fn connect_address(target: Target, answers: Seq<Endpoint>) -> Result<Target> {
    if target.host is Domain {
        if answers.len() == 0 {
            Err(Error::ResolutionFailed)
        } else {
            Ok(answers[0]@)
        }
    } else {
        Ok(target)
    }
}

/// The error that a failed attempt to open the outbound connection ends the session with.
pub fn connect_failed(kind: IoFailure) -> (e: Error)
    ensures
        e == Error::ConnectFailed(kind),
        e.code() == kind.code(),
        e.code() != REPLY_SUCCEEDED,
{
    Error::ConnectFailed(kind)
}

impl Socks5Connector {
    /// Picks the address to open the outbound connection to. `answers` is what the resolver
    /// gave for the name of the target; for a numeric target it is not looked at.
    pub fn connect(&self, answers: &[Endpoint]) -> (r: Result<Endpoint>)
        ensures
            match r {
                Ok(e) => connect_address(self.target(), answers@) == Ok::<Target, Error>(e@),
                Err(e) => connect_address(self.target(), answers@) == Err::<Target, Error>(e),
            },
            self.target().host is Domain && answers@.len() > 0 ==> r == Ok::<Endpoint, Error>(
                answers@[0],
            ),
    {
        match self.endpoint() {
            Some(e) => Ok(e),
            None => if answers.len() == 0 {
                Err(Error::ResolutionFailed)
            } else {
                Ok(answers[0])
            },
        }
    }
}

impl Socks5Acceptor {
    /// Ends the request for a connection. Where the outbound connection stands, with the
    /// local address `Ok(local)`, the client is told of success and of that address, and the
    /// relay may start. Where it failed, the client is told the code of the failure, with the
    /// address field of its own request, and the session ends with that failure.
    pub fn connect(self, outcome: Result<Endpoint>) -> (r: (Vec<u8>, Result<()>))
        requires
            self.wf(),
            self.stage() == Stage::TcpConnect,
        ensures
            match outcome {
                Ok(local) => r.0@ == success_reply(local@.canonical().wire())
                    && r.1 == Ok::<(), Error>(()),
                Err(e) => r.0@ == failure_reply(
                    e.code(),
                    self.bytes().subrange(3, self.bytes().len() as int),
                ) && r.0@[2] != REPLY_SUCCEEDED && r.1 == Err::<(), Error>(e),
            },
    {
        match outcome {
            Ok(local) => (self.connected(&local), Ok(())),
            Err(e) => (self.closed(e.reply_code()), Err(e)),
        }
    }
}

} // verus!
