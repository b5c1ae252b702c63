//! The `CONNECT` handshake as a state machine.
//!
//! The machine decides; the caller acts. Each step takes what happened
//! (the proxy was dialed, a response arrived, a context token was made) and
//! returns the next thing to do (send a request, upgrade, give up).
use vstd::prelude::*;

use crate::auth::{
    basic_token, negotiate_token, principal_of, Authenticator, Negotiate, Token,
};
use crate::host::{authority_text, endpoint_of};
use crate::{Error, Host, UriParts};

verus! {

/// Where a connection attempt stands.
#[derive(Clone, Copy, Debug, PartialEq, Eq, Structural)]
pub enum Phase {
    /// Waiting for the connection to the proxy.
    Dialing,
    /// The first `CONNECT` is out, without credentials.
    AwaitingFirst,
    /// Waiting for the first token of a negotiated security context.
    Initiating,
    /// The second `CONNECT` is out, with credentials where there are any.
    AwaitingRetry,
    /// The proxy accepted: the connection is now a tunnel.
    Established,
    /// The attempt is over without a tunnel.
    Failed,
}

/// A `CONNECT` request to send to the proxy.
#[derive(Debug)]
pub struct ConnectRequest {
    /// The request target: the target endpoint as `name:port`.
    pub uri: String,
    /// The `Host` header: the target endpoint as `name:port`.
    pub host: String,
    /// The `Proxy-Authorization` header, when a credential is attached.
    pub proxy_authorization: Option<Token>,
}

/// What the caller is to do next.
#[derive(Debug)]
pub enum Action {
    /// Open a TCP connection to this endpoint, then report `Dialed` or `DialFailed`.
    Dial(Host),
    /// Send this request on the proxy connection, then report the response status
    /// or `HandshakeFailed`.
    Send(ConnectRequest),
    /// Initiate a security context for this principal, then report `Ticket`.
    Initiate(String),
    /// Turn the proxy connection into the tunnel.
    Upgrade,
    /// Give up with this error.
    Fail(Error),
}

/// What happened since the last action.
#[derive(Debug)]
pub enum Event {
    Dialed,
    DialFailed(String),
    /// The proxy answered with this status code.
    Response(u16),
    /// The HTTP exchange itself failed.
    HandshakeFailed(String),
    /// The first token of the security context, or why there is none.
    Ticket(Result<Vec<u8>, String>),
}

/// One connection attempt through a proxy.
#[derive(Debug)]
pub struct Negotiator {
    pub proxy: Host,
    pub target: Host,
    pub auth: Authenticator,
    pub phase: Phase,
}

/// Two endpoints with the same name and port.
pub open spec fn same_host(a: Host, b: Host) -> bool {
    a.0@ == b.0@ && a.1 == b.1
}

impl Negotiator {
    /// The parts of the attempt that no step changes.
    pub open spec fn same_attempt(&self, other: &Negotiator) -> bool {
        &&& same_host(self.proxy, other.proxy)
        &&& same_host(self.target, other.target)
        &&& self.auth == other.auth
    }

    /// The credential table, if any, is small enough to encode.
    pub open spec fn wf(&self) -> bool {
        self.auth is Netrc ==> self.auth->Netrc_0.fits()
    }

    /// `r` is the `CONNECT` for this attempt's target, written `name:port` as
    /// request target and `Host` header, carrying `authorization`.
    pub open spec fn is_request(&self, r: ConnectRequest, authorization: Option<Seq<char>>) -> bool {
        &&& r.uri@ == authority_text(self.target.0@, self.target.1)
        &&& r.host@ == authority_text(self.target.0@, self.target.1)
        &&& match r.proxy_authorization {
            Some(t) => authorization == Some(t@),
            None => authorization is None,
        }
    }

    /// The events that the current phase waits for.
    pub open spec fn accepts(&self, event: Event) -> bool {
        match self.phase {
            Phase::Dialing => event is Dialed || event is DialFailed || event is HandshakeFailed,
            Phase::AwaitingFirst | Phase::AwaitingRetry => event is Response || event is HandshakeFailed,
            Phase::Initiating => event is Ticket,
            _ => false,
        }
    }

    /// Starts an attempt to reach `target` through `proxy`: both must name a
    /// host and a port. The first action dials the proxy.
    pub fn new(proxy: &UriParts, target: &UriParts, auth: Authenticator) -> (r: Result<(Negotiator, Action), Error>)
        requires
            auth is Netrc ==> auth->Netrc_0.fits(),
        ensures
            r is Ok <==> endpoint_of(*proxy) is Some && endpoint_of(*target) is Some,
            endpoint_of(*proxy) is None ==> r->Err_0 is InvalidUri && r->Err_0->InvalidUri_0@ == proxy.text@,
            endpoint_of(*proxy) is Some && endpoint_of(*target) is None ==> r->Err_0 is InvalidUri
                && r->Err_0->InvalidUri_0@ == target.text@,
            r is Ok ==> ({
                let (n, a) = r->Ok_0;
                &&& endpoint_of(*proxy) == Some((n.proxy.0@, n.proxy.1))
                &&& endpoint_of(*target) == Some((n.target.0@, n.target.1))
                &&& n.auth == auth
                &&& n.phase == Phase::Dialing
                &&& n.wf()
                &&& a is Dial && same_host(a->Dial_0, n.proxy)
            }),
    {
        let proxy_host = match Host::from_uri(proxy) {
            Ok(h) => h,
            Err(e) => return Err(e),
        };
        let target_host = match Host::from_uri(target) {
            Ok(h) => h,
            Err(e) => return Err(e),
        };
        let dial = Host(proxy_host.0.clone(), proxy_host.1);
        let n = Negotiator {
            proxy: proxy_host,
            target: target_host,
            auth,
            phase: Phase::Dialing,
        };
        Ok((n, Action::Dial(dial)))
    }

    /// Whether the current phase waits for `event`.
    pub fn accepts_event(&self, event: &Event) -> (r: bool)
        ensures
            r == self.accepts(*event),
    {
        match self.phase {
            Phase::Dialing => match event {
                Event::Dialed | Event::DialFailed(_) | Event::HandshakeFailed(_) => true,
                _ => false,
            },
            Phase::AwaitingFirst | Phase::AwaitingRetry => match event {
                Event::Response(_) | Event::HandshakeFailed(_) => true,
                _ => false,
            },
            Phase::Initiating => match event {
                Event::Ticket(_) => true,
                _ => false,
            },
            _ => false,
        }
    }

    fn request(&self, authorization: Option<Token>) -> (r: ConnectRequest)
        ensures
            r.uri@ == authority_text(self.target.0@, self.target.1),
            r.host@ == authority_text(self.target.0@, self.target.1),
            r.proxy_authorization == authorization,
    {
        ConnectRequest {
            uri: self.target.authority(),
            host: self.target.authority(),
            proxy_authorization: authorization,
        }
    }

    /// Moves the attempt on by one event and says what to do next.
    pub fn step(&mut self, event: Event) -> (a: Action)
        requires
            old(self).wf(),
            old(self).accepts(event),
            event is Ticket && event->Ticket_0 is Ok ==> event->Ticket_0->Ok_0@.len() <= usize::MAX / 2,
        ensures
            final(self).same_attempt(old(self)),
            final(self).wf(),
            // The proxy connection is up: ask for the tunnel without credentials.
            event is Dialed ==> final(self).phase == Phase::AwaitingFirst && a is Send
                && old(self).is_request(a->Send_0, None),
            event is DialFailed ==> final(self).phase == Phase::Failed && a is Fail && a->Fail_0 is Connect
                && same_host(a->Fail_0->Connect_0, old(self).proxy)
                && a->Fail_0->Connect_1@ == event->DialFailed_0@,
            event is HandshakeFailed ==> final(self).phase == Phase::Failed && a is Fail && a->Fail_0 is Handshake
                && same_host(a->Fail_0->Handshake_0, old(self).target)
                && a->Fail_0->Handshake_1@ == event->HandshakeFailed_0@,
            // Accepted, on either attempt.
            event == Event::Response(200) ==> final(self).phase == Phase::Established && a is Upgrade,
            // Neither accepted nor challenged.
            event is Response && event->Response_0 != 200 && event->Response_0 != 407
                ==> final(self).phase == Phase::Failed && a is Fail && a->Fail_0 == Error::UnexpectedStatus(
                event->Response_0,
            ),
            // Challenged again after credentials were offered.
            event == Event::Response(407) && old(self).phase == Phase::AwaitingRetry
                ==> final(self).phase == Phase::Failed && a is Fail && a->Fail_0 is AuthorizationRejected,
            // Challenged on the first attempt: fetch a credential for the proxy host.
            event == Event::Response(407) && old(self).phase == Phase::AwaitingFirst && old(self).auth is NoCredential
                ==> final(self).phase == Phase::AwaitingRetry && a is Send && old(self).is_request(a->Send_0, None),
            event == Event::Response(407) && old(self).phase == Phase::AwaitingFirst && old(self).auth is Negotiate
                ==> final(self).phase == Phase::Initiating && a is Initiate
                && a->Initiate_0@ == principal_of(old(self).proxy.0@),
            event == Event::Response(407) && old(self).phase == Phase::AwaitingFirst && old(self).auth is Netrc
                ==> ({
                let table = old(self).auth->Netrc_0;
                let host = old(self).proxy.0@;
                &&& (forall|i: int| 0 <= i < table.entries@.len() ==> table.entries@[i].machine@ != host)
                    ==> final(self).phase == Phase::Failed && a is Fail && a->Fail_0 is Auth
                    && a->Fail_0->Auth_0 is NoEntry && a->Fail_0->Auth_0->NoEntry_0@ == host
                &&& forall|i: int| #[trigger] table.first_match(host, i) ==> final(self).phase
                    == Phase::AwaitingRetry && a is Send && old(self).is_request(
                    a->Send_0,
                    Some(basic_token(table.entries@[i].login@, table.entries@[i].password.deep_view())),
                )
            }),
            // The security context's token arrived, or could not be made.
            event is Ticket && event->Ticket_0 is Ok ==> final(self).phase == Phase::AwaitingRetry && a is Send
                && old(self).is_request(a->Send_0, Some(negotiate_token(event->Ticket_0->Ok_0@))),
            event is Ticket && event->Ticket_0 is Err ==> final(self).phase == Phase::Failed && a is Fail
                && a->Fail_0 is Auth && a->Fail_0->Auth_0 is Negotiate
                && a->Fail_0->Auth_0->Negotiate_0@ == event->Ticket_0->Err_0@,
    {
        match event {
            Event::Dialed => {
                self.phase = Phase::AwaitingFirst;
                Action::Send(self.request(None))
            },
            Event::DialFailed(m) => {
                self.phase = Phase::Failed;
                Action::Fail(Error::Connect(Host(self.proxy.0.clone(), self.proxy.1), m))
            },
            Event::HandshakeFailed(m) => {
                self.phase = Phase::Failed;
                Action::Fail(Error::Handshake(Host(self.target.0.clone(), self.target.1), m))
            },
            Event::Response(status) => {
                if status == 200 {
                    self.phase = Phase::Established;
                    Action::Upgrade
                } else if status != 407 {
                    self.phase = Phase::Failed;
                    Action::Fail(Error::UnexpectedStatus(status))
                } else if self.phase == Phase::AwaitingRetry {
                    self.phase = Phase::Failed;
                    Action::Fail(Error::AuthorizationRejected)
                } else {
                    match &self.auth {
                        Authenticator::NoCredential => {
                            self.phase = Phase::AwaitingRetry;
                            Action::Send(self.request(None))
                        },
                        Authenticator::Negotiate(_) => {
                            self.phase = Phase::Initiating;
                            Action::Initiate(Negotiate::principal(self.proxy.0.as_str()))
                        },
                        Authenticator::Netrc(table) => {
                            match table.for_host(self.proxy.0.as_str()) {
                                Ok(token) => {
                                    self.phase = Phase::AwaitingRetry;
                                    Action::Send(self.request(token))
                                },
                                Err(e) => {
                                    self.phase = Phase::Failed;
                                    Action::Fail(Error::Auth(e))
                                },
                            }
                        },
                    }
                }
            },
            Event::Ticket(ticket) => {
                match Negotiate.for_host(ticket) {
                    Ok(token) => {
                        self.phase = Phase::AwaitingRetry;
                        Action::Send(self.request(token))
                    },
                    Err(e) => {
                        self.phase = Phase::Failed;
                        Action::Fail(Error::Auth(e))
                    },
                }
            },
        }
    }
}

} // verus!
