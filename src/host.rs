//! Endpoints named by a URI: a host name and an explicit port.
use vstd::prelude::*;

use crate::Error;

verus! {

/// What the library reads of a URI: its text, and the host and port of its
/// authority when present.
#[derive(Debug, Clone)]
pub struct UriParts {
    pub text: String,
    pub host: Option<String>,
    pub port: Option<u16>,
}

impl UriParts {
    /// Gathers what was read of a URI.
    pub fn new(text: String, host: Option<String>, port: Option<u16>) -> (r: UriParts)
        ensures
            r.text@ == text@,
            r.host.deep_view() == host.deep_view(),
            r.port == port,
    {
        UriParts { text, host, port }
    }
}

/// A proxy or target endpoint: a host name and an explicit port.
#[derive(Debug, Clone, PartialEq, Eq)]
pub struct Host(pub String, pub u16);

/// The host and port that a URI names, when it names both.
pub open spec fn endpoint_of(uri: UriParts) -> Option<(Seq<char>, u16)> {
    match (uri.host, uri.port) {
        (Some(h), Some(p)) => Some((h@, p)),
        _ => None,
    }
}

/// The character of a decimal digit.
pub open spec fn digit_char(d: nat) -> char {
    if d == 0 {
        '0'
    } else if d == 1 {
        '1'
    } else if d == 2 {
        '2'
    } else if d == 3 {
        '3'
    } else if d == 4 {
        '4'
    } else if d == 5 {
        '5'
    } else if d == 6 {
        '6'
    } else if d == 7 {
        '7'
    } else if d == 8 {
        '8'
    } else {
        '9'
    }
}

/// The decimal notation of `n`, without leading zeros.
pub open spec fn decimal(n: nat) -> Seq<char>
    decreases n,
{
    if n < 10 {
        seq![digit_char(n)]
    } else {
        decimal(n / 10) + seq![digit_char(n % 10)]
    }
}

/// `name:port`, the way an endpoint is written.
pub open spec fn authority_text(name: Seq<char>, port: u16) -> Seq<char> {
    name + seq![':'] + decimal(port as nat)
}

fn digit_str(d: u16) -> (r: &'static str)
    requires
        d < 10,
    ensures
        r@ == seq![digit_char(d as nat)],
{
    proof {
        reveal_strlit("0");
        reveal_strlit("1");
        reveal_strlit("2");
        reveal_strlit("3");
        reveal_strlit("4");
        reveal_strlit("5");
        reveal_strlit("6");
        reveal_strlit("7");
        reveal_strlit("8");
        reveal_strlit("9");
    }
    let r = if d == 0 {
        "0"
    } else if d == 1 {
        "1"
    } else if d == 2 {
        "2"
    } else if d == 3 {
        "3"
    } else if d == 4 {
        "4"
    } else if d == 5 {
        "5"
    } else if d == 6 {
        "6"
    } else if d == 7 {
        "7"
    } else if d == 8 {
        "8"
    } else {
        "9"
    };
    assert(r@ =~= seq![digit_char(d as nat)]);
    r
}

/// Writes `n` in decimal.
pub fn decimal_text(n: u16) -> (r: String)
    ensures
        r@ == decimal(n as nat),
    decreases n,
{
    if n < 10 {
        String::from_str(digit_str(n))
    } else {
        let mut s = decimal_text(n / 10);
        s.append(digit_str(n % 10));
        s
    }
}

impl Host {
    /// Reads the endpoint of a URI; a URI without a host or without a port is
    /// refused, never completed with a default.
    pub fn from_uri(uri: &UriParts) -> (r: Result<Host, Error>)
        ensures
            r is Ok <==> endpoint_of(*uri) is Some,
            r is Ok ==> endpoint_of(*uri) == Some((r->Ok_0.0@, r->Ok_0.1)),
            r is Err ==> (r->Err_0 is InvalidUri && r->Err_0->InvalidUri_0@ == uri.text@),
    {
        match (&uri.host, uri.port) {
            (Some(h), Some(p)) => Ok(Host(h.clone(), p)),
            _ => Err(Error::InvalidUri(uri.text.clone())),
        }
    }

    /// The host name and port, as a pair.
    pub fn addr(&self) -> (r: (String, u16))
        ensures
            r.0@ == self.0@,
            r.1 == self.1,
    {
        (self.0.clone(), self.1)
    }

    /// The endpoint written as `name:port`.
    pub fn authority(&self) -> (r: String)
        ensures
            r@ == authority_text(self.0@, self.1),
    {
        let mut s = self.0.clone();
        proof {
            reveal_strlit(":");
        }
        s.append(":");
        let p = decimal_text(self.1);
        s.append(p.as_str());
        assert(s@ =~= authority_text(self.0@, self.1));
        s
    }
}

/// A URI that names both a host and a port parses to that endpoint, and the
/// endpoint is written back as exactly `host:port`.
pub proof fn lemma_host_round_trip(uri: UriParts, name: Seq<char>, port: u16)
    requires
        uri.host.deep_view() == Some(name),
        uri.port == Some(port),
    ensures
        endpoint_of(uri) == Some((name, port)),
        authority_text(endpoint_of(uri)->Some_0.0, endpoint_of(uri)->Some_0.1) == name + seq![':']
            + decimal(port as nat),
{
}

/// A URI without a host, or without a port, never parses to an endpoint.
pub proof fn lemma_missing_part_refused(uri: UriParts)
    requires
        uri.host is None || uri.port is None,
    ensures
        endpoint_of(uri) is None,
{
}

} // verus!
