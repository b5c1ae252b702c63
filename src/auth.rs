//! Credentials for the proxy: none, a static netrc table, or a negotiated
//! (Kerberos) token.
use vstd::prelude::*;
use vstd::utf8::encode_utf8;

use base64::Engine;

verus! {

/// Why no credential could be produced.
#[derive(Debug, Clone, PartialEq, Eq)]
pub enum Error {
    /// The credential file could not be read: its path and the reason.
    File(String, String),
    /// The credential file is not in netrc form: the parser's message.
    Netrc(String),
    /// The security context could not be initiated.
    Negotiate(String),
    /// The credential table has no entry for this host.
    NoEntry(String),
}

/// The standard (padded) base64 text of some bytes.
pub uninterp spec fn base64_of(b: Seq<u8>) -> Seq<char>;

/// Relies on base64's `STANDARD.encode`: the padded base64 text of `b`, a
/// function of `b` alone. Its output length must fit in a `usize`.
#[verifier::external_body]
fn base64_encode(b: &[u8]) -> (r: String)
    requires
        b@.len() <= usize::MAX / 2,
    ensures
        r@ == base64_of(b@),
{
    base64::engine::general_purpose::STANDARD.encode(b)
}

/// The hosts of a netrc text, in file order, each with its login and
/// password, or `None` where the text is not in netrc form.
pub uninterp spec fn netrc_hosts_of(text: Seq<u8>) -> Option<Seq<(Seq<char>, Seq<char>, Option<Seq<char>>)>>;

/// Relies on netrc's `Netrc::parse`: it reads only `text`, and its `hosts`
/// list holds each `machine` entry in order, with its login and password.
/// A failure is handed on as the parser's message. Its tokenizer steps
/// through a line by characters but slices it by bytes, so it is given ASCII
/// text only.
#[verifier::external_body]
fn parse_netrc(text: &[u8]) -> (r: Result<Vec<NetrcEntry>, String>)
    requires
        is_ascii_text(text@),
    ensures
        r is Ok <==> netrc_hosts_of(text@) is Some,
        r is Ok ==> entries_view(r->Ok_0@) == netrc_hosts_of(text@)->Some_0,
{
    match netrc::Netrc::parse(text) {
        Ok(n) => Ok(n.hosts.into_iter().map(|(machine, m)| NetrcEntry { machine, login: m.login, password: m.password }).collect()),
        Err(e) => Err(format!("{:?}", e)),
    }
}

/// Every byte is ASCII.
pub open spec fn is_ascii_text(text: Seq<u8>) -> bool {
    forall|i: int| 0 <= i < text.len() ==> text[i] < 128
}

/// Where the credential file is.
#[derive(Debug, Clone)]
pub struct NetrcPath(pub String);

impl NetrcPath {
    /// A credential file at `path`.
    pub fn new(path: String) -> (r: NetrcPath)
        ensures
            r.0@ == path@,
    {
        NetrcPath(path)
    }

    /// The conventional `.netrc` file inside a home directory; with no home
    /// directory (an empty one), `.netrc` relative to the working directory.
    pub fn in_home(home: &str) -> (r: NetrcPath)
        ensures
            home@.len() == 0 ==> r.0@ == seq!['.', 'n', 'e', 't', 'r', 'c'],
            home@.len() > 0 && home@.last() == '/' ==> r.0@ == home@ + seq!['.', 'n', 'e', 't', 'r', 'c'],
            home@.len() > 0 && home@.last() != '/' ==> r.0@ == home@ + seq!['/', '.', 'n', 'e', 't', 'r', 'c'],
    {
        proof {
            reveal_strlit(".netrc");
            reveal_strlit("/");
        }
        let mut p = home.to_owned();
        let n = home.unicode_len();
        if n > 0 && home.get_char(n - 1) != '/' {
            p.append("/");
        }
        p.append(".netrc");
        NetrcPath(p)
    }

    /// The path as text.
    pub fn as_str(&self) -> (r: &str)
        ensures
            r@ == self.0@,
    {
        self.0.as_str()
    }
}

/// One `machine` entry of a credential table.
#[derive(Debug, Clone)]
pub struct NetrcEntry {
    pub machine: String,
    pub login: String,
    pub password: Option<String>,
}

/// An entry as its machine, login and password.
pub open spec fn entry_view(e: NetrcEntry) -> (Seq<char>, Seq<char>, Option<Seq<char>>) {
    (e.machine@, e.login@, e.password.deep_view())
}

/// The entries of a table, in order.
pub open spec fn entries_view(es: Seq<NetrcEntry>) -> Seq<(Seq<char>, Seq<char>, Option<Seq<char>>)> {
    es.map_values(|e: NetrcEntry| entry_view(e))
}

/// What a Basic token encodes: `login:password`, or `login` alone.
pub open spec fn basic_text(login: Seq<char>, password: Option<Seq<char>>) -> Seq<char> {
    match password {
        Some(p) => login + seq![':'] + p,
        None => login,
    }
}

/// `Basic <base64 of login[:password]>`.
pub open spec fn basic_token(login: Seq<char>, password: Option<Seq<char>>) -> Seq<char> {
    seq!['B', 'a', 's', 'i', 'c', ' '] + base64_of(encode_utf8(basic_text(login, password)))
}

/// `Negotiate <base64 of the context token>`.
pub open spec fn negotiate_token(ticket: Seq<u8>) -> Seq<char> {
    seq!['N', 'e', 'g', 'o', 't', 'i', 'a', 't', 'e', ' '] + base64_of(ticket)
}

/// The service principal of a proxy host: `HTTP/<host>`.
pub open spec fn principal_of(host: Seq<char>) -> Seq<char> {
    seq!['H', 'T', 'T', 'P', '/'] + host
}

/// A credential table loaded from a netrc file.
#[derive(Debug)]
pub struct Netrc {
    pub entries: Vec<NetrcEntry>,
}

impl Netrc {
    /// A table holding `entries`, in lookup order.
    pub fn new(entries: Vec<NetrcEntry>) -> (r: Netrc)
        ensures
            r.entries@ == entries@,
    {
        Netrc { entries }
    }

    /// Reads a table from the text of a netrc file, which must be ASCII.
    pub fn parse(text: &[u8]) -> (r: Result<Netrc, Error>)
        ensures
            r is Ok <==> is_ascii_text(text@) && netrc_hosts_of(text@) is Some,
            r is Ok ==> entries_view(r->Ok_0.entries@) == netrc_hosts_of(text@)->Some_0,
            r is Err ==> r->Err_0 is Netrc,
    {
        let mut i: usize = 0;
        while i < text.len()
            invariant
                0 <= i <= text@.len(),
                forall|j: int| 0 <= j < i ==> text@[j] < 128,
            decreases text@.len() - i,
        {
            if text[i] >= 128 {
                return Err(Error::Netrc(String::from_str("the file is not ASCII text")));
            }
            i += 1;
        }
        match parse_netrc(text) {
            Ok(entries) => Ok(Netrc { entries }),
            Err(e) => Err(Error::Netrc(e)),
        }
    }

    /// Every entry's credential text is small enough to encode.
    pub open spec fn fits(&self) -> bool {
        forall|i: int|
            0 <= i < self.entries@.len() ==> encode_utf8(
                #[trigger] basic_text(self.entries@[i].login@, self.entries@[i].password.deep_view()),
            ).len() <= usize::MAX / 2
    }

    /// The first entry whose machine is exactly `host`, if any.
    pub open spec fn first_match(&self, host: Seq<char>, i: int) -> bool {
        &&& 0 <= i < self.entries@.len()
        &&& self.entries@[i].machine@ == host
        &&& forall|j: int| 0 <= j < i ==> self.entries@[j].machine@ != host
    }

    /// The Basic token of the first entry for `host`; a host without an entry
    /// is an error, not an absent token.
    pub fn for_host(&self, host: &str) -> (r: Result<Option<Token>, Error>)
        requires
            self.fits(),
        ensures
            r is Err <==> forall|i: int| 0 <= i < self.entries@.len() ==> self.entries@[i].machine@ != host@,
            r is Err ==> r->Err_0 is NoEntry && r->Err_0->NoEntry_0@ == host@,
            r is Ok ==> r->Ok_0 is Some,
            r is Ok ==> forall|i: int| #[trigger] self.first_match(host@, i)
                ==> r->Ok_0->Some_0@ == basic_token(self.entries@[i].login@, self.entries@[i].password.deep_view()),
    {
        let h = host.to_owned();
        let mut i: usize = 0;
        while i < self.entries.len()
            invariant
                0 <= i <= self.entries@.len(),
                h@ == host@,
                self.fits(),
                forall|j: int| 0 <= j < i ==> self.entries@[j].machine@ != host@,
            decreases self.entries@.len() - i,
        {
            let e = &self.entries[i];
            if e.machine == h {
                let mut text = e.login.clone();
                match &e.password {
                    Some(p) => {
                        proof {
                            reveal_strlit(":");
                        }
                        text.append(":");
                        text.append(p.as_str());
                    },
                    None => {},
                }
                assert(text@ =~= basic_text(e.login@, e.password.deep_view()));
                let ts = text.as_str();
                let bytes = ts.as_bytes();
                assert(bytes@ == encode_utf8(text@));
                let encoded = base64_encode(bytes);
                proof {
                    reveal_strlit("Basic ");
                }
                let mut t = String::from_str("Basic ");
                t.append(encoded.as_str());
                assert forall|k: int| #[trigger] self.first_match(host@, k) implies k == i as int by {
                    if k < i as int {
                    } else if k > i as int {
                        assert(self.entries@[i as int].machine@ == host@);
                    }
                }
                assert(t@ =~= basic_token(e.login@, e.password.deep_view()));
                return Ok(Some(Token(t)));
            }
            i += 1;
        }
        Err(Error::NoEntry(h))
    }
}

/// The negotiated (Kerberos) scheme. The first leg of the exchange is made
/// by the caller for `principal(host)`; this turns its outcome into a token.
#[derive(Debug)]
pub struct Negotiate;

impl Negotiate {
    /// The service principal to negotiate with: `HTTP/<host>`.
    pub fn principal(host: &str) -> (r: String)
        ensures
            r@ == principal_of(host@),
    {
        proof {
            reveal_strlit("HTTP/");
        }
        let mut p = String::from_str("HTTP/");
        p.append(host);
        assert(p@ =~= principal_of(host@));
        p
    }

    /// The token for the outcome of initiating the security context: the
    /// context's first token on success, the failure's message otherwise.
    pub fn for_host(&self, ticket: Result<Vec<u8>, String>) -> (r: Result<Option<Token>, Error>)
        requires
            ticket is Ok ==> ticket->Ok_0@.len() <= usize::MAX / 2,
        ensures
            ticket is Ok <==> r is Ok,
            ticket is Ok ==> r->Ok_0 is Some && r->Ok_0->Some_0@ == negotiate_token(ticket->Ok_0@),
            ticket is Err ==> r->Err_0 is Negotiate && r->Err_0->Negotiate_0@ == ticket->Err_0@,
    {
        match ticket {
            Ok(b) => {
                let encoded = base64_encode(b.as_slice());
                proof {
                    reveal_strlit("Negotiate ");
                }
                let mut t = String::from_str("Negotiate ");
                t.append(encoded.as_str());
                assert(t@ =~= negotiate_token(b@));
                Ok(Some(Token(t)))
            },
            Err(m) => Err(Error::Negotiate(m)),
        }
    }
}

/// A `Proxy-Authorization` value: `<scheme> <base64 payload>`.
#[derive(Debug, Clone, PartialEq, Eq)]
pub struct Token(String);

impl View for Token {
    type V = Seq<char>;

    closed spec fn view(&self) -> Seq<char> {
        self.0@
    }
}

impl Token {
    /// The header value.
    pub fn as_str(&self) -> (r: &str)
        ensures
            r@ == self@,
    {
        self.0.as_str()
    }
}

/// Which credential the proxy gets when it asks for one.
#[derive(Debug)]
pub enum Authenticator {
    NoCredential,
    Netrc(Netrc),
    Negotiate(Negotiate),
}

impl Authenticator {
    /// Never offers a credential.
    pub fn none() -> (r: Self)
        ensures
            r is NoCredential,
    {
        Authenticator::NoCredential
    }

    /// Offers the Basic token of the proxy's entry in `netrc`.
    pub fn netrc(netrc: Netrc) -> (r: Self)
        ensures
            r is Netrc && r->Netrc_0 == netrc,
    {
        Authenticator::Netrc(netrc)
    }

    /// Offers a negotiated (Kerberos) token.
    pub fn negotiate() -> (r: Self)
        ensures
            r is Negotiate,
    {
        Authenticator::Negotiate(Negotiate)
    }
}

} // verus!
