use hconnect::auth::{self, Authenticator, Negotiate, Netrc, NetrcEntry, NetrcPath};
use hconnect::host::decimal_text;
use hconnect::io_ext::Unsplit;
use hconnect::{Action, Error, Event, Host, Negotiator, Phase, UriParts};

fn parts(text: &str) -> UriParts {
    let uri: http::Uri = text.parse().unwrap();
    UriParts::new(
        uri.to_string(),
        uri.host().map(|h| h.to_string()),
        uri.port_u16(),
    )
}

fn table(text: &str) -> Netrc {
    Netrc::parse(text.as_bytes()).unwrap()
}

fn started(auth: Authenticator) -> Negotiator {
    let (n, action) = Negotiator::new(
        &parts("http://proxy.example.com:3128"),
        &parts("target.example.com:22"),
        auth,
    )
    .unwrap();
    match action {
        Action::Dial(h) => assert_eq!(h.addr(), ("proxy.example.com".to_string(), 3128)),
        other => panic!("expected a dial, got {:?}", other),
    }
    n
}

fn sent(action: Action) -> Option<String> {
    match action {
        Action::Send(r) => {
            assert_eq!(r.host, "target.example.com:22");
            assert_eq!(r.uri, "target.example.com:22");
            r.proxy_authorization.map(|t| t.as_str().to_string())
        }
        other => panic!("expected a request, got {:?}", other),
    }
}

#[test]
fn host_round_trips_to_host_and_port() {
    for text in ["http://proxy.example.com:3128", "target.example.com:22", "http://10.0.0.1:65535/x"] {
        let h = Host::from_uri(&parts(text)).unwrap();
        let expected = text.trim_start_matches("http://").split('/').next().unwrap();
        assert_eq!(h.authority(), expected);
    }
}

#[test]
fn host_without_port_is_refused() {
    let u = parts("http://proxy.example.com");
    assert_eq!(Host::from_uri(&u), Err(Error::InvalidUri("http://proxy.example.com/".to_string())));
}

#[test]
fn host_without_host_is_refused() {
    let u = parts("/only/a/path");
    assert_eq!(Host::from_uri(&u), Err(Error::InvalidUri("/only/a/path".to_string())));
    let bare = UriParts::new("x".to_string(), None, Some(80));
    assert!(matches!(Host::from_uri(&bare), Err(Error::InvalidUri(_))));
}

#[test]
fn decimal_text_writes_ports() {
    assert_eq!(decimal_text(0), "0");
    assert_eq!(decimal_text(7), "7");
    assert_eq!(decimal_text(3128), "3128");
    assert_eq!(decimal_text(65535), "65535");
}

#[test]
fn netrc_entry_with_password_gives_basic_token() {
    let t = table("machine proxy login alice password secret");
    let token = t.for_host("proxy").unwrap().unwrap();
    assert_eq!(token.as_str(), "Basic YWxpY2U6c2VjcmV0");
}

#[test]
fn netrc_entry_without_password_gives_login_only() {
    let t = table("machine proxy login alice");
    let token = t.for_host("proxy").unwrap().unwrap();
    assert_eq!(token.as_str(), "Basic YWxpY2U=");
}

#[test]
fn netrc_missing_host_is_no_entry() {
    let t = table("machine proxy login alice password secret");
    assert_eq!(t.for_host("other"), Err(auth::Error::NoEntry("other".to_string())));
    let empty = Netrc::new(Vec::new());
    assert_eq!(empty.for_host("proxy"), Err(auth::Error::NoEntry("proxy".to_string())));
}

#[test]
fn netrc_first_matching_entry_wins() {
    let t = table("machine proxy login bob password hunter2\nmachine proxy login alice password secret");
    assert_eq!(t.for_host("proxy").unwrap().unwrap().as_str(), "Basic Ym9iOmh1bnRlcjI=");
    let hand = Netrc::new(vec![
        NetrcEntry { machine: "PROXY".to_string(), login: "x".to_string(), password: None },
        NetrcEntry { machine: "proxy".to_string(), login: "alice".to_string(), password: Some("secret".to_string()) },
    ]);
    assert_eq!(hand.for_host("proxy").unwrap().unwrap().as_str(), "Basic YWxpY2U6c2VjcmV0");
}

#[test]
fn netrc_parse_error_is_reported() {
    assert!(matches!(Netrc::parse(b"login alice"), Err(auth::Error::Netrc(_))));
    let t = table("machine a login x\nmachine b login y password z");
    assert_eq!(t.entries.len(), 2);
    assert_eq!(t.entries[1].machine, "b");
    assert_eq!(t.entries[1].password.as_deref(), Some("z"));
}

#[test]
fn netrc_path_in_home() {
    assert_eq!(NetrcPath::in_home("/home/u").as_str(), "/home/u/.netrc");
    assert_eq!(NetrcPath::in_home("/home/u/").as_str(), "/home/u/.netrc");
    assert_eq!(NetrcPath::in_home("").as_str(), ".netrc");
    assert_eq!(NetrcPath::new("/etc/n".to_string()).as_str(), "/etc/n");
}

#[test]
fn negotiate_principal_and_token() {
    assert_eq!(Negotiate::principal("proxy.example.com"), "HTTP/proxy.example.com");
    let token = Negotiate.for_host(Ok(b"abc".to_vec())).unwrap().unwrap();
    assert_eq!(token.as_str(), "Negotiate YWJj");
    assert_eq!(
        Negotiate.for_host(Err("no ticket".to_string())),
        Err(auth::Error::Negotiate("no ticket".to_string()))
    );
}

#[test]
fn handshake_accepted_at_once() {
    let mut n = started(Authenticator::none());
    assert_eq!(sent(n.step(Event::Dialed)), None);
    assert!(matches!(n.step(Event::Response(200)), Action::Upgrade));
    assert_eq!(n.phase, Phase::Established);
}

#[test]
fn handshake_retries_with_token_after_challenge() {
    let t = table("machine proxy.example.com login alice password secret");
    let mut n = started(Authenticator::netrc(t));
    assert_eq!(sent(n.step(Event::Dialed)), None);
    assert_eq!(n.phase, Phase::AwaitingFirst);
    let second = sent(n.step(Event::Response(407)));
    assert_eq!(second.as_deref(), Some("Basic YWxpY2U6c2VjcmV0"));
    assert!(matches!(n.step(Event::Response(200)), Action::Upgrade));
    assert_eq!(n.phase, Phase::Established);
}

#[test]
fn handshake_second_challenge_is_rejected() {
    let t = table("machine proxy.example.com login alice password secret");
    let mut n = started(Authenticator::netrc(t));
    sent(n.step(Event::Dialed));
    assert!(sent(n.step(Event::Response(407))).is_some());
    assert!(matches!(n.step(Event::Response(407)), Action::Fail(Error::AuthorizationRejected)));
    assert_eq!(n.phase, Phase::Failed);
    assert!(!n.accepts_event(&Event::Response(200)));
}

#[test]
fn handshake_unexpected_status() {
    let mut n = started(Authenticator::none());
    sent(n.step(Event::Dialed));
    assert!(matches!(n.step(Event::Response(404)), Action::Fail(Error::UnexpectedStatus(404))));
    assert_eq!(n.phase, Phase::Failed);
}

#[test]
fn handshake_without_credentials_retries_bare() {
    let mut n = started(Authenticator::none());
    sent(n.step(Event::Dialed));
    assert_eq!(sent(n.step(Event::Response(407))), None);
    assert!(matches!(n.step(Event::Response(407)), Action::Fail(Error::AuthorizationRejected)));
}

#[test]
fn handshake_missing_netrc_entry_fails() {
    let t = table("machine elsewhere login alice");
    let mut n = started(Authenticator::netrc(t));
    sent(n.step(Event::Dialed));
    match n.step(Event::Response(407)) {
        Action::Fail(Error::Auth(auth::Error::NoEntry(h))) => assert_eq!(h, "proxy.example.com"),
        other => panic!("unexpected {:?}", other),
    }
}

#[test]
fn handshake_negotiate_asks_for_context() {
    let mut n = started(Authenticator::negotiate());
    sent(n.step(Event::Dialed));
    match n.step(Event::Response(407)) {
        Action::Initiate(p) => assert_eq!(p, "HTTP/proxy.example.com"),
        other => panic!("unexpected {:?}", other),
    }
    assert!(n.accepts_event(&Event::Ticket(Ok(Vec::new()))));
    assert_eq!(sent(n.step(Event::Ticket(Ok(b"abc".to_vec())))).as_deref(), Some("Negotiate YWJj"));
    assert!(matches!(n.step(Event::Response(200)), Action::Upgrade));
}

#[test]
fn handshake_negotiate_failure() {
    let mut n = started(Authenticator::negotiate());
    sent(n.step(Event::Dialed));
    n.step(Event::Response(407));
    assert!(matches!(
        n.step(Event::Ticket(Err("no credentials cache".to_string()))),
        Action::Fail(Error::Auth(auth::Error::Negotiate(_)))
    ));
}

#[test]
fn handshake_dial_and_transport_failures() {
    let mut n = started(Authenticator::none());
    match n.step(Event::DialFailed("refused".to_string())) {
        Action::Fail(Error::Connect(h, m)) => {
            assert_eq!(h.authority(), "proxy.example.com:3128");
            assert_eq!(m, "refused");
        }
        other => panic!("unexpected {:?}", other),
    }
    let mut n = started(Authenticator::none());
    sent(n.step(Event::Dialed));
    match n.step(Event::HandshakeFailed("closed".to_string())) {
        Action::Fail(Error::Handshake(h, _)) => assert_eq!(h.authority(), "target.example.com:22"),
        other => panic!("unexpected {:?}", other),
    }
}

#[test]
fn negotiator_refuses_uris_without_port() {
    let r = Negotiator::new(&parts("http://proxy.example.com"), &parts("target:22"), Authenticator::none());
    assert!(matches!(r, Err(Error::InvalidUri(u)) if u == "http://proxy.example.com/"));
    let r = Negotiator::new(&parts("http://proxy:3128"), &UriParts::new("t".to_string(), Some("t".to_string()), None), Authenticator::none());
    assert!(matches!(r, Err(Error::InvalidUri(u)) if u == "t"));
}

#[test]
fn unsplit_keeps_its_halves() {
    let u = Unsplit::new(1u8, "w");
    assert_eq!(u.reader, 1);
    assert_eq!(u.into_parts(), (1, "w"));
}

#[test]
fn netrc_non_ascii_text_is_refused() {
    let text = "machine pr\u{f6}xy login alice password s\u{e9}cret";
    assert!(matches!(Netrc::parse(text.as_bytes()), Err(auth::Error::Netrc(_))));
}

#[test]
fn request_names_target_as_host_and_port() {
    let (mut n, _) = Negotiator::new(
        &parts("http://proxy.example.com:3128"),
        &parts("http://t.example.com:2222/x?y"),
        Authenticator::none(),
    )
    .unwrap();
    match n.step(Event::Dialed) {
        Action::Send(r) => {
            assert_eq!(r.uri, "t.example.com:2222");
            assert_eq!(r.host, "t.example.com:2222");
            assert!(r.proxy_authorization.is_none());
        }
        other => panic!("expected a request, got {:?}", other),
    }
}

#[test]
fn handshake_failure_while_dialing_is_a_handshake_error() {
    let mut n = started(Authenticator::none());
    assert!(n.accepts_event(&Event::HandshakeFailed("bad".to_string())));
    match n.step(Event::HandshakeFailed("bad".to_string())) {
        Action::Fail(Error::Handshake(h, m)) => {
            assert_eq!(h.authority(), "target.example.com:22");
            assert_eq!(m, "bad");
        }
        other => panic!("unexpected {:?}", other),
    }
    assert_eq!(n.phase, Phase::Failed);
}
