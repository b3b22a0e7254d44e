use tide::listener::{
    is_transient_error, plan_parsed, plan_str, plan_url, ErrorKind, ListenError,
    ListenPlan, ListenProgress, MultiListener, UrlParts,
};

fn tcp(host: &str, port: u16) -> ListenPlan {
    ListenPlan::Tcp { host: host.to_string(), port }
}

#[test]
fn url_to_tcp_listener() {
    assert_eq!(plan_str("http://localhost:8000", true), Ok(tcp("localhost", 8000)));
    assert_eq!(plan_str("tcp://localhost:8000", true), Ok(tcp("localhost", 8000)));
    assert_eq!(plan_str("http://127.0.0.1", true), Ok(tcp("127.0.0.1", 80)));
    assert_eq!(plan_str("tcp://127.0.0.1", true), Ok(tcp("127.0.0.1", 80)));
    assert_eq!(plan_str("tcp://0.0.0.0", true), Ok(tcp("0.0.0.0", 80)));
    assert_eq!(plan_str("http://[::1]:1213", true), Ok(tcp("[::1]", 1213)));
}

#[test]
fn str_url_to_unix_listener() {
    assert_eq!(
        plan_str("unix:///var/run/tide/socket", true),
        Ok(ListenPlan::Unix("/var/run/tide/socket".to_string()))
    );
    assert_eq!(plan_str("unix://./socket", true), Ok(ListenPlan::Unix("./socket".to_string())));
    assert_eq!(plan_str("unix://socket", true), Ok(ListenPlan::Unix("socket".to_string())));
    assert_eq!(plan_str("http+unix://socket", true), Ok(ListenPlan::Unix("socket".to_string())));
}

#[test]
fn unix_listener_without_unix_sockets() {
    let err = plan_str("unix:///var/run/tide/socket", false).unwrap_err();
    assert_eq!(err, ListenError::UnixUnsupported);
    assert_eq!(err.message(), "Unix sockets not supported on this platform");
    assert_eq!(err.kind(), ErrorKind::Other);
}

#[test]
fn colon_port_does_not_parse() {
    let err = plan_str(":3000", true).unwrap_err();
    assert_eq!(err.message(), "unable to parse listener from `:3000`");
}

#[test]
fn str_tls_parse_and_url() {
    let err = plan_str("tls://localhost:443", true).unwrap_err();
    assert_eq!(err.message(), "parsing TLS listeners not supported yet");
    assert_eq!(err.kind(), ErrorKind::Other);
    let err = plan_str("https://localhost:443", true).unwrap_err();
    assert_eq!(err.message(), "parsing TLS listeners not supported yet");
}

#[test]
fn str_unknown_scheme() {
    let err = plan_str("pigeon://localhost:443", true).unwrap_err();
    assert_eq!(err, ListenError::UnrecognizedScheme);
    assert_eq!(err.message(), "unrecognized url scheme");
    assert_eq!(err.kind(), ErrorKind::InvalidInput);
    let err = plan_str("pigeon:///localhost:443", true).unwrap_err();
    assert_eq!(err.message(), "unrecognized url scheme");
}

#[test]
fn invalid_str_input() {
    let err = plan_str("hello world", true).unwrap_err();
    assert_eq!(err.message(), "unable to parse listener from `hello world`");
    assert_eq!(err.kind(), ErrorKind::InvalidInput);
    let err = plan_str("🌊", true).unwrap_err();
    assert_eq!(err.message(), "unable to parse listener from `🌊`");
}

#[test]
fn tcp_url_without_host() {
    let err = plan_str("tcp:foo", true).unwrap_err();
    assert_eq!(err, ListenError::NoHost);
    assert_eq!(err.message(), "No host name in the URL");
    assert_eq!(err.kind(), ErrorKind::InvalidData);
}

#[test]
fn url_parts_reach_the_plan() {
    assert_eq!(plan_str("tcp://localhost:8000/a/b", true), Ok(tcp("localhost", 8000)));
    assert_eq!(plan_str("unix://host/a/b", true), Ok(ListenPlan::Unix("host/a/b".to_string())));
    assert_eq!(plan_str("unix:/a/b", true), Ok(ListenPlan::Unix("/a/b".to_string())));
    assert_eq!(plan_str("TCP://example.com:9", true), Ok(tcp("example.com", 9)));
}

#[test]
fn plan_of_hand_built_url() {
    let u = UrlParts {
        scheme: "file".to_string(),
        domain: Some("host".to_string()),
        path: "/p".to_string(),
        host: Some("host".to_string()),
        port: None,
    };
    assert_eq!(plan_url(&u, true), Ok(ListenPlan::Unix("host/p".to_string())));
    let u = UrlParts {
        scheme: "tcp".to_string(),
        domain: None,
        path: String::new(),
        host: Some("10.0.0.1".to_string()),
        port: None,
    };
    assert_eq!(plan_url(&u, false), Ok(tcp("10.0.0.1", 80)));
    assert_eq!(plan_parsed("x y", None, true), Err(ListenError::Unparsable("x y".to_string())));
}

#[test]
fn transient_errors() {
    assert!(is_transient_error(ErrorKind::ConnectionRefused));
    assert!(is_transient_error(ErrorKind::ConnectionAborted));
    assert!(is_transient_error(ErrorKind::ConnectionReset));
    assert!(!is_transient_error(ErrorKind::InvalidInput));
    assert!(!is_transient_error(ErrorKind::Other));
    assert!(!is_transient_error(ErrorKind::Unlisted));
}

#[test]
fn no_listeners_succeeds_at_once() {
    let m = MultiListener::new();
    assert!(matches!(m.start::<String>(), ListenProgress::Done(Ok(()))));
}

#[test]
fn all_listeners_succeed() {
    let mut m = MultiListener::new();
    assert_eq!(m.bind::<&str, String>(Ok("127.0.0.1:8000")), Ok("127.0.0.1:8000"));
    assert_eq!(m.bind::<&str, String>(Ok("unix://unix.socket")), Ok("unix://unix.socket"));
    assert_eq!(m.count(), 2);
    assert!(matches!(m.start::<String>(), ListenProgress::Waiting));
    assert!(matches!(m.finished::<String>(Ok(())), ListenProgress::Waiting));
    assert!(matches!(m.finished::<String>(Ok(())), ListenProgress::Done(Ok(()))));
    assert_eq!(m.count(), 0);
}

#[test]
fn refused_listener_is_not_bound() {
    let mut m = MultiListener::new();
    let r = m.bind::<ListenPlan, ListenError>(Err(ListenError::TlsUnsupported));
    assert_eq!(r, Err(ListenError::TlsUnsupported));
    assert_eq!(m.count(), 0);
    assert!(matches!(m.start::<String>(), ListenProgress::Done(Ok(()))));
}

#[test]
fn first_error_ends_listening() {
    let mut m = MultiListener::new();
    for _ in 0..3 {
        assert_eq!(m.bind::<(), ()>(Ok(())), Ok(()));
    }
    assert!(matches!(m.finished::<String>(Ok(())), ListenProgress::Waiting));
    match m.finished(Err("bind failed".to_string())) {
        ListenProgress::Done(Err(e)) => assert_eq!(e, "bind failed"),
        _ => panic!("expected the error"),
    }
}

#[test]
fn multi_listener_name() {
    assert_eq!(MultiListener::new().name(), "MultiListener");
}
