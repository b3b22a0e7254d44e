//! How a listener description (a URL or a string) becomes a transport to
//! bind: a TCP host and port, or a Unix socket path.
use vstd::prelude::*;
use vstd::string::StringExecFns;

use super::ErrorKind;

verus! {

/// The port a TCP listener binds when its URL names none.
pub const DEFAULT_PORT: u16 = 80;

/// What a listener reads of a parsed URL.
pub struct UrlParts {
    /// The scheme, such as `tcp` or `unix`.
    pub scheme: String,
    /// The host, when it is a domain name.
    pub domain: Option<String>,
    /// The path.
    pub path: String,
    /// The host as written in the URL, when there is one.
    pub host: Option<String>,
    /// The port, or the default port of a scheme that has one.
    pub port: Option<u16>,
}

/// `UrlParts` as text.
pub struct UrlView {
    pub scheme: Seq<char>,
    pub domain: Option<Seq<char>>,
    pub path: Seq<char>,
    pub host: Option<Seq<char>>,
    pub port: Option<u16>,
}

impl View for UrlParts {
    type V = UrlView;

    open spec fn view(&self) -> UrlView {
        UrlView {
            scheme: self.scheme@,
            domain: self.domain.deep_view(),
            path: self.path@,
            host: self.host.deep_view(),
            port: self.port,
        }
    }
}

/// What `http_types::url::Url::parse` yields for `input`, read through
/// `scheme`, `domain`, `path`, `host_str` and `port_or_known_default`;
/// `None` where it fails.
pub uninterp spec fn url_parts_of(input: Seq<char>) -> Option<UrlView>;

/// Calls `http_types::url::Url::parse` (the `url` crate's parser). Claims that
/// the parts read off the parsed URL are `url_parts_of(input@)`, and `None`
/// exactly when parsing fails.
#[verifier::external_body]
pub(crate) fn parse_url(input: &str) -> (r: Option<UrlParts>)
    ensures
        r.deep_view() == url_parts_of(input@),
{
    match http_types::url::Url::parse(input) {
        Ok(u) => Some(UrlParts {
            scheme: u.scheme().to_string(),
            domain: u.domain().map(str::to_string),
            path: u.path().to_string(),
            host: u.host_str().map(str::to_string),
            port: u.port_or_known_default(),
        }),
        Err(_) => None,
    }
}

impl DeepView for UrlParts {
    type V = UrlView;

    open spec fn deep_view(&self) -> UrlView {
        self@
    }
}

/// A transport to bind.
#[derive(PartialEq, Eq, Debug)]
pub enum ListenPlan {
    /// A Unix domain socket at this path.
    Unix(String),
    /// A TCP socket on this host and port; a domain host is resolved first.
    Tcp { host: String, port: u16 },
}

/// `ListenPlan` as text.
pub enum PlanView {
    Unix(Seq<char>),
    Tcp(Seq<char>, u16),
}

impl View for ListenPlan {
    type V = PlanView;

    open spec fn view(&self) -> PlanView {
        match self {
            ListenPlan::Unix(p) => PlanView::Unix(p@),
            ListenPlan::Tcp { host, port } => PlanView::Tcp(host@, *port),
        }
    }
}

/// Why a listener description was refused.
#[derive(PartialEq, Eq, Debug)]
pub enum ListenError {
    /// A Unix socket was asked for on a platform without them.
    UnixUnsupported,
    /// A TLS listener was asked for.
    TlsUnsupported,
    /// The URL's scheme names no known transport.
    UnrecognizedScheme,
    /// A TCP URL names no host.
    NoHost,
    /// The string is neither a socket address nor a URL.
    Unparsable(String),
}

/// `ListenError` as text.
pub enum ListenErrorView {
    UnixUnsupported,
    TlsUnsupported,
    UnrecognizedScheme,
    NoHost,
    Unparsable(Seq<char>),
}

impl View for ListenError {
    type V = ListenErrorView;

    open spec fn view(&self) -> ListenErrorView {
        match self {
            ListenError::UnixUnsupported => ListenErrorView::UnixUnsupported,
            ListenError::TlsUnsupported => ListenErrorView::TlsUnsupported,
            ListenError::UnrecognizedScheme => ListenErrorView::UnrecognizedScheme,
            ListenError::NoHost => ListenErrorView::NoHost,
            ListenError::Unparsable(s) => ListenErrorView::Unparsable(s@),
        }
    }
}

/// The message of an error.
pub open spec fn error_message(e: ListenErrorView) -> Seq<char> {
    match e {
        ListenErrorView::UnixUnsupported => "Unix sockets not supported on this platform"@,
        ListenErrorView::TlsUnsupported => "parsing TLS listeners not supported yet"@,
        ListenErrorView::UnrecognizedScheme => "unrecognized url scheme"@,
        ListenErrorView::NoHost => "No host name in the URL"@,
        ListenErrorView::Unparsable(s) => "unable to parse listener from `"@ + s + "`"@,
    }
}

/// The kind of I/O error an error is reported as.
pub open spec fn error_kind(e: ListenErrorView) -> ErrorKind {
    match e {
        ListenErrorView::UnixUnsupported => ErrorKind::Other,
        ListenErrorView::TlsUnsupported => ErrorKind::Other,
        ListenErrorView::UnrecognizedScheme => ErrorKind::InvalidInput,
        ListenErrorView::NoHost => ErrorKind::InvalidData,
        ListenErrorView::Unparsable(_) => ErrorKind::InvalidInput,
    }
}

impl ListenError {
    /// The kind of I/O error this is reported as.
    pub fn kind(&self) -> (k: ErrorKind)
        ensures
            k == error_kind(self@),
    {
        match self {
            ListenError::UnixUnsupported => ErrorKind::Other,
            ListenError::TlsUnsupported => ErrorKind::Other,
            ListenError::UnrecognizedScheme => ErrorKind::InvalidInput,
            ListenError::NoHost => ErrorKind::InvalidData,
            ListenError::Unparsable(_) => ErrorKind::InvalidInput,
        }
    }

    /// The message this is reported with.
    pub fn message(&self) -> (m: String)
        ensures
            m@ == error_message(self@),
    {
        match self {
            ListenError::UnixUnsupported => "Unix sockets not supported on this platform".to_owned(),
            ListenError::TlsUnsupported => "parsing TLS listeners not supported yet".to_owned(),
            ListenError::UnrecognizedScheme => "unrecognized url scheme".to_owned(),
            ListenError::NoHost => "No host name in the URL".to_owned(),
            ListenError::Unparsable(s) => {
                let mut m = "unable to parse listener from `".to_owned();
                m.append(s.as_str());
                m.append("`");
                m
            },
        }
    }
}

/// Schemes that name a Unix socket.
pub open spec fn is_unix_scheme(s: Seq<char>) -> bool {
    s == "unix"@ || s == "file"@ || s == "http+unix"@
}

/// Schemes that name a TCP socket.
pub open spec fn is_tcp_scheme(s: Seq<char>) -> bool {
    s == "tcp"@ || s == "http"@
}

/// Schemes that name a TLS listener.
pub open spec fn is_tls_scheme(s: Seq<char>) -> bool {
    s == "tls"@ || s == "ssl"@ || s == "https"@
}

/// The socket path a Unix URL names: its domain, if any, then its path.
pub open spec fn unix_path(url: UrlView) -> Seq<char> {
    match url.domain {
        Some(d) => d + url.path,
        None => url.path,
    }
}

/// The transport a URL names, or why there is none.
pub open spec fn url_plan(url: UrlView, unix_sockets: bool) -> Result<PlanView, ListenErrorView> {
    if is_unix_scheme(url.scheme) {
        if unix_sockets {
            Ok(PlanView::Unix(unix_path(url)))
        } else {
            Err(ListenErrorView::UnixUnsupported)
        }
    } else if is_tcp_scheme(url.scheme) {
        match url.host {
            Some(h) => Ok(PlanView::Tcp(h, match url.port { Some(p) => p, None => DEFAULT_PORT })),
            None => Err(ListenErrorView::NoHost),
        }
    } else if is_tls_scheme(url.scheme) {
        Err(ListenErrorView::TlsUnsupported)
    } else {
        Err(ListenErrorView::UnrecognizedScheme)
    }
}

/// The transport a string names, given what URL parsing made of it.
pub open spec fn str_plan(input: Seq<char>, parsed: Option<UrlView>, unix_sockets: bool) -> Result<PlanView, ListenErrorView> {
    match parsed {
        Some(url) => url_plan(url, unix_sockets),
        None => Err(ListenErrorView::Unparsable(input)),
    }
}

/// A planning result as text.
pub open spec fn plan_view(r: Result<ListenPlan, ListenError>) -> Result<PlanView, ListenErrorView> {
    match r {
        Ok(p) => Ok(p@),
        Err(e) => Err(e@),
    }
}

/// Whether `s` is the text of `lit`.
fn text_eq(s: &str, lit: &str) -> (r: bool)
    ensures
        r == (s@ == lit@),
{
    let a = crate::text::chars_of(s);
    let b = crate::text::chars_of(lit);
    if a.len() != b.len() {
        return false;
    }
    for i in 0..a.len()
        invariant
            a@ == s@,
            b@ == lit@,
            a.len() == b.len(),
            forall|k: int| 0 <= k < i ==> a@[k] == b@[k],
    {
        if a[i] != b[i] {
            return false;
        }
    }
    assert(a@ =~= b@);
    true
}

/// Copies optional text.
fn copy_opt(s: &Option<String>) -> (r: Option<String>)
    ensures
        r.deep_view() == s.deep_view(),
{
    match s {
        Some(t) => Some(t.clone()),
        None => None,
    }
}

/// The transport a URL names: a Unix socket for the schemes `unix`, `file`
/// and `http+unix` (where the platform has them), a TCP socket for `tcp` and
/// `http` (on the URL's port, else port 80); TLS schemes and all others are
/// refused.
pub fn plan_url(url: &UrlParts, unix_sockets: bool) -> (r: Result<ListenPlan, ListenError>)
    ensures
        plan_view(r) == url_plan(url@, unix_sockets),
{
    let scheme = url.scheme.as_str();
    if text_eq(scheme, "unix") || text_eq(scheme, "file") || text_eq(scheme, "http+unix") {
        if unix_sockets {
            let mut p = match &url.domain {
                Some(d) => d.clone(),
                None => String::new(),
            };
            p.append(url.path.as_str());
            proof {
                if url.domain is None {
                    assert(p@ =~= url.path@);
                }
            }
            Ok(ListenPlan::Unix(p))
        } else {
            Err(ListenError::UnixUnsupported)
        }
    } else if text_eq(scheme, "tcp") || text_eq(scheme, "http") {
        match copy_opt(&url.host) {
            Some(h) => {
                let port = match url.port {
                    Some(p) => p,
                    None => DEFAULT_PORT,
                };
                Ok(ListenPlan::Tcp { host: h, port })
            },
            None => Err(ListenError::NoHost),
        }
    } else if text_eq(scheme, "tls") || text_eq(scheme, "ssl") || text_eq(scheme, "https") {
        Err(ListenError::TlsUnsupported)
    } else {
        Err(ListenError::UnrecognizedScheme)
    }
}

/// The transport a string names, given what URL parsing made of it: the
/// URL's transport, or `Unparsable` with the string when it is no URL.
pub fn plan_parsed(input: &str, parsed: Option<UrlParts>, unix_sockets: bool) -> (r: Result<ListenPlan, ListenError>)
    ensures
        plan_view(r) == str_plan(input@, parsed.deep_view(), unix_sockets),
{
    match parsed {
        Some(url) => plan_url(&url, unix_sockets),
        None => Err(ListenError::Unparsable(input.to_owned())),
    }
}

/// The transport a string names once it is known not to be a socket
/// address: the string is parsed as a URL.
pub fn plan_str(input: &str, unix_sockets: bool) -> (r: Result<ListenPlan, ListenError>)
    ensures
        plan_view(r) == str_plan(input@, url_parts_of(input@), unix_sockets),
{
    let parsed = parse_url(input);
    plan_parsed(input, parsed, unix_sockets)
}

/// A string that parses as a URL names what that URL names.
pub proof fn lemma_plan_str_of_url(input: Seq<char>, url: UrlView, unix_sockets: bool)
    requires
        url_parts_of(input) == Some(url),
    ensures
        str_plan(input, url_parts_of(input), unix_sockets) == url_plan(url, unix_sockets),
{
}

/// No scheme names two kinds of transport.
proof fn lemma_scheme_families_disjoint()
    ensures
        forall|s: Seq<char>| is_tcp_scheme(s) ==> !is_unix_scheme(s),
        forall|s: Seq<char>| is_tls_scheme(s) ==> !is_unix_scheme(s) && !is_tcp_scheme(s),
{
    reveal_strlit("http");
    reveal_strlit("tcp");
    reveal_strlit("file");
    reveal_strlit("http+unix");
    reveal_strlit("unix");
    reveal_strlit("tls");
    reveal_strlit("ssl");
    reveal_strlit("https");
    assert("tcp"@[0] != "unix"@[0] && "tcp"@[0] != "file"@[0] && "tcp"@[0] != "http+unix"@[0]);
    assert("http"@[0] != "unix"@[0] && "http"@[0] != "file"@[0] && "http"@.len() != "http+unix"@.len());
    assert("tls"@[0] != "unix"@[0] && "tls"@[0] != "file"@[0] && "tls"@[0] != "http+unix"@[0]);
    assert("ssl"@[0] != "unix"@[0] && "ssl"@[0] != "file"@[0] && "ssl"@[0] != "http+unix"@[0]);
    assert("https"@.len() != "unix"@.len() && "https"@[0] != "file"@[0] && "https"@.len() != "http+unix"@.len());
    assert("tls"@[1] != "tcp"@[1] && "tls"@[0] != "http"@[0]);
    assert("ssl"@[0] != "tcp"@[0] && "ssl"@[0] != "http"@[0]);
    assert("https"@[0] != "tcp"@[0] && "https"@.len() != "http"@.len());
}

/// `http` is another name for `tcp`, and `file` and `http+unix` are other
/// names for `unix`: a URL names the same transport under each of them.
pub proof fn lemma_scheme_aliases(url: UrlView, unix_sockets: bool)
    ensures
        url.scheme == "http"@ ==> url_plan(url, unix_sockets) == url_plan(UrlView { scheme: "tcp"@, ..url }, unix_sockets),
        (url.scheme == "file"@ || url.scheme == "http+unix"@) ==> url_plan(url, unix_sockets) == url_plan(
            UrlView { scheme: "unix"@, ..url },
            unix_sockets,
        ),
{
    lemma_scheme_families_disjoint();
}

/// A TCP URL with a host and no port binds port 80.
pub proof fn lemma_default_port(url: UrlView, unix_sockets: bool)
    requires
        is_tcp_scheme(url.scheme),
        url.host is Some,
        url.port is None,
    ensures
        url_plan(url, unix_sockets) == Ok::<PlanView, ListenErrorView>(PlanView::Tcp(url.host.unwrap(), 80)),
{
    lemma_scheme_families_disjoint();
}

/// The scheme names told apart here are different texts.
proof fn lemma_scheme_names_differ()
    ensures
        "tcp"@ != "unix"@ && "tcp"@ != "file"@ && "tcp"@ != "http+unix"@,
        "http"@ != "unix"@ && "http"@ != "file"@ && "http"@ != "http+unix"@,
        "tls"@ != "unix"@ && "tls"@ != "file"@ && "tls"@ != "http+unix"@ && "tls"@ != "tcp"@ && "tls"@ != "http"@,
        "ssl"@ != "unix"@ && "ssl"@ != "file"@ && "ssl"@ != "http+unix"@ && "ssl"@ != "tcp"@ && "ssl"@ != "http"@,
        "https"@ != "unix"@ && "https"@ != "file"@ && "https"@ != "http+unix"@ && "https"@ != "tcp"@ && "https"@ != "http"@,
{
    reveal_strlit("http");
    reveal_strlit("tcp");
    reveal_strlit("file");
    reveal_strlit("http+unix");
    reveal_strlit("unix");
    reveal_strlit("tls");
    reveal_strlit("ssl");
    reveal_strlit("https");
    assert("tcp"@[0] != "unix"@[0] && "tcp"@[0] != "file"@[0] && "tcp"@[0] != "http+unix"@[0]);
    assert("http"@[0] != "unix"@[0] && "http"@[0] != "file"@[0] && "http"@.len() != "http+unix"@.len());
    assert("tls"@[0] != "unix"@[0] && "tls"@[0] != "file"@[0] && "tls"@[0] != "http+unix"@[0]);
    assert("tls"@[1] != "tcp"@[1] && "tls"@[0] != "http"@[0]);
    assert("ssl"@[0] != "unix"@[0] && "ssl"@[0] != "file"@[0] && "ssl"@[0] != "http+unix"@[0]);
    assert("ssl"@[0] != "tcp"@[0] && "ssl"@[0] != "http"@[0]);
    assert("https"@.len() != "unix"@.len() && "https"@[0] != "file"@[0] && "https"@.len() != "http+unix"@.len());
    assert("https"@[0] != "tcp"@[0] && "https"@.len() != "http"@.len());
}

/// What each scheme names, written with the scheme names themselves:
/// `tls`, `ssl` and `https` are refused as TLS; `tcp` and `http` give TCP on
/// the URL's host and its port, written or known (80 when there is none),
/// or no host; `unix`, `file` and `http+unix` give the socket at the domain
/// followed by the path, where the platform has Unix sockets; every other
/// scheme is unrecognized.
pub proof fn lemma_plan_by_scheme(url: UrlView, unix_sockets: bool)
    ensures
        (url.scheme == "tls"@ || url.scheme == "ssl"@ || url.scheme == "https"@) ==> url_plan(url, unix_sockets)
            == Err::<PlanView, ListenErrorView>(ListenErrorView::TlsUnsupported),
        (url.scheme == "tcp"@ || url.scheme == "http"@) ==> url_plan(url, unix_sockets) == match url.host {
            Some(h) => Ok::<PlanView, ListenErrorView>(PlanView::Tcp(h, match url.port {
                Some(p) => p,
                None => 80u16,
            })),
            None => Err(ListenErrorView::NoHost),
        },
        (url.scheme == "tcp"@ || url.scheme == "http"@) && url.host is Some && url.port is Some ==> url_plan(
            url,
            unix_sockets,
        ) == Ok::<PlanView, ListenErrorView>(PlanView::Tcp(url.host.unwrap(), url.port.unwrap())),
        (url.scheme == "unix"@ || url.scheme == "file"@ || url.scheme == "http+unix"@) ==> url_plan(url, unix_sockets)
            == if unix_sockets {
            Ok::<PlanView, ListenErrorView>(PlanView::Unix(match url.domain {
                Some(d) => d + url.path,
                None => url.path,
            }))
        } else {
            Err(ListenErrorView::UnixUnsupported)
        },
        !(url.scheme == "tls"@ || url.scheme == "ssl"@ || url.scheme == "https"@ || url.scheme == "tcp"@
            || url.scheme == "http"@ || url.scheme == "unix"@ || url.scheme == "file"@ || url.scheme
            == "http+unix"@) ==> url_plan(url, unix_sockets) == Err::<PlanView, ListenErrorView>(
            ListenErrorView::UnrecognizedScheme,
        ),
{
    lemma_scheme_names_differ();
}

/// The kind and message of each refusal, written out.
pub proof fn lemma_error_reports(e: ListenErrorView)
    ensures
        e is UnixUnsupported ==> error_kind(e) == ErrorKind::Other && error_message(e)
            == "Unix sockets not supported on this platform"@,
        e is TlsUnsupported ==> error_kind(e) == ErrorKind::Other && error_message(e)
            == "parsing TLS listeners not supported yet"@,
        e is UnrecognizedScheme ==> error_kind(e) == ErrorKind::InvalidInput && error_message(e)
            == "unrecognized url scheme"@,
        e is NoHost ==> error_kind(e) == ErrorKind::InvalidData && error_message(e) == "No host name in the URL"@,
        e matches ListenErrorView::Unparsable(s) ==> error_kind(e) == ErrorKind::InvalidInput && error_message(e)
            == "unable to parse listener from `"@ + s + "`"@,
{
}

} // verus!
