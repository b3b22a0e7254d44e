//! Choosing the transports a server listens on.

mod multi_listener;
pub use multi_listener::{lemma_all_ok_succeeds, lemma_first_error_wins, lemma_step, lemma_step_is_outcome, listen_outcome, step, ListenProgress, MultiListener};
mod to_listener;


pub use to_listener::{
    error_kind, error_message, is_tcp_scheme, is_tls_scheme, is_unix_scheme, lemma_default_port, lemma_error_reports, lemma_plan_by_scheme, lemma_plan_str_of_url, lemma_scheme_aliases, plan_parsed, plan_str, plan_url, plan_view,
    str_plan, unix_path, url_parts_of, url_plan, ListenError, ListenErrorView, ListenPlan, PlanView, UrlParts, UrlView,
    DEFAULT_PORT,
};

use vstd::prelude::*;

verus! {

/// The kinds of I/O error that this crate tells apart.
#[derive(PartialEq, Eq, Structural, Clone, Copy, Debug)]
pub enum ErrorKind {
    /// The remote side refused the connection.
    ConnectionRefused,
    /// The remote side aborted the connection.
    ConnectionAborted,
    /// The remote side reset the connection.
    ConnectionReset,
    /// An argument was not valid.
    InvalidInput,
    /// Data was not valid for the operation.
    InvalidData,
    /// A failure that fits no other kind.
    Other,
    /// Any kind not listed above.
    Unlisted,
}

/// Whether an error of this kind concerns one connection only, so that a
/// server keeps accepting after it.
pub open spec fn transient(kind: ErrorKind) -> bool {
    kind == ErrorKind::ConnectionRefused || kind == ErrorKind::ConnectionAborted
        || kind == ErrorKind::ConnectionReset
}

/// Exactly refused, aborted and reset connections are transient; every other
/// kind (invalid input or data, other, unlisted) is not.
pub proof fn lemma_transient_kinds(kind: ErrorKind)
    ensures
        transient(kind) <==> (kind is ConnectionRefused || kind is ConnectionAborted || kind is ConnectionReset),
        (kind is InvalidInput || kind is InvalidData || kind is Other || kind is Unlisted) ==> !transient(kind),
{
}

/// Whether an accept error of this kind leaves the listener usable.
pub fn is_transient_error(kind: ErrorKind) -> (r: bool)
    ensures
        r == transient(kind),
        r <==> (kind is ConnectionRefused || kind is ConnectionAborted || kind is ConnectionReset),
{
    kind == ErrorKind::ConnectionRefused || kind == ErrorKind::ConnectionAborted
        || kind == ErrorKind::ConnectionReset
}

} // verus!
