//! The decisions of a static-file endpoint: which file a request names,
//! whether that file may be served, and the status of the response.
use vstd::prelude::*;

use super::fs_path::{
    is_component_prefix, is_under, join_path, lemma_component_prefix_transitive, path_components, path_join,
};
use crate::text::{
    lemma_trim_leading_removes_only, lemma_trim_leading_start, remove_all, remove_matches, trim_leading,
    trim_start_char,
};

verus! {

/// The status of a response.
#[derive(PartialEq, Eq, Structural, Clone, Copy, Debug)]
pub enum Status {
    /// The file is sent back.
    Success,
    /// The file lies outside the served directory or cannot be opened.
    Forbidden,
    /// The requested file does not exist.
    NotFound,
}

/// The HTTP status code of a status.
pub open spec fn status_code(s: Status) -> u16 {
    match s {
        Status::Success => 200,
        Status::Forbidden => 403,
        Status::NotFound => 404,
    }
}

impl Status {
    /// The HTTP status code.
    pub fn code(&self) -> (c: u16)
        ensures
            c == status_code(*self),
    {
        match self {
            Status::Success => 200,
            Status::Forbidden => 403,
            Status::NotFound => 404,
        }
    }
}

/// The status codes, written out: 200 for a served file, 403 for a refused
/// one, 404 for a missing one.
pub proof fn lemma_status_codes(s: Status)
    ensures
        s is Success ==> status_code(s) == 200,
        s is Forbidden ==> status_code(s) == 403,
        s is NotFound ==> status_code(s) == 404,
{
}

/// What to do once the requested path has been made canonical.
#[derive(PartialEq, Eq, Structural, Clone, Copy, Debug)]
pub enum ServeAction {
    /// Open the canonical file and send it.
    Open,
    /// Answer at once with this status.
    Respond(Status),
}

/// The path, relative to the served directory, that a request names: the
/// request's path with every occurrence of the route prefix removed and the
/// leading slashes dropped.
pub open spec fn requested_path(uri_path: Seq<char>, prefix: Seq<char>) -> Seq<char> {
    trim_leading(remove_all(uri_path, prefix), '/')
}

/// The status of the answer for a target, given its canonical path, if one
/// was found, and whether the canonical file opened.
pub open spec fn serve_status(target: Seq<char>, canonical: Option<Seq<char>>, opened: bool) -> Status {
    match canonical {
        None => Status::NotFound,
        Some(c) => if is_component_prefix(path_components(target), path_components(c)) && opened {
            Status::Success
        } else {
            Status::Forbidden
        },
    }
}

/// What the status of an answer is, whatever `serve_status` is written as:
/// 404 exactly when no canonical path was found; with one, 200 exactly when
/// the file opened and the target's components begin the canonical path's,
/// and 403 otherwise.
pub proof fn lemma_serve_status(target: Seq<char>, canonical: Option<Seq<char>>, opened: bool)
    ensures
        canonical is None ==> serve_status(target, canonical, opened) == Status::NotFound,
        canonical matches Some(c) ==> (serve_status(target, canonical, opened) == Status::Success <==> (opened
            && path_components(target).len() <= path_components(c).len() && forall|i: int|
            0 <= i < path_components(target).len() ==> #[trigger] path_components(target)[i]
                == path_components(c)[i])),
        canonical is Some ==> serve_status(target, canonical, opened) != Status::NotFound,
{
}

/// An endpoint that serves the files under a directory.
pub struct ServeDir {
    prefix: String,
    dir: String,
}

impl ServeDir {
    /// The route prefix that is removed from request paths.
    pub closed spec fn prefix(&self) -> Seq<char> {
        self.prefix@
    }

    /// The served directory.
    pub closed spec fn dir(&self) -> Seq<char> {
        self.dir@
    }

    /// Creates an endpoint for route `prefix` that serves the files under `dir`.
    pub fn new(prefix: String, dir: String) -> (s: Self)
        ensures
            s.prefix() == prefix@,
            s.dir() == dir@,
    {
        ServeDir { prefix, dir }
    }

    /// The path, relative to the served directory, that `uri_path` names.
    pub fn request_path(&self, uri_path: &str) -> (r: String)
        ensures
            r@ == requested_path(uri_path@, self.prefix()),
            r@.len() > 0 ==> r@[0] != '/',
            r@ == remove_all(uri_path@, self.prefix()).skip(
                remove_all(uri_path@, self.prefix()).len() - r@.len(),
            ),
            forall|i: int|
                0 <= i < remove_all(uri_path@, self.prefix()).len() - r@.len() ==> #[trigger] remove_all(
                    uri_path@,
                    self.prefix(),
                )[i] == '/',
    {
        let stripped = remove_matches(uri_path, self.prefix.as_str());
        let r = trim_start_char(stripped.as_str(), '/');
        proof {
            lemma_trim_leading_start(stripped@, '/');
            lemma_trim_leading_removes_only(stripped@, '/');
        }
        r
    }

    /// The file that `uri_path` asks for: the served directory joined with
    /// the requested path. It is this path that is made canonical.
    pub fn target(&self, uri_path: &str) -> (r: String)
        ensures
            r@ == path_join(self.dir(), requested_path(uri_path@, self.prefix())),
    {
        let rel = self.request_path(uri_path);
        join_path(self.dir.as_str(), rel.as_str())
    }

    /// Decides, from the outcome of making `target` canonical, whether the
    /// file is opened: not when no canonical path was found (the file does
    /// not exist), and not when the components of `target` are not, in order,
    /// the first components of the canonical path (the target passes through
    /// `..` or a link, so its canonical path is some other name).
    pub fn check(target: &str, canonical: Option<&str>) -> (a: ServeAction)
        ensures
            canonical is None ==> a == ServeAction::Respond(Status::NotFound),
            canonical matches Some(c) ==> {
                if is_component_prefix(path_components(target@), path_components(c@)) {
                    a == ServeAction::Open
                } else {
                    a == ServeAction::Respond(Status::Forbidden)
                }
            },
    {
        match canonical {
            None => ServeAction::Respond(Status::NotFound),
            Some(c) => {
                if is_under(target, c) {
                    ServeAction::Open
                } else {
                    ServeAction::Respond(Status::Forbidden)
                }
            },
        }
    }

    /// The status of the answer to a request for `uri_path`, given the
    /// canonical path of its target, if one was found, and whether the
    /// canonical file opened (consulted only when `check` allows opening):
    /// 404 without a canonical path; 200 when the target's components begin
    /// the canonical path's and the file opened; 403 otherwise. Where the
    /// target lies under the served directory (joining a relative path extends
    /// the directory), a file answered with 200 lies under it too.
    pub fn call(&self, uri_path: &str, canonical: Option<&str>, opened: bool) -> (s: Status)
        ensures
            s == serve_status(
                path_join(self.dir(), requested_path(uri_path@, self.prefix())),
                match canonical {
                    Some(c) => Some(c@),
                    None => None,
                },
                opened,
            ),
            s == Status::NotFound <==> canonical is None,
            canonical matches Some(c) ==> (s == Status::Success <==> (opened && is_component_prefix(
                path_components(path_join(self.dir(), requested_path(uri_path@, self.prefix()))),
                path_components(c@),
            ))),
            canonical is Some ==> (s == Status::Success || s == Status::Forbidden),
            s == Status::Success ==> (canonical matches Some(c) && opened && is_component_prefix(
                path_components(path_join(self.dir(), requested_path(uri_path@, self.prefix()))),
                path_components(c@),
            )),
            s == Status::Success ==> (canonical matches Some(c) && (is_component_prefix(
                path_components(self.dir()),
                path_components(path_join(self.dir(), requested_path(uri_path@, self.prefix()))),
            ) ==> is_component_prefix(path_components(self.dir()), path_components(c@)))),
    {
        let target = self.target(uri_path);
        proof {
            if let Some(c) = canonical {
                if is_component_prefix(path_components(self.dir()), path_components(target@))
                    && is_component_prefix(path_components(target@), path_components(c@)) {
                    lemma_component_prefix_transitive(
                        path_components(self.dir()),
                        path_components(target@),
                        path_components(c@),
                    );
                }
            }
        }
        match Self::check(target.as_str(), canonical) {
            ServeAction::Respond(status) => status,
            ServeAction::Open => Self::opened(opened),
        }
    }

    /// The status once the canonical file has been opened, or has failed to.
    pub fn opened(ok: bool) -> (s: Status)
        ensures
            s == (if ok { Status::Success } else { Status::Forbidden }),
    {
        if ok {
            Status::Success
        } else {
            Status::Forbidden
        }
    }
}

} // verus!
