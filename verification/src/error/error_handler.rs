//! A middleware that maps errors of one type, returned by the endpoint or
//! middleware before it, into a result of its own, and passes every other
//! response along unchanged.
use core::marker::PhantomData;
use std::fmt::{Debug, Display};
use vstd::prelude::*;
use vstd::string::StringExecFns;

verus! {

/// Maps an error of type `E` into a result. Implemented by the user of an
/// `ErrorHandler`, most often for a closure.
pub trait ErrorMapper<E> {
    /// What an error is mapped into (for a server, a future of a response).
    type Output;

    /// Maps `error`.
    fn call(&self, error: &E) -> Self::Output;
}

/// What the handler did with a response.
pub enum Handled<O> {
    /// The response carried an error of the handled type; this is what the
    /// mapper made of it, and it takes the response's place.
    Mapped(O),
    /// The response is passed along unchanged.
    Unchanged,
}

/// The error type of `http_types`, which a response can carry.
#[verifier::external_type_specification]
#[verifier::external_body]
pub struct ExHttpError(http_types::Error);

/// Calls `http_types::Error::downcast_ref`: the error inside `err`, when it is
/// of type `E`. Nothing is claimed of the result: which type the error has is
/// known only at run time.
#[verifier::external_body]
fn downcast_error<E: Display + Debug + Send + Sync + 'static>(err: &http_types::Error) -> Option<&E> {
    err.downcast_ref::<E>()
}

/// Middleware that hands errors of type `E` to a mapper.
pub struct ErrorHandler<E, M> {
    mapper: M,
    handled: PhantomData<E>,
}

/// The name of a handler for the type named `error_type`.
pub open spec fn handler_name_spec(error_type: Seq<char>) -> Seq<char> {
    "ErrorHandler for "@ + error_type
}

/// A handler's name is `ErrorHandler for ` followed by the error type's
/// name, unchanged.
pub proof fn lemma_handler_name(error_type: Seq<char>)
    ensures
        handler_name_spec(error_type).len() == 17 + error_type.len(),
        handler_name_spec(error_type).take(17) == "ErrorHandler for "@,
        handler_name_spec(error_type).skip(17) == error_type,
{
    reveal_strlit("ErrorHandler for ");
    assert(handler_name_spec(error_type).take(17) =~= "ErrorHandler for "@);
    assert(handler_name_spec(error_type).skip(17) =~= error_type);
}

/// The name of a handler for the error type named `error_type`: the name
/// that a handler for that type goes by in logs and debug output.
pub fn handler_name(error_type: &str) -> (r: String)
    ensures
        r@ == handler_name_spec(error_type@),
{
    let mut r = "ErrorHandler for ".to_owned();
    r.append(error_type);
    r
}

impl<E, M: ErrorMapper<E>> ErrorHandler<E, M> {
    /// The mapper errors are handed to.
    pub closed spec fn mapper(&self) -> M {
        self.mapper
    }

    /// A handler that hands errors of type `E` to `f`.
    pub fn new(f: M) -> (h: Self)
        ensures
            h.mapper() == f,
    {
        ErrorHandler { mapper: f, handled: PhantomData }
    }

    /// Handles a response, given the error of type `E` it carries, if it
    /// carries one: such an error goes to the mapper, whose result replaces
    /// the response; any other response is passed along unchanged.
    pub fn handle(&self, error: Option<&E>) -> (r: Handled<M::Output>)
        ensures
            error is None <==> r is Unchanged,
            error matches Some(e) ==> (r matches Handled::Mapped(o) && call_ensures(
                M::call,
                (&self.mapper(), e),
                o,
            )),
    {
        match error {
            Some(e) => Handled::Mapped(self.mapper.call(e)),
            None => Handled::Unchanged,
        }
    }

    /// Handles a response, given the error it carries, if it carries one:
    /// an error that is of type `E` goes to the mapper, whose result replaces
    /// the response; a response without an error, or whose error is of
    /// another type, is passed along unchanged.
    pub fn handle_error(&self, error: Option<&http_types::Error>) -> (r: Handled<M::Output>)
        where E: Display + Debug + Send + Sync + 'static,
        ensures
            error is None ==> r is Unchanged,
            r matches Handled::Mapped(o) ==> exists|e: &E| #[trigger] call_ensures(
                M::call,
                (&self.mapper(), e),
                o,
            ),
    {
        match error {
            Some(err) => self.handle(downcast_error::<E>(err)),
            None => Handled::Unchanged,
        }
    }
}

} // verus!
