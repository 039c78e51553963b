//! The error vocabulary shared by transports, registries and sinks.
use vstd::prelude::*;

verus! {

/// std::io::Error, carried opaquely in `Error::Io`.
#[verifier::external_type_specification]
#[verifier::external_body]
pub struct ExIoError(std::io::Error);

/// bincode::ErrorKind, carried opaquely (boxed, as bincode::Error) in
/// `Error::Bincode`.
#[verifier::external_type_specification]
#[verifier::external_body]
pub struct ExBincodeErrorKind(bincode::ErrorKind);

/// What can go wrong in a transport, a peer registry or a sink.
#[derive(Debug)]
pub enum Error {
    /// A failure reported by the peer registry, with its description.
    Base(String),
    /// A vector reached its capacity and cannot take another element.
    AtMaxVecCapacity,
    /// Encoding or decoding a payload failed.
    Bincode(bincode::Error),
    /// An I/O operation failed.
    Io(std::io::Error),
    /// A read or write handled fewer bytes than it was asked to.
    Incomplete,
    /// A lock was found poisoned; the text describes it.
    PoisonError(String),
}

impl From<bincode::Error> for Error {
    fn from(e: bincode::Error) -> (r: Error)
        ensures
            r == Error::Bincode(e),
    {
        Error::Bincode(e)
    }
}

impl vstd::std_specs::convert::FromSpecImpl<bincode::Error> for Error {
    open spec fn obeys_from_spec() -> bool {
        true
    }

    open spec fn from_spec(v: bincode::Error) -> Error {
        Error::Bincode(v)
    }
}

impl From<std::io::Error> for Error {
    fn from(e: std::io::Error) -> (r: Error)
        ensures
            r == Error::Io(e),
    {
        Error::Io(e)
    }
}

impl vstd::std_specs::convert::FromSpecImpl<std::io::Error> for Error {
    open spec fn obeys_from_spec() -> bool {
        true
    }

    open spec fn from_spec(v: std::io::Error) -> Error {
        Error::Io(v)
    }
}

/// std::sync::PoisonError, taken only to be described in `Error::PoisonError`.
#[verifier::external_type_specification]
#[verifier::external_body]
#[verifier::reject_recursive_types(T)]
pub struct ExPoisonError<T>(std::sync::PoisonError<T>);

/// Relies on the `Display` of std::sync::PoisonError, which describes the
/// poisoned lock; nothing is assumed of the text.
#[verifier::external_body]
fn poison_description<T>(e: &std::sync::PoisonError<T>) -> String {
    e.to_string()
}

/// A poisoned lock becomes `PoisonError`, carrying the lock's own description.
impl<T> From<std::sync::PoisonError<T>> for Error {
    fn from(e: std::sync::PoisonError<T>) -> (r: Error)
        ensures
            r is PoisonError,
    {
        Error::PoisonError(poison_description(&e))
    }
}

impl<T> vstd::std_specs::convert::FromSpecImpl<std::sync::PoisonError<T>> for Error {
    /// The description is std's text, which is not modelled, so no exact
    /// result is claimed for this conversion.
    open spec fn obeys_from_spec() -> bool {
        false
    }

    open spec fn from_spec(v: std::sync::PoisonError<T>) -> Error {
        Error::PoisonError(vstd::pervasive::arbitrary())
    }
}

} // verus!
