//! The transport traits that concrete transports (TCP, UDP, in-process)
//! implement, and the kinds of transport known so far.
use vstd::prelude::*;

use crate::errors::Error;

verus! {

/// The kinds of transport.
#[derive(Clone, Copy, Debug, PartialEq, Eq, Structural)]
pub enum TransportType {
    Unknown,
    TCP,
}

/// Relies on std::io::Error::from(ErrorKind): an error of kind `NotConnected`.
#[verifier::external_body]
fn not_connected() -> std::io::Error {
    std::io::Error::from(std::io::ErrorKind::NotConnected)
}

/// Where a transport stands in its life. Binding and starting to read happen
/// together when it is made, so no state between them is ever seen.
#[derive(Clone, Copy, Debug, PartialEq, Eq, Structural)]
pub enum TransportState {
    /// Its listener could not be bound.
    Unbound,
    /// Bound and reading: operations are admitted.
    Active,
    /// Its listener has been released.
    Closed,
}

impl TransportState {
    /// The state of a transport just made, given whether its listener was
    /// bound.
    pub fn opened(bound: bool) -> (r: TransportState)
        ensures
            r == (if bound {
                TransportState::Active
            } else {
                TransportState::Unbound
            }),
    {
        if bound {
            TransportState::Active
        } else {
            TransportState::Unbound
        }
    }

    /// Whether an operation may go ahead: only while active. Otherwise it
    /// fails with an `Io` error of kind `NotConnected`.
    pub fn ensure_active(&self) -> (r: Result<(), Error>)
        ensures
            r is Ok <==> *self == TransportState::Active,
            *self != TransportState::Active ==> r matches Err(Error::Io(_)),
    {
        match self {
            TransportState::Active => Ok(()),
            _ => Err(Error::Io(not_connected())),
        }
    }

    /// Releases the transport; closing twice is the same as closing once.
    pub fn close(&mut self)
        ensures
            *final(self) == TransportState::Closed,
    {
        *self = TransportState::Closed;
    }
}

/// A transport that both sends and receives.
///
/// Type parameters: `I` the peers' identity, `D` the payload, `E` the error of
/// the peer registry, `P` the peer registry. Inbound items are pulled one at a
/// time with `next`; `close` releases the listener and whatever reads from it,
/// and every exit path of an owner must call it.
pub trait Transport<I, D, E, P>: Sized {
    /// Binds `set_bind_net_addr` at once; a failure to bind is an `Io` error.
    fn new(set_bind_net_addr: String) -> Result<Self, Error>;

    /// Delivers `data` to the one peer listening at `peer_address`.
    fn send(&mut self, peer_address: String, data: D) -> Result<(), Error>;

    /// Delivers `data` to every peer of `peers`, in their order, each as
    /// `send` would; it stops at the first peer that cannot be reached and
    /// returns that error.
    fn broadcast(&mut self, peers: &mut P, data: D) -> Result<(), Error>;

    /// The next inbound item, waiting for one; `None` once closed.
    fn next(&mut self) -> Option<D>;

    /// Releases the listener; operations after it fail.
    fn close(&mut self);
}

/// A transport that only sends.
pub trait TransportSender<I, D, E, P>: Sized {
    fn new() -> Result<Self, Error>;

    /// Delivers `data` to the one peer listening at `peer_address`.
    fn send(&mut self, peer_address: String, data: D) -> Result<(), Error>;

    /// Delivers `data` to every peer of `peers`, in their order, each as
    /// `send` would; it stops at the first peer that cannot be reached and
    /// returns that error.
    fn broadcast(&mut self, peers: &mut P, data: D) -> Result<(), Error>;
}

/// A transport that only receives.
pub trait TransportReceiver<I, D, E, P>: Sized {
    /// Binds `set_bind_net_addr` at once; a failure to bind is an `Io` error.
    fn new(set_bind_net_addr: String) -> Result<Self, Error>;

    /// The next inbound item, waiting for one; `None` once closed.
    fn next(&mut self) -> Option<D>;

    /// Releases the listener; operations after it fail.
    fn close(&mut self);
}

} // verus!
