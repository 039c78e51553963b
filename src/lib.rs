//! Contracts for peer-to-peer message transports: the error vocabulary, a
//! capacity-bounded peer registry, the configuration of inbound sinks and the
//! decisions that fan one inbound item out to them, and the transport traits.
use vstd::prelude::*;

pub mod config;
pub mod errors;
pub mod fanout;
pub mod harness;
pub mod peer;
pub mod transport;

pub use config::{SinkKind, TransportConfiguration};
pub use errors::Error;
pub use fanout::{FanOut, Outcome, Step};
pub use harness::{broadcast_delivered, peers_for, unicast_delivered};
pub use peer::{Id, TestPeer, TestPeerList};
pub use transport::{Transport, TransportReceiver, TransportSender, TransportState, TransportType};

verus! {

/// The payload used to exercise transports.
#[derive(Clone, Copy, Debug, PartialEq, Eq, Structural, Hash, PartialOrd, Ord)]
pub struct Data(pub u32);

/// A `Data` from a number; the number is truncated to 32 bits.
impl From<usize> for Data {
    fn from(x: usize) -> (r: Data)
        ensures
            r == Data(x as u32),
    {
        Data(x as u32)
    }
}

impl vstd::std_specs::convert::FromSpecImpl<usize> for Data {
    open spec fn obeys_from_spec() -> bool {
        true
    }

    open spec fn from_spec(v: usize) -> Data {
        Data(v as u32)
    }
}

} // verus!
