//! The configuration a transport is built from: where it listens and which
//! sinks receive what it takes in.
use vstd::prelude::*;

use crate::errors::Error;

verus! {

/// How a registered sink takes an inbound item.
#[derive(Clone, Copy, Debug, PartialEq, Eq, Structural)]
pub enum SinkKind {
    /// The sending end of a queue: one enqueue per item.
    Channel,
    /// A byte writer: the item's encoded bytes are written to it.
    RawSink,
    /// A function that reports whether it processed the item; on `false` the
    /// same item is offered again after the callback timeout.
    Callback,
}

/// The wait between two offers of one item to a callback that declined it,
/// when no other was set.
pub const DEFAULT_CALLBACK_TIMEOUT_MS: u64 = 100;

/// Where a transport listens, its sinks in registration order, and the wait
/// between retries of a declining callback.
pub struct TransportConfiguration {
    bind_net_addr: String,
    sinks: Vec<SinkKind>,
    callback_timeout_ms: u64,
}

/// What a configuration holds.
pub ghost struct ConfigurationView {
    pub bind_net_addr: Seq<char>,
    pub sinks: Seq<SinkKind>,
    pub callback_timeout_ms: u64,
}

impl View for TransportConfiguration {
    type V = ConfigurationView;

    closed spec fn view(&self) -> ConfigurationView {
        ConfigurationView {
            bind_net_addr: self.bind_net_addr@,
            sinks: self.sinks@,
            callback_timeout_ms: self.callback_timeout_ms,
        }
    }
}

impl TransportConfiguration {
    /// A configuration listening on `bind_net_addr`, with no sinks and the
    /// default callback timeout.
    pub fn new(bind_net_addr: String) -> (r: TransportConfiguration)
        ensures
            r@.bind_net_addr == bind_net_addr@,
            r@.sinks.len() == 0,
            r@.callback_timeout_ms == DEFAULT_CALLBACK_TIMEOUT_MS,
    {
        TransportConfiguration {
            bind_net_addr,
            sinks: Vec::new(),
            callback_timeout_ms: DEFAULT_CALLBACK_TIMEOUT_MS,
        }
    }

    /// Appends a sink of `kind`; when the list cannot grow it fails with
    /// `AtMaxVecCapacity` and changes nothing.
    fn register(&mut self, kind: SinkKind) -> (r: Result<(), Error>)
        ensures
            final(self)@.bind_net_addr == old(self)@.bind_net_addr,
            final(self)@.callback_timeout_ms == old(self)@.callback_timeout_ms,
            old(self)@.sinks.len() < usize::MAX ==> {
                &&& r is Ok
                &&& final(self)@.sinks == old(self)@.sinks.push(kind)
            },
            old(self)@.sinks.len() == usize::MAX ==> {
                &&& r matches Err(Error::AtMaxVecCapacity)
                &&& final(self)@ == old(self)@
            },
    {
        if self.sinks.len() == usize::MAX {
            return Err(Error::AtMaxVecCapacity);
        }
        self.sinks.push(kind);
        Ok(())
    }

    /// Appends a channel sink; it takes the position after the sinks already
    /// registered.
    pub fn register_channel(&mut self) -> (r: Result<(), Error>)
        ensures
            final(self)@.bind_net_addr == old(self)@.bind_net_addr,
            final(self)@.callback_timeout_ms == old(self)@.callback_timeout_ms,
            old(self)@.sinks.len() < usize::MAX ==> {
                &&& r is Ok
                &&& final(self)@.sinks == old(self)@.sinks.push(SinkKind::Channel)
            },
            old(self)@.sinks.len() == usize::MAX ==> {
                &&& r matches Err(Error::AtMaxVecCapacity)
                &&& final(self)@ == old(self)@
            },
    {
        self.register(SinkKind::Channel)
    }

    /// Appends a raw byte sink; it takes the position after the sinks already
    /// registered.
    pub fn register_raw_sink(&mut self) -> (r: Result<(), Error>)
        ensures
            final(self)@.bind_net_addr == old(self)@.bind_net_addr,
            final(self)@.callback_timeout_ms == old(self)@.callback_timeout_ms,
            old(self)@.sinks.len() < usize::MAX ==> {
                &&& r is Ok
                &&& final(self)@.sinks == old(self)@.sinks.push(SinkKind::RawSink)
            },
            old(self)@.sinks.len() == usize::MAX ==> {
                &&& r matches Err(Error::AtMaxVecCapacity)
                &&& final(self)@ == old(self)@
            },
    {
        self.register(SinkKind::RawSink)
    }

    /// Appends a callback sink; it takes the position after the sinks already
    /// registered.
    pub fn register_callback(&mut self) -> (r: Result<(), Error>)
        ensures
            final(self)@.bind_net_addr == old(self)@.bind_net_addr,
            final(self)@.callback_timeout_ms == old(self)@.callback_timeout_ms,
            old(self)@.sinks.len() < usize::MAX ==> {
                &&& r is Ok
                &&& final(self)@.sinks == old(self)@.sinks.push(SinkKind::Callback)
            },
            old(self)@.sinks.len() == usize::MAX ==> {
                &&& r matches Err(Error::AtMaxVecCapacity)
                &&& final(self)@ == old(self)@
            },
    {
        self.register(SinkKind::Callback)
    }

    pub fn set_callback_timeout(&mut self, timeout_ms: u64)
        ensures
            final(self)@ == (ConfigurationView {
                callback_timeout_ms: timeout_ms,
                ..old(self)@
            }),
    {
        self.callback_timeout_ms = timeout_ms;
    }

    pub fn set_bind_net_addr(&mut self, bind_net_addr: String)
        ensures
            final(self)@ == (ConfigurationView {
                bind_net_addr: bind_net_addr@,
                ..old(self)@
            }),
    {
        self.bind_net_addr = bind_net_addr;
    }

    pub fn bind_net_addr(&self) -> (r: String)
        ensures
            r@ == self@.bind_net_addr,
    {
        self.bind_net_addr.clone()
    }

    pub fn callback_timeout(&self) -> (r: u64)
        ensures
            r == self@.callback_timeout_ms,
    {
        self.callback_timeout_ms
    }

    /// The kinds of the registered sinks, in registration order.
    pub fn sinks(&self) -> (r: &[SinkKind])
        ensures
            r@ == self@.sinks,
    {
        self.sinks.as_slice()
    }
}

} // verus!
