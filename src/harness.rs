//! The decisions of the conformance test that every transport must pass:
//! the registry it addresses and the verdicts on what each instance received.
use vstd::prelude::*;

use crate::peer::{Id, TestPeer, TestPeerList};
use crate::Data;

verus! {

/// The payload broadcast from the first instance.
pub const BROADCAST_VALUE: u32 = 55;

/// The payload sent from the second instance to the first.
pub const UNICAST_VALUE: u32 = 0xaa;

/// The registry that addresses one instance per address: the peer at position
/// `i` has identity `i` and listens at the `i`-th address.
pub fn peers_for(net_addrs: &Vec<String>) -> (r: TestPeerList<Id>)
    ensures
        r.wf(),
        r.capacity_spec() == usize::MAX,
        r@.len() == net_addrs@.len(),
        forall|i: int|
            0 <= i < net_addrs@.len() ==> {
                &&& (#[trigger] r@[i]).id == Id(i as u32)
                &&& r@[i].base_addr@ == net_addrs@[i]@
                &&& r@[i].net_addr@.len() == 0
            },
{
    let mut pl: TestPeerList<Id> = TestPeerList::new();
    let mut i: usize = 0;
    while i < net_addrs.len()
        invariant
            i <= net_addrs@.len(),
            pl.wf(),
            pl.capacity_spec() == usize::MAX,
            pl@.len() == i,
            forall|k: int|
                0 <= k < i ==> {
                    &&& (#[trigger] pl@[k]).id == Id(k as u32)
                    &&& pl@[k].base_addr@ == net_addrs@[k]@
                    &&& pl@[k].net_addr@.len() == 0
                },
        decreases net_addrs@.len() - i,
    {
        let peer = TestPeer::new(Id::from(i), net_addrs[i].clone());
        let added = pl.add(peer);
        assert(added is Ok);
        i = i + 1;
    }
    pl
}

/// Whether every instance received exactly `sent`.
pub fn broadcast_delivered(received: &[Option<Data>], sent: Data) -> (r: bool)
    ensures
        r == forall|i: int| 0 <= i < received@.len() ==> received@[i] == Some(sent),
{
    let mut i: usize = 0;
    while i < received.len()
        invariant
            i <= received@.len(),
            forall|k: int| 0 <= k < i ==> received@[k] == Some(sent),
        decreases received@.len() - i,
    {
        match received[i] {
            Some(d) => {
                if d != sent {
                    return false;
                }
            },
            None => {
                return false;
            },
        }
        i = i + 1;
    }
    true
}

/// Whether `sent` reached the instance at position `to`, and nothing reached
/// any other instance.
pub fn unicast_delivered(received: &[Option<Data>], to: usize, sent: Data) -> (r: bool)
    ensures
        r == {
            &&& to < received@.len()
            &&& received@[to as int] == Some(sent)
            &&& forall|i: int| 0 <= i < received@.len() && i != to ==> received@[i] is None
        },
{
    if to >= received.len() {
        return false;
    }
    match received[to] {
        Some(d) => {
            if d != sent {
                return false;
            }
        },
        None => {
            return false;
        },
    }
    let mut i: usize = 0;
    while i < received.len()
        invariant
            i <= received@.len(),
            forall|k: int| 0 <= k < i && k != to ==> received@[k] is None,
        decreases received@.len() - i,
    {
        if i != to && received[i].is_some() {
            return false;
        }
        i = i + 1;
    }
    true
}

} // verus!
