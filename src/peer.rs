//! Peers and the capacity-bounded registry that addresses them.
use vstd::prelude::*;

use crate::errors::Error;

verus! {

/// The identity of a peer.
#[derive(Clone, Copy, Debug, PartialEq, Eq, Structural, Hash, PartialOrd, Ord)]
pub struct Id(pub u32);

/// An `Id` from a position; the position is truncated to 32 bits.
impl From<usize> for Id {
    fn from(x: usize) -> (r: Id)
        ensures
            r == Id(x as u32),
    {
        Id(x as u32)
    }
}

impl vstd::std_specs::convert::FromSpecImpl<usize> for Id {
    open spec fn obeys_from_spec() -> bool {
        true
    }

    open spec fn from_spec(v: usize) -> Id {
        Id(v as u32)
    }
}

impl Default for Id {
    fn default() -> (r: Id)
        ensures
            r == Id(0),
    {
        Id(0)
    }
}

/// The text of each address, in order.
pub open spec fn addrs_view(v: Seq<String>) -> Seq<Seq<char>> {
    v.map_values(|s: String| s@)
}

/// A peer: its identity, the address it is reached at, and further network
/// addresses.
pub struct TestPeer<I> {
    pub id: I,
    pub base_addr: String,
    pub net_addr: Vec<String>,
}

impl TestPeer<Id> {
    /// A peer with no further network addresses.
    pub fn new(id: Id, addr: String) -> (r: TestPeer<Id>)
        ensures
            r.id == id,
            r.base_addr@ == addr@,
            r.net_addr@.len() == 0,
    {
        TestPeer { id, base_addr: addr, net_addr: Vec::with_capacity(1) }
    }

    pub fn get_id(&self) -> (r: Id)
        ensures
            r == self.id,
    {
        self.id
    }

    pub fn get_base_addr(&self) -> (r: String)
        ensures
            r@ == self.base_addr@,
    {
        self.base_addr.clone()
    }

    pub fn get_net_addr(&self, n: usize) -> (r: String)
        requires
            n < self.net_addr@.len(),
        ensures
            r@ == self.net_addr@[n as int]@,
    {
        self.net_addr[n].clone()
    }

    /// Inserts `addr` at position `n` of the network addresses, shifting the
    /// later ones; fails, changing nothing, when the list cannot grow.
    pub fn set_net_addr(&mut self, n: usize, addr: String) -> (r: Result<(), Error>)
        requires
            n <= old(self).net_addr@.len(),
        ensures
            final(self).id == old(self).id,
            final(self).base_addr@ == old(self).base_addr@,
            old(self).net_addr@.len() < usize::MAX ==> {
                &&& r is Ok
                &&& addrs_view(final(self).net_addr@) == addrs_view(old(self).net_addr@).insert(
                    n as int,
                    addr@,
                )
            },
            old(self).net_addr@.len() == usize::MAX ==> {
                &&& r matches Err(Error::AtMaxVecCapacity)
                &&& final(self).net_addr@ == old(self).net_addr@
            },
    {
        if self.net_addr.len() == usize::MAX {
            return Err(Error::AtMaxVecCapacity);
        }
        self.net_addr.insert(n, addr);
        proof {
            assert(addrs_view(self.net_addr@) =~= addrs_view(old(self).net_addr@).insert(
                n as int,
                addr@,
            ));
        }
        Ok(())
    }
}

/// Whether a registry holding `held` under `capacity` takes one more peer.
pub open spec fn admits<T>(held: Seq<T>, capacity: nat) -> bool {
    held.len() < capacity
}

/// The peers held after adding `p`: appended when admitted, else unchanged.
pub open spec fn added<T>(held: Seq<T>, capacity: nat, p: T) -> Seq<T> {
    if admits(held, capacity) {
        held.push(p)
    } else {
        held
    }
}

/// The peers held after adding each of `ps` in turn.
pub open spec fn added_all<T>(held: Seq<T>, capacity: nat, ps: Seq<T>) -> Seq<T>
    decreases ps.len(),
{
    if ps.len() == 0 {
        held
    } else {
        added(added_all(held, capacity, ps.drop_last()), capacity, ps.last())
    }
}

proof fn lemma_added_all_below_capacity<T>(capacity: nat, ps: Seq<T>, k: nat)
    requires
        k <= capacity,
        k <= ps.len(),
    ensures
        added_all(Seq::<T>::empty(), capacity, ps.take(k as int)) == ps.take(k as int),
    decreases k,
{
    if k > 0 {
        let prefix = ps.take(k as int);
        assert(prefix.drop_last() =~= ps.take(k - 1));
        lemma_added_all_below_capacity(capacity, ps, (k - 1) as nat);
        assert(ps.take(k - 1).push(prefix.last()) =~= prefix);
    } else {
        assert(ps.take(0) =~= Seq::<T>::empty());
    }
}

/// Filling a registry of capacity `capacity` from empty with the peers `ps`,
/// one more than fit: each of the first `capacity` adds is admitted, so they
/// all succeed and the registry then holds exactly those peers in order; the
/// last add is refused and leaves the registry at `capacity` peers.
pub proof fn lemma_fill_to_capacity<T>(capacity: nat, ps: Seq<T>)
    requires
        ps.len() == capacity + 1,
    ensures
        forall|i: int|
            0 <= i < capacity ==> admits(
                #[trigger] added_all(Seq::<T>::empty(), capacity, ps.take(i)),
                capacity,
            ),
        added_all(Seq::<T>::empty(), capacity, ps.take(capacity as int)) == ps.take(
            capacity as int,
        ),
        !admits(added_all(Seq::<T>::empty(), capacity, ps.take(capacity as int)), capacity),
        added_all(Seq::<T>::empty(), capacity, ps) == ps.take(capacity as int),
        added_all(Seq::<T>::empty(), capacity, ps).len() == capacity,
{
    assert forall|i: int| 0 <= i < capacity implies admits(
        #[trigger] added_all(Seq::<T>::empty(), capacity, ps.take(i)),
        capacity,
    ) by {
        lemma_added_all_below_capacity(capacity, ps, i as nat);
    }
    lemma_added_all_below_capacity(capacity, ps, capacity);
    assert(ps.drop_last() =~= ps.take(capacity as int));
}

/// An ordered registry of peers, bounded by a capacity fixed when it is made.
pub struct TestPeerList<I> {
    peers: Vec<TestPeer<I>>,
    capacity: usize,
}

impl<I> View for TestPeerList<I> {
    type V = Seq<TestPeer<I>>;

    closed spec fn view(&self) -> Seq<TestPeer<I>> {
        self.peers@
    }
}

impl<I> TestPeerList<I> {
    /// The most peers the registry ever holds.
    pub closed spec fn capacity_spec(&self) -> nat {
        self.capacity as nat
    }

    /// The registry holds no more peers than its capacity.
    pub open spec fn wf(&self) -> bool {
        self@.len() <= self.capacity_spec()
    }

    /// An empty registry bounded only by what a vector can hold.
    pub fn new() -> (r: TestPeerList<I>)
        ensures
            r@.len() == 0,
            r.capacity_spec() == usize::MAX,
            r.wf(),
    {
        TestPeerList { peers: Vec::with_capacity(1), capacity: usize::MAX }
    }

    /// An empty registry that holds at most `capacity` peers.
    pub fn with_capacity(capacity: usize) -> (r: TestPeerList<I>)
        ensures
            r@.len() == 0,
            r.capacity_spec() == capacity,
            r.wf(),
    {
        TestPeerList { peers: Vec::new(), capacity }
    }

    pub fn capacity(&self) -> (r: usize)
        ensures
            r == self.capacity_spec(),
    {
        self.capacity
    }

    pub fn len(&self) -> (r: usize)
        ensures
            r == self@.len(),
    {
        self.peers.len()
    }

    /// Appends `p`; at capacity it fails with `AtMaxVecCapacity` and leaves
    /// the registry as it was.
    pub fn add(&mut self, p: TestPeer<I>) -> (r: Result<(), Error>)
        ensures
            final(self).capacity_spec() == old(self).capacity_spec(),
            final(self)@ == added(old(self)@, old(self).capacity_spec(), p),
            admits(old(self)@, old(self).capacity_spec()) ==> r is Ok,
            !admits(old(self)@, old(self).capacity_spec()) ==> r matches Err(
                Error::AtMaxVecCapacity,
            ),
            old(self).wf() ==> final(self).wf(),
    {
        if self.peers.len() >= self.capacity {
            return Err(Error::AtMaxVecCapacity);
        }
        self.peers.push(p);
        Ok(())
    }

    /// Loading peers from a file is left to the embedder: this registry
    /// accepts the request and changes nothing.
    pub fn get_peers_from_file(&mut self, _json_peer_path: String) -> (r: Result<(), Error>)
        ensures
            r is Ok,
            *final(self) == *old(self),
    {
        Ok(())
    }

    /// The peer at position `index`.
    pub fn index(&self, index: usize) -> (r: &TestPeer<I>)
        requires
            index < self@.len(),
        ensures
            *r == self@[index as int],
    {
        &self.peers[index]
    }

    /// The peer at position `index`, to change in place.
    pub fn index_mut(&mut self, index: usize) -> (r: &mut TestPeer<I>)
        requires
            index < old(self)@.len(),
        ensures
            *r == old(self)@[index as int],
            final(self)@ == old(self)@.update(index as int, *final(r)),
            final(self).capacity_spec() == old(self).capacity_spec(),
    {
        &mut self.peers[index]
    }

    /// The peers in insertion order.
    pub fn iter(&self) -> (r: &[TestPeer<I>])
        ensures
            r@ == self@,
    {
        self.peers.as_slice()
    }

    /// The peers in insertion order, to change in place; their number stays.
    pub fn iter_mut(&mut self) -> (r: &mut [TestPeer<I>])
        ensures
            r@ == old(self)@,
            final(self)@ == final(r)@,
            final(self).capacity_spec() == old(self).capacity_spec(),
    {
        self.peers.as_mut_slice()
    }
}

} // verus!
