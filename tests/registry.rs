use libtransport::{Error, Id, TestPeer, TestPeerList};

fn peer(n: u32, addr: &str) -> TestPeer<Id> {
    TestPeer::new(Id(n), addr.to_string())
}

#[test]
fn adding_up_to_capacity_succeeds_and_one_more_fails() {
    let mut pl: TestPeerList<Id> = TestPeerList::with_capacity(3);
    for n in 0..3u32 {
        assert!(pl.add(peer(n, "127.0.0.1:9000")).is_ok());
    }
    assert_eq!(pl.len(), 3);
    let r = pl.add(peer(3, "127.0.0.1:9003"));
    assert!(matches!(r, Err(Error::AtMaxVecCapacity)));
    assert_eq!(pl.len(), 3);
    let ids: Vec<Id> = pl.iter().iter().map(|p| p.get_id()).collect();
    assert_eq!(ids, vec![Id(0), Id(1), Id(2)]);
}

#[test]
fn zero_capacity_refuses_the_first_peer() {
    let mut pl: TestPeerList<Id> = TestPeerList::with_capacity(0);
    assert!(matches!(pl.add(peer(1, "a")), Err(Error::AtMaxVecCapacity)));
    assert_eq!(pl.len(), 0);
}

#[test]
fn new_registry_is_empty_and_bounded_by_usize_max() {
    let pl: TestPeerList<Id> = TestPeerList::new();
    assert_eq!(pl.len(), 0);
    assert_eq!(pl.capacity(), usize::MAX);
    assert!(pl.iter().is_empty());
}

#[test]
fn peers_keep_insertion_order_and_index_access() {
    let mut pl: TestPeerList<Id> = TestPeerList::new();
    pl.add(peer(7, "127.0.0.1:9001")).unwrap();
    pl.add(peer(8, "127.0.0.1:9002")).unwrap();
    assert_eq!(pl.index(0).get_id(), Id(7));
    assert_eq!(pl.index(1).get_base_addr(), "127.0.0.1:9002");
    pl.index_mut(1).base_addr = "127.0.0.1:9100".to_string();
    assert_eq!(pl.index(1).base_addr, "127.0.0.1:9100");
    for p in pl.iter_mut().iter_mut() {
        p.id = Id(p.id.0 + 1);
    }
    assert_eq!(pl.index(0).id, Id(8));
    assert_eq!(pl.index(1).id, Id(9));
    assert_eq!(pl.len(), 2);
}

#[test]
fn loading_peers_from_a_file_changes_nothing() {
    let mut pl: TestPeerList<Id> = TestPeerList::with_capacity(4);
    pl.add(peer(1, "a")).unwrap();
    assert!(pl.get_peers_from_file("peers.json".to_string()).is_ok());
    assert_eq!(pl.len(), 1);
    assert_eq!(pl.capacity(), 4);
}

#[test]
fn new_peer_has_no_network_addresses() {
    let p = peer(3, "127.0.0.1:9001");
    assert_eq!(p.get_id(), Id(3));
    assert_eq!(p.get_base_addr(), "127.0.0.1:9001");
    assert!(p.net_addr.is_empty());
}

#[test]
fn set_net_addr_inserts_at_the_position() {
    let mut p = peer(1, "base");
    p.set_net_addr(0, "b".to_string()).unwrap();
    p.set_net_addr(0, "a".to_string()).unwrap();
    p.set_net_addr(2, "c".to_string()).unwrap();
    assert_eq!(p.net_addr, vec!["a".to_string(), "b".to_string(), "c".to_string()]);
    assert_eq!(p.get_net_addr(1), "b");
    assert_eq!(p.get_base_addr(), "base");
}

#[test]
fn id_conversions_and_default() {
    assert_eq!(Id::from(5usize), Id(5));
    assert_eq!(Id::from((1usize << 32) + 7), Id(7));
    assert_eq!(Id::default(), Id(0));
    assert!(Id(1) < Id(2));
}
