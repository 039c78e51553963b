use libtransport::harness::{BROADCAST_VALUE, UNICAST_VALUE};
use libtransport::{
    broadcast_delivered, peers_for, unicast_delivered, Data, Error, Id, TransportState,
    TransportType,
};

fn addrs() -> Vec<String> {
    vec!["127.0.0.1:9001".to_string(), "127.0.0.1:9002".to_string()]
}

#[test]
fn registry_has_one_peer_per_address() {
    let pl = peers_for(&addrs());
    assert_eq!(pl.len(), 2);
    assert_eq!(pl.index(0).get_id(), Id(0));
    assert_eq!(pl.index(0).get_base_addr(), "127.0.0.1:9001");
    assert_eq!(pl.index(1).get_id(), Id(1));
    assert_eq!(pl.index(1).get_base_addr(), "127.0.0.1:9002");
}

#[test]
fn registry_for_no_addresses_is_empty() {
    assert_eq!(peers_for(&Vec::new()).len(), 0);
}

#[test]
fn broadcast_of_55_reaches_both_instances() {
    let d = Data(BROADCAST_VALUE);
    assert_eq!(d, Data(55));
    assert!(broadcast_delivered(&[Some(Data(55)), Some(Data(55))], d));
    assert!(!broadcast_delivered(&[Some(Data(55)), None], d));
    assert!(!broadcast_delivered(&[Some(Data(55)), Some(Data(54))], d));
    assert!(broadcast_delivered(&[], d));
}

#[test]
fn unicast_of_0xaa_reaches_only_the_first_instance() {
    let u = Data(UNICAST_VALUE);
    assert_eq!(u, Data(0xAA));
    assert!(unicast_delivered(&[Some(Data(0xAA)), None], 0, u));
    assert!(!unicast_delivered(&[Some(Data(0xAA)), Some(Data(0xAA))], 0, u));
    assert!(!unicast_delivered(&[None, Some(Data(0xAA))], 0, u));
    assert!(!unicast_delivered(&[Some(Data(0xAB)), None], 0, u));
    assert!(!unicast_delivered(&[Some(Data(0xAA))], 1, u));
}

#[test]
fn data_from_a_number() {
    assert_eq!(Data::from(55usize), Data(55));
    assert_eq!(Data::from(usize::MAX), Data(u32::MAX));
}

#[test]
fn transport_type_clones() {
    let t = TransportType::TCP;
    assert_eq!(t.clone(), TransportType::TCP);
    assert_ne!(TransportType::Unknown, TransportType::TCP);
}

#[test]
fn operations_go_ahead_only_while_active() {
    let mut s = TransportState::opened(true);
    assert_eq!(s, TransportState::Active);
    assert!(s.ensure_active().is_ok());
    s.close();
    assert_eq!(s, TransportState::Closed);
    match s.ensure_active() {
        Err(Error::Io(e)) => assert_eq!(e.kind(), std::io::ErrorKind::NotConnected),
        other => panic!("unexpected {:?}", other),
    }
    s.close();
    assert_eq!(s, TransportState::Closed);
    let u = TransportState::opened(false);
    assert_eq!(u, TransportState::Unbound);
    assert!(matches!(u.ensure_active(), Err(Error::Io(_))));
}
