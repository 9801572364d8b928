use async_dnssd::{Interface, InterfaceIndex};

#[test]
fn raw_codes_round_trip() {
    for x in [0u32, 1, 2, 7, 1000, u32::MAX, u32::MAX - 1, u32::MAX - 2, u32::MAX - 3] {
        assert_eq!(Interface::from_raw(x).into_raw(), x);
    }
}

#[test]
fn reserved_codes_select_special_interfaces() {
    assert_eq!(Interface::from_raw(0), Interface::Any);
    assert_eq!(Interface::from_raw(!0), Interface::LocalOnly);
    assert_eq!(Interface::from_raw(!1), Interface::Unicast);
    assert_eq!(Interface::from_raw(!2), Interface::PeerToPeer);
    assert_eq!(Interface::default(), Interface::Any);
}

#[test]
fn index_and_scope_id() {
    let i = Interface::from_raw(2);
    assert_eq!(i, Interface::Index(InterfaceIndex::from_raw(2).unwrap()));
    assert_eq!(i.scope_id(), 2);
    assert_eq!(Interface::Any.scope_id(), 0);
    assert_eq!(Interface::LocalOnly.scope_id(), 0);
    assert!(InterfaceIndex::from_raw(0).is_none());
    assert!(InterfaceIndex::from_raw(!2).is_none());
    assert_eq!(InterfaceIndex::from_raw(5).unwrap().into_raw(), 5);
}
