use async_dnssd::flags::{FLAGS_ADD, FLAGS_DEFAULT, FLAGS_MORE_COMING, FLAGS_NO_AUTO_RENAME};
use async_dnssd::service::{port_from_network, port_to_network, register_request};
use async_dnssd::stream::{SharedFailure, SharedStatus, StreamFuse, StreamPoll, TimeoutState};
use async_dnssd::{
    decode_a, decode_aaaa, full_name_from_buffer, BrowseResult, BrowsedFlags, Class,
    DNSServiceError, EnumerateResult, EnumeratedFlags, Enumerate, Error, FullName, InputError,
    Interface, QueriedRecordFlags, QueryRecordResult, Record, RecordUpdate, RegisterData,
    RegisterFlags, RegisterResult, ResolveResult, ScopedSocketAddr, TxtRecord, Type,
    MAX_DOMAIN_NAME,
};

fn browse_reply(flags: u32, name: &str) -> BrowseResult {
    BrowseResult::from_reply(
        0,
        flags,
        2,
        name.to_string(),
        "_test._tcp.".to_string(),
        "local.".to_string(),
    )
    .ok()
    .expect("no error")
}

#[test]
fn browse_results_in_order() {
    let mut fuse = StreamFuse::new();
    let first = fuse.poll::<_, ()>(StreamPoll::Item(browse_reply(FLAGS_ADD | FLAGS_MORE_COMING, "alpha")));
    let second = fuse.poll::<_, ()>(StreamPoll::Item(browse_reply(FLAGS_ADD, "beta")));
    let third = fuse.poll::<BrowseResult, ()>(StreamPoll::Pending);
    match (first, second) {
        (StreamPoll::Item(a), StreamPoll::Item(b)) => {
            assert_eq!(a.service_name, "alpha");
            assert_eq!(b.service_name, "beta");
            assert!(a.flags.contains(BrowsedFlags::ADD()));
            assert!(a.flags.contains(BrowsedFlags::MORE_COMING()));
            assert!(b.flags.contains(BrowsedFlags::ADD()));
            assert!(!b.flags.contains(BrowsedFlags::MORE_COMING()));
            assert_eq!(a.interface, Interface::from_raw(2));
            assert_eq!(a.reg_type, "_test._tcp.");
            assert_eq!(a.domain, "local.");
        },
        _ => panic!("expected two items"),
    }
    assert!(matches!(third, StreamPoll::Pending));
}

#[test]
fn browse_reply_error() {
    let r = BrowseResult::from_reply(-65540, 0, 0, String::new(), String::new(), String::new());
    assert!(matches!(r, Err(Error::KnownError(DNSServiceError::BadParam))));
}

#[test]
fn resolve_reply_port_and_txt() {
    let txt = vec![0x05, b'k', b'=', b'v', b'a', b'l'];
    let r = ResolveResult::from_reply(
        0,
        0,
        2,
        "alpha._test._tcp.local.".to_string(),
        "alpha.local.".to_string(),
        (0x00, 0x16),
        txt.clone(),
    )
    .ok()
    .unwrap();
    assert_eq!(r.port, 22);
    assert_eq!(r.txt, txt);
    assert_eq!(r.host_target, "alpha.local.");
    assert_eq!(r.fullname, "alpha._test._tcp.local.");
    let parsed = TxtRecord::parse(&r.txt).unwrap();
    let mut it = parsed.iter();
    assert_eq!(it.next(), Some((&b"k"[..], Some(&b"val"[..]))));
    assert_eq!(it.next(), None);
}

#[test]
fn port_byte_order() {
    assert_eq!(port_to_network(22), (0x00, 0x16));
    assert_eq!(port_to_network(5353), (0x14, 0xe9));
    assert_eq!(port_from_network((0x14, 0xe9)), 5353);
    for p in [0u16, 1, 80, 255, 256, 5353, 0x8000, u16::MAX] {
        assert_eq!(port_from_network(port_to_network(p)), p);
    }
}

#[test]
fn register_request_values() {
    let data = RegisterData { flags: RegisterFlags::NO_AUTO_RENAME(), ..Default::default() };
    let q = register_request("_test._tcp", 5353, &data).unwrap();
    assert_eq!(q.flags, FLAGS_NO_AUTO_RENAME);
    assert_eq!(q.port, (0x14, 0xe9));
    assert_eq!(q.interface_index, 0);
    assert_eq!(q.txt_len, 0);
    assert_eq!(register_request("_te\0st", 1, &data), Err(InputError::InteriorNul));
    let long = vec![0u8; 0x10000];
    let data = RegisterData { txt: &long, ..Default::default() };
    assert_eq!(register_request("_test._tcp", 1, &data), Err(InputError::RdataTooLong));
    let data = RegisterData { name: Some("a\0"), ..Default::default() };
    assert_eq!(register_request("_test._tcp", 1, &data), Err(InputError::InteriorNul));
}

#[test]
fn register_name_conflict_ends_stream() {
    let reply = RegisterResult::from_reply(-65548, 0, String::new(), String::new(), String::new());
    let mut fuse = StreamFuse::new();
    let first = fuse.poll(match reply {
        Ok(r) => StreamPoll::Item(r),
        Err(e) => StreamPoll::Failed(e),
    });
    assert!(matches!(first, StreamPoll::Failed(Error::KnownError(DNSServiceError::NameConflict))));
    assert!(matches!(fuse.poll::<RegisterResult, Error>(StreamPoll::Pending), StreamPoll::Ended));
    assert!(matches!(fuse.poll::<RegisterResult, Error>(StreamPoll::Pending), StreamPoll::Ended));
    assert!(fuse.finished);
}

#[test]
fn register_reply_success() {
    let r = RegisterResult::from_reply(0, FLAGS_ADD, "svc".into(), "_test._tcp.".into(), "local.".into())
        .ok()
        .unwrap();
    assert_eq!(r.name, "svc");
    assert_eq!(r.flags.bits(), FLAGS_ADD);
}

#[test]
fn record_lifecycle() {
    let mut rec = Record::new(Type::A());
    assert_eq!(rec.rr_type(), Type(1));
    assert!(rec.removes_on_drop());
    assert_eq!(rec.update_record(&[10, 0, 0, 2], 60), Ok(RecordUpdate { rd_len: 4, ttl: 60 }));
    assert_eq!(rec.update_record(&vec![0u8; 70000], 60), Err(InputError::RdataTooLong));
    rec.keep();
    assert!(!rec.removes_on_drop());
    let txt = Record::default_txt();
    assert_eq!(txt.rr_type(), Type::TXT());
    assert!(!txt.removes_on_drop());
}

#[test]
fn enumerate_domain_replies() {
    let a = EnumerateResult::from_reply(0, FLAGS_ADD | FLAGS_DEFAULT, 0, "local.".into()).ok().unwrap();
    let b = EnumerateResult::from_reply(0, FLAGS_ADD, 0, "example.com.".into()).ok().unwrap();
    assert_eq!(a.flags, EnumeratedFlags::ADD().union(EnumeratedFlags::DEFAULT()));
    assert_eq!(a.domain, "local.");
    assert_eq!(a.interface, Interface::Any);
    assert_eq!(b.flags, EnumeratedFlags::ADD());
    assert_eq!(b.domain, "example.com.");
    assert_eq!(Enumerate::BrowseDomains.into_flags(), 0x40);
    assert_eq!(Enumerate::RegistrationDomains.into_flags(), 0x80);
}

#[test]
fn timeout_over_browse() {
    let mut t = TimeoutState::new(0, 500);
    let first = t.poll::<_, ()>(StreamPoll::Item(browse_reply(FLAGS_ADD, "alpha")), 100);
    assert!(matches!(first, StreamPoll::Item(_)));
    assert!(matches!(t.poll::<BrowseResult, ()>(StreamPoll::Pending, 599), StreamPoll::Pending));
    assert!(matches!(t.poll::<BrowseResult, ()>(StreamPoll::Pending, 600), StreamPoll::Ended));
}

#[test]
fn timeout_silent_and_active_streams() {
    let mut t = TimeoutState::new(1000, 200);
    assert!(matches!(t.poll::<u8, ()>(StreamPoll::Pending, 1199), StreamPoll::Pending));
    assert!(matches!(t.poll::<u8, ()>(StreamPoll::Pending, 1200), StreamPoll::Ended));
    let mut t = TimeoutState::new(0, 200);
    for i in 1..20u64 {
        assert!(matches!(t.poll::<u64, ()>(StreamPoll::Item(i), i * 100), StreamPoll::Item(x) if x == i));
        assert!(matches!(t.poll::<u64, ()>(StreamPoll::Pending, i * 100 + 50), StreamPoll::Pending));
    }
    assert!(matches!(t.poll::<u64, &str>(StreamPoll::Failed("boom"), 5000), StreamPoll::Failed("boom")));
    let t = TimeoutState::new(u64::MAX - 1, 10);
    assert_eq!(t.deadline, u64::MAX);
}

#[test]
fn shared_failure_latch() {
    let mut latch: SharedFailure<&str> = SharedFailure::new();
    assert!(matches!(latch.poll(), SharedStatus::Healthy));
    latch.fail("socket closed");
    assert!(matches!(latch.poll(), SharedStatus::Failed("socket closed")));
    assert!(matches!(latch.poll(), SharedStatus::Gone));
    assert!(matches!(latch.poll(), SharedStatus::Gone));
}

fn query(rr_type: Type, rr_class: Class, rdata: Vec<u8>) -> QueryRecordResult {
    QueryRecordResult::from_reply(0, FLAGS_ADD | FLAGS_MORE_COMING, 3, "host.local.".into(), rr_type.0, rr_class.0, rdata, 120)
        .ok()
        .unwrap()
}

#[test]
fn decode_address_records() {
    let a = query(Type::A(), Class::IN(), vec![10, 0, 0, 1]);
    assert_eq!(a.flags, QueriedRecordFlags::from_bits_truncate(3));
    assert_eq!(a.ttl, 120);
    let h = decode_a(a, 80).unwrap();
    assert_eq!(h.address, ScopedSocketAddr::V4 { address: [10, 0, 0, 1], port: 80, scope_id: 3 });
    assert_eq!(h.flags.bits(), FLAGS_ADD);
    let mut v6 = vec![0u8; 16];
    v6[0] = 0xfe;
    v6[1] = 0x80;
    v6[15] = 1;
    let h = decode_aaaa(query(Type::AAAA(), Class::IN(), v6.clone()), 22).unwrap();
    let mut expected = [0u8; 16];
    expected.copy_from_slice(&v6);
    assert_eq!(h.address, ScopedSocketAddr::V6 { address: expected, port: 22, scope_id: 3 });
    assert!(decode_a(query(Type::A(), Class::CH(), vec![1, 2, 3, 4]), 1).is_none());
    assert!(decode_a(query(Type::AAAA(), Class::IN(), vec![1, 2, 3, 4]), 1).is_none());
    assert!(decode_a(query(Type::A(), Class::IN(), vec![1, 2, 3]), 1).is_none());
    assert!(decode_aaaa(query(Type::AAAA(), Class::IN(), vec![0; 4]), 1).is_none());
}

#[test]
fn full_name_buffer_is_cut_at_nul() {
    assert_eq!(full_name_from_buffer(b"_ssh._tcp.local.\0junk"), b"_ssh._tcp.local.".to_vec());
    assert_eq!(full_name_from_buffer(b"no-nul"), b"no-nul".to_vec());
    let full = vec![b'a'; MAX_DOMAIN_NAME];
    assert_eq!(full_name_from_buffer(&full).len(), MAX_DOMAIN_NAME - 1);
    let name = FullName { service: Some("foo.bar"), reg_type: "_ssh._tcp", domain: "local." };
    assert_eq!(name.check(), Ok(()));
    let bad = FullName { service: None, reg_type: "_ssh\0", domain: "local." };
    assert_eq!(bad.check(), Err(InputError::InteriorNul));
}
