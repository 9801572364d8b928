use async_dnssd::flags::{
    FLAGS_ADD, FLAGS_DEFAULT, FLAGS_LONG_LIVED_QUERY, FLAGS_MORE_COMING, FLAGS_NO_AUTO_RENAME,
    FLAGS_SHARED, FLAGS_UNIQUE,
};
use async_dnssd::{
    BrowsedFlags, EnumeratedFlags, QueryRecordFlags, RegisterFlags, RegisterRecordFlags,
    RegisteredFlags, ResolvedFlags, ResolvedHostFlags,
};

#[test]
fn named_flags_map_to_their_bits() {
    assert_eq!(BrowsedFlags::MORE_COMING().bits(), 0x01);
    assert_eq!(BrowsedFlags::ADD().bits(), 0x02);
    assert_eq!(EnumeratedFlags::DEFAULT().bits(), 0x04);
    assert_eq!(RegisterFlags::NO_AUTO_RENAME().bits(), 0x08);
    assert_eq!(RegisterFlags::SHARED().bits(), 0x10);
    assert_eq!(RegisterRecordFlags::UNIQUE().bits(), 0x20);
    assert_eq!(QueryRecordFlags::LONG_LIVED_QUERY().bits(), 0x100);
    assert_eq!(FLAGS_LONG_LIVED_QUERY, 0x100);
}

#[test]
fn raw_bits_map_back_to_named_flags() {
    assert_eq!(BrowsedFlags::from_bits_truncate(FLAGS_ADD), BrowsedFlags::ADD());
    assert_eq!(BrowsedFlags::from_bits_truncate(FLAGS_MORE_COMING), BrowsedFlags::MORE_COMING());
    assert_eq!(EnumeratedFlags::from_bits_truncate(FLAGS_DEFAULT), EnumeratedFlags::DEFAULT());
    assert_eq!(RegisterFlags::from_bits_truncate(FLAGS_NO_AUTO_RENAME), RegisterFlags::NO_AUTO_RENAME());
    assert_eq!(RegisterRecordFlags::from_bits_truncate(FLAGS_SHARED), RegisterRecordFlags::SHARED());
    assert_eq!(RegisterRecordFlags::from_bits_truncate(FLAGS_UNIQUE), RegisterRecordFlags::UNIQUE());
    assert_eq!(RegisteredFlags::from_bits_truncate(FLAGS_ADD), RegisteredFlags::ADD());
    assert_eq!(ResolvedFlags::from_bits_truncate(FLAGS_MORE_COMING), ResolvedFlags::MORE_COMING());
    assert_eq!(ResolvedHostFlags::from_bits_truncate(FLAGS_ADD), ResolvedHostFlags::ADD());
}

#[test]
fn unknown_bits_are_dropped() {
    assert_eq!(BrowsedFlags::from_bits_truncate(0xffff_ffff).bits(), 0x03);
    assert_eq!(ResolvedFlags::from_bits_truncate(0x02).bits(), 0);
    assert!(ResolvedFlags::from_bits_truncate(0x02).is_empty());
    assert_eq!(RegisterFlags::from_bits_truncate(0x0f).bits(), 0x08);
    assert_eq!(EnumeratedFlags::all().bits(), 0x07);
}

#[test]
fn union_and_contains() {
    let both = BrowsedFlags::ADD().union(BrowsedFlags::MORE_COMING());
    assert_eq!(both.bits(), 0x03);
    assert!(both.contains(BrowsedFlags::ADD()));
    assert!(!BrowsedFlags::ADD().contains(both));
    assert!(BrowsedFlags::empty().is_empty());
    assert_eq!(BrowsedFlags::default(), BrowsedFlags::empty());
}
