use async_dnssd::{TxtRecord, TxtRecordError};

fn entries(r: &TxtRecord) -> Vec<(Vec<u8>, Option<Vec<u8>>)> {
    let mut out = Vec::new();
    let mut it = r.iter();
    while let Some((k, v)) = it.next() {
        out.push((k.to_vec(), v.map(|v| v.to_vec())));
    }
    out
}

#[test]
fn modifications() {
    let mut r = TxtRecord::new();
    assert!(r.is_empty());
    assert_eq!(r.data(), b"");
    assert_eq!(r.rdata(), b"\x00");

    r.set(b"foo", Some(b"bar")).unwrap();
    assert!(!r.is_empty());
    assert_eq!(r.data(), b"\x07foo=bar");
    assert_eq!(r.rdata(), b"\x07foo=bar");

    r.set(b"u", Some(b"vw")).unwrap();
    assert!(!r.is_empty());
    assert_eq!(r.data(), b"\x07foo=bar\x04u=vw");
    assert_eq!(r.rdata(), b"\x07foo=bar\x04u=vw");
    assert_eq!(
        entries(&r),
        vec![
            (b"foo".to_vec(), Some(b"bar".to_vec())),
            (b"u".to_vec(), Some(b"vw".to_vec())),
        ]
    );

    r.set(b"foo", None).unwrap();
    assert!(!r.is_empty());
    assert_eq!(r.data(), b"\x04u=vw\x03foo");
    assert_eq!(r.rdata(), b"\x04u=vw\x03foo");
    assert_eq!(
        entries(&r),
        vec![(b"u".to_vec(), Some(b"vw".to_vec())), (b"foo".to_vec(), None)]
    );

    r.set(b"foo", Some(b"bar")).unwrap();
    assert!(!r.is_empty());
    assert_eq!(r.data(), b"\x04u=vw\x07foo=bar");
    assert_eq!(r.rdata(), b"\x04u=vw\x07foo=bar");

    r.remove(b"foo");
    assert!(!r.is_empty());
    assert_eq!(r.data(), b"\x04u=vw");
    assert_eq!(r.rdata(), b"\x04u=vw");
}

#[test]
fn round_trip_through_wire_form() {
    let key = b"path";
    let value = b"/index.html\x00\xff";
    let mut t = TxtRecord::new();
    t.set_value(key, value).unwrap();
    let parsed = TxtRecord::parse(t.rdata()).expect("valid rdata");
    assert_eq!(entries(&parsed)[0], (key.to_vec(), Some(value.to_vec())));
    assert_eq!(t.get(key), Some(Some(&value[..])));
    assert_eq!(parsed.get(key), Some(Some(&value[..])));
}

#[test]
fn round_trip_longest_entry() {
    let key = vec![b'k'; 64];
    let value = vec![7u8; 255 - 64 - 1];
    let mut t = TxtRecord::new();
    t.set_value(&key, &value).unwrap();
    assert_eq!(t.data().len(), 256);
    assert_eq!(t.data()[0], 255);
    let parsed = TxtRecord::parse_vec(t.data().to_vec()).unwrap();
    assert_eq!(parsed.get(&key), Some(Some(&value[..])));
}

#[test]
fn empty_record_wire_forms() {
    let t = TxtRecord::new();
    assert_eq!(t.data(), b"");
    assert_eq!(t.rdata(), &[0x00]);
    let parsed = TxtRecord::parse(&[0x00]).unwrap();
    assert!(parsed.is_empty());
    assert_eq!(parsed.data(), b"");
    let parsed_empty = TxtRecord::parse(&[]).unwrap();
    assert!(parsed_empty.is_empty());
    assert_eq!(TxtRecord::default().data(), b"");
    assert!(TxtRecord::with_capacity(32).is_empty());
}

#[test]
fn update_moves_entry_last() {
    let mut t = TxtRecord::new();
    t.set_value(b"a", b"1").unwrap();
    t.set_value(b"b", b"2").unwrap();
    t.set_value(b"c", b"3").unwrap();
    t.set_value(b"a", b"4").unwrap();
    assert_eq!(
        entries(&t),
        vec![
            (b"b".to_vec(), Some(b"2".to_vec())),
            (b"c".to_vec(), Some(b"3".to_vec())),
            (b"a".to_vec(), Some(b"4".to_vec())),
        ]
    );
    assert_eq!(t.data(), b"\x03b=2\x03c=3\x03a=4");
}

#[test]
fn set_rejects_bad_keys() {
    let mut t = TxtRecord::new();
    t.set_value(b"x", b"y").unwrap();
    assert_eq!(t.set_value(b"a=b", b"c"), Err(TxtRecordError::InvalidKey));
    assert_eq!(t.set_no_value(b"tab\t"), Err(TxtRecordError::InvalidKey));
    assert_eq!(t.set_no_value(b"\x7f"), Err(TxtRecordError::InvalidKey));
    assert_eq!(t.data(), b"\x03x=y");
}

#[test]
fn set_rejects_long_entries() {
    let mut t = TxtRecord::new();
    let key = vec![b'k'; 200];
    assert_eq!(t.set_value(&key, &[0u8; 55]), Err(TxtRecordError::EntryTooLong));
    assert!(t.is_empty());
    assert_eq!(t.set_value(&key, &[0u8; 54]), Ok(()));
    let long_key = vec![b'k'; 256];
    assert_eq!(t.set_no_value(&long_key), Err(TxtRecordError::EntryTooLong));
    assert_eq!(t.set_no_value(&long_key[..255]), Ok(()));
}

#[test]
fn entry_without_value_differs_from_empty_value() {
    let mut t = TxtRecord::new();
    t.set_no_value(b"flag").unwrap();
    t.set_value(b"empty", b"").unwrap();
    assert_eq!(t.get(b"flag"), Some(None));
    assert_eq!(t.get(b"empty"), Some(Some(&b""[..])));
    assert_eq!(t.get(b"missing"), None);
    assert_eq!(t.data(), b"\x04flag\x06empty=");
}

#[test]
fn parse_rejects_truncated_chunks() {
    assert!(TxtRecord::parse(b"\x05ab").is_none());
    assert!(TxtRecord::parse(b"\x01a\x02b").is_none());
    let ok = TxtRecord::parse(b"\x01a\x00\x03b=c").unwrap();
    assert_eq!(
        entries(&ok),
        vec![
            (b"a".to_vec(), None),
            (b"".to_vec(), None),
            (b"b".to_vec(), Some(b"c".to_vec())),
        ]
    );
}

#[test]
fn value_split_at_first_separator() {
    let t = TxtRecord::parse(b"\x05a=b=c").unwrap();
    assert_eq!(t.get(b"a"), Some(Some(&b"b=c"[..])));
}

#[test]
fn remove_missing_key_keeps_record() {
    let mut t = TxtRecord::new();
    t.set_value(b"a", b"1").unwrap();
    t.remove(b"b");
    assert_eq!(t.data(), b"\x03a=1");
    t.clear();
    assert!(t.is_empty());
    t.reserve(10);
    assert!(t.is_empty());
}

#[test]
fn get_after_set_on_populated_record() {
    let mut t = TxtRecord::new();
    t.set_value(b"txtvers", b"1").unwrap();
    t.set_no_value(b"secure").unwrap();
    t.set_value(b"path", b"/").unwrap();
    t.set_value(b"secure", b"yes").unwrap();
    assert_eq!(t.get(b"secure"), Some(Some(&b"yes"[..])));
    assert_eq!(t.get(b"txtvers"), Some(Some(&b"1"[..])));
    assert_eq!(t.get(b"path"), Some(Some(&b"/"[..])));
    assert_eq!(entries(&t).len(), 3);
}
