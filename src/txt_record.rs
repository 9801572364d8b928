use vstd::prelude::*;
use vstd::slice::slice_subrange;
use vstd::slice::slice_to_vec;

verus! {

/// Byte separating key and value inside an entry (`=`).
pub const SEPARATOR: u8 = 0x3d;

/// Longest entry (key, separator and value) that one chunk can hold.
pub const MAX_ENTRY_LEN: usize = 255;

/// End of the first chunk of `d` (its length byte included).
pub open spec fn chunk_end(d: Seq<u8>) -> int {
    1 + d[0] as int
}

/// Payload of the first chunk of `d`.
pub open spec fn first_chunk(d: Seq<u8>) -> Seq<u8> {
    d.subrange(1, chunk_end(d))
}

/// Everything after the first chunk of `d`.
pub open spec fn rest(d: Seq<u8>) -> Seq<u8> {
    d.subrange(chunk_end(d), d.len() as int)
}

/// Whether the first chunk of a non-empty `d` fits in `d`.
pub open spec fn head_fits(d: Seq<u8>) -> bool {
    d.len() > 0 && chunk_end(d) <= d.len()
}

/// `d` is a sequence of length-prefixed chunks that ends exactly at a chunk
/// boundary.
pub open spec fn chunks_wf(d: Seq<u8>) -> bool
    decreases d.len(),
{
    if d.len() == 0 {
        true
    } else if chunk_end(d) > d.len() {
        false
    } else {
        chunks_wf(rest(d))
    }
}

/// Index of the first separator in `c` at or after `i`, or the length of
/// `c` if there is none.
pub open spec fn separator_from(c: Seq<u8>, i: int) -> int
    decreases c.len() - i,
{
    if i >= c.len() {
        c.len() as int
    } else if c[i] == SEPARATOR {
        i
    } else {
        separator_from(c, i + 1)
    }
}

/// The `(key, value)` pair that one chunk payload stands for.
pub open spec fn entry_of(c: Seq<u8>) -> (Seq<u8>, Option<Seq<u8>>) {
    let k = separator_from(c, 0);
    if k < c.len() {
        (c.subrange(0, k), Some(c.subrange(k + 1, c.len() as int)))
    } else {
        (c, None)
    }
}

/// The entries of `d`, in order (stopping at a chunk that does not fit).
pub open spec fn entries(d: Seq<u8>) -> Seq<(Seq<u8>, Option<Seq<u8>>)>
    decreases d.len(),
{
    if !head_fits(d) {
        Seq::empty()
    } else {
        seq![entry_of(first_chunk(d))] + entries(rest(d))
    }
}

/// Value of the first entry of `d` whose key is `key`.
pub open spec fn lookup(d: Seq<u8>, key: Seq<u8>) -> Option<Option<Seq<u8>>>
    decreases d.len(),
{
    if !head_fits(d) {
        None
    } else if entry_of(first_chunk(d)).0 == key {
        Some(entry_of(first_chunk(d)).1)
    } else {
        lookup(rest(d), key)
    }
}

/// `d` without the first chunk whose key is `key`.
pub open spec fn without_key(d: Seq<u8>, key: Seq<u8>) -> Seq<u8>
    decreases d.len(),
{
    if !head_fits(d) {
        d
    } else if entry_of(first_chunk(d)).0 == key {
        rest(d)
    } else {
        d.subrange(0, chunk_end(d)) + without_key(rest(d), key)
    }
}

/// A list of entries without the first one whose key is `key`.
pub open spec fn remove_first(
    es: Seq<(Seq<u8>, Option<Seq<u8>>)>,
    key: Seq<u8>,
) -> Seq<(Seq<u8>, Option<Seq<u8>>)>
    decreases es.len(),
{
    if es.len() == 0 {
        es
    } else if es[0].0 == key {
        es.drop_first()
    } else {
        seq![es[0]] + remove_first(es.drop_first(), key)
    }
}

/// Keys consist of printable ASCII other than the separator.
pub open spec fn valid_key(key: Seq<u8>) -> bool {
    forall|i: int| 0 <= i < key.len() ==> 0x20 <= #[trigger] key[i] <= 0x7e && key[i] != SEPARATOR
}

/// Payload length of the entry for `key` and `value`.
pub open spec fn entry_len(key: Seq<u8>, value: Option<Seq<u8>>) -> int {
    match value {
        None => key.len() as int,
        Some(v) => (key.len() + 1 + v.len()) as int,
    }
}

/// Payload of the entry for `key` and `value`.
pub open spec fn entry_payload(key: Seq<u8>, value: Option<Seq<u8>>) -> Seq<u8> {
    match value {
        None => key,
        Some(v) => key + seq![SEPARATOR] + v,
    }
}

/// Wire form of the single entry for `key` and `value`.
pub open spec fn encode_entry(key: Seq<u8>, value: Option<Seq<u8>>) -> Seq<u8> {
    seq![entry_len(key, value) as u8] + entry_payload(key, value)
}

/// Plain view of a borrowed value.
pub open spec fn value_view(v: Option<&[u8]>) -> Option<Seq<u8>> {
    match v {
        Some(s) => Some(s@),
        None => None,
    }
}

/// Plain view of a borrowed entry.
pub open spec fn entry_view(e: (&[u8], Option<&[u8]>)) -> (Seq<u8>, Option<Seq<u8>>) {
    (e.0@, value_view(e.1))
}

/// Plain view of a lookup result.
pub open spec fn lookup_view(r: Option<Option<&[u8]>>) -> Option<Option<Seq<u8>>> {
    match r {
        Some(v) => Some(value_view(v)),
        None => None,
    }
}

proof fn lemma_single_chunk_wf(c: Seq<u8>)
    requires
        c.len() > 0,
        chunk_end(c) == c.len(),
    ensures
        chunks_wf(c),
        entries(c) == seq![entry_of(first_chunk(c))],
{
    assert(rest(c).len() == 0);
    assert(chunks_wf(rest(c)));
    assert(entries(rest(c)) == Seq::<(Seq<u8>, Option<Seq<u8>>)>::empty());
    assert(entries(c) =~= seq![entry_of(first_chunk(c))]);
}

/// Concatenating two well-formed chunk sequences keeps their entries.
proof fn lemma_wf_concat(a: Seq<u8>, b: Seq<u8>)
    requires
        chunks_wf(a),
        chunks_wf(b),
    ensures
        chunks_wf(a + b),
        entries(a + b) == entries(a) + entries(b),
    decreases a.len(),
{
    if a.len() == 0 {
        assert(a + b =~= b);
        assert(entries(a) =~= Seq::<(Seq<u8>, Option<Seq<u8>>)>::empty());
        assert(entries(a) + entries(b) =~= entries(b));
    } else {
        let ab = a + b;
        assert(ab[0] == a[0]);
        assert(first_chunk(ab) =~= first_chunk(a));
        assert(rest(ab) =~= rest(a) + b);
        lemma_wf_concat(rest(a), b);
        assert(entries(ab) == seq![entry_of(first_chunk(a))] + entries(rest(a) + b));
        assert(entries(a) == seq![entry_of(first_chunk(a))] + entries(rest(a)));
        assert(entries(ab) =~= entries(a) + entries(b));
    }
}

/// In a valid key followed by anything that starts with a separator, the
/// first separator sits right after the key.
proof fn lemma_separator_after_key(key: Seq<u8>, tail: Seq<u8>, i: int)
    requires
        valid_key(key),
        0 <= i <= key.len(),
        tail.len() > 0,
        tail[0] == SEPARATOR,
    ensures
        separator_from(key + tail, i) == key.len(),
    decreases key.len() - i,
{
    let c = key + tail;
    if i < key.len() {
        assert(c[i] == key[i]);
        lemma_separator_after_key(key, tail, i + 1);
    } else {
        assert(c[i] == tail[0]);
    }
}

/// A valid key holds no separator.
proof fn lemma_no_separator_in_key(key: Seq<u8>, i: int)
    requires
        valid_key(key),
        0 <= i <= key.len(),
    ensures
        separator_from(key, i) == key.len(),
    decreases key.len() - i,
{
    if i < key.len() {
        assert(key[i] != SEPARATOR);
        lemma_no_separator_in_key(key, i + 1);
    }
}

/// The wire form of one entry is a single chunk that decodes to that entry.
pub proof fn lemma_encode_entry(key: Seq<u8>, value: Option<Seq<u8>>)
    requires
        valid_key(key),
        entry_len(key, value) <= 255,
    ensures
        chunks_wf(encode_entry(key, value)),
        entries(encode_entry(key, value)) == seq![(key, value)],
        encode_entry(key, value).len() == 1 + entry_len(key, value),
{
    let e = encode_entry(key, value);
    let p = entry_payload(key, value);
    assert(e[0] == entry_len(key, value) as u8);
    assert(first_chunk(e) =~= p);
    lemma_single_chunk_wf(e);
    match value {
        None => {
            lemma_no_separator_in_key(key, 0);
            assert(entry_of(p) == (key, value));
        },
        Some(v) => {
            let tail = seq![SEPARATOR] + v;
            assert(p =~= key + tail);
            lemma_separator_after_key(key, tail, 0);
            assert(p.subrange(0, key.len() as int) =~= key);
            assert(p.subrange(key.len() + 1 as int, p.len() as int) =~= v);
            assert(entry_of(p) == (key, value));
        },
    }
}

/// Removing the chunk for a key keeps the chunk structure, and drops exactly
/// the first entry with that key.
pub proof fn lemma_without_key(d: Seq<u8>, key: Seq<u8>)
    requires
        chunks_wf(d),
    ensures
        chunks_wf(without_key(d, key)),
        entries(without_key(d, key)) == remove_first(entries(d), key),
    decreases d.len(),
{
    if head_fits(d) {
        let es = entries(d);
        assert(es[0] == entry_of(first_chunk(d)));
        assert(es.drop_first() =~= entries(rest(d)));
        if entry_of(first_chunk(d)).0 != key {
            lemma_without_key(rest(d), key);
            let h = d.subrange(0, chunk_end(d));
            assert(h[0] == d[0]);
            assert(first_chunk(h) =~= first_chunk(d));
            lemma_single_chunk_wf(h);
            lemma_wf_concat(h, without_key(rest(d), key));
            assert(entries(without_key(d, key)) =~= remove_first(es, key));
        }
    } else {
        assert(d.len() == 0);
    }
}

/// No two entries of `d` share a key.
pub open spec fn keys_unique(d: Seq<u8>) -> bool
    decreases d.len(),
{
    if !head_fits(d) {
        true
    } else {
        lookup(rest(d), entry_of(first_chunk(d)).0) is None && keys_unique(rest(d))
    }
}

/// Looking up a key in two concatenated chunk sequences finds it in the
/// first one if it is there, else in the second.
proof fn lemma_lookup_concat(a: Seq<u8>, b: Seq<u8>, key: Seq<u8>)
    requires
        chunks_wf(a),
    ensures
        lookup(a + b, key) == (if lookup(a, key) is Some {
            lookup(a, key)
        } else {
            lookup(b, key)
        }),
    decreases a.len(),
{
    if a.len() == 0 {
        assert(a + b =~= b);
    } else {
        let ab = a + b;
        assert(ab[0] == a[0]);
        assert(first_chunk(ab) =~= first_chunk(a));
        assert(rest(ab) =~= rest(a) + b);
        lemma_lookup_concat(rest(a), b, key);
    }
}

/// Removing the entry for one key does not make another key appear.
proof fn lemma_without_key_keeps_absent(d: Seq<u8>, key: Seq<u8>, other: Seq<u8>)
    requires
        chunks_wf(d),
        lookup(d, other) is None,
    ensures
        lookup(without_key(d, key), other) is None,
    decreases d.len(),
{
    if head_fits(d) {
        assert(entry_of(first_chunk(d)).0 != other);
        assert(lookup(rest(d), other) is None);
        if entry_of(first_chunk(d)).0 != key {
            let h = d.subrange(0, chunk_end(d));
            assert(h[0] == d[0]);
            assert(first_chunk(h) =~= first_chunk(d));
            lemma_single_chunk_wf(h);
            lemma_without_key_keeps_absent(rest(d), key, other);
            lemma_lookup_concat(h, without_key(rest(d), key), other);
            assert(rest(h).len() == 0);
            assert(lookup(rest(h), other) is None);
            assert(lookup(h, other) is None);
        }
    }
}

/// In a record with unique keys, removing the entry for `key` leaves no
/// entry for it and keeps the keys unique.
proof fn lemma_without_key_unique(d: Seq<u8>, key: Seq<u8>)
    requires
        chunks_wf(d),
        keys_unique(d),
    ensures
        lookup(without_key(d, key), key) is None,
        keys_unique(without_key(d, key)),
    decreases d.len(),
{
    if head_fits(d) && entry_of(first_chunk(d)).0 != key {
        let h = d.subrange(0, chunk_end(d));
        let w = without_key(rest(d), key);
        let hk = entry_of(first_chunk(d)).0;
        assert(h[0] == d[0]);
        assert(first_chunk(h) =~= first_chunk(d));
        lemma_single_chunk_wf(h);
        assert(rest(h).len() == 0);
        lemma_without_key_unique(rest(d), key);
        lemma_without_key(rest(d), key);
        lemma_lookup_concat(h, w, key);
        lemma_without_key_keeps_absent(rest(d), key, hk);
        let hw = h + w;
        assert(hw[0] == d[0]);
        assert(first_chunk(hw) =~= first_chunk(d));
        assert(rest(hw) =~= w);
    }
}

/// Appending an entry whose key is absent keeps the keys unique.
proof fn lemma_append_unique(d: Seq<u8>, key: Seq<u8>, value: Option<Seq<u8>>)
    requires
        chunks_wf(d),
        keys_unique(d),
        lookup(d, key) is None,
        valid_key(key),
        entry_len(key, value) <= 255,
    ensures
        keys_unique(d + encode_entry(key, value)),
    decreases d.len(),
{
    let e = encode_entry(key, value);
    lemma_encode_entry(key, value);
    assert(e[0] == entry_len(key, value) as u8);
    assert(rest(e).len() == 0);
    assert(head_fits(e));
    assert(entries(e)[0] == entry_of(first_chunk(e)));
    assert(entry_of(first_chunk(e)).0 == key);
    assert(lookup(rest(e), key) is None);
    assert(keys_unique(rest(e)));
    assert(keys_unique(e));
    if d.len() == 0 {
        assert(d + e =~= e);
    } else {
        let de = d + e;
        let dk = entry_of(first_chunk(d)).0;
        assert(dk != key);
        assert(lookup(rest(d), key) is None);
        assert(lookup(rest(d), dk) is None);
        assert(keys_unique(rest(d)));
        assert(de[0] == d[0]);
        assert(first_chunk(de) =~= first_chunk(d));
        assert(rest(de) =~= rest(d) + e);
        lemma_append_unique(rest(d), key, value);
        lemma_lookup_concat(rest(d), e, dk);
        assert(lookup(rest(e), dk) is None);
        assert(lookup(e, dk) is None);
        assert(lookup(rest(de), dk) is None);
    }
}

/// On a record with unique keys, setting `key` to `value` gives a record
/// with unique keys in which `key` maps to `value`.
pub proof fn lemma_set_then_get(d: Seq<u8>, key: Seq<u8>, value: Option<Seq<u8>>)
    requires
        chunks_wf(d),
        keys_unique(d),
        valid_key(key),
        entry_len(key, value) <= 255,
    ensures
        lookup(without_key(d, key) + encode_entry(key, value), key) == Some(value),
        keys_unique(without_key(d, key) + encode_entry(key, value)),
{
    let w = without_key(d, key);
    let e = encode_entry(key, value);
    lemma_without_key(d, key);
    lemma_without_key_unique(d, key);
    lemma_encode_entry(key, value);
    lemma_lookup_concat(w, e, key);
    assert(e[0] == entry_len(key, value) as u8);
    assert(rest(e).len() == 0);
    assert(entries(e)[0] == entry_of(first_chunk(e)));
    lemma_append_unique(w, key, value);
}

/// Setting `key` to `value` on any well-formed record yields a well-formed
/// record whose entries are the old ones without the first entry for `key`,
/// followed by the new entry as the last one.
pub proof fn lemma_set_places_entry_last(d: Seq<u8>, key: Seq<u8>, value: Option<Seq<u8>>)
    requires
        chunks_wf(d),
        valid_key(key),
        entry_len(key, value) <= 255,
    ensures
        chunks_wf(without_key(d, key) + encode_entry(key, value)),
        entries(without_key(d, key) + encode_entry(key, value)) == remove_first(
            entries(d),
            key,
        ).push((key, value)),
{
    lemma_without_key(d, key);
    lemma_encode_entry(key, value);
    lemma_wf_concat(without_key(d, key), encode_entry(key, value));
    assert(remove_first(entries(d), key) + seq![(key, value)] =~= remove_first(
        entries(d),
        key,
    ).push((key, value)));
}

/// Setting `key` to `value` on an empty record gives wire bytes that parse
/// back to a record whose first entry is `(key, value)` and in which `key`
/// maps to `value`.
pub proof fn lemma_set_on_empty_round_trip(key: Seq<u8>, value: Seq<u8>)
    requires
        valid_key(key),
        1 <= key.len() <= 64,
        key.len() + value.len() + 1 <= 255,
    ensures
        ({
            let d = without_key(Seq::<u8>::empty(), key) + encode_entry(key, Some(value));
            &&& chunks_wf(d)
            &&& d != seq![0u8]
            &&& entries(d)[0] == (key, Some(value))
            &&& lookup(d, key) == Some(Some(value))
        }),
{
    let e = encode_entry(key, Some(value));
    let d = without_key(Seq::<u8>::empty(), key) + e;
    assert(d =~= e);
    lemma_encode_entry(key, Some(value));
    assert(head_fits(e));
    assert(entries(e)[0] == entry_of(first_chunk(e)));
    assert(d.len() >= 3);
}

/// Entry list of a record
///
/// The record is held in its wire form: a sequence of chunks, each a length
/// byte followed by that many bytes of `key` or `key=value`.
///
/// Keys consist of printable ASCII (0x20 to 0x7e) apart from `=`. An entry
/// can have no value at all, which differs from having an empty value.
/// Each entry is at most 255 bytes long.
#[derive(Clone, Debug)]
pub struct TxtRecord(Vec<u8>);

impl View for TxtRecord {
    type V = Seq<u8>;

    /// The wire bytes of all entries.
    closed spec fn view(&self) -> Seq<u8> {
        self.0@
    }
}

/// Error returned when inserting new entries failed
#[derive(Copy, Clone, PartialEq, Eq, Structural, PartialOrd, Ord, Hash, Debug)]
pub enum TxtRecordError {
    /// Key contained invalid characters
    InvalidKey,
    /// Total entry would be longer than 255 bytes
    EntryTooLong,
}

/// Iterator over the entries of a `TxtRecord`
///
/// Items are `(key, value)` pairs.
pub struct TxtRecordIter<'a> {
    data: &'a [u8],
}

impl<'a> View for TxtRecordIter<'a> {
    type V = Seq<u8>;

    /// The wire bytes of the entries not yet returned.
    closed spec fn view(&self) -> Seq<u8> {
        self.data@
    }
}

/// Whether `a` and `b` hold the same bytes.
fn bytes_equal(a: &[u8], b: &[u8]) -> (r: bool)
    ensures
        r == (a@ == b@),
{
    if a.len() != b.len() {
        return false;
    }
    let mut i: usize = 0;
    while i < a.len()
        invariant
            a@.len() == b@.len(),
            i <= a@.len(),
            forall|j: int| 0 <= j < i ==> a@[j] == b@[j],
        decreases a@.len() - i,
    {
        if a[i] != b[i] {
            return false;
        }
        i += 1;
    }
    assert(a@ =~= b@);
    true
}

/// Append all bytes of `s` to `v`.
fn push_all(v: &mut Vec<u8>, s: &[u8])
    ensures
        final(v)@ == old(v)@ + s@,
{
    let mut i: usize = 0;
    while i < s.len()
        invariant
            i <= s@.len(),
            v@ == old(v)@ + s@.subrange(0, i as int),
        decreases s@.len() - i,
    {
        v.push(s[i]);
        i += 1;
        assert(v@ =~= old(v)@ + s@.subrange(0, i as int));
    }
    assert(s@.subrange(0, s@.len() as int) =~= s@);
}

/// Split one chunk payload into key and value at its first separator.
fn split_entry<'a>(entry: &'a [u8]) -> (r: (&'a [u8], Option<&'a [u8]>))
    ensures
        entry_view(r) == entry_of(entry@),
{
    let mut i: usize = 0;
    while i < entry.len()
        invariant
            i <= entry@.len(),
            separator_from(entry@, 0) == separator_from(entry@, i as int),
        decreases entry@.len() - i,
    {
        if entry[i] == SEPARATOR {
            let k = slice_subrange(entry, 0, i);
            let v = slice_subrange(entry, i + 1, entry.len());
            return (k, Some(v));
        }
        i += 1;
    }
    (entry, None)
}

impl<'a> TxtRecordIter<'a> {
    /// Return the next `(key, value)` pair, or `None` after the last one.
    pub fn next(&mut self) -> (r: Option<(&'a [u8], Option<&'a [u8]>)>)
        requires
            chunks_wf(old(self)@),
        ensures
            chunks_wf(final(self)@),
            old(self)@.len() == 0 ==> r.is_none() && final(self)@ == old(self)@,
            old(self)@.len() > 0 ==> r.is_some() && entry_view(r.unwrap()) == entries(
                old(self)@,
            )[0] && final(self)@ == rest(old(self)@) && entries(final(self)@) == entries(
                old(self)@,
            ).drop_first(),
    {
        let d = self.data;
        if d.len() == 0 {
            return None;
        }
        let len = d[0] as usize;
        let end = 1 + len;
        let entry = slice_subrange(d, 1, end);
        self.data = slice_subrange(d, end, d.len());
        let r = split_entry(entry);
        proof {
            let es = entries(d@);
            assert(es[0] == entry_of(first_chunk(d@)));
            assert(es.drop_first() =~= entries(rest(d@)));
        }
        Some(r)
    }
}

impl Default for TxtRecord {
    fn default() -> (r: TxtRecord)
        ensures
            r@ == Seq::<u8>::empty(),
            r.wf(),
    {
        TxtRecord::new()
    }
}

impl TxtRecord {
    /// The record is a well-formed chunk sequence.
    pub open spec fn wf(&self) -> bool {
        chunks_wf(self@)
    }

    /// Constructs a new, empty `TxtRecord`.
    pub fn new() -> (r: TxtRecord)
        ensures
            r@ == Seq::<u8>::empty(),
            r.wf(),
    {
        TxtRecord(Vec::new())
    }

    /// Parse binary blob as TXT RDATA
    ///
    /// Same as `parse` but takes ownership of the buffer.
    pub fn parse_vec(data: Vec<u8>) -> (r: Option<TxtRecord>)
        ensures
            r.is_some() <==> chunks_wf(data@),
            r matches Some(t) ==> t.wf() && (if data@ == seq![0u8] {
                t@ == Seq::<u8>::empty()
            } else {
                t@ == data@
            }),
    {
        if data.len() == 1 && data[0] == 0 {
            proof {
                assert(data@ =~= seq![0u8]);
                lemma_single_chunk_wf(data@);
            }
            let mut data = data;
            data.clear();
            return Some(TxtRecord(data));
        }
        let mut pos: usize = 0;
        assert(data@.subrange(0, data@.len() as int) =~= data@);
        while pos < data.len()
            invariant
                pos <= data@.len(),
                chunks_wf(data@) == chunks_wf(data@.subrange(pos as int, data@.len() as int)),
            decreases data@.len() - pos,
        {
            let sub = Ghost(data@.subrange(pos as int, data@.len() as int));
            assert(sub@[0] == data@[pos as int]);
            let len = data[pos] as usize;
            if len >= data.len() - pos {
                return None;
            }
            let new_pos = pos + 1 + len;
            assert(rest(sub@) =~= data@.subrange(new_pos as int, data@.len() as int));
            pos = new_pos;
        }
        assert(data@.subrange(pos as int, data@.len() as int).len() == 0);
        Some(TxtRecord(data))
    }

    /// Parse some binary blob as TXT RDATA
    ///
    /// A single empty string (encoded as `0x00`) gets decoded as an empty
    /// `TxtRecord` (the reverse of `rdata()`); an empty slice is treated the
    /// same, although it would not be valid RDATA.
    ///
    /// This only fails when the length of a chunk exceeds the remaining data.
    pub fn parse(data: &[u8]) -> (r: Option<TxtRecord>)
        ensures
            r.is_some() <==> chunks_wf(data@),
            r matches Some(t) ==> t.wf() && (if data@ == seq![0u8] {
                t@ == Seq::<u8>::empty()
            } else {
                t@ == data@
            }),
    {
        TxtRecord::parse_vec(slice_to_vec(data))
    }

    /// Constructs a new, empty `TxtRecord` with the specified capacity.
    pub fn with_capacity(capacity: usize) -> (r: TxtRecord)
        ensures
            r@ == Seq::<u8>::empty(),
            r.wf(),
    {
        TxtRecord(Vec::with_capacity(capacity))
    }

    /// Reserves capacity for at least `additional` more bytes.
    ///
    /// Each entry requires 1 byte for the total length, the length of the
    /// key for the key; if there is a value 1 byte for the separator `=` and
    /// the length of the value for the value.
    pub fn reserve(&mut self, additional: usize)
        ensures
            final(self)@ == old(self)@,
    {
        self.0.reserve(additional);
    }

    /// Returns `true` if the `TxtRecord` contains no entries.
    pub fn is_empty(&self) -> (r: bool)
        ensures
            r == (self@.len() == 0),
    {
        self.0.is_empty()
    }

    /// Clears the `TxtRecord`, removing all entries.
    pub fn clear(&mut self)
        ensures
            final(self)@ == Seq::<u8>::empty(),
            final(self).wf(),
    {
        self.0.clear();
    }

    /// The wire bytes of all entries; empty (and so not valid RDATA) when
    /// there is no entry.
    pub fn data(&self) -> (r: &[u8])
        ensures
            r@ == self@,
    {
        self.0.as_slice()
    }

    /// Always valid TXT RDATA: when the record is empty this is a single
    /// empty string (`[0x00]`).
    pub fn rdata(&self) -> (r: &[u8])
        ensures
            r@ == (if self@.len() == 0 {
                seq![0u8]
            } else {
                self@
            }),
    {
        if self.0.is_empty() {
            let empty: &[u8] = &[0x00];
            assert(empty@ =~= seq![0u8]);
            empty
        } else {
            self.0.as_slice()
        }
    }

    /// Iterate over all `(key, value)` pairs.
    pub fn iter(&self) -> (r: TxtRecordIter<'_>)
        ensures
            r@ == self@,
    {
        TxtRecordIter { data: self.0.as_slice() }
    }

    /// Get value for entry with given key
    ///
    /// Returns `None` if there is no such entry, `Some(None)` if the entry
    /// exists but has no value, and `Some(Some(value))` if the entry exists
    /// and has a value.
    pub fn get(&self, key: &[u8]) -> (r: Option<Option<&[u8]>>)
        requires
            self.wf(),
        ensures
            lookup_view(r) == lookup(self@, key@),
    {
        let mut it = self.iter();
        loop
            invariant
                chunks_wf(it@),
                lookup(self@, key@) == lookup(it@, key@),
            decreases it@.len(),
        {
            match it.next() {
                None => {
                    return None;
                },
                Some(e) => {
                    if bytes_equal(e.0, key) {
                        return Some(e.1);
                    }
                },
            }
        }
    }

    /// Locate the first chunk whose key is `key`.
    fn position_key(&self, key: &[u8]) -> (r: Option<(usize, usize)>)
        requires
            self.wf(),
        ensures
            r is None ==> without_key(self@, key@) == self@,
            r matches Some(p) ==> p.0 < p.1 <= self@.len() && without_key(self@, key@)
                == self@.subrange(0, p.0 as int) + self@.subrange(p.1 as int, self@.len() as int)
                && chunks_wf(self@.subrange(0, p.0 as int)) && chunks_wf(
                self@.subrange(p.1 as int, self@.len() as int),
            ),
    {
        let d = self.0.as_slice();
        let ghost n = d@.len() as int;
        let mut pos: usize = 0;
        proof {
            assert(d@.subrange(0, 0).len() == 0);
            assert(d@.subrange(0, n) =~= d@);
        }
        while pos < d.len()
            invariant
                n == d@.len(),
                d@ == self@,
                pos <= n,
                chunks_wf(d@.subrange(pos as int, n)),
                chunks_wf(d@.subrange(0, pos as int)),
                without_key(d@, key@) == d@.subrange(0, pos as int) + without_key(
                    d@.subrange(pos as int, n),
                    key@,
                ),
            decreases n - pos,
        {
            let ghost sub = d@.subrange(pos as int, n);
            assert(sub[0] == d@[pos as int]);
            let len = d[pos] as usize;
            let end = pos + 1 + len;
            let entry = slice_subrange(d, pos + 1, end);
            assert(first_chunk(sub) =~= entry@);
            assert(rest(sub) =~= d@.subrange(end as int, n));
            let (k, _) = split_entry(entry);
            if bytes_equal(k, key) {
                return Some((pos, end));
            }
            proof {
                let h = d@.subrange(pos as int, end as int);
                assert(sub.subrange(0, chunk_end(sub)) =~= h);
                assert(h[0] == sub[0]);
                lemma_single_chunk_wf(h);
                lemma_wf_concat(d@.subrange(0, pos as int), h);
                assert(d@.subrange(0, pos as int) + h =~= d@.subrange(0, end as int));
                assert(d@.subrange(0, pos as int) + (h + without_key(rest(sub), key@))
                    =~= d@.subrange(0, end as int) + without_key(rest(sub), key@));
            }
            pos = end;
        }
        proof {
            assert(d@.subrange(pos as int, n).len() == 0);
            assert(d@.subrange(0, n) =~= d@);
            assert(d@.subrange(0, pos as int) + d@.subrange(pos as int, n) =~= d@);
        }
        None
    }

    /// Remove entry with given key (if it exists)
    pub fn remove(&mut self, key: &[u8])
        requires
            old(self).wf(),
        ensures
            final(self)@ == without_key(old(self)@, key@),
            final(self).wf(),
    {
        proof {
            lemma_without_key(self@, key@);
        }
        match self.position_key(key) {
            None => {},
            Some((start, end)) => {
                let mut tail = self.0.split_off(end);
                self.0.truncate(start);
                self.0.append(&mut tail);
                assert(self@ =~= old(self)@.subrange(0, start as int) + old(self)@.subrange(
                    end as int,
                    old(self)@.len() as int,
                ));
            },
        }
        assert(self.wf());
    }

    /// Insert or update the entry with `key` to have the given value or no
    /// value
    ///
    /// An existing entry for `key` is removed first, so the new entry always
    /// comes last.
    pub fn set(&mut self, key: &[u8], value: Option<&[u8]>) -> (r: Result<(), TxtRecordError>)
        requires
            old(self).wf(),
        ensures
            final(self).wf(),
            !valid_key(key@) ==> r == Err::<(), TxtRecordError>(TxtRecordError::InvalidKey)
                && final(self)@ == old(self)@,
            valid_key(key@) && entry_len(key@, value_view(value)) > 255 ==> r == Err::<
                (),
                TxtRecordError,
            >(TxtRecordError::EntryTooLong) && final(self)@ == old(self)@,
            valid_key(key@) && entry_len(key@, value_view(value)) <= 255 ==> r is Ok
                && final(self)@ == without_key(old(self)@, key@) + encode_entry(
                key@,
                value_view(value),
            ),
    {
        let mut i: usize = 0;
        while i < key.len()
            invariant
                self@ == old(self)@,
                chunks_wf(old(self)@),
                i <= key@.len(),
                forall|j: int| 0 <= j < i ==> 0x20 <= #[trigger] key@[j] <= 0x7e && key@[j] != SEPARATOR,
            decreases key@.len() - i,
        {
            let k = key[i];
            if k == SEPARATOR || k < 0x20 || k > 0x7e {
                return Err(TxtRecordError::InvalidKey);
            }
            i += 1;
        }
        let klen = key.len();
        let too_long = match value {
            None => klen > MAX_ENTRY_LEN,
            Some(v) => klen >= MAX_ENTRY_LEN || v.len() > MAX_ENTRY_LEN - 1 - klen,
        };
        if too_long {
            return Err(TxtRecordError::EntryTooLong);
        }
        let ghost vv = value_view(value);
        self.remove(key);
        let ghost removed = self@;
        let total = match value {
            None => klen,
            Some(v) => klen + 1 + v.len(),
        };
        self.0.push(total as u8);
        push_all(&mut self.0, key);
        match value {
            None => {},
            Some(v) => {
                self.0.push(SEPARATOR);
                push_all(&mut self.0, v);
            },
        }
        proof {
            assert(self@ =~= removed + encode_entry(key@, vv));
            lemma_encode_entry(key@, vv);
            lemma_wf_concat(removed, encode_entry(key@, vv));
        }
        Ok(())
    }

    /// Insert or update the entry with `key` to have no value
    pub fn set_no_value(&mut self, key: &[u8]) -> (r: Result<(), TxtRecordError>)
        requires
            old(self).wf(),
        ensures
            final(self).wf(),
            !valid_key(key@) ==> r == Err::<(), TxtRecordError>(TxtRecordError::InvalidKey)
                && final(self)@ == old(self)@,
            valid_key(key@) && key@.len() > 255 ==> r == Err::<(), TxtRecordError>(
                TxtRecordError::EntryTooLong,
            ) && final(self)@ == old(self)@,
            valid_key(key@) && key@.len() <= 255 ==> r is Ok && final(self)@ == without_key(
                old(self)@,
                key@,
            ) + encode_entry(key@, None),
    {
        self.set(key, None)
    }

    /// Insert or update the entry with `key` to have the given value
    pub fn set_value(&mut self, key: &[u8], value: &[u8]) -> (r: Result<(), TxtRecordError>)
        requires
            old(self).wf(),
        ensures
            final(self).wf(),
            !valid_key(key@) ==> r == Err::<(), TxtRecordError>(TxtRecordError::InvalidKey)
                && final(self)@ == old(self)@,
            valid_key(key@) && key@.len() + 1 + value@.len() > 255 ==> r == Err::<
                (),
                TxtRecordError,
            >(TxtRecordError::EntryTooLong) && final(self)@ == old(self)@,
            valid_key(key@) && key@.len() + 1 + value@.len() <= 255 ==> r is Ok && final(self)@
                == without_key(old(self)@, key@) + encode_entry(key@, Some(value@)),
    {
        self.set(key, Some(value))
    }
}

} // verus!
