//! Tag-length-value records: a tag of one or two bytes, a 2-byte length, and
//! that many bytes of value.

use crate::binary::be16;
use crate::binary::lemma_be16_of_u16_bytes;
use crate::binary::put_slice;
use crate::binary::put_u16;
use crate::binary::put_u8;
use crate::binary::u16_bytes;
use crate::binary::Reader;
use crate::error::decode_error;
use crate::error::Field;
use crate::error::Phase;
use crate::error::RQError;
use std::collections::HashMap;
use vstd::prelude::*;

verus! {

/// How many bytes a record's tag takes.
#[derive(Clone, Copy, Debug, PartialEq, Eq, Structural)]
pub enum TagWidth {
    One,
    Two,
}

impl TagWidth {
    /// The width in bytes.
    pub open spec fn bytes(self) -> int {
        match self {
            TagWidth::One => 1,
            TagWidth::Two => 2,
        }
    }

    /// Whether `tag` can be written at this width.
    pub open spec fn holds(self, tag: u16) -> bool {
        self == TagWidth::Two || tag <= 0xff
    }
}

/// The tag of the record at offset `i`.
pub open spec fn tag_at(s: Seq<u8>, i: int, w: TagWidth) -> u16 {
    match w {
        TagWidth::One => s[i] as u16,
        TagWidth::Two => be16(s, i) as u16,
    }
}

/// The records from offset `i` to the end of `s`, added to `acc` in the
/// order they stand in, a later record replacing an earlier one with the
/// same tag. `None` where a record is cut short.
pub open spec fn scan_from(s: Seq<u8>, i: int, w: TagWidth, acc: Map<u16, Seq<u8>>) -> Option<
    Map<u16, Seq<u8>>,
>
    decreases s.len() - i,
{
    let head = w.bytes() + 2;
    if i < 0 || i >= s.len() {
        Some(acc)
    } else if i + head > s.len() {
        None
    } else {
        let n = be16(s, i + w.bytes());
        if i + head + n > s.len() {
            None
        } else {
            scan_from(
                s,
                i + head + n,
                w,
                acc.insert(tag_at(s, i, w), s.subrange(i + head, i + head + n)),
            )
        }
    }
}

/// The mapping that the records of `s` give.
pub open spec fn tlv_scan(s: Seq<u8>, w: TagWidth) -> Option<Map<u16, Seq<u8>>> {
    scan_from(s, 0, w, Map::empty())
}

/// The bytes of one record.
pub open spec fn record(tag: u16, value: Seq<u8>, w: TagWidth) -> Seq<u8> {
    let t = match w {
        TagWidth::One => seq![tag as u8],
        TagWidth::Two => u16_bytes(tag),
    };
    t + u16_bytes(value.len() as u16) + value
}

/// The bytes of a sequence of records.
pub open spec fn records(entries: Seq<(u16, Seq<u8>)>, w: TagWidth) -> Seq<u8>
    decreases entries.len(),
{
    if entries.len() == 0 {
        Seq::empty()
    } else {
        record(entries[0].0, entries[0].1, w) + records(entries.drop_first(), w)
    }
}

/// `acc` after each entry was inserted in turn.
pub open spec fn inserted(acc: Map<u16, Seq<u8>>, entries: Seq<(u16, Seq<u8>)>) -> Map<
    u16,
    Seq<u8>,
>
    decreases entries.len(),
{
    if entries.len() == 0 {
        acc
    } else {
        inserted(acc.insert(entries[0].0, entries[0].1), entries.drop_first())
    }
}

/// Whether every entry can be written as a record of width `w`.
pub open spec fn writable(entries: Seq<(u16, Seq<u8>)>, w: TagWidth) -> bool {
    forall|k: int|
        0 <= k < entries.len() ==> w.holds(#[trigger] entries[k].0) && entries[k].1.len()
            <= 0xffff
}

/// The value of `tag`, or the error that says in which phase it was missed.
pub open spec fn required(m: Map<u16, Seq<u8>>, tag: u16, phase: Phase) -> Result<
    Seq<u8>,
    RQError,
> {
    if m.contains_key(tag) {
        Ok(m[tag])
    } else {
        Err(decode_error(phase, Field::Tag(tag)))
    }
}

/// A mapping from tag to value, as scanned from a frame.
#[derive(Debug)]
pub struct TlvMap {
    map: HashMap<u16, Vec<u8>>,
}

impl View for TlvMap {
    type V = Map<u16, Seq<u8>>;

    closed spec fn view(&self) -> Map<u16, Seq<u8>> {
        Map::new(|k: u16| self.map@.contains_key(k), |k: u16| self.map@[k]@)
    }
}

impl TlvMap {
    /// The empty mapping.
    pub fn new() -> (m: Self)
        ensures
            m@ == Map::<u16, Seq<u8>>::empty(),
    {
        let m = TlvMap { map: HashMap::new() };
        assert(m@ =~= Map::<u16, Seq<u8>>::empty());
        m
    }

    /// Sets the value of `tag`, replacing an earlier one.
    pub fn insert(&mut self, tag: u16, value: Vec<u8>)
        ensures
            final(self)@ == old(self)@.insert(tag, value@),
    {
        broadcast use vstd::std_specs::hash::group_hash_axioms;

        self.map.insert(tag, value);
        assert(self@ =~= old(self)@.insert(tag, value@));
    }

    /// Whether `tag` has a value.
    pub fn contains_key(&self, tag: u16) -> (b: bool)
        ensures
            b == self@.contains_key(tag),
    {
        broadcast use vstd::std_specs::hash::group_hash_axioms;

        self.map.contains_key(&tag)
    }

    /// The value of `tag`.
    pub fn get(&self, tag: u16) -> (r: Option<&Vec<u8>>)
        ensures
            r is Some <==> self@.contains_key(tag),
            r matches Some(v) ==> v@ == self@[tag],
    {
        broadcast use vstd::std_specs::hash::group_hash_axioms;

        self.map.get(&tag)
    }

    /// A copy of the value of `tag`, which `phase` cannot do without.
    pub fn require(&self, tag: u16, phase: Phase) -> (r: Result<Vec<u8>, RQError>)
        ensures
            match r {
                Ok(v) => required(self@, tag, phase) == Ok::<Seq<u8>, RQError>(v@),
                Err(e) => required(self@, tag, phase) == Err::<Seq<u8>, RQError>(e),
            },
    {
        match self.get(tag) {
            Some(v) => Ok(v.clone()),
            None => Err(RQError::Decode { phase, field: Field::Tag(tag) }),
        }
    }
}

impl<'a> Reader<'a> {
    /// Scans records until the bytes are exhausted, a later record
    /// replacing an earlier one with the same tag. On a record cut short
    /// nothing is read.
    pub fn read_tlv_map(&mut self, w: TagWidth) -> (r: Option<TlvMap>)
        ensures
            match r {
                Some(m) => {
                    &&& scan_from(old(self).data(), old(self).pos() as int, w, Map::empty())
                        == Some(m@)
                    &&& final(self).moved(old(self), old(self).data().len() - old(self).pos())
                },
                None => {
                    &&& scan_from(old(self).data(), old(self).pos() as int, w, Map::empty())
                        is None
                    &&& final(self).moved(old(self), 0)
                },
            },
    {
        let mut probe = *self;
        let mut m = TlvMap::new();
        let ghost goal = scan_from(self.data(), self.pos() as int, w, Map::empty());
        let mut left = probe.remaining();
        while left > 0
            invariant
                *self == *old(self),
                goal == scan_from(self.data(), self.pos() as int, w, Map::empty()),
                probe.data() == self.data(),
                self.pos() <= probe.pos() <= probe.data().len(),
                left == probe.data().len() - probe.pos(),
                scan_from(probe.data(), probe.pos() as int, w, m@) == goal,
            decreases probe.data().len() - probe.pos(),
        {
            let tag = match w {
                TagWidth::One => match probe.get_u8() {
                    Some(t) => t as u16,
                    None => { return None; },
                },
                TagWidth::Two => match probe.get_u16() {
                    Some(t) => t,
                    None => { return None; },
                },
            };
            let value = match probe.read_bytes_short() {
                Some(v) => v,
                None => { return None; },
            };
            m.insert(tag, value);
            left = probe.remaining();
        }
        *self = probe;
        Some(m)
    }
}

/// Appends one record.
pub fn write_tlv(buf: &mut Vec<u8>, tag: u16, value: &[u8], w: TagWidth)
    requires
        w.holds(tag),
        value@.len() <= 0xffff,
    ensures
        final(buf)@ == old(buf)@ + record(tag, value@, w),
{
    match w {
        TagWidth::One => put_u8(buf, tag as u8),
        TagWidth::Two => put_u16(buf, tag),
    }
    put_u16(buf, value.len() as u16);
    put_slice(buf, value);
    assert(buf@ =~= old(buf)@ + record(tag, value@, w));
}

/// Scanning what stands after a well-formed record continues from the
/// mapping with that record inserted.
pub proof fn lemma_scan_record(
    s: Seq<u8>,
    i: int,
    tag: u16,
    value: Seq<u8>,
    w: TagWidth,
    acc: Map<u16, Seq<u8>>,
)
    requires
        0 <= i,
        w.holds(tag),
        value.len() <= 0xffff,
        i + record(tag, value, w).len() <= s.len(),
        s.subrange(i, i + record(tag, value, w).len()) == record(tag, value, w),
    ensures
        scan_from(s, i, w, acc) == scan_from(
            s,
            i + record(tag, value, w).len(),
            w,
            acc.insert(tag, value),
        ),
{
    let r = record(tag, value, w);
    let b = w.bytes();
    assert(r.len() == b + 2 + value.len());
    assert forall|k: int| 0 <= k < r.len() implies s[i + k] == r[k] by {
        assert(s.subrange(i, i + r.len())[k] == s[i + k]);
    }
    assert(s[i + b] == r[b] && s[i + b + 1] == r[b + 1]);
    lemma_be16_of_u16_bytes(s, i + b, value.len() as u16);
    assert(tag_at(s, i, w) == tag) by {
        assert(s[i] == r[0]);
        match w {
            TagWidth::One => {},
            TagWidth::Two => {
                assert(s[i + 1] == r[1]);
                lemma_be16_of_u16_bytes(s, i, tag);
            },
        }
    }
    assert(s.subrange(i + b + 2, i + b + 2 + value.len()) =~= value) by {
        assert forall|k: int| 0 <= k < value.len() implies s.subrange(
            i + b + 2,
            i + b + 2 + value.len(),
        )[k] == value[k] by {
            assert(s[i + b + 2 + k] == r[b + 2 + k]);
        }
    }
}

/// Scanning written records from offset `i` of `s`, where they are all that
/// follows, gives `acc` with every entry inserted in order.
pub proof fn lemma_scan_records(
    s: Seq<u8>,
    i: int,
    entries: Seq<(u16, Seq<u8>)>,
    w: TagWidth,
    acc: Map<u16, Seq<u8>>,
)
    requires
        0 <= i <= s.len(),
        writable(entries, w),
        s.skip(i) == records(entries, w),
    ensures
        scan_from(s, i, w, acc) == Some(inserted(acc, entries)),
    decreases entries.len(),
{
    if entries.len() == 0 {
        assert(s.skip(i).len() == 0);
    } else {
        let tag = entries[0].0;
        let value = entries[0].1;
        let r = record(tag, value, w);
        let tail = entries.drop_first();
        assert(s.skip(i).len() == r.len() + records(tail, w).len());
        assert(s.subrange(i, i + r.len()) =~= r) by {
            assert forall|k: int| 0 <= k < r.len() implies s.subrange(i, i + r.len())[k]
                == r[k] by {
                assert(s.skip(i)[k] == s[i + k]);
            }
        }
        assert(s.skip(i + r.len()) =~= records(tail, w)) by {
            assert forall|k: int| 0 <= k < records(tail, w).len() implies s.skip(i + r.len())[k]
                == records(tail, w)[k] by {
                assert(s.skip(i)[r.len() + k] == s[i + r.len() + k]);
            }
        }
        assert(writable(tail, w)) by {
            assert forall|k: int| 0 <= k < tail.len() implies w.holds(#[trigger] tail[k].0)
                && tail[k].1.len() <= 0xffff by {
                assert(tail[k] == entries[k + 1]);
            }
        }
        lemma_scan_record(s, i, tag, value, w, acc);
        lemma_scan_records(s, i + r.len(), tail, w, acc.insert(tag, value));
    }
}

/// Round trip: scanning the records written for `entries` recovers the
/// mapping of tag to value, a tag written twice keeping its last value.
pub proof fn lemma_write_then_scan(entries: Seq<(u16, Seq<u8>)>, w: TagWidth)
    requires
        writable(entries, w),
    ensures
        tlv_scan(records(entries, w), w) == Some(inserted(Map::empty(), entries)),
{
    let s = records(entries, w);
    assert(s.skip(0) =~= s);
    lemma_scan_records(s, 0, entries, w, Map::empty());
}

/// A tag's value after a sequence of writes is that of its last write.
pub proof fn lemma_last_write_wins(
    acc: Map<u16, Seq<u8>>,
    entries: Seq<(u16, Seq<u8>)>,
    k: int,
)
    requires
        0 <= k < entries.len(),
        forall|j: int| k < j < entries.len() ==> (#[trigger] entries[j]).0 != entries[k].0,
    ensures
        inserted(acc, entries).contains_key(entries[k].0),
        inserted(acc, entries)[entries[k].0] == entries[k].1,
    decreases entries.len(),
{
    let tail = entries.drop_first();
    if k == 0 {
        lemma_untouched_tag(acc.insert(entries[0].0, entries[0].1), tail, entries[0].0);
    } else {
        assert(tail[k - 1] == entries[k]);
        assert forall|j: int| k - 1 < j < tail.len() implies (#[trigger] tail[j]).0 != tail[k
            - 1].0 by {
            assert(tail[j] == entries[j + 1]);
        }
        lemma_last_write_wins(acc.insert(entries[0].0, entries[0].1), tail, k - 1);
    }
}

/// Writes leave the tags that they do not name as they were.
pub proof fn lemma_untouched_tag(acc: Map<u16, Seq<u8>>, entries: Seq<(u16, Seq<u8>)>, tag: u16)
    requires
        forall|j: int| 0 <= j < entries.len() ==> (#[trigger] entries[j]).0 != tag,
    ensures
        inserted(acc, entries).contains_key(tag) == acc.contains_key(tag),
        inserted(acc, entries)[tag] == acc[tag],
    decreases entries.len(),
{
    if entries.len() > 0 {
        let tail = entries.drop_first();
        assert(entries[0].0 != tag);
        assert forall|j: int| 0 <= j < tail.len() implies (#[trigger] tail[j]).0 != tag by {
            assert(tail[j] == entries[j + 1]);
        }
        lemma_untouched_tag(acc.insert(entries[0].0, entries[0].1), tail, tag);
    }
}

} // verus!
