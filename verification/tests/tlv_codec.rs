use rq_engine::binary::put_slice;
use rq_engine::binary::put_u16;
use rq_engine::binary::put_u32;
use rq_engine::binary::put_u8;
use rq_engine::binary::write_bytes_byte;
use rq_engine::binary::write_bytes_short;
use rq_engine::binary::Reader;
use rq_engine::tlv::write_tlv;
use rq_engine::tlv::TagWidth;
use rq_engine::tlv::TlvMap;

fn records(entries: &[(u16, Vec<u8>)], w: TagWidth) -> Vec<u8> {
    let mut buf = Vec::new();
    for (tag, value) in entries {
        write_tlv(&mut buf, *tag, value, w);
    }
    buf
}

#[test]
fn write_then_scan_recovers_the_mapping() {
    let entries = vec![
        (0x104u16, vec![1u8, 2, 3]),
        (0x402, vec![]),
        (0xffff, vec![9u8; 300]),
    ];
    let buf = records(&entries, TagWidth::Two);
    let mut reader = Reader::new(&buf);
    let m = reader.read_tlv_map(TagWidth::Two).unwrap();
    assert_eq!(reader.remaining(), 0);
    for (tag, value) in &entries {
        assert_eq!(m.get(*tag), Some(value));
    }
    assert!(!m.contains_key(0x105));
    assert_eq!(m.get(0x105), None);
}

#[test]
fn record_layout_is_tag_length_value() {
    let mut buf = Vec::new();
    write_tlv(&mut buf, 0x0104, &[0xaa, 0xbb], TagWidth::Two);
    assert_eq!(buf, vec![0x01, 0x04, 0x00, 0x02, 0xaa, 0xbb]);
    let mut buf = Vec::new();
    write_tlv(&mut buf, 0x17, &[0xcc], TagWidth::One);
    assert_eq!(buf, vec![0x17, 0x00, 0x01, 0xcc]);
}

#[test]
fn duplicate_tag_resolves_to_the_last_write() {
    let entries = vec![(7u16, vec![1u8]), (8, vec![2]), (7, vec![3, 4])];
    let buf = records(&entries, TagWidth::Two);
    let m = Reader::new(&buf).read_tlv_map(TagWidth::Two).unwrap();
    assert_eq!(m.get(7), Some(&vec![3u8, 4]));
    assert_eq!(m.get(8), Some(&vec![2u8]));
}

#[test]
fn value_of_the_greatest_length_round_trips() {
    let value = vec![0x5au8; 65535];
    let buf = records(&[(1, value.clone())], TagWidth::Two);
    assert_eq!(buf.len(), 4 + 65535);
    let m = Reader::new(&buf).read_tlv_map(TagWidth::Two).unwrap();
    assert_eq!(m.get(1), Some(&value));
}

#[test]
fn one_byte_tags_round_trip() {
    let entries = vec![(0x17u16, vec![1u8, 2]), (0xff, vec![3])];
    let buf = records(&entries, TagWidth::One);
    let m = Reader::new(&buf).read_tlv_map(TagWidth::One).unwrap();
    assert_eq!(m.get(0x17), Some(&vec![1u8, 2]));
    assert_eq!(m.get(0xff), Some(&vec![3u8]));
}

#[test]
fn the_two_tag_widths_read_differently() {
    // One record with a 2-byte tag, read with 1-byte tags: the tag is the
    // first byte, and the length is made of the next two.
    let buf = vec![0x00, 0x00, 0x01, 0xaa];
    let m = Reader::new(&buf).read_tlv_map(TagWidth::One).unwrap();
    assert_eq!(m.get(0), Some(&vec![0xaau8]));
    assert!(Reader::new(&buf).read_tlv_map(TagWidth::Two).is_none());
}

#[test]
fn empty_buffer_scans_to_the_empty_mapping() {
    let buf: Vec<u8> = Vec::new();
    let m = Reader::new(&buf).read_tlv_map(TagWidth::Two).unwrap();
    assert!(!m.contains_key(0));
}

#[test]
fn short_record_fails_and_leaves_the_cursor() {
    // A whole record, then a record whose value is cut short.
    let mut buf = records(&[(1, vec![1u8])], TagWidth::Two);
    buf.extend_from_slice(&[0x00, 0x02, 0x00, 0x05, 0xaa]);
    let mut reader = Reader::new(&buf);
    assert!(reader.read_tlv_map(TagWidth::Two).is_none());
    assert_eq!(reader.remaining(), buf.len());
    // A lone byte cannot start a record.
    let buf = vec![0x01u8];
    assert!(Reader::new(&buf).read_tlv_map(TagWidth::Two).is_none());
    // A tag without a length.
    let buf = vec![0x01u8, 0x02, 0x00];
    assert!(Reader::new(&buf).read_tlv_map(TagWidth::Two).is_none());
}

#[test]
fn scanning_starts_at_the_cursor() {
    let mut buf = vec![0xeeu8, 0xee, 0xee];
    write_tlv(&mut buf, 0x18, &[7], TagWidth::Two);
    let mut reader = Reader::new(&buf);
    assert!(reader.advance(3));
    let m = reader.read_tlv_map(TagWidth::Two).unwrap();
    assert_eq!(m.get(0x18), Some(&vec![7u8]));
}

#[test]
fn tlv_map_insert_replaces() {
    let mut m = TlvMap::new();
    assert!(!m.contains_key(5));
    m.insert(5, vec![1]);
    m.insert(5, vec![2]);
    assert!(m.contains_key(5));
    assert_eq!(m.get(5), Some(&vec![2u8]));
}

#[test]
fn fixed_width_reads_are_big_endian() {
    let buf = vec![
        0x7f, 0x12, 0x34, 0x89, 0xab, 0xcd, 0xef, 0xff, 0xff, 0xff, 0xfe, 0x00, 0x00, 0x00, 0x00,
        0x00, 0x00, 0x01, 0x00, 0xff, 0xff, 0xff, 0xff, 0xff, 0xff, 0xff, 0xfd,
    ];
    let mut r = Reader::new(&buf);
    assert_eq!(r.get_u8(), Some(0x7f));
    assert_eq!(r.get_u16(), Some(0x1234));
    assert_eq!(r.get_u32(), Some(0x89ab_cdef));
    assert_eq!(r.get_i32(), Some(-2));
    assert_eq!(r.get_i64(), Some(256));
    assert_eq!(r.get_i64(), Some(-3));
    assert_eq!(r.remaining(), 0);
    assert_eq!(r.get_u8(), None);
}

#[test]
fn unsigned_and_signed_extremes() {
    let buf = vec![0x80, 0, 0, 0, 0x7f, 0xff, 0xff, 0xff, 0x80, 0, 0, 0, 0, 0, 0, 0];
    let mut r = Reader::new(&buf);
    assert_eq!(r.get_i32(), Some(i32::MIN));
    assert_eq!(r.get_i32(), Some(i32::MAX));
    assert_eq!(r.get_i64(), Some(i64::MIN));
    let buf = vec![0xff; 8];
    assert_eq!(Reader::new(&buf).get_u64(), Some(u64::MAX));
}

#[test]
fn a_read_that_does_not_fit_leaves_the_cursor() {
    let buf = vec![1u8, 2, 3];
    let mut r = Reader::new(&buf);
    assert_eq!(r.get_u32(), None);
    assert_eq!(r.get_i64(), None);
    assert!(!r.advance(4));
    assert_eq!(r.read_bytes(4), None);
    assert_eq!(r.remaining(), 3);
    assert_eq!(r.get_u16(), Some(0x0102));
    assert_eq!(r.get_u16(), None);
    assert_eq!(r.remaining(), 1);
    assert!(r.advance(1));
    assert!(r.advance(0));
}

#[test]
fn length_prefixes_of_one_and_two_bytes() {
    let buf = vec![0x02, 0xaa, 0xbb, 0x00, 0x01, 0xcc, 0xdd];
    let mut r = Reader::new(&buf);
    assert_eq!(r.read_bytes_byte(), Some(vec![0xaa, 0xbb]));
    assert_eq!(r.read_bytes_short(), Some(vec![0xcc]));
    assert_eq!(r.read_rest(), vec![0xdd]);
    // The same bytes under the other convention.
    let mut r = Reader::new(&buf);
    assert_eq!(r.read_bytes_short(), None);
    assert_eq!(r.remaining(), buf.len());
}

#[test]
fn length_prefixed_writes_mirror_the_reads() {
    let mut buf = Vec::new();
    write_bytes_byte(&mut buf, &[1, 2, 3]);
    write_bytes_short(&mut buf, &[4, 5]);
    assert_eq!(buf, vec![3, 1, 2, 3, 0, 2, 4, 5]);
    let mut r = Reader::new(&buf);
    assert_eq!(r.read_bytes_byte(), Some(vec![1, 2, 3]));
    assert_eq!(r.read_bytes_short(), Some(vec![4, 5]));
}

#[test]
fn integer_writes_are_big_endian() {
    let mut buf = Vec::new();
    put_u8(&mut buf, 0x01);
    put_u16(&mut buf, 0x0203);
    put_u32(&mut buf, 0x0405_0607);
    put_slice(&mut buf, &[8, 9]);
    assert_eq!(buf, vec![1, 2, 3, 4, 5, 6, 7, 8, 9]);
}

#[test]
fn strings_are_read_as_utf8() {
    let mut buf = Vec::new();
    write_bytes_short(&mut buf, "héllo".as_bytes());
    buf.extend_from_slice("ab".as_bytes());
    let mut r = Reader::new(&buf);
    assert_eq!(r.read_string_short(), Some("héllo".to_string()));
    assert_eq!(r.read_string_limit(2), Some("ab".to_string()));
    assert_eq!(r.read_string_limit(1), None);
    assert_eq!(r.read_string_limit(0), Some(String::new()));
}

#[test]
fn invalid_utf8_is_rejected_and_leaves_the_cursor() {
    let buf = vec![0x00, 0x02, 0xff, 0xfe];
    let mut r = Reader::new(&buf);
    assert_eq!(r.read_string_short(), None);
    assert_eq!(r.remaining(), 4);
    assert!(r.advance(2));
    assert_eq!(r.read_string_limit(2), None);
    assert_eq!(r.remaining(), 2);
    // A character cut in two is no text either.
    let buf = "é".as_bytes()[..1].to_vec();
    assert_eq!(Reader::new(&buf).read_string_limit(1), None);
}
