//! The type-length-value reader, the record decoders, and date-time
//! unpacking, on plaintext streams built by hand.

use mpkdb::datetime::{format_date_time, parse_datetime, parse_datetime_slice};
use mpkdb::parser::Error;
use mpkdb::records::{read_entry, read_group};
use mpkdb::strutil::format_bytes;
use mpkdb::tlv::{read_field, read_u16, read_u32, slice_to_u32};

fn tlv_field(t: u16, data: &[u8]) -> Vec<u8> {
    let mut b: Vec<u8> = Vec::new();
    b.extend_from_slice(&t.to_le_bytes());
    b.extend_from_slice(&(data.len() as u32).to_le_bytes());
    b.extend_from_slice(data);
    b
}

#[test]
fn le_reads_are_little_endian() {
    let data = [0x34u8, 0x12, 0x78, 0x56, 0x00, 0x01];
    let mut pos = 0usize;
    assert_eq!(read_u16(&data, &mut pos), Ok(0x1234));
    assert_eq!(pos, 2);
    assert_eq!(read_u32(&data, &mut pos), Ok(0x0100_5678));
    assert_eq!(pos, 6);
    assert_eq!(read_u16(&data, &mut pos), Err(Error::TruncatedRecord));
    assert_eq!(slice_to_u32(7, &[1, 0, 0, 0]), Ok(1));
    assert_eq!(
        slice_to_u32(7, &[1, 0, 0]),
        Err(Error::InvalidFieldSize { field_type: 7, field_size: 3 })
    );
}

#[test]
fn tlv_reader_round_trips_fields_in_order() {
    let mut stream: Vec<u8> = Vec::new();
    stream.extend_from_slice(&tlv_field(0x0001, &[0xAA, 0xBB, 0xCC, 0xDD]));
    stream.extend_from_slice(&tlv_field(0x0002, b"net"));
    stream.extend_from_slice(&tlv_field(0xFFFF, &[]));
    let mut pos = 0usize;
    let (t1, d1) = read_field(&stream, &mut pos).unwrap();
    assert_eq!((t1, d1.as_slice()), (0x0001, &[0xAA, 0xBB, 0xCC, 0xDD][..]));
    assert_eq!(pos, 10);
    let (t2, d2) = read_field(&stream, &mut pos).unwrap();
    assert_eq!((t2, d2.as_slice()), (0x0002, &b"net"[..]));
    let (t3, d3) = read_field(&stream, &mut pos).unwrap();
    assert_eq!((t3, d3.len()), (0xFFFF, 0));
    assert_eq!(pos, stream.len());
}

#[test]
fn tlv_reader_rejects_overlong_declared_length() {
    // Declares five bytes, holds one.
    let stream = [0x01u8, 0x00, 0x05, 0x00, 0x00, 0x00, 0xAA];
    let mut pos = 0usize;
    assert_eq!(read_field(&stream, &mut pos).err(), Some(Error::TruncatedRecord));
}

#[test]
fn group_record_decodes_fields() {
    let mut stream: Vec<u8> = Vec::new();
    stream.extend_from_slice(&tlv_field(0x0001, &[42, 0, 0, 0]));
    stream.extend_from_slice(&tlv_field(0x0002, b"net"));
    stream.extend_from_slice(&tlv_field(0x0003, &[31, 134, 175, 36, 140]));
    stream.extend_from_slice(&tlv_field(0x0007, &[9, 9, 9, 9])); // icon: ignored
    stream.extend_from_slice(&tlv_field(0xFFFF, &[]));
    let mut pos = 0usize;
    let g = read_group(&stream, &mut pos).unwrap();
    assert_eq!(g.group_id, 42);
    assert_eq!(g.group_name, "net");
    assert_eq!(g.created, "2017-10-23 18:18:12");
    assert_eq!(g.modified, "");
    assert_eq!(pos, stream.len());
}

#[test]
fn terminator_payload_is_consumed_and_discarded() {
    let mut stream: Vec<u8> = Vec::new();
    stream.extend_from_slice(&tlv_field(0x0001, &[7, 0, 0, 0]));
    stream.extend_from_slice(&tlv_field(0xFFFF, &[1, 2, 3]));
    stream.extend_from_slice(&[0xAA, 0xBB]); // next record's bytes, untouched
    let mut pos = 0usize;
    let g = read_group(&stream, &mut pos).unwrap();
    assert_eq!(g.group_id, 7);
    assert_eq!(pos, stream.len() - 2);
}

#[test]
fn group_ids_need_not_be_unique() {
    let mut one: Vec<u8> = Vec::new();
    one.extend_from_slice(&tlv_field(0x0001, &[7, 0, 0, 0]));
    one.extend_from_slice(&tlv_field(0xFFFF, &[]));
    let mut stream = one.clone();
    stream.extend_from_slice(&one);
    let mut pos = 0usize;
    let a = read_group(&stream, &mut pos).unwrap();
    let b = read_group(&stream, &mut pos).unwrap();
    assert_eq!(a.group_id, 7);
    assert_eq!(b.group_id, 7);
    assert_eq!(pos, stream.len());
}

#[test]
fn group_id_must_be_four_bytes() {
    let mut stream: Vec<u8> = Vec::new();
    stream.extend_from_slice(&tlv_field(0x0001, &[1, 2, 3]));
    stream.extend_from_slice(&tlv_field(0xFFFF, &[]));
    let mut pos = 0usize;
    assert_eq!(
        read_group(&stream, &mut pos).err(),
        Some(Error::InvalidFieldSize { field_type: 1, field_size: 3 })
    );
}

#[test]
fn group_date_must_be_five_bytes() {
    let mut stream: Vec<u8> = Vec::new();
    stream.extend_from_slice(&tlv_field(0x0003, &[1, 2, 3, 4]));
    stream.extend_from_slice(&tlv_field(0xFFFF, &[]));
    let mut pos = 0usize;
    assert_eq!(
        read_group(&stream, &mut pos).err(),
        Some(Error::InvalidDateTime { field_size: 4 })
    );
}

#[test]
fn group_unknown_field_type_is_fatal() {
    let mut stream: Vec<u8> = Vec::new();
    stream.extend_from_slice(&tlv_field(0x0001, &[42, 0, 0, 0]));
    stream.extend_from_slice(&tlv_field(0x00FF, &[]));
    stream.extend_from_slice(&tlv_field(0xFFFF, &[]));
    let mut pos = 0usize;
    assert_eq!(
        read_group(&stream, &mut pos).err(),
        Some(Error::UnknownFieldType { field_type: 0x00FF, field_size: 0 })
    );
}

#[test]
fn entry_title_strips_terminator_byte() {
    let mut stream: Vec<u8> = Vec::new();
    stream.extend_from_slice(&tlv_field(0x0004, b"hello\0"));
    stream.extend_from_slice(&tlv_field(0xFFFF, &[]));
    let mut pos = 0usize;
    let e = read_entry(&stream, &mut pos).unwrap();
    assert_eq!(e.title, "hello");
    assert_eq!(e.url, "");
    assert_eq!(e.entry_id, vec![0u8; 16]);
}

#[test]
fn entry_unknown_field_type_fails_whole_record() {
    // Every other field well-formed; the undefined code still kills it.
    let mut stream: Vec<u8> = Vec::new();
    stream.extend_from_slice(&tlv_field(0x0004, b"hello\0"));
    stream.extend_from_slice(&tlv_field(0x00FF, &[1, 2]));
    stream.extend_from_slice(&tlv_field(0xFFFF, &[]));
    let mut pos = 0usize;
    assert_eq!(
        read_entry(&stream, &mut pos).err(),
        Some(Error::UnknownFieldType { field_type: 0x00FF, field_size: 2 })
    );
}

#[test]
fn entry_uuid_must_be_sixteen_bytes() {
    let mut stream: Vec<u8> = Vec::new();
    stream.extend_from_slice(&tlv_field(0x0001, &[1, 2, 3, 4]));
    stream.extend_from_slice(&tlv_field(0xFFFF, &[]));
    let mut pos = 0usize;
    assert_eq!(
        read_entry(&stream, &mut pos).err(),
        Some(Error::InvalidFieldSize { field_type: 1, field_size: 4 })
    );
}

#[test]
fn entry_empty_string_field_is_a_size_violation() {
    // No room for the terminator byte the format always writes.
    let mut stream: Vec<u8> = Vec::new();
    stream.extend_from_slice(&tlv_field(0x0005, &[]));
    stream.extend_from_slice(&tlv_field(0xFFFF, &[]));
    let mut pos = 0usize;
    assert_eq!(
        read_entry(&stream, &mut pos).err(),
        Some(Error::InvalidFieldSize { field_type: 5, field_size: 0 })
    );
}

#[test]
fn entry_fills_every_field() {
    let uuid: Vec<u8> = (1..=16).collect();
    let dt = [31u8, 134, 175, 36, 140];
    let mut stream: Vec<u8> = Vec::new();
    stream.extend_from_slice(&tlv_field(0x0001, &uuid));
    stream.extend_from_slice(&tlv_field(0x0002, &[7, 0, 0, 0]));
    stream.extend_from_slice(&tlv_field(0x0004, b"title\0"));
    stream.extend_from_slice(&tlv_field(0x0005, b"url\0"));
    stream.extend_from_slice(&tlv_field(0x0006, b"user\0"));
    stream.extend_from_slice(&tlv_field(0x0007, b"pass\0"));
    stream.extend_from_slice(&tlv_field(0x0008, b"notes\0"));
    stream.extend_from_slice(&tlv_field(0x0009, &dt));
    stream.extend_from_slice(&tlv_field(0x000A, &dt));
    stream.extend_from_slice(&tlv_field(0x000B, &dt));
    stream.extend_from_slice(&tlv_field(0x000C, &dt));
    stream.extend_from_slice(&tlv_field(0x000D, b"attachment name")); // ignored
    stream.extend_from_slice(&tlv_field(0x000E, &[0xAB; 64])); // ignored
    stream.extend_from_slice(&tlv_field(0xFFFF, &[]));
    let mut pos = 0usize;
    let e = read_entry(&stream, &mut pos).unwrap();
    assert_eq!(e.entry_id, uuid);
    assert_eq!(e.group_id, 7);
    assert_eq!(e.title, "title");
    assert_eq!(e.url, "url");
    assert_eq!(e.username, "user");
    assert_eq!(e.password, "pass");
    assert_eq!(e.notes, "notes");
    assert_eq!(e.created, "2017-10-23 18:18:12");
    assert_eq!(e.expires, "2017-10-23 18:18:12");
    assert_eq!(pos, stream.len());
}

#[test]
fn datetime_unpacks_bit_fields() {
    assert_eq!(parse_datetime(&[31, 134, 175, 36, 140]), ((2017, 10, 23), (18, 18, 12)));
    assert_eq!(
        format_date_time(&((2017, 10, 23), (18, 18, 12))),
        "2017-10-23 18:18:12"
    );
    // Zero-padding on every short component.
    assert_eq!(format_date_time(&((7, 1, 2), (3, 4, 5))), "0007-01-02 03:04:05");
    assert_eq!(
        parse_datetime_slice(&[1, 2, 3]).err(),
        Some(Error::InvalidDateTime { field_size: 3 })
    );
}

#[test]
fn format_bytes_renders_unpadded_hex() {
    assert_eq!(format_bytes(&[0xDE, 0xAD, 0x01]), "dead1");
    assert_eq!(format_bytes(&[]), "");
    assert_eq!(format_bytes(&[0x00, 0x10]), "010");
}
